//! Integer bookkeeping of the graphics binding layer: resource handles, the
//! pool of free slot indices, generation-counted resource ids, and the pixel
//! format capability flags.
//!
//! A resource pool reserves slot 0 for the invalid id.  Free slot indices
//! live on a stack (`free_queue`); allocating pops the most recently freed
//! index, and each allocation tags the slot with a fresh generation counter
//! so that stale ids can be recognised.

#![allow(non_camel_case_types)]

use vstd::prelude::*;

verus! {

/// Handle to a buffer resource.
#[derive(Clone, Copy)]
pub struct sg_buffer {
    id: u32,
}

/// Handle to an image resource.
#[derive(Clone, Copy)]
pub struct sg_image {
    id: u32,
}

/// Handle to a shader resource.
#[derive(Clone, Copy)]
pub struct sg_shader {
    id: u32,
}

/// Handle to a pipeline resource.
#[derive(Clone, Copy)]
pub struct sg_pipeline {
    id: u32,
}

/// Handle to a render-pass resource.
#[derive(Clone, Copy)]
pub struct sg_pass {
    id: u32,
}

/// Handle to a context resource.
#[derive(Clone, Copy)]
pub struct sg_context {
    id: u32,
}

impl sg_buffer {
    /// The raw resource id held by this handle.
    pub closed spec fn id_spec(self) -> u32 {
        self.id
    }
}

impl Default for sg_buffer {
    /// The invalid handle, id 0.
    fn default() -> (r: Self)
        ensures
            r.id_spec() == 0,
    {
        sg_buffer { id: 0 }
    }
}

impl sg_image {
    /// The raw resource id held by this handle.
    pub closed spec fn id_spec(self) -> u32 {
        self.id
    }
}

impl Default for sg_image {
    /// The invalid handle, id 0.
    fn default() -> (r: Self)
        ensures
            r.id_spec() == 0,
    {
        sg_image { id: 0 }
    }
}

impl sg_shader {
    /// The raw resource id held by this handle.
    pub closed spec fn id_spec(self) -> u32 {
        self.id
    }
}

impl Default for sg_shader {
    /// The invalid handle, id 0.
    fn default() -> (r: Self)
        ensures
            r.id_spec() == 0,
    {
        sg_shader { id: 0 }
    }
}

impl sg_pipeline {
    /// The raw resource id held by this handle.
    pub closed spec fn id_spec(self) -> u32 {
        self.id
    }
}

impl Default for sg_pipeline {
    /// The invalid handle, id 0.
    fn default() -> (r: Self)
        ensures
            r.id_spec() == 0,
    {
        sg_pipeline { id: 0 }
    }
}

impl sg_pass {
    /// The raw resource id held by this handle.
    pub closed spec fn id_spec(self) -> u32 {
        self.id
    }
}

impl Default for sg_pass {
    /// The invalid handle, id 0.
    fn default() -> (r: Self)
        ensures
            r.id_spec() == 0,
    {
        sg_pass { id: 0 }
    }
}

impl sg_context {
    /// The raw resource id held by this handle.
    pub closed spec fn id_spec(self) -> u32 {
        self.id
    }
}

impl Default for sg_context {
    /// The invalid handle, id 0.
    fn default() -> (r: Self)
        ensures
            r.id_spec() == 0,
    {
        sg_context { id: 0 }
    }
}

/// GL-specific part of a context description.
#[derive(Clone, Copy)]
pub struct sg_gl_context_desc {
    pub force_gles2: bool,
}

impl Default for sg_gl_context_desc {
    fn default() -> (r: Self)
        ensures
            !r.force_gles2,
    {
        sg_gl_context_desc { force_gles2: false }
    }
}

/// Lifecycle state of a resource slot.
#[derive(Clone, Copy, PartialEq, Eq, Structural)]
pub enum sg_resource_state {
    INITIAL,
    ALLOC,
    VALID,
    FAILED,
    INVALID,
}

/// Book-keeping header shared by all concrete resource types.
#[derive(Clone, Copy)]
pub struct sg_slot_t {
    pub id: u32,
    pub ctx_id: u32,
    pub state: sg_resource_state,
}

impl Default for sg_slot_t {
    /// A slot that has never been allocated.
    fn default() -> (r: Self)
        ensures
            r.id == 0,
            r.ctx_id == 0,
            r.state == sg_resource_state::INITIAL,
    {
        sg_slot_t { id: 0, ctx_id: 0, state: sg_resource_state::INITIAL }
    }
}

/// A pool of resource slots: a stack of free slot indices plus one
/// generation counter per slot.
pub struct sg_pool_t {
    pub size: u32,
    pub queue_top: u32,
    pub gen_ctrs: Vec<u32>,
    pub free_queue: Vec<u32>,
}

impl sg_pool_t {
    /// Free-queue sanity: the stack of free indices fits its buffer and
    /// holds only nonzero indices inside the pool.
    pub open spec fn wf(&self) -> bool {
        &&& self.queue_top <= self.free_queue@.len()
        &&& forall|k: int| 0 <= k < self.queue_top ==> 0 < #[trigger] self.free_queue@[k] < self.size
    }
}

impl Default for sg_pool_t {
    /// An empty pool; `sg_init_pool` gives it its real shape.
    fn default() -> (r: Self)
        ensures
            r.size == 0,
            r.queue_top == 0,
            r.gen_ctrs@.len() == 0,
            r.free_queue@.len() == 0,
            r.wf(),
    {
        sg_pool_t { size: 0, queue_top: 0, gen_ctrs: Vec::new(), free_queue: Vec::new() }
    }
}

/// Initialise `pool` with `num` usable slots.  Slot 0 is reserved for the
/// invalid id, so the pool size becomes `num + 1`.  The free queue is filled
/// with the indices `num, num - 1, ..., 1`, highest first (so index 1 is
/// allocated first); generation counters are sized to the pool, existing
/// counters keeping their values and new ones starting at 0.
pub fn sg_init_pool(pool: &mut sg_pool_t, num: u32)
    requires
        1 <= num < 0xFFFFFFFFu32,
    ensures
        final(pool).size == num + 1,
        final(pool).queue_top == num,
        final(pool).gen_ctrs@.len() == num + 1,
        forall|k: int|
            0 <= k < old(pool).gen_ctrs@.len() && k < num + 1 ==> final(pool).gen_ctrs@[k] == old(
                pool,
            ).gen_ctrs@[k],
        forall|k: int|
            old(pool).gen_ctrs@.len() <= k < num + 1 ==> final(pool).gen_ctrs@[k] == 0,
        final(pool).free_queue@.len() == num,
        forall|k: int| 0 <= k < num ==> final(pool).free_queue@[k] == num - k,
        final(pool).wf(),
{
    pool.size = num + 1;
    pool.queue_top = 0;
    // generation counters indexable by pool slot index, slot 0 is reserved
    pool.gen_ctrs.resize((num + 1) as usize, 0);
    // it's not a bug to only reserve `num` entries here
    pool.free_queue.resize(num as usize, 0);
    // never hand out the zero-th slot, since the invalid id is 0
    let num_usize: usize = num as usize;
    for j in 0..num_usize
        invariant
            num_usize == num,
            num < 0xFFFFFFFFu32,
            pool.size == num + 1,
            pool.queue_top == j,
            pool.free_queue@.len() == num,
            pool.gen_ctrs@.len() == num + 1,
            forall|k: int|
                0 <= k < old(pool).gen_ctrs@.len() && k < num + 1 ==> pool.gen_ctrs@[k] == old(
                    pool,
                ).gen_ctrs@[k],
            forall|k: int| old(pool).gen_ctrs@.len() <= k < num + 1 ==> pool.gen_ctrs@[k] == 0,
            forall|k: int| 0 <= k < j ==> pool.free_queue@[k] == num - k,
    {
        pool.free_queue.set(j, num - j as u32);
        pool.queue_top = pool.queue_top + 1;
    }
}

/// Pop the most recently freed slot index, or 0 (the invalid slot index)
/// when the pool is exhausted.  Nothing else in the pool changes.
pub fn sg_pool_alloc_index(pool: &mut sg_pool_t) -> (slot_index: u32)
    requires
        old(pool).wf(),
    ensures
        final(pool).wf(),
        final(pool).size == old(pool).size,
        final(pool).gen_ctrs@ == old(pool).gen_ctrs@,
        final(pool).free_queue@ == old(pool).free_queue@,
        old(pool).queue_top > 0 ==> {
            &&& final(pool).queue_top == old(pool).queue_top - 1
            &&& slot_index == old(pool).free_queue@[old(pool).queue_top - 1]
            &&& 0 < slot_index < old(pool).size
        },
        old(pool).queue_top == 0 ==> final(pool).queue_top == 0 && slot_index == 0,
{
    if pool.queue_top > 0 {
        pool.queue_top = pool.queue_top - 1;
        let slot_index: u32 = pool.free_queue[pool.queue_top as usize];
        slot_index
    } else {
        // pool exhausted
        0
    }
}

/// Allocate the slot at `slot_index`: bump the slot's generation counter,
/// build a resource id from the new counter (high bits) and the slot index
/// (low 16 bits), store it in the slot, mark the slot ALLOC, and return the
/// id.  Overflow of a generation counter is deliberately unhandled, so the
/// caller keeps the counter below `u32::MAX`.
pub fn sg_slot_alloc(pool: &mut sg_pool_t, slot: &mut sg_slot_t, slot_index: u32) -> (id: u32)
    requires
        old(pool).wf(),
        0 < slot_index < old(pool).size,
        (slot_index as int) < old(pool).gen_ctrs@.len(),
        old(pool).gen_ctrs@[slot_index as int] < 0xFFFFFFFFu32,
        old(slot).state == sg_resource_state::INITIAL,
        old(slot).id == 0,
    ensures
        final(pool).wf(),
        final(pool).size == old(pool).size,
        final(pool).queue_top == old(pool).queue_top,
        final(pool).free_queue@ == old(pool).free_queue@,
        final(pool).gen_ctrs@ == old(pool).gen_ctrs@.update(
            slot_index as int,
            (old(pool).gen_ctrs@[slot_index as int] + 1) as u32,
        ),
        id == (((old(pool).gen_ctrs@[slot_index as int] + 1) as u32) << 16u32) | (slot_index
            & 0xFFFFu32),
        final(slot).id == id,
        final(slot).ctx_id == old(slot).ctx_id,
        final(slot).state == sg_resource_state::ALLOC,
{
    let ctr: u32 = pool.gen_ctrs[slot_index as usize] + 1;
    pool.gen_ctrs.set(slot_index as usize, ctr);
    slot.id = (ctr << 16) | (slot_index & 0xFFFF);
    slot.state = sg_resource_state::ALLOC;
    slot.id
}

/// Extract the slot index from a resource id: its low 16 bits.  Ids built
/// by `sg_slot_alloc` from a nonzero slot index below 0x10000 come back out
/// unchanged (`lemma_slot_id_roundtrip`); an id whose low bits are zero is
/// invalid and excluded.
pub fn sg_slot_index(id: u32) -> (slot_index: u32)
    requires
        id & 0xFFFFu32 != 0,
    ensures
        slot_index == id & 0xFFFFu32,
        slot_index != 0,
{
    id & 0xFFFF
}

/// A resource id decomposes back into its slot index: for any generation
/// counter, the low 16 bits of the id built by `sg_slot_alloc` are exactly
/// the slot index, whenever the index fits in 16 bits (which `sg_init_pool`
/// guarantees for pools of at most 0xFFFF slots).
pub proof fn lemma_slot_id_roundtrip(ctr: u32, slot_index: u32)
    requires
        slot_index < 0x10000,
    ensures
        ((ctr << 16u32) | (slot_index & 0xFFFFu32)) & 0xFFFFu32 == slot_index,
{
    assert(((ctr << 16u32) | (slot_index & 0xFFFFu32)) & 0xFFFFu32 == slot_index) by (bit_vector)
        requires
            slot_index < 0x10000u32,
    ;
}

/// Capability flags of one pixel format.
#[derive(Clone, Copy)]
pub struct sg_pixelformat_info {
    /// pixel format can be sampled in shaders
    pub sample: bool,
    /// pixel format can be sampled with filtering
    pub filter: bool,
    /// pixel format can be used as render target
    pub render: bool,
    /// alpha-blending is supported
    pub blend: bool,
    /// pixel format can be used as MSAA render target
    pub msaa: bool,
    /// pixel format is a depth format
    pub depth: bool,
}

impl Default for sg_pixelformat_info {
    /// A format with no capabilities.
    fn default() -> (r: Self)
        ensures
            !r.sample && !r.filter && !r.render && !r.blend && !r.msaa && !r.depth,
    {
        sg_pixelformat_info {
            sample: false,
            filter: false,
            render: false,
            blend: false,
            msaa: false,
            depth: false,
        }
    }
}

/// Mark a format sample-only.
pub fn sg_pixelformat_s(pfi: &mut sg_pixelformat_info)
    ensures
        final(pfi).sample,
        final(pfi).filter == old(pfi).filter,
        final(pfi).render == old(pfi).render,
        final(pfi).blend == old(pfi).blend,
        final(pfi).msaa == old(pfi).msaa,
        final(pfi).depth == old(pfi).depth,
{
    pfi.sample = true;
}

/// Mark a format sampleable with filtering.
pub fn sg_pixelformat_sf(pfi: &mut sg_pixelformat_info)
    ensures
        final(pfi).sample,
        final(pfi).filter,
        final(pfi).render == old(pfi).render,
        final(pfi).blend == old(pfi).blend,
        final(pfi).msaa == old(pfi).msaa,
        final(pfi).depth == old(pfi).depth,
{
    pfi.sample = true;
    pfi.filter = true;
}

/// Mark a format sampleable and renderable.
pub fn sg_pixelformat_sr(pfi: &mut sg_pixelformat_info)
    ensures
        final(pfi).sample,
        final(pfi).render,
        final(pfi).filter == old(pfi).filter,
        final(pfi).blend == old(pfi).blend,
        final(pfi).msaa == old(pfi).msaa,
        final(pfi).depth == old(pfi).depth,
{
    pfi.sample = true;
    pfi.render = true;
}

/// Mark a format with every capability except depth.
pub fn sg_pixelformat_all(pfi: &mut sg_pixelformat_info)
    ensures
        final(pfi).sample,
        final(pfi).filter,
        final(pfi).render,
        final(pfi).blend,
        final(pfi).msaa,
        final(pfi).depth == old(pfi).depth,
{
    pfi.sample = true;
    pfi.filter = true;
    pfi.blend = true;
    pfi.render = true;
    pfi.msaa = true;
}

/// Mark a depth format that can be sampled and rendered with MSAA.
pub fn sg_pixelformat_srmd(pfi: &mut sg_pixelformat_info)
    ensures
        final(pfi).sample,
        final(pfi).render,
        final(pfi).msaa,
        final(pfi).depth,
        final(pfi).filter == old(pfi).filter,
        final(pfi).blend == old(pfi).blend,
{
    pfi.sample = true;
    pfi.render = true;
    pfi.msaa = true;
    pfi.depth = true;
}

/// Mark a format sampleable and renderable with MSAA.
pub fn sg_pixelformat_srm(pfi: &mut sg_pixelformat_info)
    ensures
        final(pfi).sample,
        final(pfi).render,
        final(pfi).msaa,
        final(pfi).filter == old(pfi).filter,
        final(pfi).blend == old(pfi).blend,
        final(pfi).depth == old(pfi).depth,
{
    pfi.sample = true;
    pfi.render = true;
    pfi.msaa = true;
}

/// Mark a format sampleable with filtering, renderable with MSAA.
pub fn sg_pixelformat_sfrm(pfi: &mut sg_pixelformat_info)
    ensures
        final(pfi).sample,
        final(pfi).filter,
        final(pfi).render,
        final(pfi).msaa,
        final(pfi).blend == old(pfi).blend,
        final(pfi).depth == old(pfi).depth,
{
    pfi.sample = true;
    pfi.filter = true;
    pfi.render = true;
    pfi.msaa = true;
}

/// Mark a format sampleable and blendable, renderable with MSAA.
pub fn sg_pixelformat_sbrm(pfi: &mut sg_pixelformat_info)
    ensures
        final(pfi).sample,
        final(pfi).blend,
        final(pfi).render,
        final(pfi).msaa,
        final(pfi).filter == old(pfi).filter,
        final(pfi).depth == old(pfi).depth,
{
    pfi.sample = true;
    pfi.blend = true;
    pfi.render = true;
    pfi.msaa = true;
}

/// Mark a format sampleable, blendable and renderable.
pub fn sg_pixelformat_sbr(pfi: &mut sg_pixelformat_info)
    ensures
        final(pfi).sample,
        final(pfi).blend,
        final(pfi).render,
        final(pfi).filter == old(pfi).filter,
        final(pfi).msaa == old(pfi).msaa,
        final(pfi).depth == old(pfi).depth,
{
    pfi.sample = true;
    pfi.blend = true;
    pfi.render = true;
}

/// Mark a format sampleable with filtering, blendable and renderable.
pub fn sg_pixelformat_sfbr(pfi: &mut sg_pixelformat_info)
    ensures
        final(pfi).sample,
        final(pfi).filter,
        final(pfi).blend,
        final(pfi).render,
        final(pfi).msaa == old(pfi).msaa,
        final(pfi).depth == old(pfi).depth,
{
    pfi.sample = true;
    pfi.filter = true;
    pfi.blend = true;
    pfi.render = true;
}

} // verus!
