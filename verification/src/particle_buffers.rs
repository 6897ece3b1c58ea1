//! Renderable buffers of the particle system: the quad index buffer and the
//! packed vertex byte buffer.
//!
//! Both buffers follow the same memory policy: they are allocated once,
//! reused across frames, and only ever grow.  The index buffer is extended
//! incrementally — when the particle count rises, indices are appended only
//! for the new particles — and is never rebuilt or shrunk; callers size
//! their draw call to the current particle count, so stale trailing entries
//! are simply unused.  The vertex buffer is rewritten every call (its
//! contents depend on the camera and particle state) but keeps its largest
//! size ever reached.
//!
//! The simulation proper works in single-precision arithmetic, which stays
//! outside this crate; it hands the packing code the 32-bit encodings of the
//! already-computed corner positions, fade scalars and colours, and the
//! functions here own the buffer layout: field order, the unit-quad texture
//! coordinates, the little-endian word encoding, and the grow-only resize.

use vstd::prelude::*;

verus! {

/// Bytes per packed vertex: position (12) and texture coordinate (8),
/// plus 4 for the fade scalar when `tex3d`, plus 16 for the colour when
/// `use_colors`.
pub open spec fn spec_vertex_size(use_colors: bool, tex3d: bool) -> int {
    20 + (if tex3d {
        4int
    } else {
        0int
    }) + (if use_colors {
        16int
    } else {
        0int
    })
}

/// The corner of the quad that index position `r` (0..6) refers to: two
/// triangles wound 0,1,3 and 3,1,2.
pub open spec fn quad_corner(r: int) -> int {
    if r == 0 {
        0
    } else if r == 1 {
        1
    } else if r == 2 {
        3
    } else if r == 3 {
        3
    } else if r == 4 {
        1
    } else {
        2
    }
}

/// The index-buffer entry at position `n`: position `n` belongs to quad
/// `n / 6`, whose four vertices start at `4 * (n / 6)`.
pub open spec fn quad_index_entry(n: int) -> int {
    4 * (n / 6) + quad_corner(n % 6)
}

/// The little-endian 32-bit word spelled by the four bytes of `s` starting
/// at `off`.
pub open spec fn word_at(s: Seq<u8>, off: int) -> int {
    s[off] + 0x100 * s[off + 1] + 0x1_0000 * s[off + 2] + 0x100_0000 * s[off + 3]
}

/// The texture `u` coordinate of quad corner `j`, as the 32-bit encoding of
/// the single-precision values zero and one: the corners carry (0,0), (1,0),
/// (1,1), (0,1).
pub open spec fn tex_u_bits(j: int) -> u32 {
    if j == 1 || j == 2 {
        0x3F80_0000u32
    } else {
        0u32
    }
}

/// The texture `v` coordinate of quad corner `j`; see `tex_u_bits`.
pub open spec fn tex_v_bits(j: int) -> u32 {
    if j == 2 || j == 3 {
        0x3F80_0000u32
    } else {
        0u32
    }
}

/// Vertex `j` of particle `p` stands packed in `s`: at the vertex's byte
/// position come the three position words, the two texture coordinate
/// words, then — when `tex3d` — the fade word, then — when `use_colors` —
/// the four colour words, each as four little-endian bytes.
pub open spec fn vertex_packed(
    s: Seq<u8>,
    corners: Seq<u32>,
    fades: Seq<u32>,
    colors: Seq<u32>,
    use_colors: bool,
    tex3d: bool,
    p: int,
    j: int,
) -> bool {
    let vs = spec_vertex_size(use_colors, tex3d);
    let base = (4 * p + j) * vs;
    let coff = base + (if tex3d {
        24int
    } else {
        20int
    });
    &&& word_at(s, base) == corners[12 * p + 3 * j]
    &&& word_at(s, base + 4) == corners[12 * p + 3 * j + 1]
    &&& word_at(s, base + 8) == corners[12 * p + 3 * j + 2]
    &&& word_at(s, base + 12) == tex_u_bits(j)
    &&& word_at(s, base + 16) == tex_v_bits(j)
    &&& (tex3d ==> word_at(s, base + 20) == fades[p])
    &&& (use_colors ==> {
        &&& word_at(s, coff) == colors[4 * p]
        &&& word_at(s, coff + 4) == colors[4 * p + 1]
        &&& word_at(s, coff + 8) == colors[4 * p + 2]
        &&& word_at(s, coff + 12) == colors[4 * p + 3]
    })
}

proof fn lemma_quad_entry(i: int, r: int)
    requires
        0 <= i,
        0 <= r < 6,
    ensures
        quad_index_entry(6 * i + r) == 4 * i + quad_corner(r),
{
    vstd::arithmetic::div_mod::lemma_fundamental_div_mod_converse(6 * i + r, 6, i, r);
}

/// Grow `bytes` to at least `n` bytes, zero-filling the new tail; a buffer
/// that is already large enough is left alone.
fn grow_bytes(bytes: &mut Vec<u8>, n: usize)
    ensures
        old(bytes)@.len() >= n ==> final(bytes)@ == old(bytes)@,
        old(bytes)@.len() < n ==> final(bytes)@.len() == n,
        final(bytes)@.len() >= old(bytes)@.len(),
        forall|b: int| 0 <= b < old(bytes)@.len() ==> final(bytes)@[b] == old(bytes)@[b],
        forall|b: int| old(bytes)@.len() <= b < final(bytes)@.len() ==> final(bytes)@[b] == 0,
{
    while bytes.len() < n
        invariant
            bytes@.len() >= old(bytes)@.len(),
            old(bytes)@.len() >= n ==> bytes@.len() == old(bytes)@.len(),
            old(bytes)@.len() < n ==> bytes@.len() <= n,
            forall|b: int| 0 <= b < old(bytes)@.len() ==> bytes@[b] == old(bytes)@[b],
            forall|b: int| old(bytes)@.len() <= b < bytes@.len() ==> bytes@[b] == 0,
        decreases n - bytes@.len(),
    {
        bytes.push(0);
    }
    proof {
        if old(bytes)@.len() >= n {
            assert(bytes@ =~= old(bytes)@);
        }
    }
}

/// Write the four little-endian bytes of `w` into `bytes` at `off`,
/// leaving every other byte unchanged.
fn put_word(bytes: &mut Vec<u8>, off: usize, w: u32)
    requires
        off + 4 <= old(bytes)@.len(),
    ensures
        final(bytes)@.len() == old(bytes)@.len(),
        word_at(final(bytes)@, off as int) == w,
        forall|b: int|
            0 <= b < old(bytes)@.len() && !(off <= b < off + 4) ==> final(bytes)@[b] == old(
                bytes,
            )@[b],
{
    let bytes_len: usize = bytes.len();
    assert(off + 4 <= bytes_len);
    let b0: u8 = #[verifier::truncate] ((w & 0xFF) as u8);
    let b1: u8 = #[verifier::truncate] (((w >> 8) & 0xFF) as u8);
    let b2: u8 = #[verifier::truncate] (((w >> 16) & 0xFF) as u8);
    let b3: u8 = #[verifier::truncate] (((w >> 24) & 0xFF) as u8);
    proof {
        assert(((w & 0xFF) as u8) + 0x100 * (((w >> 8) & 0xFF) as u8) + 0x1_0000 * (((w >> 16)
            & 0xFF) as u8) + 0x100_0000 * (((w >> 24) & 0xFF) as u8) == w) by (bit_vector);
    }
    bytes.set(off, b0);
    bytes.set(off + 1, b1);
    bytes.set(off + 2, b2);
    bytes.set(off + 3, b3);
}

/// Write vertex `j` of particle `p` — position words, texture coordinate
/// words and the optional fade and colour words — into its slot of the
/// vertex buffer, leaving every byte outside that slot unchanged.
fn put_vertex(
    bytes: &mut Vec<u8>,
    corners: &Vec<u32>,
    fades: &Vec<u32>,
    colors: &Vec<u32>,
    use_colors: bool,
    tex3d: bool,
    p: usize,
    j: usize,
)
    requires
        j < 4,
        12 * p + 3 * j + 3 <= corners@.len(),
        tex3d ==> p < fades@.len(),
        use_colors ==> 4 * p + 4 <= colors@.len(),
        (4 * p + j) * spec_vertex_size(use_colors, tex3d) + spec_vertex_size(use_colors, tex3d)
            <= old(bytes)@.len(),
    ensures
        final(bytes)@.len() == old(bytes)@.len(),
        vertex_packed(
            final(bytes)@,
            corners@,
            fades@,
            colors@,
            use_colors,
            tex3d,
            p as int,
            j as int,
        ),
        forall|b: int|
            0 <= b < old(bytes)@.len() && !((4 * p + j) * spec_vertex_size(use_colors, tex3d) <= b
                < (4 * p + j) * spec_vertex_size(use_colors, tex3d) + spec_vertex_size(
                use_colors,
                tex3d,
            )) ==> final(bytes)@[b] == old(bytes)@[b],
{
    let corners_len: usize = corners.len();
    let bytes_len: usize = bytes.len();
    assert(12 * p + 3 * j + 3 <= corners_len);
    let vsize: usize = vertex_size(use_colors, tex3d);
    assert((4 * p + j) * vsize + vsize <= bytes_len);
    let base: usize = (4 * p + j) * vsize;
    put_word(bytes, base, corners[12 * p + 3 * j]);
    put_word(bytes, base + 4, corners[12 * p + 3 * j + 1]);
    put_word(bytes, base + 8, corners[12 * p + 3 * j + 2]);
    let tu: u32 = if j == 1 || j == 2 {
        0x3F80_0000
    } else {
        0
    };
    let tv: u32 = if j == 2 || j == 3 {
        0x3F80_0000
    } else {
        0
    };
    put_word(bytes, base + 12, tu);
    put_word(bytes, base + 16, tv);
    let mut coff: usize = base + 20;
    if tex3d {
        put_word(bytes, coff, fades[p]);
        coff = coff + 4;
    }
    if use_colors {
        put_word(bytes, coff, colors[4 * p]);
        put_word(bytes, coff + 4, colors[4 * p + 1]);
        put_word(bytes, coff + 8, colors[4 * p + 2]);
        put_word(bytes, coff + 12, colors[4 * p + 3]);
    }
}

/// The reusable, grow-only index and vertex buffers of one particle system.
pub struct ParticleBuffers {
    index_array: Vec<u16>,
    vertex_array: Vec<u8>,
}

impl ParticleBuffers {
    /// The current contents of the index buffer.
    pub closed spec fn indices(self) -> Seq<u16> {
        self.index_array@
    }

    /// The current contents of the vertex byte buffer.
    pub closed spec fn vertices(self) -> Seq<u8> {
        self.vertex_array@
    }

    /// Invariant: the index buffer always holds whole quads and every entry
    /// follows the quad pattern, so extending it means appending quads.
    pub open spec fn wf(&self) -> bool {
        &&& self.indices().len() % 6 == 0
        &&& forall|n: int|
            0 <= n < self.indices().len() ==> #[trigger] self.indices()[n] == quad_index_entry(n)
    }

    /// Fresh, empty buffers.
    pub fn new() -> (buffers: ParticleBuffers)
        ensures
            buffers.wf(),
            buffers.indices().len() == 0,
            buffers.vertices().len() == 0,
    {
        ParticleBuffers { index_array: Vec::new(), vertex_array: Vec::new() }
    }

    /// The index buffer for `particle_count` particles: 6 entries per quad,
    /// `0,1,3, 3,1,2` within each quad of 4 vertices.  If the buffer already
    /// covers fewer particles it is extended, only with the indices of the
    /// new quads; it never shrinks, so its length is the largest
    /// `6 * particle_count` seen so far.  Counts are limited so that every
    /// entry fits in a `u16`.
    pub fn get_index_array(&mut self, particle_count: usize) -> (indices: &Vec<u16>)
        requires
            old(self).wf(),
            particle_count <= 16384,
        ensures
            final(self).wf(),
            final(self).vertices() == old(self).vertices(),
            indices@ == final(self).indices(),
            old(self).indices().len() >= 6 * particle_count ==> final(self).indices()
                == old(self).indices(),
            old(self).indices().len() < 6 * particle_count ==> final(self).indices().len() == 6
                * particle_count,
            forall|n: int|
                0 <= n < old(self).indices().len() ==> final(self).indices()[n] == old(
                    self,
                ).indices()[n],
    {
        let old_size: usize = self.index_array.len();
        let new_size: usize = particle_count * 6;
        if new_size > old_size {
            let start_index: usize = old_size / 6;
            proof {
                vstd::arithmetic::div_mod::lemma_fundamental_div_mod(old_size as int, 6);
            }
            for i in start_index..particle_count
                invariant
                    particle_count <= 16384,
                    6 * i == self.index_array@.len(),
                    old(self).index_array@.len() <= 6 * i,
                    self.vertex_array@ == old(self).vertex_array@,
                    forall|n: int|
                        0 <= n < self.index_array@.len() ==> #[trigger] self.index_array@[n]
                            == quad_index_entry(n),
                    forall|n: int|
                        0 <= n < old(self).index_array@.len() ==> self.index_array@[n] == old(
                            self,
                        ).index_array@[n],
            {
                let base: u16 = (4 * i) as u16;
                self.index_array.push(base);
                self.index_array.push(base + 1);
                self.index_array.push(base + 3);
                self.index_array.push(base + 3);
                self.index_array.push(base + 1);
                self.index_array.push(base + 2);
                proof {
                    assert forall|n: int| 0 <= n < self.index_array@.len() implies #[trigger] self
                        .index_array@[n] == quad_index_entry(n) by {
                        if n >= 6 * i {
                            lemma_quad_entry(i as int, n - 6 * i);
                        }
                    }
                }
            }
        }
        &self.index_array
    }

    /// Pack one quad vertex per entry of `corners` into the vertex buffer:
    /// particle `p` becomes the four vertices `4*p .. 4*p+3`, each laid out
    /// as `vertex_packed` describes.  `corners` holds the three position
    /// words of every vertex, `fades` one fade word per particle (read only
    /// when `tex3d`), `colors` four colour words per particle (read only
    /// when `use_colors`).  The buffer grows to the needed size when it is
    /// too small and never shrinks; bytes past the packed region keep their
    /// old values.
    #[verifier::spinoff_prover]
    #[verifier::rlimit(50)]
    pub fn get_vertex_array(
        &mut self,
        corners: &Vec<u32>,
        fades: &Vec<u32>,
        colors: &Vec<u32>,
        particle_count: usize,
        use_colors: bool,
        tex3d: bool,
    ) -> (vertices: &Vec<u8>)
        requires
            old(self).wf(),
            corners@.len() == 12 * particle_count,
            tex3d ==> fades@.len() == particle_count,
            use_colors ==> colors@.len() == 4 * particle_count,
            particle_count * 160 <= usize::MAX,
        ensures
            final(self).wf(),
            final(self).indices() == old(self).indices(),
            vertices@ == final(self).vertices(),
            final(self).vertices().len() >= old(self).vertices().len(),
            old(self).vertices().len() >= 4 * particle_count * spec_vertex_size(use_colors, tex3d)
                ==> final(self).vertices().len() == old(self).vertices().len(),
            old(self).vertices().len() < 4 * particle_count * spec_vertex_size(use_colors, tex3d)
                ==> final(self).vertices().len() == 4 * particle_count * spec_vertex_size(
                use_colors,
                tex3d,
            ),
            forall|b: int|
                4 * particle_count * spec_vertex_size(use_colors, tex3d) <= b < old(
                    self,
                ).vertices().len() ==> final(self).vertices()[b] == old(self).vertices()[b],
            forall|p: int, j: int|
                0 <= p < particle_count && 0 <= j < 4 ==> vertex_packed(
                    final(self).vertices(),
                    corners@,
                    fades@,
                    colors@,
                    use_colors,
                    tex3d,
                    p,
                    j,
                ),
    {
        let vsize: usize = vertex_size(use_colors, tex3d);
        proof {
            assert(particle_count * vsize <= particle_count * 160 && particle_count * vsize * 4
                <= particle_count * 160 && particle_count * vsize * 4 == 4 * particle_count
                * vsize) by (nonlinear_arith)
                requires
                    0 <= particle_count,
                    0 <= vsize <= 40,
            ;
        }
        let total: usize = particle_count * vsize * 4;
        grow_bytes(&mut self.vertex_array, total);
        let ghost v_grown = self.vertex_array@;
        let ghost buf_len = self.vertex_array@.len();
        let mut p: usize = 0;
        while p < particle_count
            invariant
                p <= particle_count,
                vsize == spec_vertex_size(use_colors, tex3d),
                total == 4 * particle_count * vsize,
                total <= buf_len,
                particle_count * 160 <= usize::MAX,
                v_grown.len() == buf_len,
                self.vertex_array@.len() == buf_len,
                corners@.len() == 12 * particle_count,
                tex3d ==> fades@.len() == particle_count,
                use_colors ==> colors@.len() == 4 * particle_count,
                self.index_array@ == old(self).index_array@,
                forall|b: int| total <= b < buf_len ==> self.vertex_array@[b] == v_grown[b],
                forall|pp: int, jj: int|
                    0 <= pp < p && 0 <= jj < 4 ==> vertex_packed(
                        self.vertex_array@,
                        corners@,
                        fades@,
                        colors@,
                        use_colors,
                        tex3d,
                        pp,
                        jj,
                    ),
            decreases particle_count - p,
        {
            let mut j: usize = 0;
            while j < 4
                invariant
                    p < particle_count,
                    j <= 4,
                    vsize == spec_vertex_size(use_colors, tex3d),
                    total == 4 * particle_count * vsize,
                    total <= buf_len,
                    particle_count * 160 <= usize::MAX,
                    v_grown.len() == buf_len,
                    self.vertex_array@.len() == buf_len,
                    corners@.len() == 12 * particle_count,
                    tex3d ==> fades@.len() == particle_count,
                    use_colors ==> colors@.len() == 4 * particle_count,
                    self.index_array@ == old(self).index_array@,
                    forall|b: int| total <= b < buf_len ==> self.vertex_array@[b] == v_grown[b],
                    forall|pp: int, jj: int|
                        (0 <= pp < p && 0 <= jj < 4) || (pp == p && 0 <= jj < j) ==> vertex_packed(
                            self.vertex_array@,
                            corners@,
                            fades@,
                            colors@,
                            use_colors,
                            tex3d,
                            pp,
                            jj,
                        ),
                decreases 4 - j,
            {
                proof {
                    assert((4 * p + j) * vsize + vsize <= 4 * particle_count * vsize && (4 * p + j)
                        * vsize >= 0) by (nonlinear_arith)
                        requires
                            0 <= p < particle_count,
                            0 <= j < 4,
                            0 <= vsize,
                    ;
                }
                let ghost s0 = self.vertex_array@;
                put_vertex(
                    &mut self.vertex_array,
                    corners,
                    fades,
                    colors,
                    use_colors,
                    tex3d,
                    p,
                    j,
                );
                proof {
                    assert forall|pp: int, jj: int|
                        (0 <= pp < p && 0 <= jj < 4) || (pp == p && 0 <= jj < j) implies
                        vertex_packed(
                            self.vertex_array@,
                            corners@,
                            fades@,
                            colors@,
                            use_colors,
                            tex3d,
                            pp,
                            jj,
                        ) by {
                        assert((4 * pp + jj) * vsize + vsize == (4 * pp + jj + 1) * vsize && (4
                            * pp + jj + 1) * vsize <= (4 * p + j) * vsize && 0 <= (4 * pp + jj)
                            * vsize) by (nonlinear_arith)
                            requires
                                0 <= pp,
                                0 <= jj,
                                4 * pp + jj < 4 * p + j,
                                0 <= vsize,
                        ;
                        assert(vertex_packed(s0, corners@, fades@, colors@, use_colors, tex3d, pp, jj));
                    }
                }
                j = j + 1;
            }
            p = p + 1;
        }
        &self.vertex_array
    }
}

/// The colour-ramp segment selected by the truncated, scaled age fraction
/// `11 * age_fraction`, clamped so that the segment's two stops, `slot` and
/// `slot + 1`, always index a 12-entry ramp — even when rounding pushes the
/// age fraction to 1 or just past it.
pub fn color_ramp_slot(scaled: i32) -> (slot: usize)
    ensures
        slot <= 10,
        0 <= scaled <= 10 ==> slot == scaled,
        scaled > 10 ==> slot == 10,
        scaled < 0 ==> slot == 0,
{
    if scaled > 10 {
        10
    } else if scaled < 0 {
        0
    } else {
        scaled as usize
    }
}

/// Bytes per packed vertex for the given field selection; the executable
/// counterpart of `spec_vertex_size`.
pub fn vertex_size(use_colors: bool, tex3d: bool) -> (size: usize)
    ensures
        size == spec_vertex_size(use_colors, tex3d),
{
    let mut size: usize = 12 + 8;
    if use_colors {
        size = size + 16;
    }
    if tex3d {
        size = size + 4;
    }
    size
}

} // verus!
