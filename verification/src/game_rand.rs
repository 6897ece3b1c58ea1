//! Deterministic, seedable pseudo-random number generator for gameplay code.
//!
//! The generator is a complementary-multiply-with-carry generator with a lag
//! table of 8 words and multiplier 716514398 (period about 2^285).  Its whole
//! behaviour is pinned down by the spec functions below: the same seed gives
//! the same sequence of values on every platform, forever.

use vstd::prelude::*;

verus! {

/// Mathematical state of a generator: the 8-word lag table, the running
/// carry of the multiply-with-carry recurrence, and the wrapping position
/// of the last value produced.
#[verifier::ext_equal]
pub ghost struct GameRandView {
    pub seed_table: Seq<u32>,
    pub carry: u32,
    pub index: u32,
}

/// One round of the xorshift mix used to fill the lag table from a seed.
pub open spec fn xorshift_mix(j: u32) -> u32 {
    let a = j ^ (j << 13u32);
    let b = a ^ (a >> 17u32);
    b ^ (b << 5u32)
}

/// A zero seed degenerates under xorshift, so it is remapped to 12345.
pub open spec fn effective_seed(seed: u32) -> u32 {
    if seed == 0 {
        12345u32
    } else {
        seed
    }
}

/// The seed after `n` rounds of the xorshift mix.
pub open spec fn mixed(seed: u32, n: nat) -> u32
    decreases n,
{
    if n == 0 {
        effective_seed(seed)
    } else {
        xorshift_mix(mixed(seed, (n - 1) as nat))
    }
}

/// The state established by seeding a generator: table entry `k` holds the
/// seed mixed `k + 1` times, the carry is 362436, and the position is 7, so
/// that the first draw uses table entry 0.
pub open spec fn seeded_view(seed: u32) -> GameRandView {
    GameRandView {
        seed_table: Seq::new(8, |k: int| mixed(seed, (k + 1) as nat)),
        carry: 362436u32,
        index: 7u32,
    }
}

/// The 64-bit product-sum `716514398 * q + c` of one generator round.
pub open spec fn cmwc_t(q: u32, c: u32) -> int {
    716514398 * q + c
}

/// The upper 32 bits of the product-sum: the next round's carry before the
/// wraparound correction.
pub open spec fn cmwc_high(q: u32, c: u32) -> int {
    cmwc_t(q, c) / 0x1_0000_0000
}

/// The lower 32 bits of the product-sum plus the new carry.
pub open spec fn cmwc_low_sum(q: u32, c: u32) -> int {
    (cmwc_t(q, c) + cmwc_high(q, c)) % 0x1_0000_0000
}

/// Whether adding the carry to the lower 32 bits wrapped around, in which
/// case both the intermediate value and the carry are incremented by one.
pub open spec fn cmwc_corrected(q: u32, c: u32) -> bool {
    cmwc_low_sum(q, c) < cmwc_high(q, c)
}

/// The intermediate value subtracted from 0xFFFF_FFFE to form the output.
pub open spec fn cmwc_x(q: u32, c: u32) -> int {
    if cmwc_corrected(q, c) {
        cmwc_low_sum(q, c) + 1
    } else {
        cmwc_low_sum(q, c)
    }
}

/// The carry stored for the next round.
pub open spec fn cmwc_carry(q: u32, c: u32) -> u32 {
    if cmwc_corrected(q, c) {
        (cmwc_high(q, c) + 1) as u32
    } else {
        cmwc_high(q, c) as u32
    }
}

/// The value produced by one round on table entry `q` with carry `c`:
/// `0xFFFF_FFFE - x`, with wraparound when `x` exceeds that constant.
pub open spec fn cmwc_output(q: u32, c: u32) -> u32 {
    if cmwc_x(q, c) <= 0xFFFFFFFE {
        (0xFFFFFFFE - cmwc_x(q, c)) as u32
    } else {
        0xFFFFFFFFu32
    }
}

/// The table position used by the next draw.
pub open spec fn advanced_index(i: u32) -> u32 {
    ((i + 1) % 8) as u32
}

/// The state after one draw: the position advances, the produced value is
/// fed back into the table, and the carry is replaced.
pub open spec fn stepped_view(v: GameRandView) -> GameRandView
    recommends
        v.seed_table.len() == 8,
        v.index < 8,
{
    let i2 = advanced_index(v.index);
    let q = v.seed_table[i2 as int];
    GameRandView {
        seed_table: v.seed_table.update(i2 as int, cmwc_output(q, v.carry)),
        carry: cmwc_carry(q, v.carry),
        index: i2,
    }
}

/// The value produced by one draw from state `v`.
pub open spec fn output_of(v: GameRandView) -> u32
    recommends
        v.seed_table.len() == 8,
        v.index < 8,
{
    cmwc_output(v.seed_table[advanced_index(v.index) as int], v.carry)
}

/// The value produced by `rand_range(min, max)` when the underlying draw
/// returned `raw`: reduced into the inclusive range by a modulus, except
/// that the full 32-bit range is passed through unreduced.
pub open spec fn range_output(min: u32, max: u32, raw: u32) -> u32
    recommends
        min <= max,
{
    if max - min == 0xFFFFFFFF {
        raw
    } else {
        (min + (raw as int % (max - min + 1))) as u32
    }
}

/// A random number generator that is deterministic and suitable for games.
pub struct GameRand {
    seed_table: [u32; 8],
    carry: u32,
    index: u32,
}

impl View for GameRand {
    type V = GameRandView;

    closed spec fn view(&self) -> GameRandView {
        GameRandView { seed_table: self.seed_table@, carry: self.carry, index: self.index }
    }
}

impl GameRand {
    /// The generator's one internal invariant: the table has 8 entries and
    /// the position stays inside it.
    pub open spec fn wf(&self) -> bool {
        self@.seed_table.len() == 8 && self@.index < 8
    }

    /// Construct a generator seeded with `seed`.
    pub fn new(seed: u32) -> (rand: GameRand)
        ensures
            rand.wf(),
            rand@ == seeded_view(seed),
    {
        let mut rand = GameRand { seed_table: [0u32; 8], carry: 0, index: 0 };
        rand.seed_random(seed);
        rand
    }

    /// Reset the generator to the state determined by `seed`, discarding all
    /// current state; `new` is equivalent to calling this on any generator.
    pub fn seed_random(&mut self, seed: u32)
        ensures
            final(self).wf(),
            final(self)@ == seeded_view(seed),
    {
        let mut j: u32 = if seed == 0 {
            12345  // 0 is a terrible seed (probably the only bad choice), substitute something else
        } else {
            seed
        };
        for k in 0..8usize
            invariant
                j == mixed(seed, k as nat),
                forall|m: int| 0 <= m < k ==> self.seed_table@[m] == mixed(seed, (m + 1) as nat),
        {
            j = j ^ (j << 13);
            j = j ^ (j >> 17);
            j = j ^ (j << 5);
            self.seed_table[k] = j;
        }
        self.carry = 362436;
        self.index = 7;
        proof {
            assert(self@.seed_table =~= seeded_view(seed).seed_table);
            assert(self@ =~= seeded_view(seed));
        }
    }

    /// Produce the next pseudo-random value and feed it back into the table.
    pub fn next_random(&mut self) -> (value: u32)
        requires
            old(self).wf(),
        ensures
            final(self).wf(),
            final(self)@ == stepped_view(old(self)@),
            value == output_of(old(self)@),
    {
        let i2: u32 = (self.index + 1) & 7;
        proof {
            let j: u32 = (old(self)@.index + 1) as u32;
            assert(j & 7 == j % 8) by (bit_vector);
        }
        self.index = i2;
        let q: u32 = self.seed_table[i2 as usize];
        let t: u64 = 716514398u64 * (q as u64) + (self.carry as u64);
        proof {
            assert(t >> 32u64 == t / 0x1_0000_0000) by (bit_vector);
        }
        let c1: u32 = (t >> 32) as u32;
        self.carry = c1;
        let mut x: u32 = #[verifier::truncate] ((t + c1 as u64) as u32);
        proof {
            assert((t + c1 as u64) as u32 == (t + c1 as u64) % 0x1_0000_0000) by (bit_vector);
        }
        if x < self.carry {
            x = x + 1;
            self.carry = self.carry + 1;
        }
        let value: u32 = 0xFFFFFFFEu32.wrapping_sub(x);
        self.seed_table[i2 as usize] = value;
        proof {
            assert(final(self)@.seed_table =~= stepped_view(old(self)@).seed_table);
            assert(final(self)@ =~= stepped_view(old(self)@));
        }
        value
    }

    /// Produce a pseudo-random value in the inclusive range `min..=max`.
    /// The distribution is close to even for small ranges, with the usual
    /// modulo bias for large ones.
    pub fn rand_range(&mut self, min: u32, max: u32) -> (value: u32)
        requires
            old(self).wf(),
            min <= max,
        ensures
            final(self).wf(),
            final(self)@ == stepped_view(old(self)@),
            value == range_output(min, max, output_of(old(self)@)),
    {
        let mut value: u32 = self.next_random();
        let range_diff: u32 = max - min;
        if range_diff != u32::MAX {
            value %= range_diff + 1;
            value += min;
        }
        value
    }
}

/// Determinism: the next output and the successor state are functions of the
/// current state alone, so two generators in equal states — in particular two
/// freshly seeded with the same value, since `new` pins the state to
/// `seeded_view(seed)` — produce identical sequences for any equal sequence
/// of draws.
pub proof fn lemma_deterministic(v1: GameRandView, v2: GameRandView)
    requires
        v1 == v2,
    ensures
        output_of(v1) == output_of(v2),
        stepped_view(v1) == stepped_view(v2),
{
}

/// When the product-sum is a positive multiple of 0xFFFF_FFFF, its reduction
/// modulo 0xFFFF_FFFF by "add the high word to the low word" lands on
/// 0xFFFF_FFFF itself instead of 0.
proof fn lemma_multiple_lands_on_max(q: u32, c: u32)
    requires
        cmwc_t(q, c) % 0xFFFFFFFF == 0,
        cmwc_t(q, c) > 0,
    ensures
        cmwc_t(q, c) % 0x1_0000_0000 + cmwc_high(q, c) == 0xFFFFFFFF,
{
    let t = cmwc_t(q, c);
    let b = 0xFFFFFFFFint;
    let m = 0x1_0000_0000int;
    vstd::arithmetic::div_mod::lemma_fundamental_div_mod(t, b);
    let k = t / b;
    assert(t == b * k);
    assert(k >= 1);
    assert(t <= 716514399 * 0xFFFFFFFFint);
    vstd::arithmetic::div_mod::lemma_div_is_ordered(t, 716514399 * 0xFFFFFFFFint, b);
    assert(k <= 716514399);
    assert(t == (k - 1) * m + (m - k));
    vstd::arithmetic::div_mod::lemma_fundamental_div_mod_converse(t, m, k - 1, m - k);
}

/// Round constant, characterised exactly: the produced value is `u32::MAX`
/// if and only if the product-sum `716514398 * q + c` is a positive multiple
/// of 0xFFFF_FFFF (there the "add the high word" reduction leaves
/// 0xFFFF_FFFF in place of 0, and the subtraction from 0xFFFF_FFFE wraps
/// around); on every other table entry and carry the value is at most
/// 0xFFFF_FFFE.
pub proof fn lemma_output_max_characterised(q: u32, c: u32)
    ensures
        cmwc_output(q, c) == 0xFFFFFFFF <==> (cmwc_t(q, c) > 0 && cmwc_t(q, c) % 0xFFFFFFFF == 0),
{
    let t = cmwc_t(q, c);
    let m = 0x1_0000_0000int;
    let h = cmwc_high(q, c);
    let t0 = t % m;
    vstd::arithmetic::div_mod::lemma_fundamental_div_mod(t, m);
    vstd::arithmetic::div_mod::lemma_mod_bound(t, m);
    assert(t <= 716514398 * 0xFFFFFFFFint + 0xFFFFFFFF);
    vstd::arithmetic::div_mod::lemma_div_is_ordered(t, 716514398 * 0xFFFFFFFFint + 0xFFFFFFFF, m);
    assert(h <= 716514398);
    assert(h >= 0);
    if t0 + h < m {
        vstd::arithmetic::div_mod::lemma_mod_multiples_vanish(h, t0 + h, m);
        vstd::arithmetic::div_mod::lemma_small_mod((t0 + h) as nat, m as nat);
        assert(cmwc_low_sum(q, c) == t0 + h);
        assert(!cmwc_corrected(q, c));
        if t0 + h == 0xFFFFFFFF {
            assert(t == (h + 1) * 0xFFFFFFFF);
            vstd::arithmetic::div_mod::lemma_mod_multiples_basic(h + 1, 0xFFFFFFFF);
            assert(cmwc_output(q, c) == 0xFFFFFFFF && t > 0 && t % 0xFFFFFFFF == 0);
        } else {
            assert(cmwc_output(q, c) != 0xFFFFFFFF);
            if t > 0 && t % 0xFFFFFFFF == 0 {
                lemma_multiple_lands_on_max(q, c);
                assert(false);
            }
        }
    } else {
        vstd::arithmetic::div_mod::lemma_mod_multiples_vanish(h + 1, t0 + h - m, m);
        vstd::arithmetic::div_mod::lemma_small_mod((t0 + h - m) as nat, m as nat);
        assert(cmwc_low_sum(q, c) == t0 + h - m);
        assert(cmwc_corrected(q, c));
        assert(cmwc_output(q, c) != 0xFFFFFFFF);
        if t > 0 && t % 0xFFFFFFFF == 0 {
            lemma_multiple_lands_on_max(q, c);
            assert(false);
        }
    }
}

/// Round-constant bound: except on the product-sums that are positive
/// multiples of 0xFFFF_FFFF, the value produced from table entry `q` and
/// carry `c` is at most 0xFFFF_FFFE — in particular it is never `u32::MAX`.
pub proof fn lemma_output_bounded(q: u32, c: u32)
    requires
        !(cmwc_t(q, c) > 0 && cmwc_t(q, c) % 0xFFFFFFFF == 0),
    ensures
        cmwc_output(q, c) <= 0xFFFFFFFE,
{
    lemma_output_max_characterised(q, c);
}

/// The same bound at the level of generator states: a draw from state `v`
/// (what `next_random` returns) stays below `u32::MAX` whenever the round's
/// product-sum is not a positive multiple of 0xFFFF_FFFF.
pub proof fn lemma_next_output_bounded(v: GameRandView)
    requires
        v.seed_table.len() == 8,
        v.index < 8,
        !(cmwc_t(v.seed_table[advanced_index(v.index) as int], v.carry) > 0 && cmwc_t(
            v.seed_table[advanced_index(v.index) as int],
            v.carry,
        ) % 0xFFFFFFFF == 0),
    ensures
        output_of(v) <= 0xFFFFFFFE,
{
    lemma_output_bounded(v.seed_table[advanced_index(v.index) as int], v.carry);
}

proof fn lemma_mixed_zero_seed(n: nat)
    ensures
        mixed(0, n) == mixed(12345, n),
    decreases n,
{
    if n > 0 {
        lemma_mixed_zero_seed((n - 1) as nat);
    }
}

/// Zero-seed remap: seeding with 0 establishes exactly the state that
/// seeding with 12345 establishes, so the two output streams are identical.
pub proof fn lemma_zero_seed_remap()
    ensures
        seeded_view(0) == seeded_view(12345),
{
    assert forall|k: int| 0 <= k < 8 implies seeded_view(0).seed_table[k] == seeded_view(
        12345,
    ).seed_table[k] by {
        lemma_mixed_zero_seed((k + 1) as nat);
    }
    assert(seeded_view(0).seed_table =~= seeded_view(12345).seed_table);
    assert(seeded_view(0) =~= seeded_view(12345));
}

} // verus!
