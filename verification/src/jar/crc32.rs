//! IEEE 802.3 / PKZIP CRC-32 (polynomial `0xEDB88320`, reflected).
use vstd::prelude::*;

verus! {

pub const POLY: u32 = 0xEDB88320;

/// One bit of the reflected CRC shift register.
pub open spec fn crc_round(c: u32) -> u32 {
    if c & 1 == 1 { POLY ^ (c >> 1) } else { c >> 1 }
}

/// `n` rounds of the shift register starting from `c`.
pub open spec fn crc_rounds(c: u32, n: nat) -> u32
    decreases n,
{
    if n == 0 { c } else { crc_round(crc_rounds(c, (n - 1) as nat)) }
}

/// Entry `i` of the byte-wise lookup table.
pub open spec fn table_entry(i: u32) -> u32 {
    crc_rounds(i, 8)
}

/// Register state after feeding `bytes` to a register holding `state`.
pub open spec fn crc_update(state: u32, bytes: Seq<u8>) -> u32
    decreases bytes.len(),
{
    if bytes.len() == 0 {
        state
    } else {
        let s = crc_update(state, bytes.drop_last());
        table_entry((s ^ (bytes.last() as u32)) & 0xFF) ^ (s >> 8)
    }
}

/// CRC-32 of a byte sequence.
pub open spec fn crc32_spec(bytes: Seq<u8>) -> u32 {
    !crc_update(!0u32, bytes)
}

fn build_table() -> (table: Vec<u32>)
    ensures
        is_table(table@),
{
    let mut table: Vec<u32> = Vec::with_capacity(256);
    let mut i: u32 = 0;
    while i < 256
        invariant
            i <= 256,
            table@.len() == i,
            forall|k: int| 0 <= k < i ==> #[trigger] table@[k] == table_entry(k as u32),
        decreases 256 - i,
    {
        let mut crc = i;
        let mut j: u32 = 0;
        while j < 8
            invariant
                j <= 8,
                crc == crc_rounds(i, j as nat),
            decreases 8 - j,
        {
            crc = if crc & 1 == 1 { POLY ^ (crc >> 1) } else { crc >> 1 };
            j += 1;
        }
        table.push(crc);
        i += 1;
    }
    table
}

/// Compute the CRC-32 of a byte slice in one call.
pub fn crc32(bytes: &[u8]) -> (r: u32)
    ensures
        r == crc32_spec(bytes@),
{
    let mut h = Hasher::new();
    h.update(bytes);
    h.finalize()
}

/// Whether `t` is the byte-wise lookup table.
pub open spec fn is_table(t: Seq<u32>) -> bool {
    &&& t.len() == 256
    &&& forall|i: int| 0 <= i < 256 ==> #[trigger] t[i] == table_entry(i as u32)
}

/// Incremental CRC-32 computation for streaming callers. The lookup table
/// is built once, when the hasher is made.
#[derive(Debug)]
pub struct Hasher {
    state: u32,
    table: Vec<u32>,
}

impl View for Hasher {
    type V = u32;

    /// The shift register's current state.
    closed spec fn view(&self) -> u32 {
        self.state
    }
}

impl Hasher {
    #[verifier::type_invariant]
    closed spec fn inv(&self) -> bool {
        is_table(self.table@)
    }

    pub fn new() -> (h: Self)
        ensures
            h@ == !0u32,
    {
        Self { state: !0u32, table: build_table() }
    }

    pub fn update(&mut self, bytes: &[u8])
        ensures
            final(self)@ == crc_update(old(self)@, bytes@),
    {
        proof { use_type_invariant(&*self); }
        let mut crc = self.state;
        let mut i: usize = 0;
        while i < bytes.len()
            invariant
                i <= bytes@.len(),
                is_table(self.table@),
                crc == crc_update(self.state, bytes@.subrange(0, i as int)),
            decreases bytes@.len() - i,
        {
            let b = bytes[i];
            let idx = (crc ^ (b as u32)) & 0xFF;
            assert(idx < 256) by (bit_vector)
                requires
                    idx == (crc ^ (b as u32)) & 0xFF,
            ;
            proof {
                assert(bytes@.subrange(0, i + 1).drop_last() =~= bytes@.subrange(0, i as int));
            }
            crc = self.table[idx as usize] ^ (crc >> 8);
            i += 1;
        }
        assert(bytes@.subrange(0, i as int) =~= bytes@);
        self.state = crc;
    }

    pub fn finalize(self) -> (r: u32)
        ensures
            r == !self@,
    {
        !self.state
    }
}

impl Clone for Hasher {
    /// A hasher in the same state.
    fn clone(&self) -> (h: Self)
        ensures
            h@ == self@,
    {
        proof { use_type_invariant(self); }
        Hasher { state: self.state, table: self.table.clone() }
    }
}

impl Default for Hasher {
    fn default() -> (h: Self)
        ensures
            h@ == !0u32,
    {
        Self::new()
    }
}

/// Feeding bytes in two chunks leaves the register where feeding them at
/// once does.
pub proof fn lemma_crc_update_concat(state: u32, a: Seq<u8>, b: Seq<u8>)
    ensures
        crc_update(state, a + b) == crc_update(crc_update(state, a), b),
    decreases b.len(),
{
    if b.len() == 0 {
        assert(a + b =~= a);
    } else {
        lemma_crc_update_concat(state, a, b.drop_last());
        assert((a + b).drop_last() =~= a + b.drop_last());
        assert((a + b).last() == b.last());
    }
}

/// Register state after feeding `bytes` a bit at a time: each byte is
/// xored into the low end of the register and eight rounds follow.
pub open spec fn crc_bitwise(state: u32, bytes: Seq<u8>) -> u32
    decreases bytes.len(),
{
    if bytes.len() == 0 {
        state
    } else {
        crc_rounds(crc_bitwise(state, bytes.drop_last()) ^ (bytes.last() as u32), 8)
    }
}

spec fn eight_rounds(c: u32) -> u32 {
    crc_round(crc_round(crc_round(crc_round(crc_round(crc_round(crc_round(crc_round(c))))))))
}

proof fn lemma_eight_rounds(c: u32)
    ensures
        crc_rounds(c, 8) == eight_rounds(c),
{
    reveal_with_fuel(crc_rounds, 9);
}

/// One table step is eight rounds of the register with the byte xored in.
proof fn lemma_byte_step(s: u32, b: u32)
    requires
        b < 256,
    ensures
        table_entry((s ^ b) & 0xFF) ^ (s >> 8) == crc_rounds(s ^ b, 8),
{
    let x = s ^ b;
    lemma_eight_rounds(x);
    lemma_eight_rounds(x & 0xFF);
    assert(eight_rounds(x & 0xFF) ^ (s >> 8) == eight_rounds(x)) by (bit_vector)
        requires
            x == s ^ b,
            b < 256,
    ;
}

/// The table-driven register equals the bit-at-a-time register of the
/// reflected PKZIP polynomial; so the CRC-32 of `bytes` is the complement
/// of the bitwise fold from all ones, and the CRC of nothing is `0`.
pub proof fn lemma_table_matches_bitwise(state: u32, bytes: Seq<u8>)
    ensures
        crc_update(state, bytes) == crc_bitwise(state, bytes),
        crc32_spec(bytes) == !crc_bitwise(!0u32, bytes),
        crc32_spec(Seq::empty()) == 0,
    decreases bytes.len(),
{
    if bytes.len() > 0 {
        lemma_table_matches_bitwise(state, bytes.drop_last());
        lemma_table_matches_bitwise(!0u32, bytes.drop_last());
        let s = crc_update(state, bytes.drop_last());
        lemma_byte_step(s, bytes.last() as u32);
        let t = crc_update(!0u32, bytes.drop_last());
        lemma_byte_step(t, bytes.last() as u32);
    }
    assert(!(!0u32) == 0u32) by (bit_vector);
}


} // verus!
