use vstd::prelude::*;

verus! {

/// Little-endian value of an eight-byte sequence.
pub open spec fn le_u64(b: Seq<u8>) -> u64 {
    (b[0] as int + b[1] as int * 0x100 + b[2] as int * 0x1_0000 + b[3] as int * 0x100_0000
        + b[4] as int * 0x1_0000_0000 + b[5] as int * 0x100_0000_0000 + b[6] as int
        * 0x1_0000_0000_0000 + b[7] as int * 0x100_0000_0000_0000) as u64
}

/// The eight little-endian bytes of `v`.
pub open spec fn le_bytes(v: u64) -> Seq<u8> {
    seq![
        (v % 0x100) as u8,
        (v / 0x100 % 0x100) as u8,
        (v / 0x1_0000 % 0x100) as u8,
        (v / 0x100_0000 % 0x100) as u8,
        (v / 0x1_0000_0000 % 0x100) as u8,
        (v / 0x100_0000_0000 % 0x100) as u8,
        (v / 0x1_0000_0000_0000 % 0x100) as u8,
        (v / 0x100_0000_0000_0000 % 0x100) as u8,
    ]
}

/// The counter that an account buffer holds: its little-endian value when it
/// is exactly eight bytes long, and zero for any other length.
pub open spec fn counter_value(data: Seq<u8>) -> u64 {
    if data.len() == 8 {
        le_u64(data)
    } else {
        0
    }
}

/// Relies on borsh's `BorshDeserialize::try_from_slice` for `u64`: it reads
/// eight bytes with `u64::from_le_bytes` and fails when the slice is shorter
/// or has bytes left over.
#[verifier::external_body]
fn borsh_u64_from_slice(data: &[u8]) -> (r: Option<u64>)
    ensures
        r is Some <==> data@.len() == 8,
        r is Some ==> r->0 == le_u64(data@),
{
    <u64 as borsh::BorshDeserialize>::try_from_slice(data).ok()
}

/// Relies on `borsh::to_vec` for `u64`: it writes `u64::to_le_bytes` into a
/// fresh `Vec`, a writer that does not fail.
#[verifier::external_body]
fn borsh_u64_to_vec(v: u64) -> (r: Option<Vec<u8>>)
    ensures
        r is Some,
        r is Some ==> r->0@ == le_bytes(v),
{
    borsh::to_vec(&v).ok()
}

/// The counter kept in a derived account's data.
#[derive(Clone, Copy, Debug, PartialEq, Eq, Structural)]
pub struct Count(pub u64);

impl Count {
    /// Reads a counter from an account buffer; a buffer that is not exactly
    /// eight bytes long reads as zero.
    pub fn from_data(data: &[u8]) -> (c: Count)
        ensures
            c.0 == counter_value(data@),
    {
        match borsh_u64_from_slice(data) {
            Some(v) => Count(v),
            None => Count(0),
        }
    }

    /// The eight-byte little-endian encoding of the counter.
    pub fn to_bytes(&self) -> (r: Vec<u8>)
        ensures
            r@ == le_bytes(self.0),
            r@.len() == 8,
    {
        match borsh_u64_to_vec(self.0) {
            Some(b) => b,
            None => Vec::new(),
        }
    }

    /// The next counter, or `None` when the counter is at `u64::MAX`.
    pub fn incremented(&self) -> (r: Option<Count>)
        ensures
            r is None <==> self.0 == u64::MAX,
            r matches Some(c) ==> c.0 == self.0 + 1,
    {
        match self.0.checked_add(1) {
            Some(v) => Some(Count(v)),
            None => None,
        }
    }
}

/// Decoding the encoding of any counter value gives that value back.
pub proof fn lemma_counter_round_trip(v: u64)
    ensures
        counter_value(le_bytes(v)) == v,
        le_bytes(v).len() == 8,
{
    let b0: u64 = v % 0x100;
    let b1: u64 = v / 0x100 % 0x100;
    let b2: u64 = v / 0x1_0000 % 0x100;
    let b3: u64 = v / 0x100_0000 % 0x100;
    let b4: u64 = v / 0x1_0000_0000 % 0x100;
    let b5: u64 = v / 0x100_0000_0000 % 0x100;
    let b6: u64 = v / 0x1_0000_0000_0000 % 0x100;
    let b7: u64 = v / 0x100_0000_0000_0000 % 0x100;
    assert(b0 + b1 * 0x100 + b2 * 0x1_0000 + b3 * 0x100_0000 + b4 * 0x1_0000_0000 + b5
        * 0x100_0000_0000 + b6 * 0x1_0000_0000_0000 + b7 * 0x100_0000_0000_0000 == v)
        by (bit_vector)
        requires
            b0 == v % 0x100,
            b1 == v / 0x100 % 0x100,
            b2 == v / 0x1_0000 % 0x100,
            b3 == v / 0x100_0000 % 0x100,
            b4 == v / 0x1_0000_0000 % 0x100,
            b5 == v / 0x100_0000_0000 % 0x100,
            b6 == v / 0x1_0000_0000_0000 % 0x100,
            b7 == v / 0x100_0000_0000_0000 % 0x100,
    ;
}

} // verus!
