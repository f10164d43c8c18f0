use vstd::prelude::*;

verus! {

/// A 32-byte identity: a program, a signing key or a derived account.
#[derive(Clone, Copy, Debug, PartialEq, Eq)]
pub struct Address {
    pub bytes: [u8; 32],
}

impl View for Address {
    type V = Seq<u8>;

    open spec fn view(&self) -> Seq<u8> {
        self.bytes@
    }
}

/// A derived account address with the bump seed that made it off the curve.
#[derive(Clone, Copy, Debug, PartialEq, Eq)]
pub struct Derived {
    pub address: Address,
    pub bump: u8,
}

/// The program-derived address and bump seed found for a seed under a program
/// identity, or `None` when no bump seed gives an address off the curve.
pub uninterp spec fn program_address_of(seed: Seq<u8>, program: Seq<u8>) -> Option<(Seq<u8>, u8)>;

/// Whether 32 bytes decompress to a point of the ed25519 curve, that is,
/// whether they can be the public half of a signing key.
pub uninterp spec fn is_curve_point(bytes: Seq<u8>) -> bool;

/// Relies on solana-program's `Pubkey::try_find_program_address`: its result
/// depends on the seeds and the program identity alone, and an address it
/// returns is one that `create_program_address` accepted, which refuses every
/// hash that is a curve point.
#[verifier::external_body]
fn try_find_program_address(seed: &Address, program: &Address) -> (r: Option<Derived>)
    ensures
        r is None <==> program_address_of(seed@, program@) is None,
        r matches Some(d) ==> program_address_of(seed@, program@) == Some((d.address@, d.bump)),
        r matches Some(d) ==> !is_curve_point(d.address@),
{
    let program_id = solana_program::pubkey::Pubkey::new_from_array(program.bytes);
    match solana_program::pubkey::Pubkey::try_find_program_address(&[&seed.bytes[..]], &program_id) {
        Some((key, bump)) => Some(Derived { address: Address { bytes: key.to_bytes() }, bump }),
        None => None,
    }
}

/// Whether two addresses hold the same bytes.
pub fn same_address(a: &Address, b: &Address) -> (r: bool)
    ensures
        r == (a@ == b@),
{
    let mut i: usize = 0;
    while i < 32
        invariant
            0 <= i <= 32,
            a@.len() == 32,
            b@.len() == 32,
            forall|j: int| 0 <= j < i ==> a@[j] == b@[j],
        decreases 32 - i,
    {
        if a.bytes[i] != b.bytes[i] {
            return false;
        }
        i = i + 1;
    }
    assert(a@ =~= b@);
    true
}

/// Derives the account address that `program` controls for the owner
/// identity `owner`, with the bump seed that made it; `None` when no bump seed
/// gives an address off the curve.
pub fn derive_address(owner: &Address, program: &Address) -> (r: Option<Derived>)
    ensures
        derivation_matches(owner@, program@, r),
        r matches Some(d) ==> !is_curve_point(d.address@),
{
    try_find_program_address(owner, program)
}

/// `r` is what the derivation gives for `owner` under `program`.
pub open spec fn derivation_matches(owner: Seq<u8>, program: Seq<u8>, r: Option<Derived>) -> bool {
    match program_address_of(owner, program) {
        Some((a, b)) => r matches Some(d) && d.address@ == a && d.bump == b,
        None => r is None,
    }
}

/// Derivation is a function of the owner and the program: any two results
/// of `derive_address` on the same identities hold the same address and the
/// same bump seed.
pub proof fn lemma_derivation_deterministic(
    owner: Address,
    program: Address,
    r1: Option<Derived>,
    r2: Option<Derived>,
)
    requires
        derivation_matches(owner@, program@, r1),
        derivation_matches(owner@, program@, r2),
    ensures
        r1 is Some <==> r2 is Some,
        r1 matches Some(d1) ==> r2 matches Some(d2) && d1.address@ == d2.address@ && d1.bump
            == d2.bump,
{
}

} // verus!
