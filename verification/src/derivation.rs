use vstd::prelude::*;
use crate::address::Address;
use solana_pubkey::Pubkey;

verus! {

/// The longest single seed, in bytes, that address derivation accepts.
pub const MAX_SEED_LEN: usize = 32;

/// Address derivation failed.
#[derive(Debug, Clone, Copy, PartialEq, Eq, Structural)]
pub enum DeriveError {
    /// The title is longer than `MAX_SEED_LEN` bytes, so no bump search was
    /// attempted.
    SeedTooLong,
    /// The bump search itself found no address off the curve (statistically
    /// all but impossible).
    NoViableBump,
}

/// What the network's bump search yields for the seed pair
/// `(signer key bytes, title bytes)` under a program id: `None` where no
/// bump works, otherwise the derived 32 address bytes and the bump.
pub uninterp spec fn spec_derived_address(
    signer: Seq<u8>,
    title: Seq<u8>,
    program: Seq<u8>,
) -> Option<(Seq<u8>, u8)>;

/// Relies on `solana_pubkey::Pubkey::try_find_program_address`: the bump
/// search hashes the seed bytes and the program id and nothing else, so its
/// outcome is a pure function of them; a returned address is 32 bytes; and
/// the search returns `None` rather than panicking when it fails.
#[verifier::external_body]
fn try_find_derived_address(signer: &Address, title: &[u8], program: &Address) -> (r: Option<
    (Address, u8),
>)
    requires
        signer.wf(),
        program.wf(),
    ensures
        match r {
            Some(p) => spec_derived_address(signer@, title@, program@) == Some((p.0@, p.1))
                && p.0.wf(),
            None => spec_derived_address(signer@, title@, program@) is None,
        },
{
    let program_key = Pubkey::try_from(program.bytes.as_slice()).unwrap();
    let found = Pubkey::try_find_program_address(&[signer.bytes.as_slice(), title], &program_key);
    found.map(|(key, bump)| (Address { bytes: key.to_bytes().to_vec() }, bump))
}

/// Derive the program-owned address of a record: the signer's key bytes and
/// the record's title are the seeds of the network's bump search. A title
/// longer than `MAX_SEED_LEN` bytes is rejected before any derivation is
/// attempted.
pub fn derive_record_address(signer: &Address, title: &[u8], program: &Address) -> (r: Result<
    (Address, u8),
    DeriveError,
>)
    requires
        signer.wf(),
        program.wf(),
    ensures
        title@.len() > MAX_SEED_LEN ==> r == Err::<(Address, u8), DeriveError>(
            DeriveError::SeedTooLong,
        ),
        title@.len() <= MAX_SEED_LEN ==> match spec_derived_address(signer@, title@, program@) {
            Some(p) => r is Ok && r->Ok_0.0@ == p.0 && r->Ok_0.1 == p.1 && r->Ok_0.0.wf(),
            None => r == Err::<(Address, u8), DeriveError>(DeriveError::NoViableBump),
        },
{
    if title.len() > MAX_SEED_LEN {
        return Err(DeriveError::SeedTooLong);
    }
    match try_find_derived_address(signer, title, program) {
        Some(found) => Ok(found),
        None => Err(DeriveError::NoViableBump),
    }
}

/// Law: derivation is deterministic. The same signer key, title and program
/// id always yield the same derived address and bump.
pub proof fn lemma_derivation_deterministic(
    signer1: Seq<u8>,
    title1: Seq<u8>,
    program1: Seq<u8>,
    signer2: Seq<u8>,
    title2: Seq<u8>,
    program2: Seq<u8>,
)
    requires
        signer1 == signer2,
        title1 == title2,
        program1 == program2,
    ensures
        spec_derived_address(signer1, title1, program1) == spec_derived_address(
            signer2,
            title2,
            program2,
        ),
{
}

} // verus!
