use vstd::prelude::*;
use vstd::slice::slice_to_vec;
use solana_pubkey::Pubkey;

verus! {

/// A 32-byte account address: the form in which every key the library
/// touches is held — a signer's public key, a derived record address, the
/// on-chain program's id, the system program's id.
#[derive(Debug)]
pub struct Address {
    pub bytes: Vec<u8>,
}

impl View for Address {
    type V = Seq<u8>;

    open spec fn view(&self) -> Seq<u8> {
        self.bytes@
    }
}

impl Address {
    /// An address is well formed when it holds exactly 32 bytes.
    pub open spec fn wf(&self) -> bool {
        self.bytes@.len() == 32
    }

    /// Copy the address.
    pub fn duplicate(&self) -> (r: Address)
        ensures
            r@ == self@,
    {
        Address { bytes: slice_to_vec(self.bytes.as_slice()) }
    }
}

/// The given string does not name an address: it is not the base58 form of
/// exactly 32 bytes.
#[derive(Debug, Clone, Copy, PartialEq, Eq, Structural)]
pub enum AddressError {
    Invalid,
}

/// What decoding a base58 string into 32 address bytes yields; `None` where
/// the string is not the base58 form of exactly 32 bytes.
pub uninterp spec fn spec_address_from_base58(s: Seq<char>) -> Option<Seq<u8>>;

/// Relies on `solana_pubkey::Pubkey`'s `TryFrom<&str>`: it decodes a base58
/// string into the 32 address bytes, a pure function of the characters, and
/// rejects every other string without panicking.
#[verifier::external_body]
fn try_address_from_base58(s: &str) -> (r: Option<Address>)
    ensures
        match r {
            Some(a) => spec_address_from_base58(s@) == Some(a@) && a.wf(),
            None => spec_address_from_base58(s@) is None,
        },
{
    match Pubkey::try_from(s) {
        Ok(key) => Some(Address { bytes: key.to_bytes().to_vec() }),
        Err(_) => None,
    }
}

/// Parse a base58 account address, as it is taken from the command line.
pub fn parse_address(s: &str) -> (r: Result<Address, AddressError>)
    ensures
        match spec_address_from_base58(s@) {
            Some(b) => r is Ok && r->Ok_0@ == b && r->Ok_0.wf(),
            None => r == Err::<Address, AddressError>(AddressError::Invalid),
        },
{
    match try_address_from_base58(s) {
        Some(a) => Ok(a),
        None => Err(AddressError::Invalid),
    }
}

/// The system program's address: 32 zero bytes.
pub open spec fn spec_system_program_id() -> Seq<u8> {
    Seq::new(32, |i: int| 0u8)
}

/// Build the system program's address, 32 zero bytes.
pub fn system_program_address() -> (r: Address)
    ensures
        r.wf(),
        r@ == spec_system_program_id(),
{
    let mut bytes: Vec<u8> = Vec::new();
    let mut i: usize = 0;
    while i < 32
        invariant
            i <= 32,
            bytes@.len() == i,
            forall|j: int| 0 <= j < i ==> bytes@[j] == 0u8,
        decreases 32 - i,
    {
        bytes.push(0u8);
        i = i + 1;
    }
    proof {
        assert(bytes@ =~= spec_system_program_id());
    }
    Address { bytes }
}

/// The base58 form of the on-chain program's id, compiled in.
pub fn program_id_base58() -> (r: &'static str)
    ensures
        r@ == "imgZzuUv47Wwy6aV39mAksorLYZkUfswwp74Bq9PPjX"@,
{
    "imgZzuUv47Wwy6aV39mAksorLYZkUfswwp74Bq9PPjX"
}

/// The on-chain program's address, decoded from its compiled-in base58 form.
pub fn program_address() -> (r: Result<Address, AddressError>)
    ensures
        match spec_address_from_base58("imgZzuUv47Wwy6aV39mAksorLYZkUfswwp74Bq9PPjX"@) {
            Some(b) => r is Ok && r->Ok_0@ == b && r->Ok_0.wf(),
            None => r == Err::<Address, AddressError>(AddressError::Invalid),
        },
{
    parse_address(program_id_base58())
}

} // verus!
