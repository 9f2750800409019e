use vstd::prelude::*;
use crate::address::{Address, spec_system_program_id, system_program_address};
use crate::codec::{encode, spec_encode};
use crate::image::Image;

verus! {

/// One account an instruction touches, with its access flags.
#[derive(Debug)]
pub struct AccountMeta {
    pub address: Address,
    pub is_signer: bool,
    pub is_writable: bool,
}

/// An instruction for the on-chain program: the program to run, the ordered
/// accounts it may touch, and its opaque payload bytes.
#[derive(Debug)]
pub struct Instruction {
    pub program_id: Address,
    pub accounts: Vec<AccountMeta>,
    pub data: Vec<u8>,
}

/// The account entry `m` names `address` with exactly these access flags.
pub open spec fn spec_meta(m: AccountMeta, address: Seq<u8>, is_signer: bool, is_writable: bool) -> bool {
    m.address@ == address && m.is_signer == is_signer && m.is_writable == is_writable
}

/// The three accounts every instruction of this client carries: the signer
/// (writable, signs and pays), the target record address (writable), and the
/// system program (read-only).
pub open spec fn spec_client_accounts(accounts: Seq<AccountMeta>, signer: Seq<u8>, target: Seq<u8>) -> bool {
    accounts.len() == 3 && spec_meta(accounts[0], signer, true, true) && spec_meta(
        accounts[1],
        target,
        false,
        true,
    ) && spec_meta(accounts[2], spec_system_program_id(), false, false)
}

fn client_accounts(signer: &Address, target: &Address) -> (r: Vec<AccountMeta>)
    ensures
        spec_client_accounts(r@, signer@, target@),
{
    let mut accounts: Vec<AccountMeta> = Vec::new();
    accounts.push(AccountMeta { address: signer.duplicate(), is_signer: true, is_writable: true });
    accounts.push(
        AccountMeta { address: target.duplicate(), is_signer: false, is_writable: true },
    );
    accounts.push(
        AccountMeta { address: system_program_address(), is_signer: false, is_writable: false },
    );
    accounts
}

/// Build the create instruction: the signer pays and signs, the derived
/// address receives the record, the system program rides along read-only,
/// and the payload is the encoded record.
pub fn build_create_instruction(
    program: &Address,
    signer: &Address,
    derived: &Address,
    image: &Image,
) -> (r: Instruction)
    ensures
        r.program_id@ == program@,
        spec_client_accounts(r.accounts@, signer@, derived@),
        r.data@ == spec_encode(image@),
{
    Instruction {
        program_id: program.duplicate(),
        accounts: client_accounts(signer, derived),
        data: encode(image),
    }
}

/// Build the close instruction: the same three accounts, aimed at the record
/// to close, with an empty payload.
pub fn build_close_instruction(program: &Address, signer: &Address, target: &Address) -> (r:
    Instruction)
    ensures
        r.program_id@ == program@,
        spec_client_accounts(r.accounts@, signer@, target@),
        r.data@ == Seq::<u8>::empty(),
{
    Instruction {
        program_id: program.duplicate(),
        accounts: client_accounts(signer, target),
        data: Vec::new(),
    }
}

} // verus!
