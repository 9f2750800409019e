use vstd::prelude::*;
use crate::address::Address;
use crate::codec::spec_encode;
use crate::derivation::{DeriveError, MAX_SEED_LEN, derive_record_address, spec_derived_address};
use crate::image::{Image, ImageView};
use crate::instruction::{Instruction, build_create_instruction, spec_client_accounts};

verus! {

/// Everything the add operation computes before the network is touched: the
/// record's derived address with its bump, and the create instruction to
/// submit.
#[derive(Debug)]
pub struct AddPlan {
    pub derived: Address,
    pub bump: u8,
    pub instruction: Instruction,
}

/// A correct add plan for `image` under `signer` and `program`: the address
/// and bump are the derived ones, and the instruction is the create
/// instruction aimed at that address, carrying the encoded record.
pub open spec fn spec_add_plan(
    plan: AddPlan,
    signer: Seq<u8>,
    program: Seq<u8>,
    image: ImageView,
) -> bool {
    &&& spec_derived_address(signer, image.title, program) == Some((plan.derived@, plan.bump))
    &&& plan.instruction.program_id@ == program
    &&& spec_client_accounts(plan.instruction.accounts@, signer, plan.derived@)
    &&& plan.instruction.data@ == spec_encode(image)
}

/// Prepare the add operation: derive the record's address from the signer's
/// key and the record's title, and build the create instruction that carries
/// the encoded record. Fails exactly where derivation fails, and an overlong
/// title is refused before any derivation is attempted; nothing here touches
/// the network.
pub fn plan_add(program: &Address, signer: &Address, image: &Image) -> (r: Result<
    AddPlan,
    DeriveError,
>)
    requires
        signer.wf(),
        program.wf(),
    ensures
        image.title@.len() > MAX_SEED_LEN ==> r == Err::<AddPlan, DeriveError>(
            DeriveError::SeedTooLong,
        ),
        image.title@.len() <= MAX_SEED_LEN ==> match spec_derived_address(
            signer@,
            image.title@,
            program@,
        ) {
            Some(p) => r is Ok && spec_add_plan(r->Ok_0, signer@, program@, image@)
                && r->Ok_0.derived.wf(),
            None => r == Err::<AddPlan, DeriveError>(DeriveError::NoViableBump),
        },
{
    let (derived, bump) = match derive_record_address(signer, image.title.as_slice(), program) {
        Ok(p) => p,
        Err(e) => {
            return Err(e);
        },
    };
    let instruction = build_create_instruction(program, signer, &derived, image);
    Ok(AddPlan { derived, bump, instruction })
}

} // verus!
