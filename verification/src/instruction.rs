//! The instruction builder: one instruction targeting the AMM program, with
//! the fixed, program-defined account ordering and flags, and an opaque
//! one-byte discriminant payload.
use vstd::prelude::*;

use crate::address::{is_zero_address, Address};
use crate::errors::PipelineError;

verus! {

/// One account reference of an instruction: address plus signer/writable
/// flags.
#[derive(Clone, Copy, Debug, PartialEq, Eq)]
pub struct AccountMeta {
    pub address: Address,
    pub is_signer: bool,
    pub is_writable: bool,
}

/// One instruction: target program, ordered account references, opaque
/// payload bytes.
#[derive(Clone, Debug, PartialEq, Eq)]
pub struct Instruction {
    pub program: Address,
    pub accounts: Vec<AccountMeta>,
    pub data: Vec<u8>,
}

/// The fixed account list of the create-configuration-account instruction:
/// the admin signs but is not written, the derived configuration account is
/// written but does not sign (the program itself authorizes it), and the
/// designated owner neither signs nor is written.
pub open spec fn create_config_accounts(
    admin: Seq<u8>,
    amm_config: Seq<u8>,
    pnl_owner: Seq<u8>,
    accounts: Seq<AccountMeta>,
) -> bool {
    &&& accounts.len() == 3
    &&& accounts[0].address@ == admin
    &&& accounts[0].is_signer
    &&& !accounts[0].is_writable
    &&& accounts[1].address@ == amm_config
    &&& !accounts[1].is_signer
    &&& accounts[1].is_writable
    &&& accounts[2].address@ == pnl_owner
    &&& !accounts[2].is_signer
    &&& !accounts[2].is_writable
}

/// Builds the create-configuration-account instruction for the given
/// discriminant and addresses. Fails, with `InstructionBuild` and before
/// anything else happens, exactly when one of the addresses is the zero
/// (default) address; otherwise the account list is the fixed one above and
/// the payload is the one discriminant byte, so it is never empty.
pub fn create_config_account(
    program: &Address,
    admin: &Address,
    amm_config: &Address,
    pnl_owner: &Address,
    discriminant: u8,
) -> (r: Result<Instruction, PipelineError>)
    ensures
        r is Ok == !(is_zero_address(program@) || is_zero_address(admin@) || is_zero_address(
            amm_config@,
        ) || is_zero_address(pnl_owner@)),
        r matches Ok(ix) ==> ix.program@ == program@ && create_config_accounts(
            admin@,
            amm_config@,
            pnl_owner@,
            ix.accounts@,
        ) && ix.data@ == seq![discriminant] && ix.data@.len() > 0,
        r matches Err(e) ==> e == PipelineError::InstructionBuild,
{
    if program.is_zero() || admin.is_zero() || amm_config.is_zero() || pnl_owner.is_zero() {
        return Err(PipelineError::InstructionBuild);
    }
    let mut accounts: Vec<AccountMeta> = Vec::new();
    accounts.push(AccountMeta { address: *admin, is_signer: true, is_writable: false });
    accounts.push(AccountMeta { address: *amm_config, is_signer: false, is_writable: true });
    accounts.push(AccountMeta { address: *pnl_owner, is_signer: false, is_writable: false });
    let mut data: Vec<u8> = Vec::new();
    data.push(discriminant);
    proof {
        assert(data@ =~= seq![discriminant]);
    }
    Ok(Instruction { program: *program, accounts, data })
}

} // verus!
