//! The pipeline's spine: from validated settings and key material to the
//! fully signed create-configuration-account transaction.
use vstd::prelude::*;

use crate::address::{amm_config_seed, is_zero_address, on_curve, pda_of, Address};
use crate::config::ClientConfig;
use crate::errors::PipelineError;
use crate::instruction::{create_config_account, create_config_accounts};
use crate::keys::{keybytes_wf, load_keypair, sig_of, Keypair};
use crate::transaction::{
    assemble_transaction, keypairs_wf, message_bytes_spec, signer_pubkeys, signers_cover,
    Transaction,
};

verus! {

/// Whether the build can succeed: the derivation finds a bump, and none of
/// the program, admin, derived and owner addresses is the zero address.
pub open spec fn build_ok(program: Seq<u8>, admin_pk: Seq<u8>, owner: Seq<u8>) -> bool {
    match pda_of(amm_config_seed(), program) {
        Some(q) => !is_zero_address(program) && !is_zero_address(admin_pk) && !is_zero_address(q.0)
            && !is_zero_address(owner),
        None => false,
    }
}

/// Everything a successful build pins down: one instruction targeting the
/// program, the fixed account list over the derived off-curve address, the
/// one-byte payload, the payer as fee payer, the token unchanged, and
/// exactly the payer's and the admin's signatures, in that order, over the
/// transaction's exact message bytes.
pub open spec fn create_config_tx_ok(
    t: Transaction,
    program: Seq<u8>,
    owner: Seq<u8>,
    payer_bytes: Seq<u8>,
    admin_bytes: Seq<u8>,
    token: Seq<u8>,
    discriminant: u8,
) -> bool {
    match pda_of(amm_config_seed(), program) {
        Some(q) => {
            &&& t.instructions@.len() == 1
            &&& t.instructions@[0].program@ == program
            &&& create_config_accounts(
                admin_bytes.subrange(32, 64),
                q.0,
                owner,
                t.instructions@[0].accounts@,
            )
            &&& !on_curve(q.0)
            &&& t.instructions@[0].data@ == seq![discriminant]
            &&& t.fee_payer@ == payer_bytes.subrange(32, 64)
            &&& t.recent_token@ == token
            &&& t.wf()
            &&& t.signatures@.len() == 2
            &&& t.signatures@[0].pubkey@ == payer_bytes.subrange(32, 64)
            &&& t.signatures@[0].sig@ == sig_of(payer_bytes, t.spec_message())
            &&& t.signatures@[1].pubkey@ == admin_bytes.subrange(32, 64)
            &&& t.signatures@[1].sig@ == sig_of(admin_bytes, t.spec_message())
        },
        None => false,
    }
}

/// Builds and signs the create-configuration-account transaction: derives
/// the configuration account's address, builds the one instruction, and
/// assembles the transaction signed by the payer (the fee payer) and the
/// admin, in that order. Fails with `InstructionBuild` exactly when the
/// derivation finds no bump or one of the addresses involved is the zero
/// address; the signer set {payer, admin} always covers the one signing
/// account, so assembly itself never fails.
pub fn build_create_config_transaction(
    cfg: &ClientConfig,
    payer: &Keypair,
    admin: &Keypair,
    recent_token: &[u8; 32],
    discriminant: u8,
) -> (r: Result<Transaction, PipelineError>)
    requires
        payer.wf(),
        admin.wf(),
    ensures
        r is Ok == build_ok(cfg.raydium_program@, admin.spec_pubkey(), cfg.pnl_owner@),
        r matches Ok(t) ==> create_config_tx_ok(
            t,
            cfg.raydium_program@,
            cfg.pnl_owner@,
            payer.bytes@,
            admin.bytes@,
            recent_token@,
            discriminant,
        ),
        r matches Err(e) ==> e == PipelineError::InstructionBuild,
{
    let derived = match crate::address::derive_config_address(&cfg.raydium_program) {
        Some(p) => p,
        None => return Err(PipelineError::InstructionBuild),
    };
    let admin_pk = admin.pubkey();
    let ix = match create_config_account(
        &cfg.raydium_program,
        &admin_pk,
        &derived.0,
        &cfg.pnl_owner,
        discriminant,
    ) {
        Ok(ix) => ix,
        Err(e) => return Err(e),
    };
    let payer_pk = payer.pubkey();
    let mut instructions = Vec::new();
    instructions.push(ix);
    let mut signers: Vec<Keypair> = Vec::new();
    signers.push(payer.duplicate());
    signers.push(admin.duplicate());
    proof {
        assert(keypairs_wf(signers@));
        assert(signer_pubkeys(signers@).len() == 2);
        assert(signer_pubkeys(signers@)[0] == payer.spec_pubkey());
        assert(signer_pubkeys(signers@)[1] == admin.spec_pubkey());
        assert(signer_pubkeys(signers@).contains(payer.spec_pubkey()));
        assert(signer_pubkeys(signers@).contains(admin.spec_pubkey()));
        assert(forall|i: int, j: int|
            0 <= i < instructions@.len() && 0 <= j < instructions@[i].accounts@.len()
                && instructions@[i].accounts@[j].is_signer ==> instructions@[i].accounts@[j].address@
                == admin.spec_pubkey());
        assert(signers_cover(instructions@, signer_pubkeys(signers@)));
    }
    match assemble_transaction(instructions, &payer_pk, &signers, recent_token) {
        Ok(t) => Ok(t),
        Err(_) => Err(PipelineError::MissingSigner),
    }
}

/// The whole computing pipeline of the create-configuration-account
/// command, from plain inputs: the key files' contents (`None` where a file
/// was unreadable) are validated first — the payer's, then the admin's,
/// failing with `KeyLoad` before anything is derived or built — and the
/// signed transaction is then built as `build_create_config_transaction`
/// pins it down.
pub fn run_create_config(
    cfg: &ClientConfig,
    payer_file: Option<Vec<u8>>,
    admin_file: Option<Vec<u8>>,
    recent_token: &[u8; 32],
    discriminant: u8,
) -> (r: Result<Transaction, PipelineError>)
    ensures
        r is Ok == ((payer_file matches Some(pb) && keybytes_wf(pb@)) && (admin_file matches Some(
            ab,
        ) && keybytes_wf(ab@)) && (admin_file matches Some(ab) && build_ok(
            cfg.raydium_program@,
            ab@.subrange(32, 64),
            cfg.pnl_owner@,
        ))),
        r matches Ok(t) ==> (payer_file matches Some(pb) && admin_file matches Some(ab)
            && create_config_tx_ok(
            t,
            cfg.raydium_program@,
            cfg.pnl_owner@,
            pb@,
            ab@,
            recent_token@,
            discriminant,
        )),
        r matches Err(e) ==> (e == PipelineError::KeyLoad && !((payer_file matches Some(pb)
            && keybytes_wf(pb@)) && (admin_file matches Some(ab) && keybytes_wf(ab@)))) || (e
            == PipelineError::InstructionBuild && (admin_file matches Some(ab) && keybytes_wf(ab@)
            && !build_ok(cfg.raydium_program@, ab@.subrange(32, 64), cfg.pnl_owner@))),
{
    let payer = match load_keypair(payer_file) {
        Ok(kp) => kp,
        Err(e) => return Err(e),
    };
    let admin = match load_keypair(admin_file) {
        Ok(kp) => kp,
        Err(e) => return Err(e),
    };
    build_create_config_transaction(cfg, &payer, &admin, recent_token, discriminant)
}

} // verus!
