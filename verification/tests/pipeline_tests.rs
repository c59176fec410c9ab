use amm_config_client::address::{derive_config_address, is_on_curve, Address};
use amm_config_client::config::load_cfg;
use amm_config_client::errors::PipelineError;
use amm_config_client::instruction::{create_config_account, AccountMeta, Instruction};
use amm_config_client::keys::load_keypair;
use amm_config_client::pipeline::run_create_config;
use amm_config_client::submit::{submit_init, submit_step, SubmitEvent, SubmitPhase};
use amm_config_client::transaction::{assemble_transaction, message_bytes, verify_transaction, Transaction};

use solana_sdk::signer::Signer;
use std::str::FromStr;

const RAYDIUM: &str = "675kPX9MHTjS2zt1qfr1NYHuzeLXfQM9H24wFSUt1Mp8";
const OWNER: &str = "ATokenGPvbdGVxr1b2hvZbsiqW5xWH25efTNsLJA8knL";

fn addr(s: &str) -> Address {
    Address { bytes: solana_sdk::pubkey::Pubkey::from_str(s).unwrap().to_bytes() }
}

fn fresh_key_bytes() -> Vec<u8> {
    solana_sdk::signature::Keypair::new().to_bytes().to_vec()
}

#[test]
fn derivation_is_deterministic() {
    let program = addr(RAYDIUM);
    let a = derive_config_address(&program).unwrap();
    let b = derive_config_address(&program).unwrap();
    assert_eq!(a.0.bytes, b.0.bytes);
    assert_eq!(a.1, b.1);
}

#[test]
fn derivation_matches_platform() {
    let program = addr(RAYDIUM);
    let ours = derive_config_address(&program).unwrap();
    let program_id = solana_sdk::pubkey::Pubkey::from_str(RAYDIUM).unwrap();
    let (expected, bump) =
        solana_sdk::pubkey::Pubkey::find_program_address(&[b"amm_config_account"], &program_id);
    assert_eq!(ours.0.bytes, expected.to_bytes());
    assert_eq!(ours.1, bump);
}

#[test]
fn derived_address_is_off_curve() {
    let program = addr(RAYDIUM);
    let derived = derive_config_address(&program).unwrap().0;
    assert!(!is_on_curve(&derived));
    // Sanity of the curve test itself: a real public key is on the curve.
    let kp = load_keypair(Some(fresh_key_bytes())).unwrap();
    assert!(is_on_curve(&kp.pubkey()));
    assert_ne!(derived.bytes, program.bytes);
}

#[test]
fn create_config_account_builds_fixed_account_list() {
    let program = addr(RAYDIUM);
    let admin = addr("TokenkegQfeZyiNwAJbNbGKPFXCWuBvf9Ss623VQ5DA");
    let derived = derive_config_address(&program).unwrap().0;
    let owner = addr(OWNER);
    let ix = create_config_account(&program, &admin, &derived, &owner, 0).unwrap();
    assert_eq!(ix.program.bytes, program.bytes);
    assert_eq!(ix.accounts.len(), 3);
    assert_eq!(ix.accounts[0].address.bytes, admin.bytes);
    assert!(ix.accounts[0].is_signer);
    assert!(!ix.accounts[0].is_writable);
    assert_eq!(ix.accounts[1].address.bytes, derived.bytes);
    assert!(!ix.accounts[1].is_signer);
    assert!(ix.accounts[1].is_writable);
    assert_eq!(ix.accounts[2].address.bytes, owner.bytes);
    assert!(!ix.accounts[2].is_signer);
    assert!(!ix.accounts[2].is_writable);
    assert_eq!(ix.data, vec![0u8]);
}

#[test]
fn create_config_account_rejects_zero_address() {
    let program = addr(RAYDIUM);
    let zero = Address { bytes: [0u8; 32] };
    let owner = addr(OWNER);
    let derived = derive_config_address(&program).unwrap().0;
    let err = create_config_account(&program, &zero, &derived, &owner, 0).unwrap_err();
    assert_eq!(err, PipelineError::InstructionBuild);
}

#[test]
fn load_keypair_unreadable_file_is_key_load_error() {
    assert_eq!(load_keypair(None).unwrap_err(), PipelineError::KeyLoad);
}

#[test]
fn load_keypair_rejects_invalid_bytes() {
    assert_eq!(load_keypair(Some(vec![0u8; 64])).unwrap_err(), PipelineError::KeyLoad);
    assert_eq!(load_keypair(Some(vec![7u8; 63])).unwrap_err(), PipelineError::KeyLoad);
}

#[test]
fn load_keypair_accepts_valid_bytes() {
    let solana_kp = solana_sdk::signature::Keypair::new();
    let kp = load_keypair(Some(solana_kp.to_bytes().to_vec())).unwrap();
    assert_eq!(kp.pubkey().bytes, solana_kp.pubkey().to_bytes());
}

fn signer_instruction(signer: &Address, program: &Address) -> Instruction {
    Instruction {
        program: *program,
        accounts: vec![AccountMeta { address: *signer, is_signer: true, is_writable: false }],
        data: vec![1u8],
    }
}

#[test]
fn assemble_rejects_missing_signer() {
    let program = addr(RAYDIUM);
    let payer = load_keypair(Some(fresh_key_bytes())).unwrap();
    let stranger = load_keypair(Some(fresh_key_bytes())).unwrap();
    let ix = signer_instruction(&stranger.pubkey(), &program);
    let signers = vec![payer.duplicate()];
    let err = assemble_transaction(vec![ix], &payer.pubkey(), &signers, &[1u8; 32]).unwrap_err();
    assert_eq!(err, PipelineError::MissingSigner);
}

#[test]
fn assemble_rejects_unsigned_fee_payer() {
    let program = addr(RAYDIUM);
    let payer = load_keypair(Some(fresh_key_bytes())).unwrap();
    let admin = load_keypair(Some(fresh_key_bytes())).unwrap();
    let ix = signer_instruction(&admin.pubkey(), &program);
    let signers = vec![admin.duplicate()];
    let err = assemble_transaction(vec![ix], &payer.pubkey(), &signers, &[1u8; 32]).unwrap_err();
    assert_eq!(err, PipelineError::MissingSigner);
}

#[test]
fn assemble_signs_with_every_signer_in_order() {
    let program = addr(RAYDIUM);
    let payer = load_keypair(Some(fresh_key_bytes())).unwrap();
    let admin = load_keypair(Some(fresh_key_bytes())).unwrap();
    let ix = signer_instruction(&admin.pubkey(), &program);
    let signers = vec![payer.duplicate(), admin.duplicate()];
    let t = assemble_transaction(vec![ix], &payer.pubkey(), &signers, &[1u8; 32]).unwrap();
    assert_eq!(t.signatures.len(), 2);
    assert_eq!(t.signatures[0].pubkey.bytes, payer.pubkey().bytes);
    assert_eq!(t.signatures[1].pubkey.bytes, admin.pubkey().bytes);
    assert!(verify_transaction(&t));
}

#[test]
fn signatures_match_the_platform_signer() {
    let program = addr(RAYDIUM);
    let payer_bytes = fresh_key_bytes();
    let payer = load_keypair(Some(payer_bytes.clone())).unwrap();
    let ix = signer_instruction(&payer.pubkey(), &program);
    let token = [3u8; 32];
    let signers = vec![payer.duplicate()];
    let t = assemble_transaction(vec![ix.clone()], &payer.pubkey(), &signers, &token).unwrap();
    let msg = message_bytes(&vec![ix], &payer.pubkey(), &token);
    let solana_kp = solana_sdk::signature::Keypair::from_bytes(&payer_bytes).unwrap();
    let expected = solana_kp.sign_message(&msg);
    assert_eq!(t.signatures[0].sig.as_slice(), expected.as_ref());
}

#[test]
fn changing_token_invalidates_signatures() {
    let program = addr(RAYDIUM);
    let payer = load_keypair(Some(fresh_key_bytes())).unwrap();
    let ix = signer_instruction(&payer.pubkey(), &program);
    let signers = vec![payer.duplicate()];
    let t = assemble_transaction(vec![ix], &payer.pubkey(), &signers, &[1u8; 32]).unwrap();
    assert!(verify_transaction(&t));
    let stale = Transaction {
        instructions: t.instructions.clone(),
        fee_payer: t.fee_payer,
        recent_token: [2u8; 32],
        signatures: t.signatures.clone(),
    };
    assert!(!verify_transaction(&stale));
}

#[test]
fn end_to_end_create_config_account() {
    let text = format!(
        "[Global]\nhttp_url = https://node.example/rpc\nws_url = wss://node.example/ws\npayer_path = /keys/payer.json\nadmin_path = /keys/admin.json\nraydium_program = {}\npnl_owner = {}\n",
        RAYDIUM, OWNER
    )
    .into_bytes();
    let cfg = load_cfg(&text).unwrap();
    let payer_bytes = fresh_key_bytes();
    let admin_bytes = fresh_key_bytes();
    let payer = load_keypair(Some(payer_bytes.clone())).unwrap();
    let admin = load_keypair(Some(admin_bytes.clone())).unwrap();
    let token = [1u8; 32];
    let t = run_create_config(&cfg, Some(payer_bytes), Some(admin_bytes), &token, 0).unwrap();
    assert_eq!(t.instructions.len(), 1);
    let ix = &t.instructions[0];
    assert_eq!(ix.program.bytes, cfg.raydium_program.bytes);
    assert_eq!(ix.accounts.len(), 3);
    let derived = derive_config_address(&cfg.raydium_program).unwrap().0;
    assert_eq!(ix.accounts[0].address.bytes, admin.pubkey().bytes);
    assert!(ix.accounts[0].is_signer && !ix.accounts[0].is_writable);
    assert_eq!(ix.accounts[1].address.bytes, derived.bytes);
    assert!(!ix.accounts[1].is_signer && ix.accounts[1].is_writable);
    assert_eq!(ix.accounts[2].address.bytes, cfg.pnl_owner.bytes);
    assert!(!ix.accounts[2].is_signer && !ix.accounts[2].is_writable);
    assert_eq!(t.fee_payer.bytes, payer.pubkey().bytes);
    assert_eq!(t.recent_token, token);
    assert_eq!(t.signatures.len(), 2);
    assert_eq!(t.signatures[0].pubkey.bytes, payer.pubkey().bytes);
    assert_eq!(t.signatures[1].pubkey.bytes, admin.pubkey().bytes);
    assert!(verify_transaction(&t));

    // Submission: the accepted and confirmed transaction identifier comes
    // back out of the state machine.
    let st = submit_init(true, 5);
    let st = submit_step(st, SubmitEvent::TokenFetched);
    let st = submit_step(st, SubmitEvent::Accepted(t.signatures[0].sig.clone()));
    let st = submit_step(st, SubmitEvent::Confirmed);
    match st.phase {
        SubmitPhase::Succeeded(id) => assert_eq!(id, t.signatures[0].sig),
        _ => panic!("expected the submission to succeed"),
    }
}

#[test]
fn missing_admin_key_file_is_key_load_error() {
    let text = format!(
        "[Global]\nhttp_url = h\nws_url = w\npayer_path = p\nadmin_path = a\nraydium_program = {}\npnl_owner = {}\n",
        RAYDIUM, OWNER
    )
    .into_bytes();
    let cfg = load_cfg(&text).unwrap();
    let err = run_create_config(&cfg, Some(fresh_key_bytes()), None, &[1u8; 32], 0).unwrap_err();
    assert_eq!(err, PipelineError::KeyLoad);
}
