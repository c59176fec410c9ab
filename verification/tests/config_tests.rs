use amm_config_client::address::parse_address;
use amm_config_client::config::{load_cfg, ClientConfig};
use amm_config_client::errors::{ConfigError, ConfigKey};
use amm_config_client::ini::ini_lookup;

use std::str::FromStr;

const RAYDIUM: &str = "675kPX9MHTjS2zt1qfr1NYHuzeLXfQM9H24wFSUt1Mp8";
const OWNER: &str = "ATokenGPvbdGVxr1b2hvZbsiqW5xWH25efTNsLJA8knL";

fn cfg_text(raydium: &str, pnl: &str) -> Vec<u8> {
    format!(
        "[Global]\nhttp_url = https://node.example/rpc\nws_url = wss://node.example/ws\npayer_path = /keys/payer.json\nadmin_path = /keys/admin.json\nraydium_program = {}\npnl_owner = {}\n",
        raydium, pnl
    )
    .into_bytes()
}

#[test]
fn load_cfg_returns_fully_populated_record() {
    let cfg: ClientConfig = load_cfg(&cfg_text(RAYDIUM, OWNER)).unwrap();
    assert_eq!(cfg.http_url, b"https://node.example/rpc".to_vec());
    assert_eq!(cfg.ws_url, b"wss://node.example/ws".to_vec());
    assert_eq!(cfg.payer_path, b"/keys/payer.json".to_vec());
    assert_eq!(cfg.admin_path, b"/keys/admin.json".to_vec());
    let expected_program = solana_sdk::pubkey::Pubkey::from_str(RAYDIUM).unwrap().to_bytes();
    let expected_owner = solana_sdk::pubkey::Pubkey::from_str(OWNER).unwrap().to_bytes();
    assert_eq!(cfg.raydium_program.bytes, expected_program);
    assert_eq!(cfg.pnl_owner.bytes, expected_owner);
}

#[test]
fn load_cfg_missing_pnl_owner_is_config_error() {
    let text = format!(
        "[Global]\nhttp_url = h\nws_url = w\npayer_path = p\nadmin_path = a\nraydium_program = {}\n",
        RAYDIUM
    )
    .into_bytes();
    let err = load_cfg(&text).unwrap_err();
    assert_eq!(err, ConfigError::Missing(ConfigKey::PnlOwner));
}

#[test]
fn load_cfg_empty_value_is_config_error() {
    let text = format!(
        "[Global]\nhttp_url = h\nws_url =\npayer_path = p\nadmin_path = a\nraydium_program = {}\npnl_owner = {}\n",
        RAYDIUM, OWNER
    )
    .into_bytes();
    let err = load_cfg(&text).unwrap_err();
    assert_eq!(err, ConfigError::Empty(ConfigKey::WsUrl));
}

#[test]
fn load_cfg_malformed_address_is_config_error() {
    let err = load_cfg(&cfg_text("not~a~base58~address", OWNER)).unwrap_err();
    assert_eq!(err, ConfigError::MalformedAddress(ConfigKey::RaydiumProgram));
}

#[test]
fn load_cfg_missing_section_reports_first_key() {
    let err = load_cfg(&b"http_url = h\n".to_vec()).unwrap_err();
    assert_eq!(err, ConfigError::Missing(ConfigKey::HttpUrl));
}

#[test]
fn ini_lookup_is_case_insensitive() {
    let text = b"[GLOBAL]\nHTTP_URL = https://upper.example\n".to_vec();
    let v = ini_lookup(&text, &b"global".to_vec(), &b"http_url".to_vec()).unwrap();
    assert_eq!(v, b"https://upper.example".to_vec());
}

#[test]
fn ini_lookup_later_assignment_wins() {
    let text = b"[Global]\nhttp_url = first\nhttp_url = second\n".to_vec();
    let v = ini_lookup(&text, &b"global".to_vec(), &b"http_url".to_vec()).unwrap();
    assert_eq!(v, b"second".to_vec());
}

#[test]
fn ini_lookup_skips_comments_and_other_sections() {
    let text =
        b"; a comment\n# another\n[Other]\nhttp_url = wrong\n[Global]\nhttp_url = right\n".to_vec();
    let v = ini_lookup(&text, &b"global".to_vec(), &b"http_url".to_vec()).unwrap();
    assert_eq!(v, b"right".to_vec());
    assert!(ini_lookup(&text, &b"global".to_vec(), &b"missing".to_vec()).is_none());
}

#[test]
fn parse_address_decodes_base58() {
    let zero = parse_address(&b"11111111111111111111111111111111".to_vec()).unwrap();
    assert_eq!(zero.bytes, [0u8; 32]);
    let tok = parse_address(&b"TokenkegQfeZyiNwAJbNbGKPFXCWuBvf9Ss623VQ5DA".to_vec()).unwrap();
    let expected = solana_sdk::pubkey::Pubkey::from_str("TokenkegQfeZyiNwAJbNbGKPFXCWuBvf9Ss623VQ5DA")
        .unwrap()
        .to_bytes();
    assert_eq!(tok.bytes, expected);
    assert!(parse_address(&b"not base58".to_vec()).is_none());
}
