//! The configuration loader: six required keys under the `[Global]` section
//! of an INI-style file, validated into an immutable settings record.
use vstd::prelude::*;

use crate::address::{parse_address, parsed_pubkey, Address};
use crate::errors::{ConfigError, ConfigKey};
use crate::ini::{ini_lookup, ini_lookup_spec};

verus! {

/// The section that holds every required key: `global`.
pub open spec fn global_section() -> Seq<u8> {
    seq![103u8, 108u8, 111u8, 98u8, 97u8, 108u8]
}

/// `http_url`.
pub open spec fn key_http_url() -> Seq<u8> {
    seq![104u8, 116u8, 116u8, 112u8, 95u8, 117u8, 114u8, 108u8]
}

/// `ws_url`.
pub open spec fn key_ws_url() -> Seq<u8> {
    seq![119u8, 115u8, 95u8, 117u8, 114u8, 108u8]
}

/// `payer_path`.
pub open spec fn key_payer_path() -> Seq<u8> {
    seq![112u8, 97u8, 121u8, 101u8, 114u8, 95u8, 112u8, 97u8, 116u8, 104u8]
}

/// `admin_path`.
pub open spec fn key_admin_path() -> Seq<u8> {
    seq![97u8, 100u8, 109u8, 105u8, 110u8, 95u8, 112u8, 97u8, 116u8, 104u8]
}

/// `raydium_program`.
pub open spec fn key_raydium_program() -> Seq<u8> {
    seq![
        114u8,
        97u8,
        121u8,
        100u8,
        105u8,
        117u8,
        109u8,
        95u8,
        112u8,
        114u8,
        111u8,
        103u8,
        114u8,
        97u8,
        109u8,
    ]
}

/// `pnl_owner`.
pub open spec fn key_pnl_owner() -> Seq<u8> {
    seq![112u8, 110u8, 108u8, 95u8, 111u8, 119u8, 110u8, 101u8, 114u8]
}

/// The spelled-out key a `ConfigKey` names.
pub open spec fn key_bytes_spec(key: ConfigKey) -> Seq<u8> {
    match key {
        ConfigKey::HttpUrl => key_http_url(),
        ConfigKey::WsUrl => key_ws_url(),
        ConfigKey::PayerPath => key_payer_path(),
        ConfigKey::AdminPath => key_admin_path(),
        ConfigKey::RaydiumProgram => key_raydium_program(),
        ConfigKey::PnlOwner => key_pnl_owner(),
    }
}

/// The spelled-out key a `ConfigKey` names, as bytes.
pub fn key_bytes(key: ConfigKey) -> (r: Vec<u8>)
    ensures
        r@ == key_bytes_spec(key),
{
    let r: Vec<u8> = match key {
        ConfigKey::HttpUrl => vec![104u8, 116u8, 116u8, 112u8, 95u8, 117u8, 114u8, 108u8],
        ConfigKey::WsUrl => vec![119u8, 115u8, 95u8, 117u8, 114u8, 108u8],
        ConfigKey::PayerPath => vec![
            112u8,
            97u8,
            121u8,
            101u8,
            114u8,
            95u8,
            112u8,
            97u8,
            116u8,
            104u8,
        ],
        ConfigKey::AdminPath => vec![
            97u8,
            100u8,
            109u8,
            105u8,
            110u8,
            95u8,
            112u8,
            97u8,
            116u8,
            104u8,
        ],
        ConfigKey::RaydiumProgram => vec![
            114u8,
            97u8,
            121u8,
            100u8,
            105u8,
            117u8,
            109u8,
            95u8,
            112u8,
            114u8,
            111u8,
            103u8,
            114u8,
            97u8,
            109u8,
        ],
        ConfigKey::PnlOwner => vec![
            112u8,
            110u8,
            108u8,
            95u8,
            111u8,
            119u8,
            110u8,
            101u8,
            114u8,
        ],
    };
    proof {
        assert(r@ =~= key_bytes_spec(key));
    }
    r
}

/// The value the configuration text gives a key in the `global` section.
pub open spec fn cfg_value(text: Seq<u8>, key: Seq<u8>) -> Option<Seq<u8>> {
    ini_lookup_spec(text, global_section(), key)
}

/// The validated settings record: every field present and non-empty, the
/// two address fields parsed into 32-byte addresses.
#[derive(Debug)]
pub struct ClientConfig {
    pub http_url: Vec<u8>,
    pub ws_url: Vec<u8>,
    pub payer_path: Vec<u8>,
    pub admin_path: Vec<u8>,
    pub raydium_program: Address,
    pub pnl_owner: Address,
}

/// The mathematical content of a `ClientConfig`.
pub struct ClientConfigV {
    pub http_url: Seq<u8>,
    pub ws_url: Seq<u8>,
    pub payer_path: Seq<u8>,
    pub admin_path: Seq<u8>,
    pub raydium_program: Seq<u8>,
    pub pnl_owner: Seq<u8>,
}

impl View for ClientConfig {
    type V = ClientConfigV;

    open spec fn view(&self) -> ClientConfigV {
        ClientConfigV {
            http_url: self.http_url@,
            ws_url: self.ws_url@,
            payer_path: self.payer_path@,
            admin_path: self.admin_path@,
            raydium_program: self.raydium_program@,
            pnl_owner: self.pnl_owner@,
        }
    }
}

/// What loading yields for a given text: checked key by key in a fixed
/// order; a missing key, an empty value, or a malformed address stops the
/// load with the matching error, so a partially populated record never
/// leaves the loader.
pub open spec fn load_cfg_spec(text: Seq<u8>) -> Result<ClientConfigV, ConfigError> {
    let h = cfg_value(text, key_http_url());
    let w = cfg_value(text, key_ws_url());
    let p = cfg_value(text, key_payer_path());
    let a = cfg_value(text, key_admin_path());
    let rp = cfg_value(text, key_raydium_program());
    let po = cfg_value(text, key_pnl_owner());
    if h is None {
        Err(ConfigError::Missing(ConfigKey::HttpUrl))
    } else if h.unwrap().len() == 0 {
        Err(ConfigError::Empty(ConfigKey::HttpUrl))
    } else if w is None {
        Err(ConfigError::Missing(ConfigKey::WsUrl))
    } else if w.unwrap().len() == 0 {
        Err(ConfigError::Empty(ConfigKey::WsUrl))
    } else if p is None {
        Err(ConfigError::Missing(ConfigKey::PayerPath))
    } else if p.unwrap().len() == 0 {
        Err(ConfigError::Empty(ConfigKey::PayerPath))
    } else if a is None {
        Err(ConfigError::Missing(ConfigKey::AdminPath))
    } else if a.unwrap().len() == 0 {
        Err(ConfigError::Empty(ConfigKey::AdminPath))
    } else if rp is None {
        Err(ConfigError::Missing(ConfigKey::RaydiumProgram))
    } else if rp.unwrap().len() == 0 {
        Err(ConfigError::Empty(ConfigKey::RaydiumProgram))
    } else if parsed_pubkey(rp.unwrap()) is None {
        Err(ConfigError::MalformedAddress(ConfigKey::RaydiumProgram))
    } else if po is None {
        Err(ConfigError::Missing(ConfigKey::PnlOwner))
    } else if po.unwrap().len() == 0 {
        Err(ConfigError::Empty(ConfigKey::PnlOwner))
    } else if parsed_pubkey(po.unwrap()) is None {
        Err(ConfigError::MalformedAddress(ConfigKey::PnlOwner))
    } else {
        Ok(
            ClientConfigV {
                http_url: h.unwrap(),
                ws_url: w.unwrap(),
                payer_path: p.unwrap(),
                admin_path: a.unwrap(),
                raydium_program: parsed_pubkey(rp.unwrap()).unwrap(),
                pnl_owner: parsed_pubkey(po.unwrap()).unwrap(),
            },
        )
    }
}

/// Looks one required key up; missing or empty stops the load.
fn required_value(text: &Vec<u8>, section: &Vec<u8>, key: ConfigKey) -> (r: Result<
    Vec<u8>,
    ConfigError,
>)
    requires
        section@ == global_section(),
    ensures
        r is Ok == (cfg_value(text@, key_bytes_spec(key)) matches Some(v) && v.len() > 0),
        r matches Ok(v) ==> cfg_value(text@, key_bytes_spec(key)) == Some(v@),
        r matches Err(e) ==> (cfg_value(text@, key_bytes_spec(key)) is None && e
            == ConfigError::Missing(key)) || (cfg_value(text@, key_bytes_spec(key)) matches Some(v)
            && v.len() == 0 && e == ConfigError::Empty(key)),
{
    let kb = key_bytes(key);
    match ini_lookup(text, section, &kb) {
        None => Err(ConfigError::Missing(key)),
        Some(v) => {
            if v.len() == 0 {
                Err(ConfigError::Empty(key))
            } else {
                Ok(v)
            }
        },
    }
}

/// Parses the configuration text and returns the fully populated record,
/// or the error naming the first requirement the text breaks: each of the
/// six keys must be present under `[Global]` with a non-empty value, and
/// the two address-shaped values must parse. Nothing else is read or
/// touched, so a failed load leaves no partial state.
pub fn load_cfg(text: &Vec<u8>) -> (r: Result<ClientConfig, ConfigError>)
    ensures
        r is Ok == load_cfg_spec(text@) is Ok,
        r matches Ok(c) ==> load_cfg_spec(text@) == Ok::<ClientConfigV, ConfigError>(c@),
        r matches Err(e) ==> load_cfg_spec(text@) == Err::<ClientConfigV, ConfigError>(e),
{
    let section: Vec<u8> = vec![103u8, 108u8, 111u8, 98u8, 97u8, 108u8];
    proof {
        assert(section@ =~= global_section());
    }
    let http_url = match required_value(text, &section, ConfigKey::HttpUrl) {
        Ok(v) => v,
        Err(e) => return Err(e),
    };
    let ws_url = match required_value(text, &section, ConfigKey::WsUrl) {
        Ok(v) => v,
        Err(e) => return Err(e),
    };
    let payer_path = match required_value(text, &section, ConfigKey::PayerPath) {
        Ok(v) => v,
        Err(e) => return Err(e),
    };
    let admin_path = match required_value(text, &section, ConfigKey::AdminPath) {
        Ok(v) => v,
        Err(e) => return Err(e),
    };
    let raydium_program_str = match required_value(text, &section, ConfigKey::RaydiumProgram) {
        Ok(v) => v,
        Err(e) => return Err(e),
    };
    let raydium_program = match parse_address(&raydium_program_str) {
        Some(a) => a,
        None => return Err(ConfigError::MalformedAddress(ConfigKey::RaydiumProgram)),
    };
    let pnl_owner_str = match required_value(text, &section, ConfigKey::PnlOwner) {
        Ok(v) => v,
        Err(e) => return Err(e),
    };
    let pnl_owner = match parse_address(&pnl_owner_str) {
        Some(a) => a,
        None => return Err(ConfigError::MalformedAddress(ConfigKey::PnlOwner)),
    };
    Ok(
        ClientConfig {
            http_url,
            ws_url,
            payer_path,
            admin_path,
            raydium_program,
            pnl_owner,
        },
    )
}

} // verus!
