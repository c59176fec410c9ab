//! Fixed-length account addresses, base58 parsing, and deterministic
//! program-derived-address computation.
use vstd::prelude::*;

use std::str::FromStr;

verus! {

/// A 32-byte account address.
#[derive(Clone, Copy, Debug, PartialEq, Eq, Hash)]
pub struct Address {
    pub bytes: [u8; 32],
}

impl View for Address {
    type V = Seq<u8>;

    open spec fn view(&self) -> Seq<u8> {
        self.bytes@
    }
}

/// The all-zero (default) address, which no account legitimately uses.
pub open spec fn is_zero_address(a: Seq<u8>) -> bool {
    forall|i: int| 0 <= i < a.len() ==> a[i] == 0u8
}

impl Address {
    /// Whether this is the zero (default) address.
    pub fn is_zero(&self) -> (r: bool)
        ensures
            r == is_zero_address(self@),
    {
        let mut i: usize = 0;
        while i < 32
            invariant
                i <= 32,
                forall|j: int| 0 <= j < i ==> self.bytes@[j] == 0u8,
            decreases 32 - i,
        {
            if self.bytes[i] != 0 {
                return false;
            }
            i = i + 1;
        }
        true
    }

    /// Byte-for-byte equality with another address.
    pub fn equals(&self, other: &Address) -> (r: bool)
        ensures
            r == (self@ == other@),
    {
        let mut i: usize = 0;
        while i < 32
            invariant
                i <= 32,
                forall|j: int| 0 <= j < i ==> self.bytes@[j] == other.bytes@[j],
            decreases 32 - i,
        {
            if self.bytes[i] != other.bytes[i] {
                return false;
            }
            i = i + 1;
        }
        proof {
            assert(self@ =~= other@);
        }
        true
    }
}

/// What `Pubkey::from_str` decodes a candidate address string to, if
/// anything: a function of the string alone.
pub uninterp spec fn parsed_pubkey(s: Seq<u8>) -> Option<Seq<u8>>;

/// Relies on `solana_sdk::pubkey::Pubkey::from_str`: base58-decodes a string
/// to exactly 32 bytes or rejects it; deterministic in the string alone.
#[verifier::external_body]
pub fn parse_address(s: &Vec<u8>) -> (r: Option<Address>)
    ensures
        r is Some == parsed_pubkey(s@) is Some,
        r matches Some(a) ==> parsed_pubkey(s@) matches Some(p) && a@ == p && p.len() == 32,
{
    let text = match std::str::from_utf8(s.as_slice()) {
        Ok(t) => t,
        Err(_) => return None,
    };
    match solana_sdk::pubkey::Pubkey::from_str(text) {
        Ok(p) => Some(Address { bytes: p.to_bytes() }),
        Err(_) => None,
    }
}

/// What `Pubkey::try_find_program_address` returns for one seed and a
/// program address: a function of those two values alone.
pub uninterp spec fn pda_of(seed: Seq<u8>, program: Seq<u8>) -> Option<(Seq<u8>, u8)>;

/// Whether 32 bytes name a point on the ed25519 signing curve, as
/// `Pubkey::is_on_curve` decides it.
pub uninterp spec fn on_curve(a: Seq<u8>) -> bool;

/// Relies on `Pubkey::try_find_program_address` with a single seed: a
/// deterministic search for the largest bump in [0, 255] whose SHA-256
/// derivation is not a curve point; the returned address is therefore never
/// on the curve (its source rejects curve points with `InvalidSeeds`, by the
/// same test `is_on_curve` makes). `None` only in the statistically
/// improbable event that every bump lands on the curve.
#[verifier::external_body]
pub fn find_program_address(seed: &Vec<u8>, program: &Address) -> (r: Option<(Address, u8)>)
    requires
        seed@.len() <= 32,
    ensures
        r is Some == pda_of(seed@, program@) is Some,
        r matches Some(p) ==> pda_of(seed@, program@) matches Some(q) && p.0@ == q.0 && p.1 == q.1
            && q.0.len() == 32 && !on_curve(q.0),
{
    let program_id = solana_sdk::pubkey::Pubkey::new_from_array(program.bytes);
    solana_sdk::pubkey::Pubkey::try_find_program_address(&[seed.as_slice()], &program_id)
        .map(|(addr, bump)| (Address { bytes: addr.to_bytes() }, bump))
}

/// Relies on `Pubkey::is_on_curve`: whether the bytes decompress to an
/// ed25519 curve point; a function of the bytes alone.
#[verifier::external_body]
pub fn is_on_curve(a: &Address) -> (r: bool)
    ensures
        r == on_curve(a@),
{
    solana_sdk::pubkey::Pubkey::new_from_array(a.bytes).is_on_curve()
}

/// The fixed domain-separation seed of the configuration account:
/// `amm_config_account`.
pub open spec fn amm_config_seed() -> Seq<u8> {
    seq![
        97u8,
        109u8,
        109u8,
        95u8,
        99u8,
        111u8,
        110u8,
        102u8,
        105u8,
        103u8,
        95u8,
        97u8,
        99u8,
        99u8,
        111u8,
        117u8,
        110u8,
        116u8,
    ]
}

/// The fixed domain-separation seed of the configuration account, as bytes.
pub fn amm_config_seed_bytes() -> (r: Vec<u8>)
    ensures
        r@ == amm_config_seed(),
{
    let r: Vec<u8> = vec![
        97u8,
        109u8,
        109u8,
        95u8,
        99u8,
        111u8,
        110u8,
        102u8,
        105u8,
        103u8,
        95u8,
        97u8,
        99u8,
        99u8,
        111u8,
        117u8,
        110u8,
        116u8,
    ];
    proof {
        assert(r@ =~= amm_config_seed());
    }
    r
}

/// Derives the configuration account's address from the fixed seed and the
/// program's address: the result, when one exists, is exactly what the
/// platform's derivation yields for those two inputs — deterministic, and
/// never a point on the signing curve, so no private key can authorize it.
/// `None` only in the statistically improbable event that no bump works.
pub fn derive_config_address(program: &Address) -> (r: Option<(Address, u8)>)
    ensures
        r is Some == pda_of(amm_config_seed(), program@) is Some,
        r matches Some(p) ==> pda_of(amm_config_seed(), program@) matches Some(q) && p.0@ == q.0
            && p.1 == q.1 && !on_curve(p.0@),
{
    let seed = amm_config_seed_bytes();
    find_program_address(&seed, program)
}

/// Address derivation is deterministic: the derived pair is a function of
/// the seed and the program address alone, so any two results of the same
/// derivation are identical.
pub proof fn lemma_derivation_deterministic(
    seed: Seq<u8>,
    program: Seq<u8>,
    a: Option<(Seq<u8>, u8)>,
    b: Option<(Seq<u8>, u8)>,
)
    requires
        a == pda_of(seed, program),
        b == pda_of(seed, program),
    ensures
        a == b,
{
}

} // verus!
