//! Key material: validated ed25519 keypair bytes, signing, and signature
//! verification.
use vstd::prelude::*;

use crate::address::Address;
use crate::errors::PipelineError;

use solana_sdk::signer::Signer;

verus! {

/// Whether `Keypair::from_bytes` accepts the bytes as a keypair: a function
/// of the bytes alone.
pub uninterp spec fn keybytes_wf(b: Seq<u8>) -> bool;

/// What signing a message with a keypair's bytes yields: ed25519 signing is
/// deterministic, a function of key and message alone.
pub uninterp spec fn sig_of(key: Seq<u8>, msg: Seq<u8>) -> Seq<u8>;

/// Whether a signature verifies for a public key over message bytes, as
/// `Signature::verify` decides it: a function of the three values alone.
pub uninterp spec fn sig_verifies(pk: Seq<u8>, msg: Seq<u8>, sig: Seq<u8>) -> bool;

/// Relies on `solana_sdk::signer::keypair::Keypair::from_bytes`: accepts
/// exactly 64 bytes (32-byte secret, then the 32-byte public key derived
/// from that secret) and rejects anything else.
#[verifier::external_body]
pub fn check_keypair_bytes(b: &Vec<u8>) -> (r: bool)
    ensures
        r == keybytes_wf(b@),
        r ==> b@.len() == 64,
{
    solana_sdk::signer::keypair::Keypair::from_bytes(b.as_slice()).is_ok()
}

/// Relies on `Keypair::sign_message` (RFC 8032 ed25519, deterministic) over
/// a keypair recovered by `Keypair::from_bytes`; the 64-byte signature is a
/// function of the keypair bytes and the message alone.
#[verifier::external_body]
pub fn sign_message(key: &Vec<u8>, msg: &Vec<u8>) -> (r: Vec<u8>)
    requires
        keybytes_wf(key@),
    ensures
        r@ == sig_of(key@, msg@),
        r@.len() == 64,
{
    let keypair = solana_sdk::signer::keypair::Keypair::from_bytes(key.as_slice()).unwrap();
    keypair.sign_message(msg.as_slice()).as_ref().to_vec()
}

/// Relies on `solana_sdk::signature::Signature::verify`
/// (`verify_strict` of ed25519): deterministic in public key, message and
/// signature.
#[verifier::external_body]
pub fn verify_signature(pk: &Address, msg: &Vec<u8>, sig: &Vec<u8>) -> (r: bool)
    requires
        sig@.len() == 64,
    ensures
        r == sig_verifies(pk@, msg@, sig@),
{
    let signature = solana_sdk::signature::Signature::try_from(sig.as_slice()).unwrap();
    signature.verify(&pk.bytes, msg.as_slice())
}

/// A validated signing keypair: 64 bytes that `Keypair::from_bytes`
/// accepts, held only for the run and never persisted by this library.
#[derive(Debug)]
pub struct Keypair {
    pub bytes: Vec<u8>,
}

impl Keypair {
    /// The bytes are a keypair the platform accepts; its public key is the
    /// second half.
    pub open spec fn wf(&self) -> bool {
        &&& self.bytes@.len() == 64
        &&& keybytes_wf(self.bytes@)
    }

    /// The public key: the second half of the keypair bytes.
    pub open spec fn spec_pubkey(&self) -> Seq<u8> {
        self.bytes@.subrange(32, 64)
    }

    /// Copies the public key out of the keypair bytes.
    pub fn pubkey(&self) -> (r: Address)
        requires
            self.wf(),
        ensures
            r@ == self.spec_pubkey(),
    {
        let mut out: [u8; 32] = [0; 32];
        let mut i: usize = 0;
        while i < 32
            invariant
                i <= 32,
                self.bytes@.len() == 64,
                forall|j: int| 0 <= j < i ==> out@[j] == self.bytes@[32 + j],
            decreases 32 - i,
        {
            out[i] = self.bytes[32 + i];
            i = i + 1;
        }
        proof {
            assert(out@ =~= self.bytes@.subrange(32, 64));
        }
        Address { bytes: out }
    }
}

impl Keypair {
    /// A copy of the key material, byte for byte.
    pub fn duplicate(&self) -> (r: Keypair)
        ensures
            r.bytes@ == self.bytes@,
    {
        let mut out: Vec<u8> = Vec::new();
        let mut i: usize = 0;
        while i < self.bytes.len()
            invariant
                i <= self.bytes@.len(),
                out@ == self.bytes@.subrange(0, i as int),
            decreases self.bytes@.len() - i,
        {
            out.push(self.bytes[i]);
            proof {
                assert(self.bytes@.subrange(0, i as int).push(self.bytes@[i as int])
                    =~= self.bytes@.subrange(0, i + 1));
            }
            i = i + 1;
        }
        proof {
            assert(self.bytes@.subrange(0, self.bytes@.len() as int) =~= self.bytes@);
        }
        Keypair { bytes: out }
    }
}

/// The computing half of the key material provider: given the contents a
/// caller could read from a key file (`None` where the file was unreadable),
/// yields the validated keypair, or `KeyLoad` where the file was unreadable
/// or its contents are not a valid keypair.
pub fn load_keypair(file_contents: Option<Vec<u8>>) -> (r: Result<Keypair, PipelineError>)
    ensures
        r is Ok == (file_contents matches Some(b) && keybytes_wf(b@)),
        r matches Ok(kp) ==> file_contents matches Some(b) && kp.bytes@ == b@ && kp.wf(),
        r matches Err(e) ==> e == PipelineError::KeyLoad,
{
    match file_contents {
        None => Err(PipelineError::KeyLoad),
        Some(bytes) => {
            if check_keypair_bytes(&bytes) {
                Ok(Keypair { bytes })
            } else {
                Err(PipelineError::KeyLoad)
            }
        },
    }
}

} // verus!
