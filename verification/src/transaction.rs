//! The transaction assembler and signer: a canonical byte serialization of
//! the message (fee payer, anti-replay token, instructions), a completeness
//! check of the signer set, and one signature per signer over exactly those
//! message bytes.
use vstd::prelude::*;

use crate::address::Address;
use crate::errors::PipelineError;
use crate::instruction::{AccountMeta, Instruction};
use crate::keys::{sig_of, sig_verifies, sign_message, verify_signature, Keypair};

verus! {

/// `n` in little-endian order, `k` bytes wide.
pub open spec fn le_bytes(n: nat, k: nat) -> Seq<u8>
    decreases k,
{
    if k == 0 {
        Seq::empty()
    } else {
        seq![(n % 256) as u8] + le_bytes(n / 256, (k - 1) as nat)
    }
}

/// One account reference: its address, then the two flags.
pub open spec fn meta_bytes(m: AccountMeta) -> Seq<u8> {
    m.address@ + seq![
        if m.is_signer {
            1u8
        } else {
            0u8
        },
        if m.is_writable {
            1u8
        } else {
            0u8
        },
    ]
}

/// The account references from `j` on, in order.
pub open spec fn metas_bytes(ms: Seq<AccountMeta>, j: nat) -> Seq<u8>
    decreases ms.len() - j,
{
    if j >= ms.len() {
        Seq::empty()
    } else {
        meta_bytes(ms[j as int]) + metas_bytes(ms, j + 1)
    }
}

/// One instruction: program, counted account references, counted payload.
pub open spec fn instr_bytes(ix: Instruction) -> Seq<u8> {
    ix.program@ + le_bytes(ix.accounts@.len(), 8) + metas_bytes(ix.accounts@, 0) + le_bytes(
        ix.data@.len(),
        8,
    ) + ix.data@
}

/// The instructions from `j` on, in order.
pub open spec fn instrs_bytes(s: Seq<Instruction>, j: nat) -> Seq<u8>
    decreases s.len() - j,
{
    if j >= s.len() {
        Seq::empty()
    } else {
        instr_bytes(s[j as int]) + instrs_bytes(s, j + 1)
    }
}

/// The message every signer signs: the fee payer's address, then the
/// anti-replay token — at bytes 32 to 64, always — then the counted,
/// ordered instructions.
pub open spec fn message_bytes_spec(
    instrs: Seq<Instruction>,
    payer: Seq<u8>,
    token: Seq<u8>,
) -> Seq<u8> {
    payer + token + le_bytes(instrs.len(), 8) + instrs_bytes(instrs, 0)
}

/// Appends 32 bytes.
fn push_bytes32(out: &mut Vec<u8>, a: &[u8; 32])
    ensures
        final(out)@ == old(out)@ + a@,
{
    let mut i: usize = 0;
    while i < 32
        invariant
            i <= 32,
            out@ == old(out)@ + a@.subrange(0, i as int),
        decreases 32 - i,
    {
        out.push(a[i]);
        proof {
            assert(old(out)@ + a@.subrange(0, i as int) + seq![a@[i as int]] =~= old(out)@
                + a@.subrange(0, i + 1));
        }
        i = i + 1;
    }
    proof {
        assert(a@.subrange(0, 32) =~= a@);
    }
}

/// Appends a byte vector.
fn push_vec(out: &mut Vec<u8>, s: &Vec<u8>)
    ensures
        final(out)@ == old(out)@ + s@,
{
    let mut i: usize = 0;
    while i < s.len()
        invariant
            i <= s@.len(),
            out@ == old(out)@ + s@.subrange(0, i as int),
        decreases s@.len() - i,
    {
        out.push(s[i]);
        proof {
            assert(old(out)@ + s@.subrange(0, i as int) + seq![s@[i as int]] =~= old(out)@
                + s@.subrange(0, i + 1));
        }
        i = i + 1;
    }
    proof {
        assert(s@.subrange(0, s@.len() as int) =~= s@);
    }
}

/// Appends a length, little-endian, 8 bytes wide.
fn push_le8(out: &mut Vec<u8>, n: usize)
    ensures
        final(out)@ == old(out)@ + le_bytes(n as nat, 8),
{
    let mut m: u64 = n as u64;
    let mut k: usize = 0;
    while k < 8
        invariant
            k <= 8,
            old(out)@ + le_bytes(n as nat, 8) == out@ + le_bytes(m as nat, (8 - k) as nat),
        decreases 8 - k,
    {
        let b: u8 = (m % 256) as u8;
        let ghost pre = out@;
        out.push(b);
        proof {
            assert(le_bytes(m as nat, (8 - k) as nat) == seq![b] + le_bytes(
                (m / 256) as nat,
                (8 - (k + 1)) as nat,
            ));
            assert(pre + (seq![b] + le_bytes((m / 256) as nat, (8 - (k + 1)) as nat)) =~= out@
                + le_bytes((m / 256) as nat, (8 - (k + 1)) as nat));
        }
        m = m / 256;
        k = k + 1;
    }
    proof {
        assert(le_bytes(m as nat, 0) =~= Seq::<u8>::empty());
        assert(out@ + Seq::<u8>::empty() =~= out@);
    }
}

/// Appends one serialized instruction.
fn push_instruction(out: &mut Vec<u8>, ix: &Instruction)
    ensures
        final(out)@ == old(out)@ + instr_bytes(*ix),
{
    push_bytes32(out, &ix.program.bytes);
    push_le8(out, ix.accounts.len());
    let ghost base = out@;
    let mut j: usize = 0;
    while j < ix.accounts.len()
        invariant
            j <= ix.accounts@.len(),
            base + metas_bytes(ix.accounts@, 0) == out@ + metas_bytes(ix.accounts@, j as nat),
        decreases ix.accounts@.len() - j,
    {
        let m = &ix.accounts[j];
        let ghost pre = out@;
        push_bytes32(out, &m.address.bytes);
        out.push(if m.is_signer {
            1u8
        } else {
            0u8
        });
        out.push(if m.is_writable {
            1u8
        } else {
            0u8
        });
        proof {
            assert(out@ =~= pre + meta_bytes(ix.accounts@[j as int]));
            assert(metas_bytes(ix.accounts@, j as nat) == meta_bytes(ix.accounts@[j as int])
                + metas_bytes(ix.accounts@, (j + 1) as nat));
            assert(pre + (meta_bytes(ix.accounts@[j as int]) + metas_bytes(ix.accounts@, (j + 1) as nat))
                =~= out@ + metas_bytes(ix.accounts@, (j + 1) as nat));
        }
        j = j + 1;
    }
    proof {
        assert(metas_bytes(ix.accounts@, ix.accounts@.len()) =~= Seq::<u8>::empty());
        assert(out@ + Seq::<u8>::empty() =~= out@);
    }
    push_le8(out, ix.data.len());
    push_vec(out, &ix.data);
    proof {
        assert(old(out)@ + instr_bytes(*ix) =~= out@);
    }
}

/// Serializes the message the signers sign.
pub fn message_bytes(instrs: &Vec<Instruction>, payer: &Address, token: &[u8; 32]) -> (r: Vec<u8>)
    ensures
        r@ == message_bytes_spec(instrs@, payer@, token@),
{
    let mut out: Vec<u8> = Vec::new();
    push_bytes32(&mut out, &payer.bytes);
    push_bytes32(&mut out, token);
    push_le8(&mut out, instrs.len());
    proof {
        assert(out@ =~= payer@ + token@ + le_bytes(instrs@.len(), 8));
    }
    let ghost base = out@;
    let mut i: usize = 0;
    while i < instrs.len()
        invariant
            i <= instrs@.len(),
            base + instrs_bytes(instrs@, 0) == out@ + instrs_bytes(instrs@, i as nat),
        decreases instrs@.len() - i,
    {
        let ghost pre = out@;
        push_instruction(&mut out, &instrs[i]);
        proof {
            assert(instrs_bytes(instrs@, i as nat) == instr_bytes(instrs@[i as int]) + instrs_bytes(
                instrs@,
                (i + 1) as nat,
            ));
            assert(pre + (instr_bytes(instrs@[i as int]) + instrs_bytes(instrs@, (i + 1) as nat)) =~= out@
                + instrs_bytes(instrs@, (i + 1) as nat));
        }
        i = i + 1;
    }
    proof {
        assert(instrs_bytes(instrs@, instrs@.len()) =~= Seq::<u8>::empty());
        assert(out@ + Seq::<u8>::empty() =~= out@);
        assert(out@ =~= message_bytes_spec(instrs@, payer@, token@));
    }
    out
}

/// One signature of the transaction: the signer's public key and its
/// 64-byte signature.
#[derive(Clone, Debug, PartialEq, Eq)]
pub struct SignatureEntry {
    pub pubkey: Address,
    pub sig: Vec<u8>,
}

/// A transaction: ordered instructions, fee payer, anti-replay token, and
/// one signature per declared signer, in declaration order.
#[derive(Clone, Debug, PartialEq, Eq)]
pub struct Transaction {
    pub instructions: Vec<Instruction>,
    pub fee_payer: Address,
    pub recent_token: [u8; 32],
    pub signatures: Vec<SignatureEntry>,
}

impl Transaction {
    /// Every signature is 64 bytes wide.
    pub open spec fn wf(&self) -> bool {
        forall|k: int| 0 <= k < self.signatures@.len() ==> self.signatures@[k].sig@.len() == 64
    }

    /// The exact message bytes this transaction's signatures cover.
    pub open spec fn spec_message(&self) -> Seq<u8> {
        message_bytes_spec(self.instructions@, self.fee_payer@, self.recent_token@)
    }
}

/// Every keypair in the set is well formed.
pub open spec fn keypairs_wf(ks: Seq<Keypair>) -> bool {
    forall|i: int| 0 <= i < ks.len() ==> ks[i].wf()
}

/// The public keys of the signer set, in declaration order.
pub open spec fn signer_pubkeys(ks: Seq<Keypair>) -> Seq<Seq<u8>> {
    Seq::new(ks.len(), |i: int| ks[i].spec_pubkey())
}

/// The signer set covers every account flagged as a signer in every
/// instruction.
pub open spec fn signers_cover(instrs: Seq<Instruction>, pks: Seq<Seq<u8>>) -> bool {
    forall|i: int, j: int|
        0 <= i < instrs.len() && 0 <= j < instrs[i].accounts@.len()
            && instrs[i].accounts@[j].is_signer ==> pks.contains(instrs[i].accounts@[j].address@)
}

/// The views of a list of addresses.
pub open spec fn addr_views(v: Seq<Address>) -> Seq<Seq<u8>> {
    Seq::new(v.len(), |i: int| v[i]@)
}

/// Whether the list holds the address.
fn contains_pk(pks: &Vec<Address>, a: &Address) -> (r: bool)
    ensures
        r == addr_views(pks@).contains(a@),
{
    let mut i: usize = 0;
    while i < pks.len()
        invariant
            i <= pks@.len(),
            forall|j: int| 0 <= j < i ==> addr_views(pks@)[j] != a@,
        decreases pks@.len() - i,
    {
        if pks[i].equals(a) {
            proof {
                assert(addr_views(pks@)[i as int] == a@);
            }
            return true;
        }
        i = i + 1;
    }
    proof {
        assert(!addr_views(pks@).contains(a@));
    }
    false
}

/// Assembles and signs a transaction, raising `MissingSigner` before any
/// signature is produced — never a partially signed transaction — exactly
/// when the signer set misses the fee payer or some account flagged as a
/// signer. On success the result carries the given instructions, fee payer
/// and token unchanged, and one signature per signer, in declaration order,
/// each over exactly the serialized message bytes.
pub fn assemble_transaction(
    instructions: Vec<Instruction>,
    fee_payer: &Address,
    signers: &Vec<Keypair>,
    recent_token: &[u8; 32],
) -> (r: Result<Transaction, PipelineError>)
    requires
        keypairs_wf(signers@),
    ensures
        r is Ok == (signers_cover(instructions@, signer_pubkeys(signers@)) && signer_pubkeys(
            signers@,
        ).contains(fee_payer@)),
        r matches Ok(t) ==> t.instructions@ == instructions@ && t.fee_payer@ == fee_payer@
            && t.recent_token@ == recent_token@ && t.wf() && t.signatures@.len() == signers@.len()
            && (forall|k: int|
            #![trigger t.signatures@[k]]
            0 <= k < signers@.len() ==> t.signatures@[k].pubkey@ == signer_pubkeys(signers@)[k]
                && t.signatures@[k].sig@ == sig_of(signers@[k].bytes@, t.spec_message())),
        r matches Err(e) ==> e == PipelineError::MissingSigner,
{
    let mut pubkeys: Vec<Address> = Vec::new();
    let mut k: usize = 0;
    while k < signers.len()
        invariant
            k <= signers@.len(),
            keypairs_wf(signers@),
            pubkeys@.len() == k,
            forall|j: int| 0 <= j < k ==> pubkeys@[j]@ == signer_pubkeys(signers@)[j],
        decreases signers@.len() - k,
    {
        let pk = signers[k].pubkey();
        pubkeys.push(pk);
        k = k + 1;
    }
    proof {
        assert(addr_views(pubkeys@) =~= signer_pubkeys(signers@));
    }
    if !contains_pk(&pubkeys, fee_payer) {
        return Err(PipelineError::MissingSigner);
    }
    let mut i: usize = 0;
    while i < instructions.len()
        invariant
            i <= instructions@.len(),
            keypairs_wf(signers@),
            addr_views(pubkeys@) == signer_pubkeys(signers@),
            signer_pubkeys(signers@).contains(fee_payer@),
            forall|a: int, b: int|
                0 <= a < i && 0 <= b < instructions@[a].accounts@.len()
                    && instructions@[a].accounts@[b].is_signer ==> signer_pubkeys(
                    signers@,
                ).contains(instructions@[a].accounts@[b].address@),
        decreases instructions@.len() - i,
    {
        let accs = &instructions[i].accounts;
        let mut j: usize = 0;
        while j < accs.len()
            invariant
                0 <= i < instructions@.len(),
                j <= accs@.len(),
                accs@ == instructions@[i as int].accounts@,
                addr_views(pubkeys@) == signer_pubkeys(signers@),
                forall|b: int|
                    0 <= b < j && accs@[b].is_signer ==> signer_pubkeys(signers@).contains(
                        accs@[b].address@,
                    ),
            decreases accs@.len() - j,
        {
            if accs[j].is_signer {
                if !contains_pk(&pubkeys, &accs[j].address) {
                    proof {
                        assert(!signers_cover(instructions@, signer_pubkeys(signers@)));
                    }
                    return Err(PipelineError::MissingSigner);
                }
            }
            j = j + 1;
        }
        i = i + 1;
    }
    let msg = message_bytes(&instructions, fee_payer, recent_token);
    let mut signatures: Vec<SignatureEntry> = Vec::new();
    let mut k2: usize = 0;
    while k2 < signers.len()
        invariant
            k2 <= signers@.len(),
            keypairs_wf(signers@),
            pubkeys@.len() == signers@.len(),
            forall|j: int| 0 <= j < signers@.len() ==> pubkeys@[j]@ == signer_pubkeys(signers@)[j],
            msg@ == message_bytes_spec(instructions@, fee_payer@, recent_token@),
            signatures@.len() == k2,
            forall|j: int|
                #![trigger signatures@[j]]
                0 <= j < k2 ==> signatures@[j].pubkey@ == signer_pubkeys(signers@)[j]
                    && signatures@[j].sig@ == sig_of(signers@[j].bytes@, msg@)
                    && signatures@[j].sig@.len() == 64,
        decreases signers@.len() - k2,
    {
        let sig = sign_message(&signers[k2].bytes, &msg);
        signatures.push(SignatureEntry { pubkey: pubkeys[k2], sig });
        k2 = k2 + 1;
    }
    let t = Transaction {
        instructions,
        fee_payer: *fee_payer,
        recent_token: *recent_token,
        signatures,
    };
    proof {
        assert(forall|j: int| 0 <= j < t.signatures@.len() ==> t.signatures@[j].sig@.len() == 64);
        assert(t.wf());
    }
    Ok(t)
}

/// Checks every signature of the transaction against its exact message
/// bytes; true exactly when each one verifies.
pub fn verify_transaction(t: &Transaction) -> (r: bool)
    requires
        t.wf(),
    ensures
        r == forall|k: int|
            0 <= k < t.signatures@.len() ==> sig_verifies(
                t.signatures@[k].pubkey@,
                t.spec_message(),
                t.signatures@[k].sig@,
            ),
{
    let msg = message_bytes(&t.instructions, &t.fee_payer, &t.recent_token);
    let mut k: usize = 0;
    while k < t.signatures.len()
        invariant
            k <= t.signatures@.len(),
            t.wf(),
            msg@ == t.spec_message(),
            forall|j: int|
                0 <= j < k ==> sig_verifies(t.signatures@[j].pubkey@, t.spec_message(), t.signatures@[j].sig@),
        decreases t.signatures@.len() - k,
    {
        let entry = &t.signatures[k];
        if !verify_signature(&entry.pubkey, &msg, &entry.sig) {
            return false;
        }
        k = k + 1;
    }
    true
}

/// The anti-replay token stands at bytes 32 to 64 of the message, whatever
/// the instructions are.
pub proof fn lemma_message_embeds_token(instrs: Seq<Instruction>, payer: Seq<u8>, token: Seq<u8>)
    requires
        payer.len() == 32,
        token.len() == 32,
    ensures
        message_bytes_spec(instrs, payer, token).subrange(32, 64) == token,
{
    assert(message_bytes_spec(instrs, payer, token).subrange(32, 64) =~= token);
}

/// Changing the anti-replay token after signing invalidates the old
/// signature set: the signatures are bound to the exact message bytes, and
/// two messages that agree on instructions and fee payer but carry
/// different tokens are different byte sequences, so the old signatures no
/// longer cover the new message.
pub proof fn lemma_token_change_alters_message(
    instrs: Seq<Instruction>,
    payer: Seq<u8>,
    t1: Seq<u8>,
    t2: Seq<u8>,
)
    requires
        payer.len() == 32,
        t1.len() == 32,
        t2.len() == 32,
        t1 != t2,
    ensures
        message_bytes_spec(instrs, payer, t1) != message_bytes_spec(instrs, payer, t2),
{
    lemma_message_embeds_token(instrs, payer, t1);
    lemma_message_embeds_token(instrs, payer, t2);
    if message_bytes_spec(instrs, payer, t1) == message_bytes_spec(instrs, payer, t2) {
        assert(t1 == t2);
    }
}

} // verus!
