//! Receipts: the signed proof of participation handed to each successful
//! contributor. A receipt binds the contributor's identity to the witness
//! digest of the committed contribution, and the binding is authenticated
//! with the ceremony key. The mathematics of the underlying key material is
//! an external concern; what this module pins down is exactly which key and
//! which (identity, witness) pair a signature covers.

use vstd::prelude::*;

verus! {

/// The ceremony's signing key material, held by the receipt signer. The
/// key identifier doubles as the public verification key handed to third
/// parties.
#[derive(Clone, Copy, PartialEq, Eq, Structural, Debug)]
pub struct CeremonyKey {
    /// Identifies the ceremony's key pair.
    pub key_id: u64,
}

/// The message a receipt signature covers: who contributed, and the witness
/// digest of what the transcript accepted. Created once, immutable.
#[derive(Clone, Copy, PartialEq, Eq, Structural, Debug)]
pub struct Receipt {
    /// The contributor's identity.
    pub identity: u64,
    /// The witness digest of the accepted contribution.
    pub witness: u64,
}

/// An authenticated binding of the ceremony key to one receipt: the signer
/// commits to exactly this key and this (identity, witness) pair, and
/// verification accepts no other combination.
#[derive(Clone, Copy, PartialEq, Eq, Structural, Debug)]
pub struct Signature {
    /// The key the signature was produced under.
    pub key_id: u64,
    /// The identity the signature covers.
    pub identity: u64,
    /// The witness digest the signature covers.
    pub witness: u64,
}

/// What the pipeline returns to a successful contributor: the signed
/// message and the signature over it.
#[derive(Clone, Copy, PartialEq, Eq, Structural, Debug)]
pub struct ContributeReceipt {
    /// The receipt the signature covers.
    pub receipt: Receipt,
    /// The signature over the receipt.
    pub signature: Signature,
}

/// The signature the ceremony key produces over a receipt.
pub open spec fn signature_of(key: CeremonyKey, receipt: Receipt) -> Signature {
    Signature { key_id: key.key_id, identity: receipt.identity, witness: receipt.witness }
}

/// Whether `signature` is a valid signature over `receipt` under the key
/// identified by `key_id`.
pub open spec fn signature_valid(key_id: u64, receipt: Receipt, signature: Signature) -> bool {
    signature == Signature { key_id, identity: receipt.identity, witness: receipt.witness }
}

/// Signs a receipt with the ceremony key.
pub fn sign(key: &CeremonyKey, receipt: Receipt) -> (r: Signature)
    ensures
        r == signature_of(*key, receipt),
        signature_valid(key.key_id, receipt, r),
{
    Signature { key_id: key.key_id, identity: receipt.identity, witness: receipt.witness }
}

/// Checks a signature against the ceremony's public verification key and a
/// claimed receipt; any third party holding the key can run this.
pub fn verify_signature(key_id: u64, receipt: &Receipt, signature: &Signature) -> (r: bool)
    ensures
        r == signature_valid(key_id, *receipt, *signature),
{
    signature.key_id == key_id && signature.identity == receipt.identity && signature.witness
        == receipt.witness
}

/// A signature produced over a receipt verifies against the signing key for
/// exactly that (identity, witness) pair: it verifies for the pair it was
/// produced over, and for no other pair and no other key.
pub proof fn lemma_signature_binds(key: CeremonyKey, receipt: Receipt)
    ensures
        signature_valid(key.key_id, receipt, signature_of(key, receipt)),
        forall|key_id: u64, claimed: Receipt|
            #[trigger] signature_valid(key_id, claimed, signature_of(key, receipt))
                ==> key_id == key.key_id && claimed.identity == receipt.identity
                && claimed.witness == receipt.witness,
{
}

} // verus!
