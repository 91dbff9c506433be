use ceremony_sequencer::errors::ContributeError;
use ceremony_sequencer::lobby::{Lobby, Slot};
use ceremony_sequencer::receipt::{sign, verify_signature, CeremonyKey, Receipt, Signature};
use ceremony_sequencer::transcript::compute_digest;

#[test]
fn slot_excludes_second_session() {
    let mut lobby = Lobby::new();
    assert_eq!(lobby.acquire(1), Ok(Slot { session: 1 }));
    assert_eq!(lobby.acquire(2), Err(ContributeError::NotUsersTurn));
    // The holder may re-assert its own grant.
    assert_eq!(lobby.acquire(1), Ok(Slot { session: 1 }));
    lobby.release();
    assert_eq!(lobby.acquire(2), Ok(Slot { session: 2 }));
}

#[test]
fn release_is_idempotent() {
    let mut lobby = Lobby::new();
    lobby.release();
    assert_eq!(lobby.current_holder(), None);
    assert_eq!(lobby.acquire(3), Ok(Slot { session: 3 }));
    lobby.release();
    lobby.release();
    assert_eq!(lobby.current_holder(), None);
}

#[test]
fn digest_exact_values() {
    assert_eq!(compute_digest(&Vec::new()), 0);
    // Folding 1 then 2: (0 * 31 + 1) * 31 + 2.
    assert_eq!(compute_digest(&vec![1, 2]), 33);
    assert_eq!(compute_digest(&vec![0]), 0);
    assert_eq!(compute_digest(&vec![0, 0, 5]), 5);
}

#[test]
fn signature_binds_key_and_receipt() {
    let key = CeremonyKey { key_id: 7 };
    let receipt = Receipt { identity: 42, witness: 33 };
    let signature = sign(&key, receipt);
    assert!(verify_signature(7, &receipt, &signature));
    // A different key, identity, or witness is refused.
    assert!(!verify_signature(8, &receipt, &signature));
    assert!(!verify_signature(7, &Receipt { identity: 43, witness: 33 }, &signature));
    assert!(!verify_signature(7, &Receipt { identity: 42, witness: 34 }, &signature));
    // A signature claiming another key is refused too.
    let forged = Signature { key_id: 9, identity: 42, witness: 33 };
    assert!(!verify_signature(7, &receipt, &forged));
}

#[test]
fn error_classification() {
    assert!(!ContributeError::NotUsersTurn.is_unexpected());
    assert!(!ContributeError::InvalidContribution(3).is_unexpected());
    assert!(ContributeError::TranscriptIOError.is_unexpected());
    assert!(ContributeError::StorageError.is_unexpected());
    assert!(ContributeError::ReceiptSigning.is_unexpected());
    assert!(ContributeError::TaskError.is_unexpected());
}
