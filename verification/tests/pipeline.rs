use ceremony_sequencer::errors::ContributeError;
use ceremony_sequencer::ledger::LedgerStatus;
use ceremony_sequencer::pipeline::{BackendOutcomes, Ceremony, Verdict};
use ceremony_sequencer::receipt::verify_signature;
use ceremony_sequencer::transcript::compute_digest;
use ceremony_sequencer::transcript::Contribution;

fn all_ok() -> BackendOutcomes {
    BackendOutcomes { persist_ok: true, ledger_ok: true, sign_ok: true }
}

fn payload(bytes: &[u8]) -> Contribution {
    Contribution { payload: bytes.to_vec() }
}

#[test]
fn rejected_attempt_expires_ledger() {
    let mut cer = Ceremony::new(7);
    cer.register_participant(1);
    let r = cer.run_pipeline(1, 10, payload(&[1, 2, 3]), Verdict::Reject(5), all_ok());
    assert_eq!(r, Err(ContributeError::InvalidContribution(5)));
    assert_eq!(cer.ledger.status(1), Some(LedgerStatus::Expired));
    assert_eq!(cer.transcript.len(), 0);
    assert_eq!(cer.transcript.num_durable(), 0);
    assert_eq!(cer.counter, 0);
    assert_eq!(cer.lobby.current_holder(), None);
}

#[test]
fn successful_run_commits_and_signs() {
    let mut cer = Ceremony::new(7);
    cer.register_participant(2);
    let r = cer.run_pipeline(2, 42, payload(&[1, 2]), Verdict::Accept, all_ok());
    let cr = r.expect("accepted contribution with cooperating backends");
    assert_eq!(cr.receipt.identity, 42);
    assert_eq!(cr.receipt.witness, 33);
    assert!(verify_signature(7, &cr.receipt, &cr.signature));
    // The witness is the digest of the contribution now in the transcript.
    let snapshot = cer.transcript.snapshot();
    assert_eq!(compute_digest(&snapshot[0].payload), cr.receipt.witness);
    assert_eq!(cer.ledger.status(2), Some(LedgerStatus::Finished));
    assert_eq!(cer.transcript.len(), 1);
    assert_eq!(cer.transcript.num_durable(), 1);
    assert_eq!(cer.counter, 1);
    assert_eq!(cer.lobby.current_holder(), None);
}

#[test]
fn persistence_failure_leaves_durable_copy_behind() {
    let mut cer = Ceremony::new(7);
    cer.register_participant(3);
    let outcomes = BackendOutcomes { persist_ok: false, ledger_ok: true, sign_ok: true };
    let r = cer.run_pipeline(3, 30, payload(&[9]), Verdict::Accept, outcomes);
    assert_eq!(r, Err(ContributeError::TranscriptIOError));
    assert_eq!(cer.ledger.status(3), Some(LedgerStatus::Finished));
    assert_eq!(cer.counter, 0);
    assert_eq!(cer.transcript.len(), 1);
    assert_eq!(cer.transcript.num_durable(), 0);
    assert_eq!(cer.lobby.current_holder(), None);
}

#[test]
fn ledger_failure_on_rejection_is_storage_error() {
    let mut cer = Ceremony::new(7);
    cer.register_participant(4);
    let outcomes = BackendOutcomes { persist_ok: true, ledger_ok: false, sign_ok: true };
    let r = cer.run_pipeline(4, 40, payload(&[1]), Verdict::Reject(1), outcomes);
    assert_eq!(r, Err(ContributeError::StorageError));
    assert_eq!(cer.ledger.status(4), Some(LedgerStatus::Pending));
    assert_eq!(cer.transcript.len(), 0);
    assert_eq!(cer.lobby.current_holder(), None);
}

#[test]
fn ledger_failure_after_commit_is_storage_error() {
    let mut cer = Ceremony::new(7);
    cer.register_participant(5);
    let outcomes = BackendOutcomes { persist_ok: true, ledger_ok: false, sign_ok: true };
    let r = cer.run_pipeline(5, 50, payload(&[1]), Verdict::Accept, outcomes);
    assert_eq!(r, Err(ContributeError::StorageError));
    assert_eq!(cer.ledger.status(5), Some(LedgerStatus::Pending));
    assert_eq!(cer.transcript.len(), 1);
    assert_eq!(cer.counter, 0);
    assert_eq!(cer.lobby.current_holder(), None);
}

#[test]
fn signing_failure_keeps_contribution_committed() {
    let mut cer = Ceremony::new(7);
    cer.register_participant(6);
    let outcomes = BackendOutcomes { persist_ok: true, ledger_ok: true, sign_ok: false };
    let r = cer.run_pipeline(6, 60, payload(&[1]), Verdict::Accept, outcomes);
    assert_eq!(r, Err(ContributeError::ReceiptSigning));
    assert_eq!(cer.ledger.status(6), Some(LedgerStatus::Finished));
    assert_eq!(cer.transcript.len(), 1);
    assert_eq!(cer.transcript.num_durable(), 1);
    assert_eq!(cer.counter, 1);
    assert_eq!(cer.lobby.current_holder(), None);
}

#[test]
fn unregistered_session_is_turned_away() {
    let mut cer = Ceremony::new(7);
    let r = cer.run_pipeline(1, 10, payload(&[1]), Verdict::Accept, all_ok());
    assert_eq!(r, Err(ContributeError::NotUsersTurn));
    assert_eq!(cer.transcript.len(), 0);
    assert_eq!(cer.counter, 0);
}

#[test]
fn session_cannot_contribute_twice() {
    let mut cer = Ceremony::new(7);
    cer.register_participant(1);
    let first = cer.run_pipeline(1, 10, payload(&[1]), Verdict::Accept, all_ok());
    assert!(first.is_ok());
    let second = cer.run_pipeline(1, 10, payload(&[2]), Verdict::Accept, all_ok());
    assert_eq!(second, Err(ContributeError::NotUsersTurn));
    assert_eq!(cer.transcript.len(), 1);
    assert_eq!(cer.counter, 1);
}

#[test]
fn pipeline_refused_while_slot_held_elsewhere() {
    let mut cer = Ceremony::new(7);
    cer.register_participant(1);
    cer.register_participant(2);
    // Session 1 has taken the slot but its pipeline has not finished.
    cer.lobby.acquire(1).expect("free slot");
    // Session 2's attempt is turned away before anything is touched.
    let r = cer.run_pipeline(2, 20, payload(&[1]), Verdict::Accept, all_ok());
    assert_eq!(r, Err(ContributeError::NotUsersTurn));
    assert_eq!(cer.ledger.status(2), Some(LedgerStatus::Pending));
    assert_eq!(cer.transcript.len(), 0);
    assert_eq!(cer.lobby.current_holder(), Some(1));
    // The holder's own run proceeds and releases the slot.
    let r1 = cer.run_pipeline(1, 10, payload(&[1]), Verdict::Accept, all_ok());
    assert!(r1.is_ok());
    assert_eq!(cer.lobby.current_holder(), None);
    // Once released, session 2 succeeds.
    let r2 = cer.run_pipeline(2, 20, payload(&[2]), Verdict::Accept, all_ok());
    assert!(r2.is_ok());
}

#[test]
fn transcript_length_counts_persisted_commits() {
    let mut cer = Ceremony::new(7);
    for s in 1..=4u64 {
        cer.register_participant(s);
    }
    assert!(cer.run_pipeline(1, 10, payload(&[1]), Verdict::Accept, all_ok()).is_ok());
    assert!(cer.run_pipeline(2, 20, payload(&[2]), Verdict::Reject(0), all_ok()).is_err());
    assert!(cer.run_pipeline(3, 30, payload(&[3]), Verdict::Accept, all_ok()).is_ok());
    let r = cer.run_pipeline(4, 40, payload(&[4]), Verdict::Reject(2), all_ok());
    assert_eq!(r, Err(ContributeError::InvalidContribution(2)));
    assert_eq!(cer.transcript.len(), 2);
    assert_eq!(cer.transcript.num_durable(), 2);
}

#[test]
fn counter_equals_finished_entries() {
    let mut cer = Ceremony::new(7);
    for s in 1..=4u64 {
        cer.register_participant(s);
    }
    let _ = cer.run_pipeline(1, 10, payload(&[1]), Verdict::Accept, all_ok());
    let _ = cer.run_pipeline(2, 20, payload(&[2]), Verdict::Reject(0), all_ok());
    let _ = cer.run_pipeline(3, 30, payload(&[3]), Verdict::Accept, all_ok());
    let mut finished: u64 = 0;
    for s in 1..=4u64 {
        if cer.ledger.status(s) == Some(LedgerStatus::Finished) {
            finished += 1;
        }
    }
    assert_eq!(cer.counter, finished);
    assert_eq!(cer.counter, 2);
}
