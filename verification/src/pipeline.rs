//! Admission pipeline: orchestrates lobby, transcript store, ledger,
//! counter and signer into the end-to-end contribute operation.
//!
//! The external collaborators — the verification oracle, the durable
//! transcript writer, the ledger backend and the key-holding signer — act
//! outside this crate; the pipeline takes each one's outcome as an input
//! and pins down, for every combination of outcomes, exactly how the
//! ceremony state changes and what the caller is told.

use vstd::prelude::*;
use crate::errors::ContributeError;
use crate::ledger::{Ledger, LedgerEntry, LedgerStatus, has_entry, mark_model, status_of};
use crate::lobby::{Lobby, may_acquire};
use crate::receipt::{CeremonyKey, ContributeReceipt, Receipt, signature_of};
use crate::transcript::{compute_digest, digest_of, Contribution, TranscriptStore};

verus! {

/// What the verification oracle said of a contribution: acceptance, or
/// rejection with a diagnostic code.
#[derive(Clone, Copy, PartialEq, Eq, Structural, Debug)]
pub enum Verdict {
    /// The oracle accepted the contribution against the transcript snapshot.
    Accept,
    /// The oracle rejected it; the payload is its diagnostic.
    Reject(u64),
}

/// Outcomes of the external backends consulted during one pipeline run:
/// whether the durable transcript write completed, whether the ledger
/// backend recorded the session's status, and whether the signer produced
/// a receipt signature.
#[derive(Clone, Copy, PartialEq, Eq, Structural, Debug)]
pub struct BackendOutcomes {
    /// The write-then-atomic-replace of the transcript file succeeded.
    pub persist_ok: bool,
    /// The ledger backend accepted the status write for this run.
    pub ledger_ok: bool,
    /// The signer produced a signature over the receipt.
    pub sign_ok: bool,
}

/// The whole ceremony state handed explicitly into the pipeline: the slot,
/// the transcript with its durable prefix, the ledger, the monotonic
/// counter of accepted contributions, and the signing key.
pub struct Ceremony {
    /// Grants the exclusive right to run the pipeline.
    pub lobby: Lobby,
    /// The append-only transcript and its durable prefix.
    pub transcript: TranscriptStore,
    /// Per-session contribution status records.
    pub ledger: Ledger,
    /// Count of contributions accepted and durably persisted.
    pub counter: u64,
    /// The ceremony's receipt-signing key.
    pub key: CeremonyKey,
}

/// Mathematical image of a ceremony state.
#[verifier::ext_equal]
pub struct CeremonyModel {
    /// The session holding the slot, if any.
    pub slot: Option<u64>,
    /// The accepted contribution payloads, in acceptance order.
    pub contributions: Seq<Seq<u8>>,
    /// How many leading contributions are durable.
    pub durable_len: nat,
    /// The ledger records.
    pub ledger: Seq<LedgerEntry>,
    /// The accepted-and-persisted count.
    pub counter: nat,
    /// The ceremony key identifier.
    pub key_id: u64,
}

/// One contribute request together with the external outcomes that its run
/// observes.
pub struct RequestModel {
    /// The session making the attempt.
    pub session: u64,
    /// The contributor's authenticated identity.
    pub identity: u64,
    /// The submitted payload.
    pub payload: Seq<u8>,
    /// The oracle's verdict on the payload.
    pub verdict: Verdict,
    /// The external backends' outcomes.
    pub outcomes: BackendOutcomes,
}

impl View for Ceremony {
    type V = CeremonyModel;

    open spec fn view(&self) -> CeremonyModel {
        CeremonyModel {
            slot: self.lobby.holder(),
            contributions: self.transcript.contributions(),
            durable_len: self.transcript.durable_len(),
            ledger: self.ledger.entries(),
            counter: self.counter as nat,
            key_id: self.key.key_id,
        }
    }
}

/// A session may start the pipeline when the slot is free (or already its
/// own) and its ledger record is still `Pending`: a session is consumed by
/// exactly one contribute attempt.
pub open spec fn entitled(m: CeremonyModel, session: u64) -> bool {
    may_acquire(m.slot, session) && status_of(m.ledger, session) == Some(LedgerStatus::Pending)
}

/// The request a pipeline invocation corresponds to.
pub open spec fn request_model(
    session: u64,
    identity: u64,
    payload: Seq<u8>,
    verdict: Verdict,
    outcomes: BackendOutcomes,
) -> RequestModel {
    RequestModel { session, identity, payload, verdict, outcomes }
}

/// One pipeline run, as a function from ceremony state and request to the
/// next state and the caller-visible result. This is the contract the
/// executable pipeline is held to, case by case:
///
/// - A session that is not entitled is turned away with `NotUsersTurn` and
///   nothing changes; the oracle's verdict is never consulted.
/// - On rejection the transcript is untouched, the slot is freed, and the
///   session is marked `Expired`; if the ledger backend fails instead, the
///   failure is reported as `StorageError`.
/// - On acceptance the contribution is appended, the durable copy advances
///   exactly when persistence succeeded, and the slot is freed. A ledger
///   failure surfaces as `StorageError` before the counter moves; a
///   persistence failure surfaces as `TranscriptIOError` with the session
///   already `Finished` and the counter untouched; otherwise the counter
///   advances and the signed receipt — or `ReceiptSigning` — is returned,
///   the contribution staying committed either way.
pub open spec fn run_model(m: CeremonyModel, req: RequestModel) -> (CeremonyModel, Result<
    ContributeReceipt,
    ContributeError,
>) {
    if !entitled(m, req.session) {
        (m, Err(ContributeError::NotUsersTurn))
    } else {
        match req.verdict {
            Verdict::Reject(diag) => {
                if req.outcomes.ledger_ok {
                    (
                        CeremonyModel {
                            slot: None,
                            ledger: mark_model(m.ledger, req.session, LedgerStatus::Expired),
                            ..m
                        },
                        Err(ContributeError::InvalidContribution(diag)),
                    )
                } else {
                    (CeremonyModel { slot: None, ..m }, Err(ContributeError::StorageError))
                }
            }
            Verdict::Accept => {
                let contributions = m.contributions.push(req.payload);
                let durable_len = if req.outcomes.persist_ok {
                    contributions.len()
                } else {
                    m.durable_len
                };
                if !req.outcomes.ledger_ok {
                    (
                        CeremonyModel { slot: None, contributions, durable_len, ..m },
                        Err(ContributeError::StorageError),
                    )
                } else {
                    let ledger = mark_model(m.ledger, req.session, LedgerStatus::Finished);
                    if !req.outcomes.persist_ok {
                        (
                            CeremonyModel { slot: None, contributions, durable_len, ledger, ..m },
                            Err(ContributeError::TranscriptIOError),
                        )
                    } else {
                        let next = CeremonyModel {
                            slot: None,
                            contributions,
                            durable_len,
                            ledger,
                            counter: m.counter + 1,
                            ..m
                        };
                        if req.outcomes.sign_ok {
                            let receipt = Receipt {
                                identity: req.identity,
                                witness: digest_of(req.payload),
                            };
                            (
                                next,
                                Ok(
                                    ContributeReceipt {
                                        receipt,
                                        signature: signature_of(
                                            CeremonyKey { key_id: m.key_id },
                                            receipt,
                                        ),
                                    },
                                ),
                            )
                        } else {
                            (next, Err(ContributeError::ReceiptSigning))
                        }
                    }
                }
            }
        }
    }
}

impl Ceremony {
    /// The components are internally consistent and the counter never runs
    /// ahead of the durable transcript.
    pub open spec fn wf(self) -> bool {
        &&& self.transcript.wf()
        &&& self.ledger.wf()
        &&& self.counter as nat <= self.transcript.durable_len()
    }

    /// A fresh ceremony: free slot, empty transcript in sync with its
    /// durable copy, empty ledger, zero counter.
    pub fn new(key_id: u64) -> (r: Ceremony)
        ensures
            r.wf(),
            r@.slot is None,
            r@.contributions =~= Seq::<Seq<u8>>::empty(),
            r@.durable_len == 0,
            r@.ledger =~= Seq::<LedgerEntry>::empty(),
            r@.counter == 0,
            r@.key_id == key_id,
    {
        Ceremony {
            lobby: Lobby::new(),
            transcript: TranscriptStore::new(),
            ledger: Ledger::new(),
            counter: 0,
            key: CeremonyKey { key_id },
        }
    }

    /// Registers a participant at login, before its one contribute attempt.
    pub fn register_participant(&mut self, session: u64)
        requires
            old(self).wf(),
            !has_entry(old(self)@.ledger, session),
        ensures
            final(self).wf(),
            final(self)@ == (CeremonyModel {
                ledger: old(self)@.ledger.push(
                    LedgerEntry { session, status: LedgerStatus::Pending },
                ),
                ..old(self)@
            }),
    {
        self.ledger.register(session);
    }

    /// Runs the whole admission pipeline for one contribute request.
    ///
    /// `verdict` is what the verification oracle said of the submitted
    /// payload against the current transcript snapshot, and `outcomes`
    /// reports how the external backends fared; the caller performs those
    /// effects and hands the results in. Whatever they were, the run leaves
    /// the ceremony exactly as `run_model` maps it, releases the slot on
    /// every path it acquired it on, and succeeds precisely when the slot
    /// was obtained, the oracle accepted, and every backend cooperated.
    pub fn run_pipeline(
        &mut self,
        session: u64,
        identity: u64,
        contribution: Contribution,
        verdict: Verdict,
        outcomes: BackendOutcomes,
    ) -> (r: Result<ContributeReceipt, ContributeError>)
        requires
            old(self).wf(),
        ensures
            final(self).wf(),
            ({
                let req = request_model(session, identity, contribution@, verdict, outcomes);
                &&& final(self)@ == run_model(old(self)@, req).0
                &&& r == run_model(old(self)@, req).1
            }),
            r == Err::<ContributeReceipt, ContributeError>(ContributeError::NotUsersTurn)
                ==> *final(self) == *old(self),
            r != Err::<ContributeReceipt, ContributeError>(ContributeError::NotUsersTurn)
                ==> final(self)@.slot is None,
            r is Ok <==> (entitled(old(self)@, session) && verdict is Accept
                && outcomes.persist_ok && outcomes.ledger_ok && outcomes.sign_ok),
    {
        let ghost m0 = self@;
        let ghost req = request_model(session, identity, contribution@, verdict, outcomes);

        // Acquire: fail fast with `NotUsersTurn` if the session may not act.
        match self.ledger.status(session) {
            Some(LedgerStatus::Pending) => {}
            _ => {
                return Err(ContributeError::NotUsersTurn);
            }
        }
        match self.lobby.acquire(session) {
            Ok(_) => {}
            Err(e) => {
                return Err(e);
            }
        }

        match verdict {
            Verdict::Reject(diag) => {
                // Rejected: the transcript is untouched; free the next
                // participant, then record the expiry.
                self.lobby.release();
                if outcomes.ledger_ok {
                    self.ledger.mark_expired(session);
                    proof {
                        assert(self@ =~= run_model(m0, req).0);
                    }
                    Err(ContributeError::InvalidContribution(diag))
                } else {
                    proof {
                        assert(self@ =~= run_model(m0, req).0);
                    }
                    Err(ContributeError::StorageError)
                }
            }
            Verdict::Accept => {
                // Commit: append under the exclusive slot, then let the
                // caller's durable write outcome decide the durable prefix.
                let witness = compute_digest(&contribution.payload);
                self.transcript.append(contribution);
                if outcomes.persist_ok {
                    self.transcript.mark_durable();
                }
                // Free the next participant and record the finish whatever
                // the persistence outcome was.
                self.lobby.release();
                if !outcomes.ledger_ok {
                    proof {
                        assert(self@ =~= run_model(m0, req).0);
                    }
                    return Err(ContributeError::StorageError);
                }
                self.ledger.mark_finished(session);
                if !outcomes.persist_ok {
                    proof {
                        assert(self@ =~= run_model(m0, req).0);
                    }
                    return Err(ContributeError::TranscriptIOError);
                }
                // Durable commit: count it, then ask the signer. The
                // counter trails the durable transcript length, whose
                // predecessor bounds it below the type's maximum.
                proof {
                    assert(m0.counter <= m0.durable_len);
                    assert(m0.durable_len <= m0.contributions.len());
                    assert(self.transcript.durable_len() == m0.contributions.len() + 1);
                    assert(self.transcript.durable_len() <= usize::MAX);
                    assert(usize::MAX <= u64::MAX);
                }
                self.counter = self.counter + 1;
                proof {
                    assert(self@ =~= run_model(m0, req).0);
                }
                if !outcomes.sign_ok {
                    return Err(ContributeError::ReceiptSigning);
                }
                let receipt = Receipt { identity, witness };
                let signature = crate::receipt::sign(&self.key, receipt);
                Ok(ContributeReceipt { receipt, signature })
            }
        }
    }
}

} // verus!
