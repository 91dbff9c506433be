//! Ceremony-wide guarantees, stated over the pipeline's transition model
//! and proved once and for all: slot liveness, transcript growth, and the
//! agreement of the counter with the ledger.

use vstd::prelude::*;
use crate::errors::ContributeError;
use crate::ledger::{
    count_finished, lemma_mark_model, lemma_mark_model_preserves_others, sessions_unique,
    status_of, LedgerStatus,
};
use crate::pipeline::{entitled, run_model, CeremonyModel, RequestModel, Verdict};
use crate::receipt::{signature_of, CeremonyKey, ContributeReceipt, Receipt};
use crate::transcript::digest_of;

verus! {

/// After any pipeline run, the slot is free: a run that started — was not
/// turned away with `NotUsersTurn` — releases it on every path, and a run
/// that was turned away changed nothing at all.
pub proof fn lemma_slot_free_after_run(m: CeremonyModel, req: RequestModel)
    ensures
        run_model(m, req).1 == Err::<ContributeReceipt, ContributeError>(
            ContributeError::NotUsersTurn,
        ) ==> run_model(m, req).0 == m,
        run_model(m, req).1 != Err::<ContributeReceipt, ContributeError>(
            ContributeError::NotUsersTurn,
        ) ==> run_model(m, req).0.slot is None,
{
}

/// While a session is not entitled to the slot, the run is decided before
/// the verification oracle is ever consulted: its outcome is `NotUsersTurn`
/// with the state untouched, identically for every verdict and every
/// backend outcome the request could carry.
pub proof fn lemma_denied_run_ignores_verdict(
    m: CeremonyModel,
    req1: RequestModel,
    req2: RequestModel,
)
    requires
        req1.session == req2.session,
        !entitled(m, req1.session),
    ensures
        run_model(m, req1) == run_model(m, req2),
        run_model(m, req1).0 == m,
        run_model(m, req1).1 == Err::<ContributeReceipt, ContributeError>(
            ContributeError::NotUsersTurn,
        ),
{
}

/// The state after a sequence of pipeline runs, oldest first.
pub open spec fn run_all(m: CeremonyModel, reqs: Seq<RequestModel>) -> CeremonyModel
    decreases reqs.len(),
{
    if reqs.len() == 0 {
        m
    } else {
        run_model(run_all(m, reqs.drop_last()), reqs.last()).0
    }
}

/// Whether the run of `req` from state `m` reaches the commit step: the
/// session obtained the slot and the oracle accepted.
pub open spec fn commits(m: CeremonyModel, req: RequestModel) -> bool {
    entitled(m, req.session) && req.verdict is Accept
}

/// How many of the runs in `reqs`, taken in order from `m`, reach the
/// commit step.
pub open spec fn count_commits(m: CeremonyModel, reqs: Seq<RequestModel>) -> nat
    decreases reqs.len(),
{
    if reqs.len() == 0 {
        0
    } else {
        count_commits(m, reqs.drop_last()) + if commits(
            run_all(m, reqs.drop_last()),
            reqs.last(),
        ) {
            1nat
        } else {
            0nat
        }
    }
}

/// The in-memory transcript grows by exactly one contribution per run that
/// reaches the commit step, and by nothing else.
pub proof fn lemma_transcript_growth(m: CeremonyModel, reqs: Seq<RequestModel>)
    ensures
        run_all(m, reqs).contributions.len() == m.contributions.len() + count_commits(m, reqs),
    decreases reqs.len(),
{
    if reqs.len() > 0 {
        lemma_transcript_growth(m, reqs.drop_last());
    }
}

/// The ceremony state as run `i` of the sequence finds it.
pub open spec fn state_before(m: CeremonyModel, reqs: Seq<RequestModel>, i: int) -> CeremonyModel {
    run_all(m, reqs.take(i))
}

/// When every run that reaches the commit step also persists durably, the
/// durable transcript stays in sync with the in-memory one, and after any
/// sequence of runs its length equals the number of runs that reached the
/// commit step with successful persistence — which is here every run that
/// reached it.
pub proof fn lemma_transcript_length_matches_commits(m: CeremonyModel, reqs: Seq<RequestModel>)
    requires
        m.durable_len == m.contributions.len(),
        forall|i: int|
            0 <= i < reqs.len() ==> (commits(state_before(m, reqs, i), #[trigger] reqs[i])
                ==> reqs[i].outcomes.persist_ok),
    ensures
        run_all(m, reqs).durable_len == run_all(m, reqs).contributions.len(),
        run_all(m, reqs).durable_len == m.contributions.len() + count_commits(m, reqs),
    decreases reqs.len(),
{
    if reqs.len() > 0 {
        let dl = reqs.drop_last();
        assert forall|i: int|
            0 <= i < dl.len() implies (commits(state_before(m, dl, i), #[trigger] dl[i])
            ==> dl[i].outcomes.persist_ok) by {
            assert(dl.take(i) =~= reqs.take(i));
            assert(dl[i] == reqs[i]);
        }
        lemma_transcript_length_matches_commits(m, dl);
        lemma_transcript_growth(m, dl);
        assert(reqs.take(reqs.len() - 1) =~= dl);
        assert(reqs.last() == reqs[reqs.len() - 1]);
        lemma_transcript_growth(m, reqs);
    }
}

/// One run keeps the counter equal to the number of `Finished` ledger
/// records, provided a finish is not recorded for a contribution left
/// undurable: the counter and the `Finished` mark move together on every
/// other path.
pub proof fn lemma_counter_step(m: CeremonyModel, req: RequestModel)
    requires
        sessions_unique(m.ledger),
        m.counter == count_finished(m.ledger),
        commits(m, req) && req.outcomes.ledger_ok ==> req.outcomes.persist_ok,
    ensures
        sessions_unique(run_model(m, req).0.ledger),
        run_model(m, req).0.counter == count_finished(run_model(m, req).0.ledger),
{
    if entitled(m, req.session) {
        match req.verdict {
            Verdict::Reject(_) => {
                if req.outcomes.ledger_ok {
                    lemma_mark_model(m.ledger, req.session, LedgerStatus::Expired);
                }
            }
            Verdict::Accept => {
                if req.outcomes.ledger_ok {
                    lemma_mark_model(m.ledger, req.session, LedgerStatus::Finished);
                }
            }
        }
    }
}

/// At any quiescent point of a ceremony none of whose runs recorded a
/// finish for a contribution it could not persist, the counter equals the
/// number of ledger records in state `Finished`.
pub proof fn lemma_counter_matches_finished(m: CeremonyModel, reqs: Seq<RequestModel>)
    requires
        sessions_unique(m.ledger),
        m.counter == count_finished(m.ledger),
        forall|i: int|
            0 <= i < reqs.len() ==> (commits(state_before(m, reqs, i), #[trigger] reqs[i])
                && reqs[i].outcomes.ledger_ok ==> reqs[i].outcomes.persist_ok),
    ensures
        sessions_unique(run_all(m, reqs).ledger),
        run_all(m, reqs).counter == count_finished(run_all(m, reqs).ledger),
    decreases reqs.len(),
{
    if reqs.len() > 0 {
        let dl = reqs.drop_last();
        assert forall|i: int|
            0 <= i < dl.len() implies (commits(state_before(m, dl, i), #[trigger] dl[i])
            && dl[i].outcomes.ledger_ok ==> dl[i].outcomes.persist_ok) by {
            assert(dl.take(i) =~= reqs.take(i));
            assert(dl[i] == reqs[i]);
        }
        lemma_counter_matches_finished(m, dl);
        assert(reqs.take(reqs.len() - 1) =~= dl);
        assert(reqs.last() == reqs[reqs.len() - 1]);
        lemma_counter_step(run_all(m, dl), reqs.last());
    }
}

/// Ledger records are monotonic across pipeline runs: a run never touches
/// the record of any session but its own, and a record that has already
/// reached a terminal status — or does not exist — is never changed by any
/// later run.
pub proof fn lemma_ledger_monotonic(m: CeremonyModel, req: RequestModel, session: u64)
    requires
        sessions_unique(m.ledger),
    ensures
        session != req.session ==> status_of(run_model(m, req).0.ledger, session) == status_of(
            m.ledger,
            session,
        ),
        status_of(m.ledger, session) != Some(LedgerStatus::Pending) ==> status_of(
            run_model(m, req).0.ledger,
            session,
        ) == status_of(m.ledger, session),
{
    if entitled(m, req.session) && session != req.session {
        match req.verdict {
            Verdict::Reject(_) => {
                if req.outcomes.ledger_ok {
                    lemma_mark_model_preserves_others(
                        m.ledger,
                        req.session,
                        LedgerStatus::Expired,
                        session,
                    );
                }
            }
            Verdict::Accept => {
                if req.outcomes.ledger_ok {
                    lemma_mark_model_preserves_others(
                        m.ledger,
                        req.session,
                        LedgerStatus::Finished,
                        session,
                    );
                }
            }
        }
    }
}

/// A rejected attempt: the session's record expires, the slot is freed,
/// and transcript, durable copy and counter are exactly as before.
pub proof fn lemma_rejected_run(m: CeremonyModel, req: RequestModel, diag: u64)
    requires
        sessions_unique(m.ledger),
        entitled(m, req.session),
        req.verdict == Verdict::Reject(diag),
        req.outcomes.ledger_ok,
    ensures
        run_model(m, req).1 == Err::<ContributeReceipt, ContributeError>(
            ContributeError::InvalidContribution(diag),
        ),
        run_model(m, req).0.slot is None,
        status_of(run_model(m, req).0.ledger, req.session) == Some(LedgerStatus::Expired),
        run_model(m, req).0.contributions == m.contributions,
        run_model(m, req).0.durable_len == m.durable_len,
        run_model(m, req).0.counter == m.counter,
{
    lemma_mark_model(m.ledger, req.session, LedgerStatus::Expired);
}

/// A fully successful attempt: the session's record finishes, the
/// transcript and its durable copy advance by exactly this contribution,
/// the counter advances by one, and the returned receipt carries the
/// witness digest of the contribution now last in the transcript, signed
/// with the ceremony key.
pub proof fn lemma_successful_run(m: CeremonyModel, req: RequestModel)
    requires
        sessions_unique(m.ledger),
        entitled(m, req.session),
        req.verdict is Accept,
        req.outcomes.persist_ok,
        req.outcomes.ledger_ok,
        req.outcomes.sign_ok,
    ensures
        ({
            let receipt = Receipt { identity: req.identity, witness: digest_of(req.payload) };
            run_model(m, req).1 == Ok::<ContributeReceipt, ContributeError>(
                ContributeReceipt {
                    receipt,
                    signature: signature_of(CeremonyKey { key_id: m.key_id }, receipt),
                },
            )
        }),
        run_model(m, req).0.slot is None,
        status_of(run_model(m, req).0.ledger, req.session) == Some(LedgerStatus::Finished),
        run_model(m, req).0.contributions == m.contributions.push(req.payload),
        run_model(m, req).0.contributions.last() == req.payload,
        run_model(m, req).0.durable_len == run_model(m, req).0.contributions.len(),
        run_model(m, req).0.counter == m.counter + 1,
{
    lemma_mark_model(m.ledger, req.session, LedgerStatus::Finished);
}

/// An accepted attempt whose durable write fails: the session's record
/// still finishes and the slot is freed, but the counter stands still and
/// only the in-memory transcript has advanced — the durable copy is left
/// behind, and the caller is told `TranscriptIOError`.
pub proof fn lemma_persistence_failure_run(m: CeremonyModel, req: RequestModel)
    requires
        sessions_unique(m.ledger),
        entitled(m, req.session),
        req.verdict is Accept,
        !req.outcomes.persist_ok,
        req.outcomes.ledger_ok,
    ensures
        run_model(m, req).1 == Err::<ContributeReceipt, ContributeError>(
            ContributeError::TranscriptIOError,
        ),
        run_model(m, req).0.slot is None,
        status_of(run_model(m, req).0.ledger, req.session) == Some(LedgerStatus::Finished),
        run_model(m, req).0.contributions == m.contributions.push(req.payload),
        run_model(m, req).0.durable_len == m.durable_len,
        run_model(m, req).0.counter == m.counter,
{
    lemma_mark_model(m.ledger, req.session, LedgerStatus::Finished);
}

} // verus!
