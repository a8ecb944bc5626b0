//! The validate-then-write request pipeline and its reply mapping.
//!
//! A request moves through a short state machine: the registry is read,
//! its answer gates whether a result row is inserted, and every path ends
//! in exactly one reply. The store reads and writes themselves happen
//! outside the library; each step function here takes the store's answer
//! as a plain value and decides what happens next.

use vstd::prelude::*;

use crate::registry::is_known;
use crate::registry::known_spec;
use crate::store::Experiment;
use crate::store::MemStore;
use crate::store::ResultRow;
use crate::store::StoreError;

verus! {

/// The three-way partition of every reply: the submission was recorded,
/// the identifier was unknown, or the store failed along the way.
#[derive(Clone, Copy, Debug, PartialEq, Eq, Structural)]
pub enum Outcome {
    Accepted,
    Rejected,
    Failure,
}

/// What the caller is told: the outcome kind and the message text.
#[derive(Debug)]
pub struct Reply {
    pub outcome: Outcome,
    pub message: String,
}

/// Message confirming that a result was recorded for the identifier.
pub open spec fn accepted_message(experiment_id: Seq<char>) -> Seq<char> {
    "Result posted for "@ + experiment_id + " experiment.\n"@
}

/// Message naming the identifier as invalid.
pub open spec fn rejected_message(experiment_id: Seq<char>) -> Seq<char> {
    "'"@ + experiment_id + "' is an invalid experiment identifier.\n"@
}

/// The HTTP status each outcome renders as.
pub open spec fn status_of(outcome: Outcome) -> u16 {
    match outcome {
        Outcome::Accepted => 200,
        Outcome::Rejected => 404,
        Outcome::Failure => 500,
    }
}

impl Reply {
    /// The HTTP status of this reply.
    pub fn status(&self) -> (s: u16)
        ensures
            s == status_of(self.outcome),
    {
        match self.outcome {
            Outcome::Accepted => 200,
            Outcome::Rejected => 404,
            Outcome::Failure => 500,
        }
    }
}

/// Builds the accepted reply for an identifier.
pub fn accepted_reply(experiment_id: &str) -> (r: Reply)
    ensures
        r.outcome == Outcome::Accepted,
        r.message@ == accepted_message(experiment_id@),
{
    let mut message = String::from_str("Result posted for ");
    message.append(experiment_id);
    message.append(" experiment.\n");
    Reply { outcome: Outcome::Accepted, message: message }
}

/// Builds the rejected reply for an identifier.
pub fn rejected_reply(experiment_id: &str) -> (r: Reply)
    ensures
        r.outcome == Outcome::Rejected,
        r.message@ == rejected_message(experiment_id@),
{
    let mut message = String::from_str("'");
    message.append(experiment_id);
    message.append("' is an invalid experiment identifier.\n");
    Reply { outcome: Outcome::Rejected, message: message }
}

/// Builds the failure reply carrying the store error's description.
pub fn failure_reply(error: &StoreError) -> (r: Reply)
    ensures
        r.outcome == Outcome::Failure,
        r.message@ == error.description_spec(),
{
    Reply { outcome: Outcome::Failure, message: error.description() }
}

/// What follows the registry check: either the row to insert, with the
/// identifier and payload carried over unchanged, or the final reply.
pub enum Step {
    Insert(ResultRow),
    Done(Reply),
}

/// Decides the step after the registry read. A known identifier yields the
/// exact row to insert; an unknown one yields the rejected reply with no
/// insert; a failed read yields the failure reply, so no write is ever
/// attempted when the check errors.
pub fn on_registry_read(
    experiment_id: &str,
    payload: &str,
    read: Result<Vec<Experiment>, StoreError>,
) -> (s: Step)
    ensures
        match read {
            Ok(rows) => {
                if known_spec(rows@, experiment_id@) {
                    s matches Step::Insert(row) && row.experiment_id@ == experiment_id@
                        && row.result@ == payload@
                } else {
                    s matches Step::Done(reply) && reply.outcome == Outcome::Rejected
                        && reply.message@ == rejected_message(experiment_id@)
                }
            },
            Err(e) => s matches Step::Done(reply) && reply.outcome == Outcome::Failure
                && reply.message@ == e.description_spec(),
        },
{
    match read {
        Ok(rows) => {
            if is_known(&rows, experiment_id) {
                Step::Insert(
                    ResultRow {
                        experiment_id: experiment_id.to_owned(),
                        result: payload.to_owned(),
                    },
                )
            } else {
                Step::Done(rejected_reply(experiment_id))
            }
        },
        Err(e) => Step::Done(failure_reply(&e)),
    }
}

/// Decides the reply after the insert: success confirms the identifier,
/// and a store failure surfaces as the failure reply.
pub fn on_insert_done(experiment_id: &str, write: Result<(), StoreError>) -> (r: Reply)
    ensures
        match write {
            Ok(_) => r.outcome == Outcome::Accepted && r.message@ == accepted_message(
                experiment_id@,
            ),
            Err(e) => r.outcome == Outcome::Failure && r.message@ == e.description_spec(),
        },
{
    match write {
        Ok(_) => accepted_reply(experiment_id),
        Err(e) => failure_reply(&e),
    }
}

/// The gateway's entry point against a store held in memory: read the
/// registry, let its answer gate the insert, and reply. Exactly the rows
/// the identifier is known in admit a write; the row written carries the
/// identifier and payload unchanged, appended after the existing rows.
pub fn submit(store: &mut MemStore, experiment_id: &str, payload: &str) -> (r: Reply)
    ensures
        final(store).experiments@ == old(store).experiments@,
        known_spec(old(store).experiments@, experiment_id@) ==> {
            &&& r.outcome == Outcome::Accepted
            &&& r.message@ == accepted_message(experiment_id@)
            &&& final(store).results@.len() == old(store).results@.len() + 1
            &&& forall|j: int|
                0 <= j < old(store).results@.len() ==> final(store).results@[j] == old(
                    store,
                ).results@[j]
            &&& final(store).results@.last().experiment_id@ == experiment_id@
            &&& final(store).results@.last().result@ == payload@
        },
        !known_spec(old(store).experiments@, experiment_id@) ==> {
            &&& r.outcome == Outcome::Rejected
            &&& r.message@ == rejected_message(experiment_id@)
            &&& final(store).results@ == old(store).results@
        },
{
    if is_known(&store.experiments, experiment_id) {
        let row = ResultRow {
            experiment_id: experiment_id.to_owned(),
            result: payload.to_owned(),
        };
        store.append_result(row);
        accepted_reply(experiment_id)
    } else {
        rejected_reply(experiment_id)
    }
}

} // verus!
