//! Resume orchestration: epoch check, decision, outcome.

use vstd::prelude::*;
use vstd::std_specs::convert::FromSpecImpl;
use crate::error::{RiftError, SessionReject};
use crate::session::offset_tracker::{
    OffsetTracker,
    ResumeDecision,
    TopicOffsets,
    decide,
    lemma_decide_behind,
    lemma_decide_first_topic,
    lemma_decide_known_topics,
    resume_decision,
};
use crate::session::session::{Session, SessionState};

verus! {

/// What to do for a given resume attempt.
#[derive(Debug, Clone, Copy, PartialEq, Eq, Structural)]
pub enum ResumeOutcome {
    /// Session fully resumed; the client may proceed.
    Resumed,
    /// Some topics replayed; the client should process replayed frames.
    Partial,
    /// The server is still replaying; the client should wait.
    Replaying,
    /// The client must pull a fresh snapshot for at least one topic.
    SnapshotRequired,
    /// Cold start: re-subscribe from scratch.
    ColdStart,
    /// Resume rejected: a new session is required.
    Rejected,
}

/// The outcome announced for each decision.
pub open spec fn outcome_of(d: ResumeDecision) -> ResumeOutcome {
    match d {
        ResumeDecision::FullResume => ResumeOutcome::Resumed,
        ResumeDecision::PartialResume => ResumeOutcome::Partial,
        ResumeDecision::Replaying => ResumeOutcome::Replaying,
        ResumeDecision::SnapshotRequired => ResumeOutcome::SnapshotRequired,
        ResumeDecision::ColdStart => ResumeOutcome::ColdStart,
        ResumeDecision::Rejected => ResumeOutcome::Rejected,
    }
}

/// No two decisions are announced with the same outcome.
pub proof fn lemma_outcome_distinct(d1: ResumeDecision, d2: ResumeDecision)
    ensures
        d1 != d2 ==> outcome_of(d1) != outcome_of(d2),
{
}

/// The resume outcome in terms of the offsets, when the server knows
/// every topic the client names and the client is ahead nowhere: resumed
/// exactly when the client is caught up on every topic; partial exactly
/// when it is more than one offset behind on some topic; replaying
/// exactly when it is behind somewhere and at most one offset behind
/// everywhere.
pub proof fn lemma_resume_outcome(last: Seq<(Seq<char>, i64)>, heads: Map<Seq<char>, i64>)
    requires
        last.len() > 0,
        forall|i: int|
            0 <= i < last.len() ==> heads.contains_key(#[trigger] last[i].0) && last[i].1
                <= heads[last[i].0],
    ensures
        outcome_of(resume_decision(last, heads)) == ResumeOutcome::Resumed <==> (forall|i: int|
            0 <= i < last.len() ==> #[trigger] last[i].1 == heads[last[i].0]),
        outcome_of(resume_decision(last, heads)) == ResumeOutcome::Partial <==> exists|i: int|
            0 <= i < last.len() && #[trigger] last[i].1 + 1 < heads[last[i].0],
        outcome_of(resume_decision(last, heads)) == ResumeOutcome::Replaying <==> (exists|i: int|
            0 <= i < last.len() && #[trigger] last[i].1 < heads[last[i].0]) && (forall|i: int|
            0 <= i < last.len() ==> #[trigger] last[i].1 + 1 >= heads[last[i].0]),
{
    lemma_decide_known_topics(last, heads);
    lemma_decide_behind(last, heads);
}

/// Without offsets the outcome is a cold start; a first topic unknown to
/// the server asks for a snapshot, and a client ahead on its first topic
/// is rejected.
pub proof fn lemma_resume_outcome_problems(last: Seq<(Seq<char>, i64)>, heads: Map<Seq<char>, i64>)
    ensures
        last.len() == 0 ==> outcome_of(resume_decision(last, heads)) == ResumeOutcome::ColdStart,
        last.len() > 0 && !heads.contains_key(last[0].0) ==> outcome_of(resume_decision(last, heads))
            == ResumeOutcome::SnapshotRequired,
        last.len() > 0 && heads.contains_key(last[0].0) && last[0].1 > heads[last[0].0] ==> outcome_of(
            resume_decision(last, heads),
        ) == ResumeOutcome::Rejected,
{
    if last.len() > 0 {
        lemma_decide_first_topic(last, heads);
    }
}

impl From<ResumeDecision> for ResumeOutcome {
    /// The outcome announced for the decision.
    fn from(d: ResumeDecision) -> (r: ResumeOutcome)
        ensures
            r == outcome_of(d),
    {
        match d {
            ResumeDecision::FullResume => ResumeOutcome::Resumed,
            ResumeDecision::PartialResume => ResumeOutcome::Partial,
            ResumeDecision::Replaying => ResumeOutcome::Replaying,
            ResumeDecision::SnapshotRequired => ResumeOutcome::SnapshotRequired,
            ResumeDecision::ColdStart => ResumeOutcome::ColdStart,
            ResumeDecision::Rejected => ResumeOutcome::Rejected,
        }
    }
}

impl FromSpecImpl<ResumeDecision> for ResumeOutcome {
    open spec fn obeys_from_spec() -> bool {
        true
    }

    open spec fn from_spec(d: ResumeDecision) -> ResumeOutcome {
        outcome_of(d)
    }
}

impl Default for ResumeManager {
    /// A manager with an empty tracker.
    fn default() -> (r: ResumeManager)
        ensures
            r.tracker.wf(),
            r.tracker@ == Map::<Seq<char>, Map<Seq<char>, i64>>::empty(),
    {
        ResumeManager::new()
    }
}

/// Resume manager: checks the epoch, decides the outcome, and tracks
/// offsets.
pub struct ResumeManager {
    /// Per-session offsets.
    pub tracker: OffsetTracker,
}

impl ResumeManager {
    /// A manager with an empty tracker.
    pub fn new() -> (r: ResumeManager)
        ensures
            r.tracker.wf(),
            r.tracker@ == Map::<Seq<char>, Map<Seq<char>, i64>>::empty(),
    {
        ResumeManager { tracker: OffsetTracker::new() }
    }

    /// Decides the outcome of a resume attempt on `session` by a client
    /// claiming `incoming_epoch`, with its last processed offsets and the
    /// server's head offsets: `Expired` for a closed session, `Conflict`
    /// for another epoch, else the outcome of the resume decision.
    pub fn evaluate(
        &self,
        session: &Session,
        incoming_epoch: u32,
        last_offsets: &TopicOffsets,
        topic_offsets: &TopicOffsets,
    ) -> (r: Result<ResumeOutcome, RiftError>)
        requires
            topic_offsets.wf(),
            session.state != SessionState::Closed && incoming_epoch == session.epoch ==> forall|i: int|
                0 <= i < last_offsets.pairs().len() && topic_offsets@.contains_key(
                    #[trigger] last_offsets.pairs()[i].0,
                ) && topic_offsets@[last_offsets.pairs()[i].0] == i64::MIN ==> last_offsets.pairs()[i].1
                    != i64::MIN,
        ensures
            session.state == SessionState::Closed ==> r matches Err(
                RiftError::Session(SessionReject::Expired),
            ),
            session.state != SessionState::Closed && incoming_epoch != session.epoch ==> (r
                matches Err(RiftError::Session(SessionReject::Conflict { incoming, current }))
                && incoming == incoming_epoch && current == session.epoch),
            session.state != SessionState::Closed && incoming_epoch == session.epoch ==> r == Ok::<
                ResumeOutcome,
                RiftError,
            >(outcome_of(resume_decision(last_offsets.pairs(), topic_offsets@))),
    {
        if !session.is_alive() {
            return Err(RiftError::Session(SessionReject::Expired));
        }
        if incoming_epoch != session.current_epoch() {
            return Err(
                RiftError::Session(
                    SessionReject::Conflict { incoming: incoming_epoch, current: session.current_epoch() },
                ),
            );
        }
        Ok(ResumeOutcome::from(decide(last_offsets, topic_offsets)))
    }
}

} // verus!
