//! Attendance ledger: at most one response per (session, respondent), with
//! a repeated answer overwriting the earlier one in place.

use vstd::prelude::*;

use crate::model::{Decision, OpError, Response};
use crate::store::Store;

verus! {

/// The record answers for this (session, respondent) pair.
pub open spec fn response_pair(r: Response, session_id: i32, respondee_id: i64) -> bool {
    r.session_id == session_id && r.respondee_id == respondee_id
}

/// The responses filed against one session, in insertion order.
pub open spec fn for_session(session_id: i32) -> spec_fn(Response) -> bool {
    |r: Response| r.session_id == session_id
}

impl Store {
    /// A response for this (session, respondent) pair is on file.
    pub open spec fn has_response(self, session_id: i32, respondee_id: i64) -> bool {
        exists|k: int|
            0 <= k < self.responses@.len() && response_pair(
                #[trigger] self.responses@[k],
                session_id,
                respondee_id,
            )
    }
}

/// Holds of a store pair when recording a response succeeded: the pair's
/// record now carries the given decision and time — updated in place when
/// one existed, appended with a fresh identifier otherwise — and everything
/// else is unchanged.
pub open spec fn response_recorded(
    pre: Store,
    post: Store,
    session_id: i32,
    respondee_id: i64,
    decision: Decision,
    responded_date: i64,
) -> bool {
    &&& post.campaigns == pre.campaigns
    &&& post.sessions == pre.sessions
    &&& post.settings == pre.settings
    &&& if pre.has_response(session_id, respondee_id) {
        exists|k: int|
            0 <= k < pre.responses@.len() && response_pair(
                #[trigger] pre.responses@[k],
                session_id,
                respondee_id,
            ) && post.responses@ == pre.responses@.update(
                k,
                (Response {
                    response: decision,
                    responded_date,
                    ..pre.responses@[k]
                }),
            )
    } else {
        post.responses@ == pre.responses@.push(
            (Response {
                id: (pre.responses@.len() + 1) as i32,
                session_id,
                respondee_id,
                response: decision,
                responded_date,
            }),
        )
    }
}

impl Store {
    /// Records a respondent's answer for a session: an upsert.  Fails with
    /// `NotFound` exactly when the session does not exist; a session's being
    /// cancelled does not block answers.  When the same respondent answers
    /// the same session again, the one existing record is overwritten.
    pub fn create_response(
        &mut self,
        session_id: i32,
        respondee_id: i64,
        decision: Decision,
        responded_date: i64,
    ) -> (r: Result<(), OpError>)
        requires
            old(self).inv(),
            old(self).responses@.len() < i32::MAX,
        ensures
            final(self).inv(),
            r matches Err(e) ==> e == OpError::NotFound && *final(self) == *old(self),
            r matches Ok(_) <==> old(self).session_exists(session_id),
            r matches Ok(_) ==> response_recorded(
                *old(self),
                *final(self),
                session_id,
                respondee_id,
                decision,
                responded_date,
            ),
    {
        if !(session_id >= 1 && (session_id as usize) <= self.sessions.len()) {
            return Err(OpError::NotFound);
        }
        let n = self.responses.len();
        let mut i: usize = 0;
        while i < n
            invariant
                i <= n,
                n == self.responses@.len(),
                *self == *old(self),
                old(self).inv(),
                old(self).responses@.len() < i32::MAX,
                old(self).session_exists(session_id),
                forall|j: int|
                    0 <= j < i ==> !response_pair(
                        #[trigger] self.responses@[j],
                        session_id,
                        respondee_id,
                    ),
            decreases n - i,
        {
            let row = self.responses[i];
            if row.session_id == session_id && row.respondee_id == respondee_id {
                let updated = Response { response: decision, responded_date, ..row };
                self.responses[i] = updated;
                return Ok(());
            }
            i += 1;
        }
        let id: i32 = (self.responses.len() + 1) as i32;
        self.responses.push(
            Response { id, session_id, respondee_id, response: decision, responded_date },
        );
        proof {
            let rs = self.responses@;
            let m = rs.len() - 1;
            assert forall|a: int, b: int|
                0 <= a < rs.len() && 0 <= b < rs.len() && a != b implies !((
            #[trigger] rs[a]).session_id == (#[trigger] rs[b]).session_id && rs[a].respondee_id
                == rs[b].respondee_id) by {
                if a == m {
                    assert(!response_pair(old(self).responses@[b], session_id, respondee_id));
                }
                if b == m {
                    assert(!response_pair(old(self).responses@[a], session_id, respondee_id));
                }
            }
        }
        Ok(())
    }

    /// Records an answer on a respondent's behalf: the proxy form of
    /// `create_response`, used when an organizer answers for a player.
    /// Whether the actor may do so is the calling layer's decision; the
    /// record is keyed by the respondent alone, so the actor leaves no
    /// trace in the ledger.
    pub fn record_on_behalf(
        &mut self,
        session_id: i32,
        respondee_id: i64,
        decision: Decision,
        actor_id: i64,
        responded_date: i64,
    ) -> (r: Result<(), OpError>)
        requires
            old(self).inv(),
            old(self).responses@.len() < i32::MAX,
        ensures
            final(self).inv(),
            r matches Err(e) ==> e == OpError::NotFound && *final(self) == *old(self),
            r matches Ok(_) <==> old(self).session_exists(session_id),
            r matches Ok(_) ==> response_recorded(
                *old(self),
                *final(self),
                session_id,
                respondee_id,
                decision,
                responded_date,
            ),
    {
        let _ = actor_id;
        self.create_response(session_id, respondee_id, decision, responded_date)
    }

    /// Overwrites the decision and time of one response record by its
    /// identifier.  Fails with `NotFound` when no record has the identifier.
    pub fn update_response(&mut self, response_id: i32, decision: Decision, responded_date: i64) -> (r:
        Result<(), OpError>)
        requires
            old(self).inv(),
        ensures
            final(self).inv(),
            r matches Err(e) ==> e == OpError::NotFound && *final(self) == *old(self),
            r matches Ok(_) <==> 1 <= response_id <= old(self).responses@.len(),
            r matches Ok(_) ==> final(self).responses@ == old(self).responses@.update(
                response_id - 1,
                (Response {
                    response: decision,
                    responded_date,
                    ..old(self).responses@[response_id - 1]
                }),
            ),
            final(self).campaigns == old(self).campaigns,
            final(self).sessions == old(self).sessions,
            final(self).settings == old(self).settings,
    {
        if !(response_id >= 1 && (response_id as usize) <= self.responses.len()) {
            return Err(OpError::NotFound);
        }
        let idx = (response_id - 1) as usize;
        let row = self.responses[idx];
        let updated = Response { response: decision, responded_date, ..row };
        self.responses[idx] = updated;
        Ok(())
    }

    /// All responses filed against one session, in insertion order; the
    /// caller partitions them into going and not-going for display.
    pub fn get_responses_for_session(&self, session_id: i32) -> (r: Vec<Response>)
        ensures
            r@ == self.responses@.filter(for_session(session_id)),
    {
        let n = self.responses.len();
        let mut out: Vec<Response> = Vec::new();
        let mut i: usize = 0;
        while i < n
            invariant
                i <= n,
                n == self.responses@.len(),
                out@ == self.responses@.take(i as int).filter(for_session(session_id)),
            decreases n - i,
        {
            let row = self.responses[i];
            if row.session_id == session_id {
                out.push(row);
            }
            proof {
                reveal(Seq::filter);
                assert(self.responses@.take(i + 1 as int).drop_last() =~= self.responses@.take(
                    i as int,
                ));
                assert(self.responses@.take(i + 1 as int).last() == self.responses@[i as int]);
            }
            i += 1;
        }
        proof {
            assert(self.responses@.take(n as int) =~= self.responses@);
        }
        out
    }
}

} // verus!
