//! Session scheduling: creation under future-date validation, named field
//! updates, status changes, community-wide cancellation, and lookups.

use vstd::prelude::*;

use crate::dates::{datetime_ts, datetime_valid, get_unix_timestamp};
use crate::model::{OpError, Session, SessionStatus};
use crate::store::{campaign_live_named, Store};

verus! {

/// The sessions of one campaign, in insertion order.
pub open spec fn in_campaign(campaign_id: i32) -> spec_fn(Session) -> bool {
    |s: Session| s.campaign_id == campaign_id
}

/// The sessions of one campaign scheduled strictly after `now_ts`.
pub open spec fn upcoming_in_campaign(campaign_id: i32, now_ts: i64) -> spec_fn(Session) -> bool {
    |s: Session| s.campaign_id == campaign_id && match s.scheduled_date {
        Some(t) => t > now_ts,
        None => false,
    }
}

/// The sort key of a session: its scheduled time, with unscheduled sessions
/// first.
pub open spec fn sched_of(s: Session) -> int {
    match s.scheduled_date {
        Some(t) => t as int,
        None => i64::MIN as int,
    }
}

/// Ascending by scheduled time.
pub open spec fn sorted_by_schedule(v: Seq<Session>) -> bool {
    forall|a: int, b: int| 0 <= a < b < v.len() ==> sched_of(#[trigger] v[a]) <= sched_of(#[trigger] v[b])
}

/// The session's sort key.
fn sched_key(s: &Session) -> (r: i64)
    ensures
        r as int == sched_of(*s),
{
    match s.scheduled_date {
        Some(t) => t,
        None => i64::MIN,
    }
}

/// Holds of a store pair when a session creation succeeded: the new record
/// sits at the end, pending, scheduled as requested, attached to the live
/// campaign that carried the requested name, and everything else is
/// unchanged.
pub open spec fn session_created(
    pre: Store,
    post: Store,
    guild_id: i64,
    campaign_name: Seq<char>,
    author_id: i64,
    location: String,
    created_date: i64,
    scheduled_ts: int,
    id: i32,
) -> bool {
    &&& id as int == pre.sessions@.len() + 1
    &&& post.sessions@.len() == pre.sessions@.len() + 1
    &&& forall|i: int| 0 <= i < pre.sessions@.len() ==> post.sessions@[i] == pre.sessions@[i]
    &&& post.sessions@.last().id == id
    &&& post.sessions@.last().author_id == author_id
    &&& post.sessions@.last().location == Some(location)
    &&& post.sessions@.last().status == SessionStatus::Pending
    &&& post.sessions@.last().created_date == created_date
    &&& post.sessions@.last().scheduled_date == Some(scheduled_ts as i64)
    &&& exists|i: int|
        0 <= i < pre.campaigns@.len() && campaign_live_named(
            #[trigger] pre.campaigns@[i],
            guild_id,
            campaign_name,
        ) && post.sessions@.last().campaign_id == pre.campaigns@[i].id
    &&& post.campaigns == pre.campaigns
    &&& post.responses == pre.responses
    &&& post.settings == pre.settings
}

impl Store {
    /// Whether the session identifier refers to a stored session.
    pub fn does_session_exist(&self, session_id: i32) -> (r: bool)
        ensures
            r == self.session_exists(session_id),
    {
        session_id >= 1 && (session_id as usize) <= self.sessions.len()
    }

    /// Fetches a session by identifier, soft-deleted campaign or not.
    pub fn get_session(&self, session_id: i32) -> (r: Option<Session>)
        requires
            self.inv(),
        ensures
            r is Some <==> self.session_exists(session_id),
            r matches Some(s) ==> s == self.sessions@[session_id - 1],
    {
        if session_id >= 1 && (session_id as usize) <= self.sessions.len() {
            Some(self.sessions[(session_id - 1) as usize].clone())
        } else {
            None
        }
    }

    /// All sessions of one campaign, in insertion order.
    pub fn get_sessions(&self, campaign_id: i32) -> (r: Vec<Session>)
        ensures
            r@ == self.sessions@.filter(in_campaign(campaign_id)),
    {
        let n = self.sessions.len();
        let mut out: Vec<Session> = Vec::new();
        let mut i: usize = 0;
        while i < n
            invariant
                i <= n,
                n == self.sessions@.len(),
                out@ == self.sessions@.take(i as int).filter(in_campaign(campaign_id)),
            decreases n - i,
        {
            let s = &self.sessions[i];
            if s.campaign_id == campaign_id {
                out.push(s.clone());
            }
            proof {
                reveal(Seq::filter);
                assert(self.sessions@.take(i + 1 as int).drop_last() =~= self.sessions@.take(
                    i as int,
                ));
                assert(self.sessions@.take(i + 1 as int).last() == self.sessions@[i as int]);
            }
            i += 1;
        }
        proof {
            assert(self.sessions@.take(n as int) =~= self.sessions@);
        }
        out
    }

    /// The upcoming sessions of one campaign: those scheduled strictly
    /// after `now_ts`, in ascending order of scheduled time.
    pub fn list_upcoming_sessions(&self, campaign_id: i32, now_ts: i64) -> (r: Vec<Session>)
        ensures
            sorted_by_schedule(r@),
            r@.to_multiset() == self.sessions@.filter(
                upcoming_in_campaign(campaign_id, now_ts),
            ).to_multiset(),
    {
        let n = self.sessions.len();
        let mut out: Vec<Session> = Vec::new();
        let mut i: usize = 0;
        proof {
            assert(self.sessions@.take(0).filter(upcoming_in_campaign(campaign_id, now_ts))
                =~= Seq::<Session>::empty());
        }
        while i < n
            invariant
                i <= n,
                n == self.sessions@.len(),
                out@.len() <= i,
                sorted_by_schedule(out@),
                out@.to_multiset() == self.sessions@.take(i as int).filter(
                    upcoming_in_campaign(campaign_id, now_ts),
                ).to_multiset(),
            decreases n - i,
        {
            let s = &self.sessions[i];
            let hit = s.campaign_id == campaign_id && match s.scheduled_date {
                Some(t) => t > now_ts,
                None => false,
            };
            if hit {
                insert_by_schedule(&mut out, s.clone());
            }
            proof {
                reveal(Seq::filter);
                let pred = upcoming_in_campaign(campaign_id, now_ts);
                assert(self.sessions@.take(i + 1 as int).drop_last() =~= self.sessions@.take(
                    i as int,
                ));
                assert(self.sessions@.take(i + 1 as int).last() == self.sessions@[i as int]);
                if pred(self.sessions@[i as int]) {
                    self.sessions@.take(i as int).filter(pred).to_multiset_ensures();
                }
            }
            i += 1;
        }
        proof {
            assert(self.sessions@.take(n as int) =~= self.sessions@);
        }
        out
    }

    /// Schedules a session under the live campaign called `campaign_name`.
    /// The date string must denote a real calendar time (`InvalidDate`
    /// otherwise) strictly after `now_ts` (`PastDate` otherwise), and the
    /// campaign must exist (`NotFound` otherwise).  On success the session
    /// is appended as `Pending` and its fresh identifier returned.
    pub fn create_session(
        &mut self,
        guild_id: i64,
        campaign_name: &str,
        author_id: i64,
        location: String,
        scheduled_date: &str,
        now_ts: i64,
    ) -> (r: Result<i32, OpError>)
        requires
            old(self).inv(),
            old(self).sessions@.len() < i32::MAX,
        ensures
            final(self).inv(),
            r matches Err(_) ==> *final(self) == *old(self),
            r == Err::<i32, OpError>(OpError::InvalidDate) <==> !datetime_valid(scheduled_date@),
            r == Err::<i32, OpError>(OpError::PastDate) <==> datetime_valid(scheduled_date@)
                && datetime_ts(scheduled_date@) <= now_ts,
            r == Err::<i32, OpError>(OpError::NotFound) <==> datetime_valid(scheduled_date@)
                && datetime_ts(scheduled_date@) > now_ts && !old(self).name_taken(
                guild_id,
                campaign_name@,
            ),
            r matches Ok(_) <==> datetime_valid(scheduled_date@) && datetime_ts(scheduled_date@)
                > now_ts && old(self).name_taken(guild_id, campaign_name@),
            r matches Ok(id) ==> session_created(
                *old(self),
                *final(self),
                guild_id,
                campaign_name@,
                author_id,
                location,
                now_ts,
                datetime_ts(scheduled_date@),
                id,
            ),
    {
        let ts = match get_unix_timestamp(scheduled_date) {
            Ok(ts) => ts,
            Err(_) => {
                return Err(OpError::InvalidDate);
            },
        };
        if ts <= now_ts {
            return Err(OpError::PastDate);
        }
        let campaign_id = match self.get_id_from_name(campaign_name, guild_id) {
            Some(id) => id,
            None => {
                return Err(OpError::NotFound);
            },
        };
        proof {
            let i = choose|i: int|
                0 <= i < self.campaigns@.len() && campaign_live_named(
                    self.campaigns@[i],
                    guild_id,
                    campaign_name@,
                ) && campaign_id == self.campaigns@[i].id;
            assert(self.campaigns@[i].id == i + 1);
        }
        let id: i32 = (self.sessions.len() + 1) as i32;
        let s = Session {
            id,
            campaign_id,
            author_id,
            location: Some(location),
            status: SessionStatus::Pending,
            created_date: now_ts,
            scheduled_date: Some(ts),
        };
        self.sessions.push(s);
        Ok(id)
    }

    /// Moves the session to a new location.  Fails with `NotFound` when the
    /// session does not exist.
    pub fn update_session_location(&mut self, session_id: i32, location: String) -> (r: Result<
        (),
        OpError,
    >)
        requires
            old(self).inv(),
        ensures
            final(self).inv(),
            r matches Err(e) ==> e == OpError::NotFound && *final(self) == *old(self),
            r matches Ok(_) <==> old(self).session_exists(session_id),
            r matches Ok(_) ==> final(self).sessions@ == old(self).sessions@.update(
                session_id - 1,
                (Session {
                    location: Some(location),
                    ..old(self).sessions@[session_id - 1]
                }),
            ),
            final(self).campaigns == old(self).campaigns,
            final(self).responses == old(self).responses,
            final(self).settings == old(self).settings,
    {
        if !(session_id >= 1 && (session_id as usize) <= self.sessions.len()) {
            return Err(OpError::NotFound);
        }
        let idx = (session_id - 1) as usize;
        let current = self.sessions[idx].clone();
        let updated = Session { location: Some(location), ..current };
        self.sessions[idx] = updated;
        Ok(())
    }

    /// Reschedules the session.  Fails with `NotFound` when the session does
    /// not exist, `InvalidDate` when the date string is not a real calendar
    /// time, and `PastDate` when it is not strictly after `now_ts`.
    pub fn update_session_date(&mut self, session_id: i32, date: &str, now_ts: i64) -> (r: Result<
        (),
        OpError,
    >)
        requires
            old(self).inv(),
        ensures
            final(self).inv(),
            r matches Err(_) ==> *final(self) == *old(self),
            r == Err::<(), OpError>(OpError::NotFound) <==> !old(self).session_exists(session_id),
            r == Err::<(), OpError>(OpError::InvalidDate) <==> old(self).session_exists(session_id)
                && !datetime_valid(date@),
            r == Err::<(), OpError>(OpError::PastDate) <==> old(self).session_exists(session_id)
                && datetime_valid(date@) && datetime_ts(date@) <= now_ts,
            r matches Ok(_) <==> old(self).session_exists(session_id) && datetime_valid(date@)
                && datetime_ts(date@) > now_ts,
            r matches Ok(_) ==> final(self).sessions@ == old(self).sessions@.update(
                session_id - 1,
                (Session {
                    scheduled_date: Some(datetime_ts(date@) as i64),
                    ..old(self).sessions@[session_id - 1]
                }),
            ),
            final(self).campaigns == old(self).campaigns,
            final(self).responses == old(self).responses,
            final(self).settings == old(self).settings,
    {
        if !(session_id >= 1 && (session_id as usize) <= self.sessions.len()) {
            return Err(OpError::NotFound);
        }
        let ts = match get_unix_timestamp(date) {
            Ok(ts) => ts,
            Err(_) => {
                return Err(OpError::InvalidDate);
            },
        };
        if ts <= now_ts {
            return Err(OpError::PastDate);
        }
        let idx = (session_id - 1) as usize;
        let current = self.sessions[idx].clone();
        let updated = Session { scheduled_date: Some(ts), ..current };
        self.sessions[idx] = updated;
        Ok(())
    }

    /// Overwrites the session's status; any status may replace any other.
    /// Fails with `NotFound` when the session does not exist.
    pub fn set_session_status(&mut self, session_id: i32, status: SessionStatus) -> (r: Result<
        (),
        OpError,
    >)
        requires
            old(self).inv(),
        ensures
            final(self).inv(),
            r matches Err(e) ==> e == OpError::NotFound && *final(self) == *old(self),
            r matches Ok(_) <==> old(self).session_exists(session_id),
            r matches Ok(_) ==> final(self).sessions@ == old(self).sessions@.update(
                session_id - 1,
                (Session { status, ..old(self).sessions@[session_id - 1] }),
            ),
            final(self).campaigns == old(self).campaigns,
            final(self).responses == old(self).responses,
            final(self).settings == old(self).settings,
    {
        if !(session_id >= 1 && (session_id as usize) <= self.sessions.len()) {
            return Err(OpError::NotFound);
        }
        let idx = (session_id - 1) as usize;
        let current = self.sessions[idx].clone();
        let updated = Session { status, ..current };
        self.sessions[idx] = updated;
        Ok(())
    }

    /// Cancels one session: sets its status to `Cancelled`.
    pub fn cancel_session(&mut self, session_id: i32) -> (r: Result<(), OpError>)
        requires
            old(self).inv(),
        ensures
            final(self).inv(),
            r matches Err(e) ==> e == OpError::NotFound && *final(self) == *old(self),
            r matches Ok(_) <==> old(self).session_exists(session_id),
            r matches Ok(_) ==> final(self).sessions@ == old(self).sessions@.update(
                session_id - 1,
                (Session {
                    status: SessionStatus::Cancelled,
                    ..old(self).sessions@[session_id - 1]
                }),
            ),
            final(self).campaigns == old(self).campaigns,
            final(self).responses == old(self).responses,
            final(self).settings == old(self).settings,
    {
        self.set_session_status(session_id, SessionStatus::Cancelled)
    }

    /// Cancels every session of every campaign of the community in one
    /// sweep — soft-deleted campaigns included, since this is a destructive
    /// community-wide reset; sessions of other communities are untouched.
    pub fn bulk_cancel_sessions(&mut self, guild_id: i64)
        requires
            old(self).inv(),
        ensures
            final(self).inv(),
            final(self).sessions@.len() == old(self).sessions@.len(),
            forall|i: int|
                0 <= i < old(self).sessions@.len() && old(self).session_in_guild(
                    #[trigger] old(self).sessions@[i],
                    guild_id,
                ) ==> final(self).sessions@[i] == (Session {
                    status: SessionStatus::Cancelled,
                    ..old(self).sessions@[i]
                }),
            forall|i: int|
                0 <= i < old(self).sessions@.len() && !old(self).session_in_guild(
                    #[trigger] old(self).sessions@[i],
                    guild_id,
                ) ==> final(self).sessions@[i] == old(self).sessions@[i],
            final(self).campaigns == old(self).campaigns,
            final(self).responses == old(self).responses,
            final(self).settings == old(self).settings,
    {
        let n = self.sessions.len();
        let mut i: usize = 0;
        while i < n
            invariant
                i <= n,
                n == self.sessions@.len(),
                self.inv(),
                self.campaigns == old(self).campaigns,
                self.responses == old(self).responses,
                self.settings == old(self).settings,
                self.sessions@.len() == old(self).sessions@.len(),
                forall|j: int|
                    i <= j < n ==> #[trigger] self.sessions@[j] == old(self).sessions@[j],
                forall|j: int|
                    0 <= j < i && old(self).session_in_guild(
                        #[trigger] old(self).sessions@[j],
                        guild_id,
                    ) ==> self.sessions@[j] == (Session {
                        status: SessionStatus::Cancelled,
                        ..old(self).sessions@[j]
                    }),
                forall|j: int|
                    0 <= j < i && !old(self).session_in_guild(
                        #[trigger] old(self).sessions@[j],
                        guild_id,
                    ) ==> self.sessions@[j] == old(self).sessions@[j],
            decreases n - i,
        {
            let campaign_id = self.sessions[i].campaign_id;
            let cidx = (campaign_id - 1) as usize;
            if self.campaigns[cidx].guild_id == guild_id {
                let current = self.sessions[i].clone();
                let updated = Session { status: SessionStatus::Cancelled, ..current };
                self.sessions[i] = updated;
            }
            i += 1;
        }
    }
}

/// Inserts a session into a schedule-sorted vector, keeping it sorted.
fn insert_by_schedule(out: &mut Vec<Session>, s: Session)
    requires
        sorted_by_schedule(old(out)@),
        old(out)@.len() < usize::MAX,
    ensures
        sorted_by_schedule(final(out)@),
        final(out)@.len() == old(out)@.len() + 1,
        final(out)@.to_multiset() == old(out)@.to_multiset().insert(s),
{
    let key = sched_key(&s);
    let n = out.len();
    let mut j: usize = 0;
    while j < n && le_key_at(out, j, key)
        invariant
            j <= n,
            n == out@.len(),
            *out == *old(out),
            sorted_by_schedule(out@),
            forall|k: int| 0 <= k < j ==> sched_of(#[trigger] out@[k]) <= key,
        decreases n - j,
    {
        j += 1;
    }
    proof {
        assert forall|k: int| j <= k < out@.len() implies sched_of(#[trigger] out@[k]) > key by {
            if k > j {
                assert(sched_of(out@[j as int]) <= sched_of(out@[k]));
            }
        }
        out@.insert_ensures(j as int, s);
        vstd::seq_lib::to_multiset_insert(out@, j as int, s);
    }
    out.insert(j, s);
    proof {
        assert forall|a: int, b: int|
            0 <= a < b < out@.len() implies sched_of(#[trigger] out@[a]) <= sched_of(
            #[trigger] out@[b]) by {
        }
    }
}

/// Whether the element at `j` sorts no later than `key`.
fn le_key_at(out: &Vec<Session>, j: usize, key: i64) -> (r: bool)
    requires
        j < out@.len(),
    ensures
        r == (sched_of(out@[j as int]) <= key),
{
    sched_key(&out[j]) <= key
}

} // verus!
