//! The storage handle: every record the system owns, with the consistency
//! invariant that all operations preserve.
//!
//! Records are kept in insertion order and never physically removed, so a
//! record's identifier is its position plus one.  The invariant carries the
//! uniqueness rules that a relational store would enforce with constraints:
//! one live campaign per (community, name), one response per
//! (session, respondent), one settings row per community, and referential
//! integrity from responses to sessions to campaigns.

use vstd::prelude::*;

use crate::model::{Campaign, Response, Session, Setting};

verus! {

/// All records of all communities, partitioned by the `guild_id` each record
/// carries.
pub struct Store {
    pub campaigns: Vec<Campaign>,
    pub sessions: Vec<Session>,
    pub responses: Vec<Response>,
    pub settings: Vec<Setting>,
}

impl Store {
    /// One record per live (community, name) pair: a campaign with this name
    /// exists in the community and is not soft-deleted.
    pub open spec fn name_taken(self, guild_id: i64, name: Seq<char>) -> bool {
        exists|i: int|
            0 <= i < self.campaigns@.len() && campaign_live_named(
                self.campaigns@[i],
                guild_id,
                name,
            )
    }

    /// The session identifier refers to a stored session.
    pub open spec fn session_exists(self, session_id: i32) -> bool {
        1 <= session_id <= self.sessions@.len()
    }

    /// The campaign identifier refers to a stored campaign (live or not).
    pub open spec fn campaign_exists(self, campaign_id: i32) -> bool {
        1 <= campaign_id <= self.campaigns@.len()
    }

    /// The session belongs to a campaign of this community, whether that
    /// campaign is live or soft-deleted.
    pub open spec fn session_in_guild(self, s: Session, guild_id: i64) -> bool {
        self.campaign_exists(s.campaign_id) && self.campaigns@[s.campaign_id - 1].guild_id
            == guild_id
    }

    /// The consistency invariant.  Identifiers equal position plus one, which
    /// makes them unique and stable; live campaign names are unique per
    /// community; responses are unique per (session, respondent); settings
    /// are unique per community; and every foreign key refers to a stored
    /// record.
    pub open spec fn inv(self) -> bool {
        &&& self.campaigns@.len() <= i32::MAX
        &&& self.sessions@.len() <= i32::MAX
        &&& self.responses@.len() <= i32::MAX
        &&& forall|i: int|
            0 <= i < self.campaigns@.len() ==> (#[trigger] self.campaigns@[i]).id == i + 1
        &&& forall|i: int|
            0 <= i < self.sessions@.len() ==> (#[trigger] self.sessions@[i]).id == i + 1
        &&& forall|i: int|
            0 <= i < self.responses@.len() ==> (#[trigger] self.responses@[i]).id == i + 1
        &&& forall|i: int, j: int|
            0 <= i < self.campaigns@.len() && 0 <= j < self.campaigns@.len() && i != j
                && !(#[trigger] self.campaigns@[i]).deleted && !(#[trigger] self.campaigns@[j]).deleted
                && self.campaigns@[i].guild_id == self.campaigns@[j].guild_id
                ==> self.campaigns@[i].name@ != self.campaigns@[j].name@
        &&& forall|i: int|
            0 <= i < self.sessions@.len() ==> self.campaign_exists(
                (#[trigger] self.sessions@[i]).campaign_id,
            )
        &&& forall|i: int|
            0 <= i < self.responses@.len() ==> self.session_exists(
                (#[trigger] self.responses@[i]).session_id,
            )
        &&& forall|i: int, j: int|
            0 <= i < self.responses@.len() && 0 <= j < self.responses@.len() && i != j ==> !((
            #[trigger] self.responses@[i]).session_id == (#[trigger] self.responses@[j]).session_id
                && self.responses@[i].respondee_id == self.responses@[j].respondee_id)
        &&& forall|i: int, j: int|
            0 <= i < self.settings@.len() && 0 <= j < self.settings@.len() && i != j ==> (
            #[trigger] self.settings@[i]).guild_id != (#[trigger] self.settings@[j]).guild_id
    }

    /// An empty store, consistent by construction.
    pub fn new() -> (r: Store)
        ensures
            r.inv(),
            r.campaigns@ == Seq::<Campaign>::empty(),
            r.sessions@ == Seq::<Session>::empty(),
            r.responses@ == Seq::<Response>::empty(),
            r.settings@ == Seq::<Setting>::empty(),
    {
        Store { campaigns: Vec::new(), sessions: Vec::new(), responses: Vec::new(), settings: Vec::new() }
    }
}

/// The campaign is live, in this community, under this name.
pub open spec fn campaign_live_named(c: Campaign, guild_id: i64, name: Seq<char>) -> bool {
    c.guild_id == guild_id && !c.deleted && c.name@ == name
}

} // verus!
