//! Record types held by the store, and the error taxonomy shared by every
//! operation on it.

use vstd::prelude::*;

verus! {

/// Why an operation was refused.  Storage connectivity and authorization
/// failures are the surrounding layers' concern and never arise here.
#[derive(Clone, Copy, PartialEq, Eq, Structural, Debug)]
pub enum OpError {
    /// The referenced campaign or session is absent or soft-deleted.
    NotFound,
    /// Another live campaign in the same community already has the name.
    DuplicateName,
    /// The date string does not denote a calendar date and time.
    InvalidDate,
    /// The date is well-formed but not strictly in the future.
    PastDate,
}

/// Lifecycle state of a session.  Any state may be set over any other; no
/// transition is ruled out.
#[derive(Clone, Copy, PartialEq, Eq, Structural, Debug)]
pub enum SessionStatus {
    Pending,
    Confirmed,
    Cancelled,
}

/// A respondent's attendance decision for one session.
#[derive(Clone, Copy, PartialEq, Eq, Structural, Debug)]
pub enum Decision {
    NotGoing,
    Going,
}

/// A recurring game series, owned by one community and run by one DM.
/// Campaigns are only ever soft-deleted, so their sessions stay reachable.
#[derive(PartialEq, Debug)]
pub struct Campaign {
    pub id: i32,
    pub guild_id: i64,
    pub dm_id: i64,
    pub name: String,
    pub description: Option<String>,
    pub link: Option<String>,
    pub deleted: bool,
    pub created_date: i64,
}

/// One scheduled meeting under a campaign.  Times are absolute timestamps in
/// seconds.
#[derive(PartialEq, Debug)]
pub struct Session {
    pub id: i32,
    pub campaign_id: i32,
    pub author_id: i64,
    pub location: Option<String>,
    pub status: SessionStatus,
    pub created_date: i64,
    pub scheduled_date: Option<i64>,
}

/// A respondent's current answer for one session: at most one record exists
/// per (session, respondent) pair.
#[derive(Clone, Copy, PartialEq, Eq, Structural, Debug)]
pub struct Response {
    pub id: i32,
    pub session_id: i32,
    pub respondee_id: i64,
    pub response: Decision,
    pub responded_date: i64,
}

/// Per-community role bindings, read by the permission layer.
#[derive(Clone, Copy, PartialEq, Eq, Structural, Debug)]
pub struct Setting {
    pub guild_id: i64,
    pub dnd_role_id: Option<i64>,
    pub dm_role_id: Option<i64>,
}

/// A player character attached to a campaign.
#[derive(PartialEq, Debug)]
pub struct Character {
    pub id: i32,
    pub campaign_id: i32,
    pub player_id: i64,
    pub name: String,
    pub race: String,
    pub class: String,
}

impl Clone for Campaign {
    fn clone(&self) -> (r: Campaign)
        ensures
            r == *self,
    {
        Campaign {
            id: self.id,
            guild_id: self.guild_id,
            dm_id: self.dm_id,
            name: self.name.clone(),
            description: clone_opt_string(&self.description),
            link: clone_opt_string(&self.link),
            deleted: self.deleted,
            created_date: self.created_date,
        }
    }
}

impl Clone for Session {
    fn clone(&self) -> (r: Session)
        ensures
            r == *self,
    {
        Session {
            id: self.id,
            campaign_id: self.campaign_id,
            author_id: self.author_id,
            location: clone_opt_string(&self.location),
            status: self.status,
            created_date: self.created_date,
            scheduled_date: self.scheduled_date,
        }
    }
}

impl Clone for Character {
    fn clone(&self) -> (r: Character)
        ensures
            r == *self,
    {
        Character {
            id: self.id,
            campaign_id: self.campaign_id,
            player_id: self.player_id,
            name: self.name.clone(),
            race: self.race.clone(),
            class: self.class.clone(),
        }
    }
}

fn clone_opt_string(s: &Option<String>) -> (r: Option<String>)
    ensures
        r == *s,
{
    match s {
        Some(v) => Some(v.clone()),
        None => None,
    }
}

impl Session {
    /// Renders a raw stored status code for display.
    pub fn translate_status(status: i64) -> (r: String)
        ensures
            status == 0 ==> r@ == "Pending"@,
            status == 1 ==> r@ == "Confirmed"@,
            status == 2 ==> r@ == "Cancelled"@,
            !(0 <= status <= 2) ==> r@ == "Unknown"@,
    {
        if status == 0 {
            String::from_str("Pending")
        } else if status == 1 {
            String::from_str("Confirmed")
        } else if status == 2 {
            String::from_str("Cancelled")
        } else {
            String::from_str("Unknown")
        }
    }
}

} // verus!
