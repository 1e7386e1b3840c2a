//! Settings store: one row of role bindings per community, written by an
//! upsert and read by the permission layer.

use vstd::prelude::*;

use crate::model::{OpError, Setting};
use crate::store::Store;

verus! {

impl Store {
    /// The community has a settings row.
    pub open spec fn has_settings(self, guild_id: i64) -> bool {
        exists|k: int|
            0 <= k < self.settings@.len() && (#[trigger] self.settings@[k]).guild_id == guild_id
    }

    /// Writes the community's role bindings: an upsert.  An existing row is
    /// overwritten in place; otherwise a row is appended.
    pub fn create_settings(
        &mut self,
        guild_id: i64,
        dnd_role_id: Option<i64>,
        dm_role_id: Option<i64>,
    )
        requires
            old(self).inv(),
        ensures
            final(self).inv(),
            final(self).campaigns == old(self).campaigns,
            final(self).sessions == old(self).sessions,
            final(self).responses == old(self).responses,
            old(self).has_settings(guild_id) ==> exists|k: int|
                0 <= k < old(self).settings@.len() && (#[trigger] old(self).settings@[k]).guild_id
                    == guild_id && final(self).settings@ == old(self).settings@.update(
                    k,
                    (Setting { guild_id, dnd_role_id, dm_role_id }),
                ),
            !old(self).has_settings(guild_id) ==> final(self).settings@ == old(
                self,
            ).settings@.push((Setting { guild_id, dnd_role_id, dm_role_id })),
    {
        let n = self.settings.len();
        let mut i: usize = 0;
        while i < n
            invariant
                i <= n,
                n == self.settings@.len(),
                *self == *old(self),
                old(self).inv(),
                forall|j: int|
                    0 <= j < i ==> (#[trigger] self.settings@[j]).guild_id != guild_id,
            decreases n - i,
        {
            if self.settings[i].guild_id == guild_id {
                self.settings[i] = Setting { guild_id, dnd_role_id, dm_role_id };
                return ;
            }
            i += 1;
        }
        self.settings.push(Setting { guild_id, dnd_role_id, dm_role_id });
    }

    /// Overwrites the community's existing role bindings.  Fails with
    /// `NotFound` when the community has no settings row yet.
    pub fn update_settings(
        &mut self,
        guild_id: i64,
        dnd_role_id: Option<i64>,
        dm_role_id: Option<i64>,
    ) -> (r: Result<(), OpError>)
        requires
            old(self).inv(),
        ensures
            final(self).inv(),
            r matches Err(e) ==> e == OpError::NotFound && *final(self) == *old(self),
            r matches Ok(_) <==> old(self).has_settings(guild_id),
            r matches Ok(_) ==> exists|k: int|
                0 <= k < old(self).settings@.len() && (#[trigger] old(self).settings@[k]).guild_id
                    == guild_id && final(self).settings@ == old(self).settings@.update(
                    k,
                    (Setting { guild_id, dnd_role_id, dm_role_id }),
                ),
            final(self).campaigns == old(self).campaigns,
            final(self).sessions == old(self).sessions,
            final(self).responses == old(self).responses,
    {
        let n = self.settings.len();
        let mut i: usize = 0;
        while i < n
            invariant
                i <= n,
                n == self.settings@.len(),
                *self == *old(self),
                old(self).inv(),
                forall|j: int|
                    0 <= j < i ==> (#[trigger] self.settings@[j]).guild_id != guild_id,
            decreases n - i,
        {
            if self.settings[i].guild_id == guild_id {
                self.settings[i] = Setting { guild_id, dnd_role_id, dm_role_id };
                return Ok(());
            }
            i += 1;
        }
        Err(OpError::NotFound)
    }

    /// The community's role bindings, if configured.
    pub fn get_settings(&self, guild_id: i64) -> (r: Option<Setting>)
        ensures
            r is Some <==> self.has_settings(guild_id),
            r matches Some(s) ==> s.guild_id == guild_id && exists|k: int|
                0 <= k < self.settings@.len() && s == #[trigger] self.settings@[k],
    {
        let n = self.settings.len();
        let mut i: usize = 0;
        while i < n
            invariant
                i <= n,
                n == self.settings@.len(),
                forall|j: int|
                    0 <= j < i ==> (#[trigger] self.settings@[j]).guild_id != guild_id,
            decreases n - i,
        {
            if self.settings[i].guild_id == guild_id {
                return Some(self.settings[i]);
            }
            i += 1;
        }
        None
    }

    /// Whether the community has configured its role bindings.
    pub fn does_guild_have_settings(&self, guild_id: i64) -> (r: bool)
        ensures
            r == self.has_settings(guild_id),
    {
        match self.get_settings(guild_id) {
            Some(_) => true,
            None => false,
        }
    }
}

/// Whether a member holding `member_roles` carries the community's player
/// role.  With no settings row, or no role bound, nobody qualifies.
pub fn has_dnd_role(settings: &Option<Setting>, member_roles: &Vec<i64>) -> (r: bool)
    ensures
        r == match *settings {
            Some(s) => match s.dnd_role_id {
                Some(rid) => member_roles@.contains(rid),
                None => false,
            },
            None => false,
        },
{
    match settings {
        Some(s) => match s.dnd_role_id {
            Some(rid) => contains_role(member_roles, rid),
            None => false,
        },
        None => false,
    }
}

/// Whether a member holding `member_roles` carries the community's DM
/// role.  With no settings row, or no role bound, nobody qualifies.
pub fn has_dm_role(settings: &Option<Setting>, member_roles: &Vec<i64>) -> (r: bool)
    ensures
        r == match *settings {
            Some(s) => match s.dm_role_id {
                Some(rid) => member_roles@.contains(rid),
                None => false,
            },
            None => false,
        },
{
    match settings {
        Some(s) => match s.dm_role_id {
            Some(rid) => contains_role(member_roles, rid),
            None => false,
        },
        None => false,
    }
}

/// Whether the role identifier occurs in the list.
fn contains_role(roles: &Vec<i64>, rid: i64) -> (r: bool)
    ensures
        r == roles@.contains(rid),
{
    let n = roles.len();
    let mut i: usize = 0;
    while i < n
        invariant
            i <= n,
            n == roles@.len(),
            forall|j: int| 0 <= j < i ==> roles@[j] != rid,
        decreases n - i,
    {
        if roles[i] == rid {
            return true;
        }
        i += 1;
    }
    false
}

} // verus!
