//! Campaign registry: creation under a per-community name-uniqueness rule,
//! named field updates, soft deletion, and lookups.

use vstd::prelude::*;

use crate::model::{Campaign, OpError};
use crate::store::{campaign_live_named, Store};
use crate::text::{str_eq, str_starts_with};

verus! {

/// The live campaigns of one community, in insertion order.
pub open spec fn live_in(guild_id: i64) -> spec_fn(Campaign) -> bool {
    |c: Campaign| c.guild_id == guild_id && !c.deleted
}

/// The live campaigns of one community whose name starts with the prefix.
pub open spec fn live_in_prefixed(guild_id: i64, p: Seq<char>) -> spec_fn(Campaign) -> bool {
    |c: Campaign| c.guild_id == guild_id && !c.deleted && p.is_prefix_of(c.name@)
}

/// How a campaign is selected when fetched.
pub enum CampaignFilters {
    /// Live campaign of the community with this exact name.
    Name(String),
    /// Live campaign of the community with this identifier.
    Id(i32),
    /// Earliest live campaign run by this DM, in any community.
    DmId(i64),
}

/// Whether a campaign record is selected by the filter.
pub open spec fn matches_filter(c: Campaign, guild_id: i64, f: CampaignFilters) -> bool {
    !c.deleted && match f {
        CampaignFilters::Name(n) => c.guild_id == guild_id && c.name@ == n@,
        CampaignFilters::Id(id) => c.guild_id == guild_id && c.id == id,
        CampaignFilters::DmId(dm) => c.dm_id == dm,
    }
}

/// Holds of a store pair when a campaign creation succeeded: the new record
/// sits at the end with the requested fields, a fresh identifier, and not
/// deleted, and everything else is unchanged.
pub open spec fn campaign_created(
    pre: Store,
    post: Store,
    guild_id: i64,
    dm_id: i64,
    name: Seq<char>,
    description: Option<String>,
    link: Option<String>,
    created_date: i64,
    id: i32,
) -> bool {
    &&& id as int == pre.campaigns@.len() + 1
    &&& post.campaigns@.len() == pre.campaigns@.len() + 1
    &&& forall|i: int|
        0 <= i < pre.campaigns@.len() ==> post.campaigns@[i] == pre.campaigns@[i]
    &&& campaign_live_named(post.campaigns@.last(), guild_id, name)
    &&& post.campaigns@.last().id == id
    &&& post.campaigns@.last().dm_id == dm_id
    &&& post.campaigns@.last().description == description
    &&& post.campaigns@.last().link == link
    &&& post.campaigns@.last().created_date == created_date
    &&& post.sessions == pre.sessions
    &&& post.responses == pre.responses
    &&& post.settings == pre.settings
}

impl Store {
    /// Whether a live campaign with this exact name exists in the community.
    pub fn does_campaign_exist(&self, name: &str, guild_id: i64) -> (r: bool)
        ensures
            r == self.name_taken(guild_id, name@),
    {
        let n = self.campaigns.len();
        let mut i: usize = 0;
        while i < n
            invariant
                i <= n,
                n == self.campaigns@.len(),
                forall|j: int|
                    0 <= j < i ==> !campaign_live_named(
                        #[trigger] self.campaigns@[j],
                        guild_id,
                        name@,
                    ),
            decreases n - i,
        {
            let c = &self.campaigns[i];
            if c.guild_id == guild_id && !c.deleted && str_eq(c.name.as_str(), name) {
                return true;
            }
            i += 1;
        }
        false
    }

    /// Whether the campaign name is already in use in the community.
    pub fn is_campaign_name_taken(&self, name: &str, guild_id: i64) -> (r: bool)
        ensures
            r == self.name_taken(guild_id, name@),
    {
        self.does_campaign_exist(name, guild_id)
    }

    /// Adds a campaign.  Fails with `DuplicateName` exactly when a live
    /// campaign with this name already exists in the community; on success
    /// the new record is appended with a fresh identifier, which is returned.
    pub fn create_campaign(
        &mut self,
        guild_id: i64,
        dm_id: i64,
        name: String,
        description: Option<String>,
        link: Option<String>,
        created_date: i64,
    ) -> (r: Result<i32, OpError>)
        requires
            old(self).inv(),
            old(self).campaigns@.len() < i32::MAX,
        ensures
            final(self).inv(),
            r matches Err(e) ==> e == OpError::DuplicateName && *final(self) == *old(self),
            r matches Err(_) <==> old(self).name_taken(guild_id, name@),
            r matches Ok(id) ==> campaign_created(
                *old(self),
                *final(self),
                guild_id,
                dm_id,
                name@,
                description,
                link,
                created_date,
                id,
            ),
    {
        if self.does_campaign_exist(name.as_str(), guild_id) {
            return Err(OpError::DuplicateName);
        }
        let id: i32 = (self.campaigns.len() + 1) as i32;
        let c = Campaign {
            id,
            guild_id,
            dm_id,
            name,
            description,
            link,
            deleted: false,
            created_date,
        };
        self.campaigns.push(c);
        proof {
            let cs = self.campaigns@;
            let n = cs.len() - 1;
            assert forall|i: int, j: int|
                0 <= i < cs.len() && 0 <= j < cs.len() && i != j && !(#[trigger] cs[i]).deleted
                    && !(#[trigger] cs[j]).deleted && cs[i].guild_id == cs[j].guild_id implies cs[i].name@
                != cs[j].name@ by {
                if i == n && cs[i].name@ == cs[j].name@ {
                    assert(campaign_live_named(old(self).campaigns@[j], guild_id, name@));
                }
                if j == n && cs[i].name@ == cs[j].name@ {
                    assert(campaign_live_named(old(self).campaigns@[i], guild_id, name@));
                }
            }
        }
        Ok(id)
    }

    /// Index of the live campaign with this name in the community, if any.
    fn find_live_named(&self, name: &str, guild_id: i64) -> (r: Option<usize>)
        ensures
            r matches Some(i) ==> i < self.campaigns@.len() && campaign_live_named(
                self.campaigns@[i as int],
                guild_id,
                name@,
            ),
            r is None <==> !self.name_taken(guild_id, name@),
    {
        let n = self.campaigns.len();
        let mut i: usize = 0;
        while i < n
            invariant
                i <= n,
                n == self.campaigns@.len(),
                forall|j: int|
                    0 <= j < i ==> !campaign_live_named(
                        #[trigger] self.campaigns@[j],
                        guild_id,
                        name@,
                    ),
            decreases n - i,
        {
            let c = &self.campaigns[i];
            if c.guild_id == guild_id && !c.deleted && str_eq(c.name.as_str(), name) {
                return Some(i);
            }
            i += 1;
        }
        None
    }

    /// Renames the live campaign called `old_name`.  Fails with `NotFound`
    /// when no such campaign exists, and with `DuplicateName` when a
    /// different live campaign already holds `new_name`; renaming a campaign
    /// to its own name is allowed and leaves the name in place.
    pub fn rename_campaign(&mut self, guild_id: i64, old_name: &str, new_name: String) -> (r:
        Result<(), OpError>)
        requires
            old(self).inv(),
        ensures
            final(self).inv(),
            r matches Err(_) ==> *final(self) == *old(self),
            r == Err::<(), OpError>(OpError::NotFound) <==> !old(self).name_taken(
                guild_id,
                old_name@,
            ),
            r == Err::<(), OpError>(OpError::DuplicateName) <==> old(self).name_taken(
                guild_id,
                old_name@,
            ) && new_name@ != old_name@ && old(self).name_taken(guild_id, new_name@),
            r matches Ok(_) <==> old(self).name_taken(guild_id, old_name@) && (new_name@
                == old_name@ || !old(self).name_taken(guild_id, new_name@)),
            r matches Ok(_) ==> exists|i: int|
                0 <= i < old(self).campaigns@.len() && campaign_live_named(
                    old(self).campaigns@[i],
                    guild_id,
                    old_name@,
                ) && final(self).campaigns@ == old(self).campaigns@.update(
                    i,
                    (Campaign { name: new_name, ..old(self).campaigns@[i] }),
                ),
            final(self).sessions == old(self).sessions,
            final(self).responses == old(self).responses,
            final(self).settings == old(self).settings,
    {
        let idx = match self.find_live_named(old_name, guild_id) {
            Some(i) => i,
            None => {
                return Err(OpError::NotFound);
            },
        };
        if !str_eq(old_name, new_name.as_str()) && self.does_campaign_exist(
            new_name.as_str(),
            guild_id,
        ) {
            return Err(OpError::DuplicateName);
        }
        let current = self.campaigns[idx].clone();
        let updated = Campaign { name: new_name, ..current };
        self.campaigns[idx] = updated;
        proof {
            let cs = self.campaigns@;
            let pre = old(self).campaigns@;
            assert forall|a: int, b: int|
                0 <= a < cs.len() && 0 <= b < cs.len() && a != b && !(#[trigger] cs[a]).deleted && !(
                #[trigger] cs[b]).deleted && cs[a].guild_id == cs[b].guild_id implies cs[a].name@
                != cs[b].name@ by {
                if cs[a].name@ == cs[b].name@ {
                    if a == idx {
                        assert(campaign_live_named(pre[b], guild_id, cs[idx as int].name@));
                    } else if b == idx {
                        assert(campaign_live_named(pre[a], guild_id, cs[idx as int].name@));
                    }
                }
            }
        }
        Ok(())
    }

    /// Replaces the description of the live campaign called `name`.
    pub fn update_campaign_description(
        &mut self,
        guild_id: i64,
        name: &str,
        description: String,
    ) -> (r: Result<(), OpError>)
        requires
            old(self).inv(),
        ensures
            final(self).inv(),
            r matches Err(e) ==> e == OpError::NotFound && *final(self) == *old(self),
            r matches Ok(_) <==> old(self).name_taken(guild_id, name@),
            r matches Ok(_) ==> exists|i: int|
                0 <= i < old(self).campaigns@.len() && campaign_live_named(
                    old(self).campaigns@[i],
                    guild_id,
                    name@,
                ) && final(self).campaigns@ == old(self).campaigns@.update(
                    i,
                    (Campaign { description: Some(description), ..old(self).campaigns@[i] }),
                ),
            final(self).sessions == old(self).sessions,
            final(self).responses == old(self).responses,
            final(self).settings == old(self).settings,
    {
        let idx = match self.find_live_named(name, guild_id) {
            Some(i) => i,
            None => {
                return Err(OpError::NotFound);
            },
        };
        let current = self.campaigns[idx].clone();
        let updated = Campaign { description: Some(description), ..current };
        self.campaigns[idx] = updated;
        Ok(())
    }

    /// Replaces the link of the live campaign called `name`.
    pub fn update_campaign_link(&mut self, guild_id: i64, name: &str, link: String) -> (r: Result<
        (),
        OpError,
    >)
        requires
            old(self).inv(),
        ensures
            final(self).inv(),
            r matches Err(e) ==> e == OpError::NotFound && *final(self) == *old(self),
            r matches Ok(_) <==> old(self).name_taken(guild_id, name@),
            r matches Ok(_) ==> exists|i: int|
                0 <= i < old(self).campaigns@.len() && campaign_live_named(
                    old(self).campaigns@[i],
                    guild_id,
                    name@,
                ) && final(self).campaigns@ == old(self).campaigns@.update(
                    i,
                    (Campaign { link: Some(link), ..old(self).campaigns@[i] }),
                ),
            final(self).sessions == old(self).sessions,
            final(self).responses == old(self).responses,
            final(self).settings == old(self).settings,
    {
        let idx = match self.find_live_named(name, guild_id) {
            Some(i) => i,
            None => {
                return Err(OpError::NotFound);
            },
        };
        let current = self.campaigns[idx].clone();
        let updated = Campaign { link: Some(link), ..current };
        self.campaigns[idx] = updated;
        Ok(())
    }

    /// Reassigns the DM of the live campaign called `name`.
    pub fn update_campaign_dm(&mut self, guild_id: i64, name: &str, dm_id: i64) -> (r: Result<
        (),
        OpError,
    >)
        requires
            old(self).inv(),
        ensures
            final(self).inv(),
            r matches Err(e) ==> e == OpError::NotFound && *final(self) == *old(self),
            r matches Ok(_) <==> old(self).name_taken(guild_id, name@),
            r matches Ok(_) ==> exists|i: int|
                0 <= i < old(self).campaigns@.len() && campaign_live_named(
                    old(self).campaigns@[i],
                    guild_id,
                    name@,
                ) && final(self).campaigns@ == old(self).campaigns@.update(
                    i,
                    (Campaign { dm_id, ..old(self).campaigns@[i] }),
                ),
            final(self).sessions == old(self).sessions,
            final(self).responses == old(self).responses,
            final(self).settings == old(self).settings,
    {
        let idx = match self.find_live_named(name, guild_id) {
            Some(i) => i,
            None => {
                return Err(OpError::NotFound);
            },
        };
        let current = self.campaigns[idx].clone();
        let updated = Campaign { dm_id, ..current };
        self.campaigns[idx] = updated;
        Ok(())
    }

    /// Soft-deletes the live campaign called `name`.  The record stays in
    /// the store, so its sessions remain reachable, but the name becomes
    /// free again and the campaign leaves every live listing.
    pub fn soft_delete_campaign(&mut self, guild_id: i64, name: &str) -> (r: Result<(), OpError>)
        requires
            old(self).inv(),
        ensures
            final(self).inv(),
            r matches Err(e) ==> e == OpError::NotFound && *final(self) == *old(self),
            r matches Ok(_) <==> old(self).name_taken(guild_id, name@),
            r matches Ok(_) ==> exists|i: int|
                0 <= i < old(self).campaigns@.len() && campaign_live_named(
                    old(self).campaigns@[i],
                    guild_id,
                    name@,
                ) && final(self).campaigns@ == old(self).campaigns@.update(
                    i,
                    (Campaign { deleted: true, ..old(self).campaigns@[i] }),
                ),
            r matches Ok(_) ==> !final(self).name_taken(guild_id, name@),
            final(self).sessions == old(self).sessions,
            final(self).responses == old(self).responses,
            final(self).settings == old(self).settings,
    {
        let idx = match self.find_live_named(name, guild_id) {
            Some(i) => i,
            None => {
                return Err(OpError::NotFound);
            },
        };
        let current = self.campaigns[idx].clone();
        let updated = Campaign { deleted: true, ..current };
        self.campaigns[idx] = updated;
        proof {
            let cs = self.campaigns@;
            let pre = old(self).campaigns@;
            assert forall|j: int| 0 <= j < cs.len() implies !campaign_live_named(
                #[trigger] cs[j],
                guild_id,
                name@,
            ) by {
                if j != idx && campaign_live_named(cs[j], guild_id, name@) {
                    assert(pre[j].name@ == pre[idx as int].name@);
                }
            }
        }
        Ok(())
    }

    /// All live campaigns of the community, in insertion order.
    pub fn get_campaigns(&self, guild_id: i64) -> (r: Vec<Campaign>)
        ensures
            r@ == self.campaigns@.filter(live_in(guild_id)),
    {
        let n = self.campaigns.len();
        let mut out: Vec<Campaign> = Vec::new();
        let mut i: usize = 0;
        while i < n
            invariant
                i <= n,
                n == self.campaigns@.len(),
                out@ == self.campaigns@.take(i as int).filter(live_in(guild_id)),
            decreases n - i,
        {
            let c = &self.campaigns[i];
            if c.guild_id == guild_id && !c.deleted {
                out.push(c.clone());
            }
            proof {
                reveal(Seq::filter);
                assert(self.campaigns@.take(i + 1 as int).drop_last() =~= self.campaigns@.take(
                    i as int,
                ));
                assert(self.campaigns@.take(i + 1 as int).last() == self.campaigns@[i as int]);
            }
            i += 1;
        }
        proof {
            assert(self.campaigns@.take(n as int) =~= self.campaigns@);
        }
        out
    }

    /// The names of all live campaigns of the community, in insertion order.
    pub fn get_campaign_names(&self, guild_id: i64) -> (r: Vec<String>)
        ensures
            r@.len() == self.campaigns@.filter(live_in(guild_id)).len(),
            forall|k: int|
                0 <= k < r@.len() ==> r@[k]@ == self.campaigns@.filter(live_in(guild_id))[k].name@,
    {
        let n = self.campaigns.len();
        let mut out: Vec<String> = Vec::new();
        let mut i: usize = 0;
        while i < n
            invariant
                i <= n,
                n == self.campaigns@.len(),
                out@.len() == self.campaigns@.take(i as int).filter(live_in(guild_id)).len(),
                forall|k: int|
                    0 <= k < out@.len() ==> out@[k]@ == self.campaigns@.take(i as int).filter(
                        live_in(guild_id),
                    )[k].name@,
            decreases n - i,
        {
            let c = &self.campaigns[i];
            if c.guild_id == guild_id && !c.deleted {
                out.push(c.name.clone());
            }
            proof {
                reveal(Seq::filter);
                assert(self.campaigns@.take(i + 1 as int).drop_last() =~= self.campaigns@.take(
                    i as int,
                ));
                assert(self.campaigns@.take(i + 1 as int).last() == self.campaigns@[i as int]);
            }
            i += 1;
        }
        proof {
            assert(self.campaigns@.take(n as int) =~= self.campaigns@);
        }
        out
    }

    /// Fetches a live campaign record by name, identifier or DM; the
    /// earliest-created match is returned.
    pub fn get_campaign(&self, guild_id: i64, filter: CampaignFilters) -> (r: Option<Campaign>)
        ensures
            r is Some <==> exists|i: int|
                0 <= i < self.campaigns@.len() && matches_filter(
                    #[trigger] self.campaigns@[i],
                    guild_id,
                    filter,
                ),
            r matches Some(c) ==> exists|i: int|
                0 <= i < self.campaigns@.len() && c == self.campaigns@[i] && matches_filter(
                    self.campaigns@[i],
                    guild_id,
                    filter,
                ) && forall|j: int|
                    0 <= j < i ==> !matches_filter(#[trigger] self.campaigns@[j], guild_id, filter),
    {
        let n = self.campaigns.len();
        let mut i: usize = 0;
        while i < n
            invariant
                i <= n,
                n == self.campaigns@.len(),
                forall|j: int|
                    0 <= j < i ==> !matches_filter(#[trigger] self.campaigns@[j], guild_id, filter),
            decreases n - i,
        {
            let c = &self.campaigns[i];
            let hit = if c.deleted {
                false
            } else {
                match &filter {
                    CampaignFilters::Name(nm) => c.guild_id == guild_id && str_eq(
                        c.name.as_str(),
                        nm.as_str(),
                    ),
                    CampaignFilters::Id(id) => c.guild_id == guild_id && c.id == *id,
                    CampaignFilters::DmId(dm) => c.dm_id == *dm,
                }
            };
            if hit {
                return Some(c.clone());
            }
            i += 1;
        }
        None
    }

    /// The identifier of the live campaign with this name, if any.
    pub fn get_id_from_name(&self, name: &str, guild_id: i64) -> (r: Option<i32>)
        ensures
            r is Some <==> self.name_taken(guild_id, name@),
            r matches Some(id) ==> exists|i: int|
                0 <= i < self.campaigns@.len() && campaign_live_named(
                    self.campaigns@[i],
                    guild_id,
                    name@,
                ) && id == self.campaigns@[i].id,
    {
        match self.find_live_named(name, guild_id) {
            Some(i) => Some(self.campaigns[i].id),
            None => None,
        }
    }

    /// The name of the campaign with this identifier in the community,
    /// whether or not it has been soft-deleted.
    pub fn get_name_from_id(&self, id: i32, guild_id: i64) -> (r: Option<String>)
        ensures
            r is Some <==> exists|i: int|
                0 <= i < self.campaigns@.len() && (#[trigger] self.campaigns@[i]).id == id
                    && self.campaigns@[i].guild_id == guild_id,
            r matches Some(n) ==> exists|i: int|
                0 <= i < self.campaigns@.len() && (#[trigger] self.campaigns@[i]).id == id
                    && self.campaigns@[i].guild_id == guild_id && n@ == self.campaigns@[i].name@,
    {
        let len = self.campaigns.len();
        let mut i: usize = 0;
        while i < len
            invariant
                i <= len,
                len == self.campaigns@.len(),
                forall|j: int|
                    0 <= j < i ==> !((#[trigger] self.campaigns@[j]).id == id
                        && self.campaigns@[j].guild_id == guild_id),
            decreases len - i,
        {
            let c = &self.campaigns[i];
            if c.id == id && c.guild_id == guild_id {
                return Some(c.name.clone());
            }
            i += 1;
        }
        None
    }

    /// The live campaign names of the community that start with `partial`,
    /// in insertion order; the autocompletion source.
    pub fn autocomplete_campaign(&self, guild_id: i64, partial: &str) -> (r: Vec<String>)
        ensures
            r@.len() == self.campaigns@.filter(live_in_prefixed(guild_id, partial@)).len(),
            forall|k: int|
                0 <= k < r@.len() ==> r@[k]@ == self.campaigns@.filter(
                    live_in_prefixed(guild_id, partial@),
                )[k].name@,
    {
        let n = self.campaigns.len();
        let mut out: Vec<String> = Vec::new();
        let mut i: usize = 0;
        while i < n
            invariant
                i <= n,
                n == self.campaigns@.len(),
                out@.len() == self.campaigns@.take(i as int).filter(
                    live_in_prefixed(guild_id, partial@),
                ).len(),
                forall|k: int|
                    0 <= k < out@.len() ==> out@[k]@ == self.campaigns@.take(i as int).filter(
                        live_in_prefixed(guild_id, partial@),
                    )[k].name@,
            decreases n - i,
        {
            let c = &self.campaigns[i];
            if c.guild_id == guild_id && !c.deleted && str_starts_with(c.name.as_str(), partial) {
                out.push(c.name.clone());
            }
            proof {
                reveal(Seq::filter);
                assert(self.campaigns@.take(i + 1 as int).drop_last() =~= self.campaigns@.take(
                    i as int,
                ));
                assert(self.campaigns@.take(i + 1 as int).last() == self.campaigns@[i as int]);
            }
            i += 1;
        }
        proof {
            assert(self.campaigns@.take(n as int) =~= self.campaigns@);
        }
        out
    }
}

} // verus!
