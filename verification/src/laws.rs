//! Laws that relate several operations, proved over the transition
//! predicates their contracts state.

use vstd::prelude::*;

use crate::campaign_ops::{campaign_created, live_in};
use crate::model::{Decision, Response};
use crate::response_ops::{response_pair, response_recorded};
use crate::store::{campaign_live_named, Store};

verus! {

/// Creating a campaign takes its name: after a creation of `name` in a
/// community succeeds, the name is taken there.  By the contract of
/// `create_campaign`, a second creation of the same name in the same
/// community must then return `DuplicateName` and leave the store
/// unchanged — two back-to-back creations of one name yield exactly one
/// success.
pub proof fn lemma_created_name_taken(
    pre: Store,
    post: Store,
    guild_id: i64,
    dm_id: i64,
    name: Seq<char>,
    description: Option<String>,
    link: Option<String>,
    created_date: i64,
    id: i32,
)
    requires
        campaign_created(pre, post, guild_id, dm_id, name, description, link, created_date, id),
    ensures
        post.name_taken(guild_id, name),
{
    assert(campaign_live_named(post.campaigns@[post.campaigns@.len() - 1], guild_id, name));
}

/// Two back-to-back creations of one name in one community yield exactly
/// one success.  When the first creation found the name free and
/// succeeded, the name is taken — so by `create_campaign`'s contract the
/// second creation must return `DuplicateName` and leave the store
/// unchanged — and exactly one live campaign in the community carries the
/// name: the row the first creation appended.
pub proof fn lemma_create_twice_one_duplicate(
    pre: Store,
    post: Store,
    guild_id: i64,
    dm_id: i64,
    name: Seq<char>,
    description: Option<String>,
    link: Option<String>,
    created_date: i64,
    id: i32,
)
    requires
        pre.inv(),
        !pre.name_taken(guild_id, name),
        campaign_created(pre, post, guild_id, dm_id, name, description, link, created_date, id),
    ensures
        post.name_taken(guild_id, name),
        forall|i: int, j: int|
            0 <= i < post.campaigns@.len() && 0 <= j < post.campaigns@.len()
                && campaign_live_named(#[trigger] post.campaigns@[i], guild_id, name)
                && campaign_live_named(#[trigger] post.campaigns@[j], guild_id, name) ==> i == j,
{
    let last = post.campaigns@.len() - 1;
    assert(campaign_live_named(post.campaigns@[last], guild_id, name));
    assert forall|i: int, j: int|
        0 <= i < post.campaigns@.len() && 0 <= j < post.campaigns@.len() && campaign_live_named(
            #[trigger] post.campaigns@[i],
            guild_id,
            name,
        ) && campaign_live_named(#[trigger] post.campaigns@[j], guild_id, name) implies i == j by {
        if i < last && campaign_live_named(post.campaigns@[i], guild_id, name) {
            assert(campaign_live_named(pre.campaigns@[i], guild_id, name));
        }
        if j < last && campaign_live_named(post.campaigns@[j], guild_id, name) {
            assert(campaign_live_named(pre.campaigns@[j], guild_id, name));
        }
    }
}

/// Recording a response twice for one (session, respondent) pair leaves
/// exactly one record for the pair, and it carries the second decision and
/// time: the second recording overwrites the first instead of adding a row.
pub proof fn lemma_record_response_twice(
    s0: Store,
    s1: Store,
    s2: Store,
    session_id: i32,
    respondee_id: i64,
    d1: Decision,
    t1: i64,
    d2: Decision,
    t2: i64,
)
    requires
        s0.inv(),
        response_recorded(s0, s1, session_id, respondee_id, d1, t1),
        response_recorded(s1, s2, session_id, respondee_id, d2, t2),
    ensures
        exists|k: int|
            0 <= k < s2.responses@.len() && response_pair(
                #[trigger] s2.responses@[k],
                session_id,
                respondee_id,
            ) && s2.responses@[k].response == d2 && s2.responses@[k].responded_date == t2,
        forall|a: int, b: int|
            0 <= a < s2.responses@.len() && 0 <= b < s2.responses@.len() && a != b
                && response_pair(#[trigger] s2.responses@[a], session_id, respondee_id)
                ==> !response_pair(#[trigger] s2.responses@[b], session_id, respondee_id),
{
    let _mid = lemma_recorded_unique(s0, s1, session_id, respondee_id, d1, t1);
    let _last = lemma_recorded_unique(s1, s2, session_id, respondee_id, d2, t2);
}

/// After a recording, exactly one record answers for the pair, it sits at
/// the returned index, and it carries the recorded decision and time;
/// pairwise uniqueness of the ledger is preserved.
pub proof fn lemma_recorded_unique(
    pre: Store,
    post: Store,
    session_id: i32,
    respondee_id: i64,
    d: Decision,
    t: i64,
) -> (k: int)
    requires
        forall|a: int, b: int|
            0 <= a < pre.responses@.len() && 0 <= b < pre.responses@.len() && a != b ==> !((
            #[trigger] pre.responses@[a]).session_id == (#[trigger] pre.responses@[b]).session_id
                && pre.responses@[a].respondee_id == pre.responses@[b].respondee_id),
        response_recorded(pre, post, session_id, respondee_id, d, t),
    ensures
        0 <= k < post.responses@.len(),
        response_pair(post.responses@[k], session_id, respondee_id),
        post.responses@[k].response == d,
        post.responses@[k].responded_date == t,
        forall|j: int|
            0 <= j < post.responses@.len() && j != k ==> !response_pair(
                #[trigger] post.responses@[j],
                session_id,
                respondee_id,
            ),
        forall|a: int, b: int|
            0 <= a < post.responses@.len() && 0 <= b < post.responses@.len() && a != b ==> !((
            #[trigger] post.responses@[a]).session_id == (#[trigger] post.responses@[b]).session_id
                && post.responses@[a].respondee_id == post.responses@[b].respondee_id),
{
    if pre.has_response(session_id, respondee_id) {
        let k = choose|k: int|
            0 <= k < pre.responses@.len() && response_pair(
                #[trigger] pre.responses@[k],
                session_id,
                respondee_id,
            ) && post.responses@ == pre.responses@.update(
                k,
                (Response { response: d, responded_date: t, ..pre.responses@[k] }),
            );
        k
    } else {
        let k = post.responses@.len() - 1;
        assert forall|j: int| 0 <= j < post.responses@.len() && j != k implies !response_pair(
            #[trigger] post.responses@[j],
            session_id,
            respondee_id,
        ) by {
            if response_pair(post.responses@[j], session_id, respondee_id) {
                assert(response_pair(pre.responses@[j], session_id, respondee_id));
                assert(pre.has_response(session_id, respondee_id));
            }
        }
        k
    }
}

/// A live listing shows only live campaigns of the asked community: a
/// soft-deleted campaign never appears in `get_campaigns`' result.
pub proof fn lemma_listing_only_live(s: Store, guild_id: i64, k: int)
    requires
        0 <= k < s.campaigns@.filter(live_in(guild_id)).len(),
    ensures
        !s.campaigns@.filter(live_in(guild_id))[k].deleted,
        s.campaigns@.filter(live_in(guild_id))[k].guild_id == guild_id,
{
    s.campaigns@.lemma_filter_pred(live_in(guild_id), k);
}

/// Every session visible before a campaign's soft deletion is still
/// retrievable by identifier afterwards, unchanged: deleting a campaign
/// erases no session history.
pub proof fn lemma_soft_delete_keeps_sessions(pre: Store, post: Store, session_id: i32)
    requires
        post.sessions == pre.sessions,
        pre.session_exists(session_id),
    ensures
        post.session_exists(session_id),
        post.sessions@[session_id - 1] == pre.sessions@[session_id - 1],
{
}

} // verus!
