//! What holds of the backend's commands over more than one step.
use vstd::prelude::*;

use crate::backend::commands::{ban_from_server, ban_step, cmd_step, unban_in_server, unban_step, Cmd};
use crate::backend::edits::{holds_id, not_id, not_member};
use crate::backend::membership::{join_code, join_step, plain_member};
use crate::backend::rules::{can_moderate, display_name_spec, my_role_in_server_spec};
use crate::backend::state::{
    first_index, lemma_first_index, lemma_first_index_is, member_is, server_code_is, server_is, AppStateView,
    Role, ServerView,
};
use crate::text::uuid_parsed;

verus! {

/// Changing an element in a way that `p` does not see leaves the first
/// index that satisfies `p` where it was.
pub proof fn lemma_first_index_update<T>(s: Seq<T>, p: spec_fn(T) -> bool, i: int, x: T)
    requires
        0 <= i < s.len(),
        p(x) == p(s[i]),
    ensures
        first_index(s.update(i, x), p) == first_index(s, p),
{
    let t = s.update(i, x);
    lemma_first_index(s, p);
    match first_index(s, p) {
        Some(k) => {
            assert forall|j: int| 0 <= j < k implies !p(#[trigger] t[j]) by {
                assert(!p(s[j]));
            }
            lemma_first_index_is(t, p, k);
        },
        None => {
            assert forall|j: int| 0 <= j < t.len() implies !p(#[trigger] t[j]) by {
                assert(!p(s[j]));
            }
            lemma_first_index_is(t, p, t.len() as int);
        },
    }
}

/// A sequence with an element that satisfies `p` appended has a first
/// index that satisfies `p`.
pub proof fn lemma_first_index_push<T>(s: Seq<T>, p: spec_fn(T) -> bool, x: T)
    requires
        p(x),
    ensures
        first_index(s.push(x), p) is Some,
{
    let t = s.push(x);
    lemma_first_index(t, p);
    if first_index(t, p) is None {
        assert(!p(t[s.len() as int]));
    }
}

/// Joining a server a second time with the same code changes nothing more:
/// whatever the first join did (join, or refuse and leave the state as it
/// was), a second one leaves that state as it is.
pub proof fn law_join_is_idempotent(s: AppStateView, code: Seq<char>, now: u64, later: u64)
    ensures
        join_step(join_step(s, code, now).0, code, later).0 == join_step(s, code, now).0,
{
    let c = join_code(code);
    let s1 = join_step(s, code, now).0;
    if (vstd::utf8::encode_utf8(c).len() as usize) == 8 {
        match first_index(s.servers, server_code_is(c)) {
            Some(i) => {
                lemma_first_index(s.servers, server_code_is(c));
                if !holds_id(s.servers[i].banned_ids, s.my_user_id) && first_index(
                    s.servers[i].members,
                    member_is(s.my_user_id),
                ) is None {
                    let m = plain_member(s.my_user_id, display_name_spec(s), Role::Member, now);
                    let srv = ServerView { members: s.servers[i].members.push(m), ..s.servers[i] };
                    lemma_first_index_update(s.servers, server_code_is(c), i, srv);
                    lemma_first_index_push(s.servers[i].members, member_is(s.my_user_id), m);
                    assert(s1.servers[i] == srv);
                }
            },
            None => {},
        }
    }
}

/// Banning a user from a server where the local user may moderate, then
/// lifting the ban, leaves the server without that user as a member and
/// without the ban.
pub proof fn law_ban_then_unban(s: AppStateView, ctx: Seq<char>, uid: Seq<char>)
    requires
        uuid_parsed(ctx) is Some,
        can_moderate(my_role_in_server_spec(s, uuid_parsed(ctx).unwrap())),
        first_index(s.servers, server_is(uuid_parsed(ctx).unwrap())) is Some,
    ensures
        ({
            let cid = uuid_parsed(ctx).unwrap();
            let i = first_index(s.servers, server_is(cid)).unwrap();
            let after = unban_step(ban_step(s, ctx, uid, true), ctx, uid);
            &&& after.servers.len() == s.servers.len()
            &&& after.servers[i].id == cid
            &&& forall|j: int| 0 <= j < after.servers[i].members.len() ==> #[trigger] after.servers[i].members[j].user_id != uid
            &&& !holds_id(after.servers[i].banned_ids, uid)
        }),
{
    let cid = uuid_parsed(ctx).unwrap();
    let i = first_index(s.servers, server_is(cid)).unwrap();
    lemma_first_index(s.servers, server_is(cid));
    let s1 = ban_step(s, ctx, uid, true);
    let b = ban_from_server(uid)(s.servers[i]);
    assert(s1.servers == s.servers.update(i, b));
    lemma_first_index_update(s.servers, server_is(cid), i, b);
    let s2 = unban_step(s1, ctx, uid);
    let u = unban_in_server(uid)(b);
    assert(s2.servers == s1.servers.update(i, u));
    b.members.filter_lemma(not_member(uid));
    u.banned_ids.filter_lemma(not_id(uid));
    assert forall|j: int| 0 <= j < s2.servers[i].members.len() implies #[trigger] s2.servers[i].members[j].user_id != uid by {
        assert(not_member(uid)(b.members[j]));
    }
    if holds_id(s2.servers[i].banned_ids, uid) {
        let k = choose|k: int| 0 <= k < s2.servers[i].banned_ids.len() && s2.servers[i].banned_ids[k] == uid;
        assert(not_id(uid)(s2.servers[i].banned_ids[k]));
    }
}

/// A refused command changes nothing and sends nothing: whenever the first
/// event a command reports is an error, the state is the one before and no
/// message leaves.
pub proof fn law_refusal_changes_nothing(s: AppStateView, cmd: Cmd, now: u64, fresh: u128)
    ensures
        ({
            let (st, ev, ac) = cmd_step(s, cmd, now, fresh);
            ev.len() > 0 && ev[0] is Error ==> st == s && ac.len() == 0
        }),
{
}

} // verus!
