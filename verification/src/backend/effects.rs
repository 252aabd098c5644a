//! What each operation of the backend does, stated over its inputs and the
//! state it changes: the post a peer's group message adds and the unread
//! count it raises, the mute flag a moderation command writes, the post and
//! the sends of a message to a channel or a group, and the presence a status
//! word sets.
use vstd::prelude::*;

use crate::backend::commands::{cmd_step, Cmd, KindView, SendView};
use crate::backend::incoming::incoming_step;
use crate::backend::laws::lemma_first_index_update;
use crate::backend::posting::{can_send_in, peers_of};
use crate::backend::edits::{not_id, not_member};
use crate::backend::rules::{
    can_manage_roles, can_moderate, display_name_spec, muted_in_server_spec, my_role_in_group_spec,
    my_role_in_server_spec,
};
use crate::backend::snapshot::role_label;
use crate::backend::snapshot::status_label;
use crate::backend::state::{
    channel_is, conversation_is, first_index, friend_id_is, friend_user_is, group_is, lemma_first_index,
    lemma_first_index_is, member_is, server_is, unread_is, AppStateView, ChannelType, ConversationView, DmView, FriendView,
    MemberView, PostView, Role, Unread, UserStatus,
};
use crate::model::{WireKind, WireMessage};
use crate::text::{trim_spec, uuid_parsed, uuid_text};

verus! {

/// The unread count under `id`: that of its first counter, or 0.
pub open spec fn unread_count(u: Seq<Unread>, id: u128) -> int {
    match first_index(u, unread_is(id)) {
        Some(j) => u[j].count as int,
        None => 0,
    }
}

/// `i` is the first index of `s` whose element satisfies `p`.
pub open spec fn first_at<T>(s: Seq<T>, p: spec_fn(T) -> bool, i: int) -> bool {
    &&& 0 <= i < s.len()
    &&& p(s[i])
    &&& forall|k: int| 0 <= k < i ==> !p(#[trigger] s[k])
}

/// The ids of `members` other than `me`, in member order.
pub open spec fn other_ids(members: Seq<MemberView>, me: Seq<char>) -> Seq<Seq<char>> {
    members.map_values(|m: MemberView| m.user_id).filter(|u: Seq<char>| u != me)
}

/// The peers that `sends` go to, in order.
pub open spec fn peers(sends: Seq<SendView>) -> Seq<Seq<char>> {
    sends.map_values(|a: SendView| a.peer)
}

/// The ids of the members other than `me` are those a send goes to.
pub proof fn lemma_peers_of_is_filter(m: Seq<MemberView>, me: Seq<char>)
    ensures
        peers_of(m, me) == other_ids(m, me),
    decreases m.len(),
{
    reveal_with_fuel(Seq::filter, 1);
    if m.len() > 0 {
        lemma_peers_of_is_filter(m.drop_last(), me);
        let ids = m.map_values(|x: MemberView| x.user_id);
        assert(ids.drop_last() =~= m.drop_last().map_values(|x: MemberView| x.user_id));
        assert(ids.last() == m.last().user_id);
    } else {
        assert(m.map_values(|x: MemberView| x.user_id) =~= Seq::<Seq<char>>::empty());
    }
}

/// Counting one more unread message under `id`: its count rises by one
/// (below the maximum), and every other count stays.
pub proof fn lemma_bump_counts(u: Seq<Unread>, id: u128)
    requires
        unread_count(u, id) < u32::MAX,
    ensures
        unread_count(crate::backend::incoming::bump_unread(u, id), id) == unread_count(u, id) + 1,
        forall|o: u128| o != id ==> unread_count(crate::backend::incoming::bump_unread(u, id), o) == unread_count(u, o),
{
    let t = crate::backend::incoming::bump_unread(u, id);
    lemma_first_index(u, unread_is(id));
    match first_index(u, unread_is(id)) {
        Some(j) => {
            let x = Unread { id, count: (u[j].count + 1) as u32 };
            assert(t == u.update(j, x));
            lemma_first_index_update(u, unread_is(id), j, x);
            assert forall|o: u128| o != id implies unread_count(t, o) == unread_count(u, o) by {
                lemma_first_index_update(u, unread_is(o), j, x);
                lemma_first_index(u, unread_is(o));
            }
        },
        None => {
            let x = Unread { id, count: 1 };
            assert(t == u.push(x));
            assert forall|k: int| 0 <= k < u.len() implies !unread_is(id)(#[trigger] t[k]) by {
                assert(!unread_is(id)(u[k]));
            }
            lemma_first_index_is(t, unread_is(id), u.len() as int);
            assert forall|o: u128| o != id implies unread_count(t, o) == unread_count(u, o) by {
                lemma_first_index(u, unread_is(o));
                match first_index(u, unread_is(o)) {
                    Some(j) => {
                        assert forall|k: int| 0 <= k < j implies !unread_is(o)(#[trigger] t[k]) by {
                            assert(!unread_is(o)(u[k]));
                        }
                        lemma_first_index_is(t, unread_is(o), j);
                    },
                    None => {
                        assert forall|k: int| 0 <= k < t.len() implies !unread_is(o)(#[trigger] t[k]) by {
                            if k < u.len() {
                                assert(!unread_is(o)(u[k]));
                            }
                        }
                        lemma_first_index_is(t, unread_is(o), t.len() as int);
                    },
                }
            }
        },
    }
}

/// Law: a peer's message to a known group (its id parses to the group's)
/// adds to that group's messages, after the ones it had, a post carrying
/// the message's sender id, sender name, body and time, under the fresh
/// message id; no other group and nothing else of the group changes; the
/// group's unread count rises by one and every other unread count stays.
pub proof fn law_incoming_group_message(
    s: AppStateView,
    wire: WireMessage,
    now: u64,
    fresh: u128,
    fresh_msg: u128,
    gid: u128,
    i: int,
)
    requires
        wire.kind matches WireKind::GroupMessage { group_id } && uuid_parsed(group_id@) == Some(gid),
        first_at(s.groups, group_is(gid), i),
        unread_count(s.unread, gid) < u32::MAX,
    ensures
        ({
            let t = incoming_step(s, wire, now, fresh, fresh_msg);
            &&& t.groups.len() == s.groups.len()
            &&& t.groups[i].messages == s.groups[i].messages.push(
                PostView {
                    id: fresh_msg,
                    from_id: wire.from_id@,
                    from_name: wire.from_name@,
                    body: wire.body@,
                    timestamp: wire.timestamp,
                    edited: false,
                },
            )
            &&& t.groups[i].id == gid
            &&& t.groups[i].members == s.groups[i].members
            &&& t.groups[i].name == s.groups[i].name
            &&& forall|k: int| 0 <= k < s.groups.len() && k != i ==> t.groups[k] == s.groups[k]
            &&& unread_count(t.unread, gid) == unread_count(s.unread, gid) + 1
            &&& forall|o: u128| o != gid ==> unread_count(t.unread, o) == unread_count(s.unread, o)
            &&& t.friends == s.friends
            &&& t.servers == s.servers
            &&& t.conversations == s.conversations
        }),
{
    lemma_first_index_is(s.groups, group_is(gid), i);
    lemma_bump_counts(s.unread, gid);
}

/// Law: muting (or unmuting) a user in a known server sets the mute flag of
/// that user's first entry to true (or false), whoever asks; the entry
/// otherwise stays as it was, and so do the server's other members.
pub proof fn law_mute_in_server(
    s: AppStateView,
    ctx: String,
    uid: String,
    muted: bool,
    now: u64,
    fresh: u128,
    cid: u128,
    i: int,
    j: int,
)
    requires
        uuid_parsed(ctx@) == Some(cid),
        first_at(s.servers, server_is(cid), i),
        first_at(s.servers[i].members, member_is(uid@), j),
    ensures
        ({
            let cmd = if muted {
                Cmd::Mute { context_id: ctx, user_id: uid, is_server: true }
            } else {
                Cmd::Unmute { context_id: ctx, user_id: uid, is_server: true }
            };
            let t = cmd_step(s, cmd, now, fresh).0;
            &&& t.servers.len() == s.servers.len()
            &&& t.servers[i].members.len() == s.servers[i].members.len()
            &&& t.servers[i].members[j].muted == muted
            &&& t.servers[i].members[j] == (MemberView { muted, ..s.servers[i].members[j] })
            &&& forall|k: int| 0 <= k < s.servers[i].members.len() && k != j ==> t.servers[i].members[k]
                == s.servers[i].members[k]
        }),
{
    lemma_first_index_is(s.servers, server_is(cid), i);
    lemma_first_index_is(s.servers[i].members, member_is(uid@), j);
}

/// Law: muting (or unmuting) a user in a known group sets the mute flag of
/// that user's first entry to true (or false); the entry otherwise stays as
/// it was, and so do the group's other members.
pub proof fn law_mute_in_group(
    s: AppStateView,
    ctx: String,
    uid: String,
    muted: bool,
    now: u64,
    fresh: u128,
    gid: u128,
    i: int,
    j: int,
)
    requires
        uuid_parsed(ctx@) == Some(gid),
        first_at(s.groups, group_is(gid), i),
        first_at(s.groups[i].members, member_is(uid@), j),
    ensures
        ({
            let cmd = if muted {
                Cmd::Mute { context_id: ctx, user_id: uid, is_server: false }
            } else {
                Cmd::Unmute { context_id: ctx, user_id: uid, is_server: false }
            };
            let t = cmd_step(s, cmd, now, fresh).0;
            &&& t.groups.len() == s.groups.len()
            &&& t.groups[i].members.len() == s.groups[i].members.len()
            &&& t.groups[i].members[j] == (MemberView { muted, ..s.groups[i].members[j] })
            &&& forall|k: int| 0 <= k < s.groups[i].members.len() && k != j ==> t.groups[i].members[k]
                == s.groups[i].members[k]
        }),
{
    lemma_first_index_is(s.groups, group_is(gid), i);
    lemma_first_index_is(s.groups[i].members, member_is(uid@), j);
}

/// Law: a message to a channel that the local user may post in (both ids
/// parse to a known server and channel, the channel's kind allows the
/// user's role, the user is not muted there, and the trimmed body is not
/// empty) is stored at the end of the channel's messages as the local
/// user's post with the trimmed body, the state is reported, and exactly
/// one send goes to each member of the server other than the local user, in
/// member order, each carrying the trimmed body, the local user as sender,
/// the channel as target and the server and channel ids.
pub proof fn law_channel_post_reaches_members(
    s: AppStateView,
    server_id: String,
    channel_id: String,
    body: String,
    now: u64,
    fresh: u128,
    sid: u128,
    cid: u128,
    i: int,
    j: int,
)
    requires
        uuid_parsed(server_id@) == Some(sid),
        uuid_parsed(channel_id@) == Some(cid),
        first_at(s.servers, server_is(sid), i),
        first_at(s.servers[i].channels, channel_is(cid), j),
        can_send_in(s.servers[i].channels[j].channel_type, my_role_in_server_spec(s, sid)),
        !muted_in_server_spec(s, sid),
        trim_spec(body@).len() > 0,
    ensures
        ({
            let (t, ev, ac) = cmd_step(s, Cmd::SendChannel { server_id, channel_id, body }, now, fresh);
            &&& ev == seq![crate::backend::rules::EventView::State]
            &&& t.servers[i].channels[j].messages == s.servers[i].channels[j].messages.push(
                PostView {
                    id: fresh,
                    from_id: s.my_user_id,
                    from_name: display_name_spec(s),
                    body: trim_spec(body@),
                    timestamp: now,
                    edited: false,
                },
            )
            &&& peers(ac) == other_ids(s.servers[i].members, s.my_user_id)
            &&& forall|k: int|
                0 <= k < ac.len() ==> {
                    &&& (#[trigger] ac[k]).body == trim_spec(body@)
                    &&& ac[k].from_id == s.my_user_id
                    &&& ac[k].from_name == display_name_spec(s)
                    &&& ac[k].target_id == uuid_text(cid)
                    &&& ac[k].kind == KindView::Channel(uuid_text(sid), uuid_text(cid))
                    &&& ac[k].timestamp == now
                }
        }),
{
    lemma_first_index_is(s.servers, server_is(sid), i);
    lemma_first_index_is(s.servers[i].channels, channel_is(cid), j);
    lemma_peers_of_is_filter(s.servers[i].members, s.my_user_id);
    let (t, ev, ac) = cmd_step(
        s,
        Cmd::SendChannel { server_id: server_id, channel_id: channel_id, body: body },
        now,
        fresh,
    );
    assert(peers(ac) =~= peers_of(s.servers[i].members, s.my_user_id));
}

/// Law: a message to a known group in which the local user is not muted
/// (and whose trimmed body is not empty) is stored at the end of the
/// group's messages as the local user's post with the trimmed body, and
/// exactly one send goes to each member other than the local user, in
/// member order, each carrying the trimmed body and the group as target.
pub proof fn law_group_post_reaches_members(
    s: AppStateView,
    group_id: String,
    body: String,
    now: u64,
    fresh: u128,
    gid: u128,
    i: int,
)
    requires
        uuid_parsed(group_id@) == Some(gid),
        first_at(s.groups, group_is(gid), i),
        !(exists|k: int| first_at(s.groups[i].members, member_is(s.my_user_id), k) && s.groups[i].members[k].muted),
        trim_spec(body@).len() > 0,
    ensures
        ({
            let (t, ev, ac) = cmd_step(s, Cmd::SendGroup { group_id, body }, now, fresh);
            &&& ev == seq![crate::backend::rules::EventView::State]
            &&& t.groups[i].messages == s.groups[i].messages.push(
                PostView {
                    id: fresh,
                    from_id: s.my_user_id,
                    from_name: display_name_spec(s),
                    body: trim_spec(body@),
                    timestamp: now,
                    edited: false,
                },
            )
            &&& peers(ac) == other_ids(s.groups[i].members, s.my_user_id)
            &&& forall|k: int|
                0 <= k < ac.len() ==> {
                    &&& (#[trigger] ac[k]).body == trim_spec(body@)
                    &&& ac[k].from_id == s.my_user_id
                    &&& ac[k].target_id == uuid_text(gid)
                    &&& ac[k].kind == KindView::Group(uuid_text(gid))
                }
        }),
{
    lemma_first_index_is(s.groups, group_is(gid), i);
    lemma_first_index(s.groups[i].members, member_is(s.my_user_id));
    match first_index(s.groups[i].members, member_is(s.my_user_id)) {
        Some(k) => {
            assert(first_at(s.groups[i].members, member_is(s.my_user_id), k));
        },
        None => {},
    }
    lemma_peers_of_is_filter(s.groups[i].members, s.my_user_id);
    let (t, ev, ac) = cmd_step(s, Cmd::SendGroup { group_id: group_id, body: body }, now, fresh);
    assert(peers(ac) =~= peers_of(s.groups[i].members, s.my_user_id));
}

/// Law: setting the status to the word that a presence is shown as
/// (`Online`, `Away`, `DoNotDisturb`, `Invisible`) sets that presence, so it
/// is shown as that word again; any other word sets `Online`. Nothing else
/// changes.
pub proof fn law_status_word_round_trip(s: AppStateView, status: String, now: u64, fresh: u128)
    ensures
        ({
            let t = cmd_step(s, Cmd::SetStatus { status }, now, fresh).0;
            &&& t == (AppStateView { my_status: t.my_status, ..s })
            &&& (status@ == "Online"@ || status@ == "Away"@ || status@ == "DoNotDisturb"@ || status@ == "Invisible"@)
                ==> status_label(t.my_status) == status@
            &&& !(status@ == "Online"@ || status@ == "Away"@ || status@ == "DoNotDisturb"@ || status@ == "Invisible"@)
                ==> t.my_status == UserStatus::Online
        }),
{
    reveal_strlit("Online");
    reveal_strlit("Away");
    reveal_strlit("DoNotDisturb");
    reveal_strlit("Invisible");
}

/// The messages of the conversation with friend `fid`: those of its first
/// conversation, or none.
pub open spec fn conv_messages(c: Seq<ConversationView>, fid: u128) -> Seq<DmView> {
    match first_index(c, conversation_is(fid)) {
        Some(j) => c[j].messages,
        None => seq![],
    }
}

/// Adding a direct message with friend `fid` appends it to that
/// conversation and leaves every other conversation's messages as they were.
pub proof fn lemma_append_dm_messages(c: Seq<ConversationView>, fid: u128, dm: DmView)
    ensures
        conv_messages(crate::backend::incoming::append_dm(c, fid, dm), fid) == conv_messages(c, fid).push(dm),
        forall|o: u128|
            o != fid ==> #[trigger] conv_messages(crate::backend::incoming::append_dm(c, fid, dm), o) == conv_messages(c, o),
{
    let t = crate::backend::incoming::append_dm(c, fid, dm);
    lemma_first_index(c, conversation_is(fid));
    match first_index(c, conversation_is(fid)) {
        Some(j) => {
            let x = ConversationView { friend_id: c[j].friend_id, messages: c[j].messages.push(dm) };
            lemma_first_index_update(c, conversation_is(fid), j, x);
            assert forall|o: u128| o != fid implies #[trigger] conv_messages(t, o) == conv_messages(c, o) by {
                lemma_first_index_update(c, conversation_is(o), j, x);
                lemma_first_index(c, conversation_is(o));
            }
        },
        None => {
            let x = ConversationView { friend_id: fid, messages: seq![dm] };
            assert forall|k: int| 0 <= k < c.len() implies !conversation_is(fid)(#[trigger] t[k]) by {
                assert(!conversation_is(fid)(c[k]));
            }
            lemma_first_index_is(t, conversation_is(fid), c.len() as int);
            assert(seq![dm] =~= Seq::<DmView>::empty().push(dm));
            assert forall|o: u128| o != fid implies #[trigger] conv_messages(t, o) == conv_messages(c, o) by {
                lemma_first_index(c, conversation_is(o));
                match first_index(c, conversation_is(o)) {
                    Some(j) => {
                        assert forall|k: int| 0 <= k < j implies !conversation_is(o)(#[trigger] t[k]) by {
                            assert(!conversation_is(o)(c[k]));
                        }
                        lemma_first_index_is(t, conversation_is(o), j);
                    },
                    None => {
                        assert forall|k: int| 0 <= k < t.len() implies !conversation_is(o)(#[trigger] t[k]) by {
                            if k < c.len() {
                                assert(!conversation_is(o)(c[k]));
                            }
                        }
                        lemma_first_index_is(t, conversation_is(o), t.len() as int);
                    },
                }
            }
        },
    }
}

/// The direct message received in `wire`.
pub open spec fn received_dm(wire: WireMessage, id: u128) -> DmView {
    DmView {
        id,
        from_id: wire.from_id@,
        body: wire.body@,
        timestamp: wire.timestamp,
        outgoing: false,
        edited: false,
    }
}

/// Law: a direct message from a friend (the first with the sender's user
/// id) is appended, as received, to the conversation with that friend, and
/// that friend's unread count rises by one; the friends stay as they were.
pub proof fn law_incoming_dm_from_friend(
    s: AppStateView,
    wire: WireMessage,
    now: u64,
    fresh: u128,
    fresh_msg: u128,
    k: int,
)
    requires
        wire.kind is DirectMessage,
        first_at(s.friends, friend_user_is(wire.from_id@), k),
        unread_count(s.unread, s.friends[k].id) < u32::MAX,
    ensures
        ({
            let t = incoming_step(s, wire, now, fresh, fresh_msg);
            let fid = s.friends[k].id;
            &&& t.friends == s.friends
            &&& conv_messages(t.conversations, fid) == conv_messages(s.conversations, fid).push(received_dm(wire, fresh_msg))
            &&& forall|o: u128| o != fid ==> #[trigger] conv_messages(t.conversations, o) == conv_messages(s.conversations, o)
            &&& unread_count(t.unread, fid) == unread_count(s.unread, fid) + 1
            &&& t.groups == s.groups
            &&& t.servers == s.servers
        }),
{
    lemma_first_index_is(s.friends, friend_user_is(wire.from_id@), k);
    let fid = s.friends[k].id;
    lemma_append_dm_messages(s.conversations, fid, received_dm(wire, fresh_msg));
    lemma_bump_counts(s.unread, fid);
}

/// Law: a direct message from a stranger adds the stranger as a friend (the
/// fresh id, the sender's name and user id, added now), appends the message
/// to the conversation with that new friend, and counts it unread there.
pub proof fn law_incoming_dm_from_stranger(s: AppStateView, wire: WireMessage, now: u64, fresh: u128, fresh_msg: u128)
    requires
        wire.kind is DirectMessage,
        forall|k: int| 0 <= k < s.friends.len() ==> (#[trigger] s.friends[k]).user_id != wire.from_id@,
        unread_count(s.unread, fresh) < u32::MAX,
    ensures
        ({
            let t = incoming_step(s, wire, now, fresh, fresh_msg);
            &&& t.friends == s.friends.push(
                FriendView {
                    id: fresh,
                    display_name: wire.from_name@,
                    user_id: wire.from_id@,
                    note: None,
                    added_at: now,
                    last_seen: None,
                },
            )
            &&& conv_messages(t.conversations, fresh) == conv_messages(s.conversations, fresh).push(
                received_dm(wire, fresh_msg),
            )
            &&& unread_count(t.unread, fresh) == unread_count(s.unread, fresh) + 1
        }),
{
    lemma_first_index(s.friends, friend_user_is(wire.from_id@));
    if first_index(s.friends, friend_user_is(wire.from_id@)) is Some {
        let k = first_index(s.friends, friend_user_is(wire.from_id@)).unwrap();
        assert(s.friends[k].user_id == wire.from_id@);
    }
    lemma_append_dm_messages(s.conversations, fresh, received_dm(wire, fresh_msg));
    lemma_bump_counts(s.unread, fresh);
}

/// Law: a peer's message to a known channel of a known server adds to the
/// end of that channel's messages a post carrying the message's sender id,
/// sender name, body and time, and the channel's unread count rises by one;
/// the groups, friends and conversations stay.
pub proof fn law_incoming_channel_message(
    s: AppStateView,
    wire: WireMessage,
    now: u64,
    fresh: u128,
    fresh_msg: u128,
    sid: u128,
    cid: u128,
    i: int,
    j: int,
)
    requires
        wire.kind matches WireKind::ChannelMessage { server_id, channel_id } && uuid_parsed(server_id@) == Some(sid)
            && uuid_parsed(channel_id@) == Some(cid),
        first_at(s.servers, server_is(sid), i),
        first_at(s.servers[i].channels, channel_is(cid), j),
        unread_count(s.unread, cid) < u32::MAX,
    ensures
        ({
            let t = incoming_step(s, wire, now, fresh, fresh_msg);
            &&& t.servers.len() == s.servers.len()
            &&& t.servers[i].channels.len() == s.servers[i].channels.len()
            &&& t.servers[i].channels[j].messages == s.servers[i].channels[j].messages.push(
                PostView {
                    id: fresh_msg,
                    from_id: wire.from_id@,
                    from_name: wire.from_name@,
                    body: wire.body@,
                    timestamp: wire.timestamp,
                    edited: false,
                },
            )
            &&& unread_count(t.unread, cid) == unread_count(s.unread, cid) + 1
            &&& t.groups == s.groups
            &&& t.friends == s.friends
            &&& t.conversations == s.conversations
        }),
{
    lemma_first_index_is(s.servers, server_is(sid), i);
    lemma_first_index_is(s.servers[i].channels, channel_is(cid), j);
    lemma_bump_counts(s.unread, cid);
}

/// Law: a friend request from a stranger adds the stranger as a friend (the
/// fresh id, the sender's name and user id, added now); from a friend it
/// changes nothing.
pub proof fn law_incoming_friend_request(s: AppStateView, wire: WireMessage, now: u64, fresh: u128, fresh_msg: u128)
    requires
        wire.kind is FriendRequest,
    ensures
        ({
            let t = incoming_step(s, wire, now, fresh, fresh_msg);
            let known = exists|k: int| 0 <= k < s.friends.len() && (#[trigger] s.friends[k]).user_id == wire.from_id@;
            &&& known ==> t == s
            &&& !known ==> t == (AppStateView {
                friends: s.friends.push(
                    FriendView {
                        id: fresh,
                        display_name: wire.from_name@,
                        user_id: wire.from_id@,
                        note: None,
                        added_at: now,
                        last_seen: None,
                    },
                ),
                ..s
            })
        }),
{
    lemma_first_index(s.friends, friend_user_is(wire.from_id@));
    if first_index(s.friends, friend_user_is(wire.from_id@)) is Some {
        let k = first_index(s.friends, friend_user_is(wire.from_id@)).unwrap();
        assert(s.friends[k].user_id == wire.from_id@);
    } else {
        assert forall|k: int| 0 <= k < s.friends.len() implies (#[trigger] s.friends[k]).user_id != wire.from_id@ by {
            assert(!friend_user_is(wire.from_id@)(s.friends[k]));
        }
    }
}

/// `t` is `s` without the entries of `uid`, the others kept in order:
/// no entry of `t` is `uid`'s, every entry of `t` is one of `s`, every entry
/// of `s` other than `uid`'s is in `t`.
pub open spec fn members_without(t: Seq<MemberView>, s: Seq<MemberView>, uid: Seq<char>) -> bool {
    &&& forall|k: int| 0 <= k < t.len() ==> (#[trigger] t[k]).user_id != uid
    &&& forall|k: int| 0 <= k < t.len() ==> s.contains(#[trigger] t[k])
    &&& forall|k: int| 0 <= k < s.len() && (#[trigger] s[k]).user_id != uid ==> t.contains(s[k])
}

proof fn lemma_filter_members(s: Seq<MemberView>, uid: Seq<char>)
    ensures
        members_without(s.filter(not_member(uid)), s, uid),
{
    s.filter_lemma(not_member(uid));
    let t = s.filter(not_member(uid));
    assert forall|k: int| 0 <= k < t.len() implies s.contains(#[trigger] t[k]) by {
        assert(t.contains(t[k]));
        s.lemma_filter_contains_rev(not_member(uid), t[k]);
    }
}

/// Law: a moderator's kick takes every entry of the user out of a known
/// server, keeps every other member and leaves the bans; anyone else's kick
/// changes nothing.
pub proof fn law_kick_from_server(s: AppStateView, ctx: String, uid: String, now: u64, fresh: u128, cid: u128, i: int)
    requires
        uuid_parsed(ctx@) == Some(cid),
        first_at(s.servers, server_is(cid), i),
    ensures
        ({
            let t = cmd_step(s, Cmd::Kick { context_id: ctx, user_id: uid, is_server: true }, now, fresh).0;
            &&& can_moderate(my_role_in_server_spec(s, cid)) ==> {
                &&& t.servers.len() == s.servers.len()
                &&& members_without(t.servers[i].members, s.servers[i].members, uid@)
                &&& t.servers[i].banned_ids == s.servers[i].banned_ids
                &&& forall|k: int| 0 <= k < s.servers.len() && k != i ==> t.servers[k] == s.servers[k]
            }
            &&& !can_moderate(my_role_in_server_spec(s, cid)) ==> t == s
        }),
{
    lemma_first_index_is(s.servers, server_is(cid), i);
    lemma_filter_members(s.servers[i].members, uid@);
}

/// Law: a moderator's kick takes every entry of the user out of a known
/// group and keeps every other member; anyone else's kick changes nothing.
pub proof fn law_kick_from_group(s: AppStateView, ctx: String, uid: String, now: u64, fresh: u128, gid: u128, i: int)
    requires
        uuid_parsed(ctx@) == Some(gid),
        first_at(s.groups, group_is(gid), i),
    ensures
        ({
            let t = cmd_step(s, Cmd::Kick { context_id: ctx, user_id: uid, is_server: false }, now, fresh).0;
            &&& can_moderate(my_role_in_group_spec(s, gid)) ==> {
                &&& t.groups.len() == s.groups.len()
                &&& members_without(t.groups[i].members, s.groups[i].members, uid@)
                &&& t.groups[i].messages == s.groups[i].messages
            }
            &&& !can_moderate(my_role_in_group_spec(s, gid)) ==> t == s
        }),
{
    lemma_first_index_is(s.groups, group_is(gid), i);
    lemma_filter_members(s.groups[i].members, uid@);
}

/// Law: a moderator's ban takes every entry of the user out of a known
/// server, keeps every other member, and leaves the user's id among the
/// bans, every earlier ban kept and none recorded twice; anyone else's ban
/// changes nothing.
pub proof fn law_ban_from_server(s: AppStateView, ctx: String, uid: String, now: u64, fresh: u128, cid: u128, i: int)
    requires
        uuid_parsed(ctx@) == Some(cid),
        first_at(s.servers, server_is(cid), i),
    ensures
        ({
            let t = cmd_step(s, Cmd::Ban { context_id: ctx, user_id: uid, is_server: true }, now, fresh).0;
            let before = s.servers[i].banned_ids;
            &&& can_moderate(my_role_in_server_spec(s, cid)) ==> {
                &&& t.servers.len() == s.servers.len()
                &&& members_without(t.servers[i].members, s.servers[i].members, uid@)
                &&& t.servers[i].banned_ids.contains(uid@)
                &&& (before.contains(uid@) ==> t.servers[i].banned_ids == before)
                &&& (!before.contains(uid@) ==> t.servers[i].banned_ids == before.push(uid@))
            }
            &&& !can_moderate(my_role_in_server_spec(s, cid)) ==> t == s
        }),
{
    lemma_first_index_is(s.servers, server_is(cid), i);
    lemma_filter_members(s.servers[i].members, uid@);
    let t = cmd_step(s, Cmd::Ban { context_id: ctx, user_id: uid, is_server: true }, now, fresh).0;
    let before = s.servers[i].banned_ids;
    if before.contains(uid@) {
        let k = choose|k: int| 0 <= k < before.len() && before[k] == uid@;
        assert(crate::backend::edits::holds_id(before, uid@));
    } else {
        if crate::backend::edits::holds_id(before, uid@) {
            let k = choose|k: int| 0 <= k < before.len() && before[k] == uid@;
            assert(before.contains(uid@));
        }
        if can_moderate(my_role_in_server_spec(s, cid)) {
            assert(t.servers[i].banned_ids == before.push(uid@));
            assert(t.servers[i].banned_ids[before.len() as int] == uid@);
        }
    }
}

/// Law: lifting a ban leaves no ban of the user on a known server and keeps
/// every other ban.
pub proof fn law_unban_in_server(s: AppStateView, ctx: String, uid: String, now: u64, fresh: u128, cid: u128, i: int)
    requires
        uuid_parsed(ctx@) == Some(cid),
        first_at(s.servers, server_is(cid), i),
    ensures
        ({
            let t = cmd_step(s, Cmd::Unban { context_id: ctx, user_id: uid }, now, fresh).0;
            let before = s.servers[i].banned_ids;
            let after = t.servers[i].banned_ids;
            &&& !after.contains(uid@)
            &&& forall|k: int| 0 <= k < before.len() && before[k] != uid@ ==> after.contains(#[trigger] before[k])
            &&& t.servers[i].members == s.servers[i].members
        }),
{
    lemma_first_index_is(s.servers, server_is(cid), i);
    let before = s.servers[i].banned_ids;
    before.filter_lemma(not_id(uid@));
    let after = before.filter(not_id(uid@));
    if after.contains(uid@) {
        let k = choose|k: int| 0 <= k < after.len() && after[k] == uid@;
        assert(not_id(uid@)(after[k]));
    }
}

/// Law: the owner or a co-owner of a known server gives the user's first
/// entry the role the word names, so the role shows as that word for each of
/// `Co-Owner`, `Admin`, `Moderator` and `Member` (any other word gives
/// `Member`); the entry otherwise stays. Anyone else changes nothing.
pub proof fn law_set_role_in_server(
    s: AppStateView,
    ctx: String,
    uid: String,
    role: String,
    now: u64,
    fresh: u128,
    cid: u128,
    i: int,
    j: int,
)
    requires
        uuid_parsed(ctx@) == Some(cid),
        first_at(s.servers, server_is(cid), i),
        first_at(s.servers[i].members, member_is(uid@), j),
    ensures
        ({
            let t = cmd_step(
                s,
                Cmd::SetRole { context_id: ctx, user_id: uid, role: role, is_server: true },
                now,
                fresh,
            ).0;
            let m = t.servers[i].members[j];
            &&& can_manage_roles(my_role_in_server_spec(s, cid)) ==> {
                &&& (role@ == "Co-Owner"@ || role@ == "Admin"@ || role@ == "Moderator"@ || role@ == "Member"@)
                    ==> role_label(m.role) == role@
                &&& !(role@ == "Co-Owner"@ || role@ == "Admin"@ || role@ == "Moderator"@ || role@ == "Member"@)
                    ==> m.role == Role::Member
                &&& m == (MemberView { role: m.role, ..s.servers[i].members[j] })
            }
            &&& !can_manage_roles(my_role_in_server_spec(s, cid)) ==> t == s
        }),
{
    reveal_strlit("Co-Owner");
    reveal_strlit("Admin");
    reveal_strlit("Moderator");
    reveal_strlit("Member");
    lemma_first_index_is(s.servers, server_is(cid), i);
    lemma_first_index_is(s.servers[i].members, member_is(uid@), j);
}

/// Law: adding a friend whose trimmed id and name are not blank and whose id
/// no friend has appends a friend with the fresh id, the trimmed name and
/// id, added now; a blank id or name, or an id already among the friends,
/// leaves the state as it was.
pub proof fn law_add_friend(s: AppStateView, user_id: String, name: String, now: u64, fresh: u128)
    ensures
        ({
            let t = cmd_step(s, Cmd::AddFriend { user_id, name }, now, fresh).0;
            let uid = trim_spec(user_id@);
            let n = trim_spec(name@);
            let known = exists|k: int| 0 <= k < s.friends.len() && (#[trigger] s.friends[k]).user_id == uid;
            &&& (uid.len() > 0 && n.len() > 0 && !known) ==> t == (AppStateView {
                friends: s.friends.push(
                    FriendView { id: fresh, display_name: n, user_id: uid, note: None, added_at: now, last_seen: None },
                ),
                ..s
            })
            &&& (uid.len() == 0 || n.len() == 0 || known) ==> t == s
        }),
{
    let uid = trim_spec(user_id@);
    lemma_first_index(s.friends, friend_user_is(uid));
    if first_index(s.friends, friend_user_is(uid)) is Some {
        let k = first_index(s.friends, friend_user_is(uid)).unwrap();
        assert(s.friends[k].user_id == uid);
    } else {
        assert forall|k: int| 0 <= k < s.friends.len() implies (#[trigger] s.friends[k]).user_id != uid by {
            assert(!friend_user_is(uid)(s.friends[k]));
        }
    }
}

/// Law: creating a group with a non-blank trimmed name appends a group with
/// the fresh id and that name, owned by the local user, whose only member is
/// the local user as owner (under the name the user goes by), with no
/// messages; a blank name leaves the state as it was.
pub proof fn law_create_group(s: AppStateView, name: String, desc: String, now: u64, fresh: u128)
    ensures
        ({
            let t = cmd_step(s, Cmd::CreateGroup { name, desc }, now, fresh).0;
            let n = trim_spec(name@);
            &&& n.len() > 0 ==> {
                &&& t.groups.len() == s.groups.len() + 1
                &&& forall|k: int| 0 <= k < s.groups.len() ==> t.groups[k] == s.groups[k]
                &&& t.groups.last().id == fresh
                &&& t.groups.last().name == n
                &&& t.groups.last().owner_id == s.my_user_id
                &&& t.groups.last().members == seq![
                    MemberView {
                        user_id: s.my_user_id,
                        display_name: display_name_spec(s),
                        role: Role::Owner,
                        muted: false,
                        banned: false,
                        joined_at: now,
                    },
                ]
                &&& t.groups.last().messages.len() == 0
                &&& t == (AppStateView { groups: t.groups, ..s })
            }
            &&& n.len() == 0 ==> t == s
        }),
{
}

/// Law: a direct message with a non-blank trimmed body to a friend id that
/// parses is appended as the local user's outgoing message (fresh id, the
/// trimmed body, sent now) to the conversation with that id, and is sent to
/// that friend's user id when the friend is known (and to no one otherwise);
/// a blank body changes nothing and sends nothing.
pub proof fn law_send_dm(s: AppStateView, friend_id: String, body: String, now: u64, fresh: u128, fid: u128)
    requires
        uuid_parsed(friend_id@) == Some(fid),
    ensures
        ({
            let (t, ev, ac) = cmd_step(s, Cmd::SendDm { friend_id, body }, now, fresh);
            let b = trim_spec(body@);
            &&& b.len() > 0 ==> {
                &&& conv_messages(t.conversations, fid) == conv_messages(s.conversations, fid).push(
                    DmView { id: fresh, from_id: s.my_user_id, body: b, timestamp: now, outgoing: true, edited: false },
                )
                &&& forall|o: u128| o != fid ==> #[trigger] conv_messages(t.conversations, o) == conv_messages(
                    s.conversations,
                    o,
                )
                &&& forall|k: int|
                    first_at(s.friends, friend_id_is(fid), k) ==> ac.len() == 1 && ac[0].peer == (
                    #[trigger] s.friends[k]).user_id && ac[0].body == b && ac[0].kind == KindView::Direct
                        && ac[0].from_id == s.my_user_id
                &&& (forall|k: int| 0 <= k < s.friends.len() ==> (#[trigger] s.friends[k]).id != fid) ==> ac.len() == 0
            }
            &&& b.len() == 0 ==> t == s && ac.len() == 0 && ev.len() == 0
        }),
{
    let b = trim_spec(body@);
    if b.len() > 0 {
        lemma_append_dm_messages(
            s.conversations,
            fid,
            DmView { id: fresh, from_id: s.my_user_id, body: b, timestamp: now, outgoing: true, edited: false },
        );
        lemma_first_index(s.friends, friend_id_is(fid));
        assert forall|k: int| first_at(s.friends, friend_id_is(fid), k) implies first_index(
            s.friends,
            friend_id_is(fid),
        ) == Some(k) by {
            lemma_first_index_is(s.friends, friend_id_is(fid), k);
        }
        if first_index(s.friends, friend_id_is(fid)) is Some {
            let k = first_index(s.friends, friend_id_is(fid)).unwrap();
            assert(s.friends[k].id == fid);
        }
    }
}

/// Law: joining with a code that, trimmed and upper-cased, is the 8-byte code
/// of a server where the local user is neither banned nor a member appends
/// the user to that server's members as a plain member (under the name the
/// user goes by, joined now); a banned user changes nothing.
pub proof fn law_join_server(s: AppStateView, code: String, now: u64, fresh: u128, i: int)
    requires
        first_at(s.servers, crate::backend::state::server_code_is(crate::backend::membership::join_code(code@)), i),
        (vstd::utf8::encode_utf8(crate::backend::membership::join_code(code@)).len() as usize) == 8,
    ensures
        ({
            let t = cmd_step(s, Cmd::JoinServer { code }, now, fresh).0;
            let banned = s.servers[i].banned_ids.contains(s.my_user_id);
            let member = exists|k: int|
                0 <= k < s.servers[i].members.len() && (#[trigger] s.servers[i].members[k]).user_id == s.my_user_id;
            &&& (!banned && !member) ==> t.servers[i].members == s.servers[i].members.push(
                MemberView {
                    user_id: s.my_user_id,
                    display_name: display_name_spec(s),
                    role: Role::Member,
                    muted: false,
                    banned: false,
                    joined_at: now,
                },
            )
            &&& (banned || member) ==> t == s
        }),
{
    let c = crate::backend::membership::join_code(code@);
    lemma_first_index_is(s.servers, crate::backend::state::server_code_is(c), i);
    let before = s.servers[i].banned_ids;
    if before.contains(s.my_user_id) {
        let k = choose|k: int| 0 <= k < before.len() && before[k] == s.my_user_id;
        assert(crate::backend::edits::holds_id(before, s.my_user_id));
    }
    if crate::backend::edits::holds_id(before, s.my_user_id) {
        let k = choose|k: int| 0 <= k < before.len() && before[k] == s.my_user_id;
        assert(before.contains(s.my_user_id));
    }
    lemma_first_index(s.servers[i].members, member_is(s.my_user_id));
    if first_index(s.servers[i].members, member_is(s.my_user_id)) is Some {
        let k = first_index(s.servers[i].members, member_is(s.my_user_id)).unwrap();
        assert(s.servers[i].members[k].user_id == s.my_user_id);
    } else {
        assert forall|k: int| 0 <= k < s.servers[i].members.len() implies (
        #[trigger] s.servers[i].members[k]).user_id != s.my_user_id by {
            assert(!member_is(s.my_user_id)(s.servers[i].members[k]));
        }
    }
}

/// Law: saving the profile sets the name to the trimmed name when it is not
/// blank (and keeps the old one otherwise), and sets the nickname and the bio
/// to their trimmed texts, or to none when blank.
pub proof fn law_save_profile(s: AppStateView, name: String, nick: String, bio: String, now: u64, fresh: u128)
    ensures
        ({
            let t = cmd_step(s, Cmd::SaveProfile { name, nick, bio }, now, fresh).0;
            &&& t.my_name == if trim_spec(name@).len() > 0 { trim_spec(name@) } else { s.my_name }
            &&& t.my_nick == if trim_spec(nick@).len() > 0 { Some(trim_spec(nick@)) } else { None }
            &&& t.my_bio == if trim_spec(bio@).len() > 0 { Some(trim_spec(bio@)) } else { None }
            &&& t.my_user_id == s.my_user_id
            &&& t.friends == s.friends
            &&& t.groups == s.groups
        }),
{
}

/// Law: adding a user (by trimmed id) to a known group in which no entry has
/// that id appends a member with that id, the role the word names (shown as
/// that word for `Admin`, `Moderator` and `Member`; any other word gives
/// `Member`), not muted or banned, joined now, under the trimmed name when it
/// is not blank; a user already there changes nothing.
pub proof fn law_add_group_member(
    s: AppStateView,
    group_id: String,
    user_id: String,
    name: String,
    role: String,
    now: u64,
    fresh: u128,
    gid: u128,
    i: int,
)
    requires
        uuid_parsed(group_id@) == Some(gid),
        first_at(s.groups, group_is(gid), i),
        trim_spec(user_id@).len() > 0,
    ensures
        ({
            let t = cmd_step(s, Cmd::AddGroupMember { group_id, user_id, name, role }, now, fresh).0;
            let uid = trim_spec(user_id@);
            let there = exists|k: int|
                0 <= k < s.groups[i].members.len() && (#[trigger] s.groups[i].members[k]).user_id == uid;
            &&& !there ==> {
                &&& t.groups[i].members.len() == s.groups[i].members.len() + 1
                &&& t.groups[i].members.drop_last() == s.groups[i].members
                &&& t.groups[i].members.last().user_id == uid
                &&& (role@ == "Admin"@ || role@ == "Moderator"@ || role@ == "Member"@) ==> role_label(
                    t.groups[i].members.last().role,
                ) == role@
                &&& !(role@ == "Admin"@ || role@ == "Moderator"@ || role@ == "Member"@) ==> t.groups[i].members.last().role
                    == Role::Member
                &&& !t.groups[i].members.last().muted
                &&& !t.groups[i].members.last().banned
                &&& t.groups[i].members.last().joined_at == now
                &&& trim_spec(name@).len() > 0 ==> t.groups[i].members.last().display_name == trim_spec(name@)
            }
            &&& there ==> t == s
        }),
{
    reveal_strlit("Admin");
    reveal_strlit("Moderator");
    reveal_strlit("Member");
    let uid = trim_spec(user_id@);
    lemma_first_index_is(s.groups, group_is(gid), i);
    lemma_first_index(s.groups[i].members, member_is(uid));
    if first_index(s.groups[i].members, member_is(uid)) is Some {
        let k = first_index(s.groups[i].members, member_is(uid)).unwrap();
        assert(s.groups[i].members[k].user_id == uid);
    } else {
        assert forall|k: int| 0 <= k < s.groups[i].members.len() implies (#[trigger] s.groups[i].members[k]).user_id
            != uid by {
            assert(!member_is(uid)(s.groups[i].members[k]));
        }
        let t = cmd_step(
            s,
            Cmd::AddGroupMember { group_id: group_id, user_id: user_id, name: name, role: role },
            now,
            fresh,
        ).0;
        assert(t.groups[i].members.drop_last() =~= s.groups[i].members);
    }
}

/// Law: a ping or a group invitation from a peer changes nothing.
pub proof fn law_incoming_other_kinds(s: AppStateView, wire: WireMessage, now: u64, fresh: u128, fresh_msg: u128)
    requires
        wire.kind is Ping || wire.kind is GroupInvite,
    ensures
        incoming_step(s, wire, now, fresh, fresh_msg) == s,
{
}

/// Law: a plain member cannot post in an announcement channel: the message
/// is refused with an error, nothing is stored and nothing is sent.
pub proof fn law_announcement_refuses_members(
    s: AppStateView,
    server_id: String,
    channel_id: String,
    body: String,
    now: u64,
    fresh: u128,
    sid: u128,
    cid: u128,
    i: int,
    j: int,
)
    requires
        uuid_parsed(server_id@) == Some(sid),
        uuid_parsed(channel_id@) == Some(cid),
        first_at(s.servers, server_is(sid), i),
        first_at(s.servers[i].channels, channel_is(cid), j),
        s.servers[i].channels[j].channel_type == ChannelType::Announcement,
        my_role_in_server_spec(s, sid) == Role::Member,
        trim_spec(body@).len() > 0,
    ensures
        ({
            let (t, ev, ac) = cmd_step(s, Cmd::SendChannel { server_id, channel_id, body }, now, fresh);
            &&& t == s
            &&& ac.len() == 0
            &&& ev.len() == 1
            &&& ev[0] is Error
        }),
{
    lemma_first_index_is(s.servers, server_is(sid), i);
    lemma_first_index_is(s.servers[i].channels, channel_is(cid), j);
}

/// Law: a user muted in a server cannot post in its channels: the message
/// is refused with an error, nothing is stored and nothing is sent.
pub proof fn law_muted_cannot_post_in_server(
    s: AppStateView,
    server_id: String,
    channel_id: String,
    body: String,
    now: u64,
    fresh: u128,
    sid: u128,
)
    requires
        uuid_parsed(server_id@) == Some(sid),
        uuid_parsed(channel_id@) is Some,
        muted_in_server_spec(s, sid),
        trim_spec(body@).len() > 0,
    ensures
        ({
            let (t, ev, ac) = cmd_step(s, Cmd::SendChannel { server_id, channel_id, body }, now, fresh);
            &&& t == s
            &&& ac.len() == 0
            &&& ev.len() == 1
            &&& ev[0] is Error
        }),
{
}

/// Law: a user muted in a group cannot post there: the message is refused
/// with an error, nothing is stored and nothing is sent.
pub proof fn law_muted_cannot_post_in_group(
    s: AppStateView,
    group_id: String,
    body: String,
    now: u64,
    fresh: u128,
    gid: u128,
    i: int,
    k: int,
)
    requires
        uuid_parsed(group_id@) == Some(gid),
        first_at(s.groups, group_is(gid), i),
        first_at(s.groups[i].members, member_is(s.my_user_id), k),
        s.groups[i].members[k].muted,
        trim_spec(body@).len() > 0,
    ensures
        ({
            let (t, ev, ac) = cmd_step(s, Cmd::SendGroup { group_id, body }, now, fresh);
            &&& t == s
            &&& ac.len() == 0
            &&& ev.len() == 1
            &&& ev[0] is Error
        }),
{
    lemma_first_index_is(s.groups, group_is(gid), i);
    lemma_first_index_is(s.groups[i].members, member_is(s.my_user_id), k);
}

} // verus!
