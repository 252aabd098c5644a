//! What a message from a peer does to the backend's state.
use vstd::prelude::*;

use crate::backend::state::{
    channel_is, channel_view, channels_view, conversation_is, conversation_view, conversations_view, dm_view, find_channel,
    find_conversation, find_friend_by_user, find_group, find_server, find_unread, first_index, friend_user_is,
    friend_view, friends_view, group_is, group_view, groups_view, post_view, server_is, servers_view, unread_is, AppState,
    AppStateView, ChannelView, Conversation, ConversationView, DirectMessage, DmView, Friend, FriendView,
    GroupView, Post, PostView, ServerView, Unread,
};
use crate::model::{WireKind, WireMessage};
use crate::text::{uuid_parse, uuid_parsed};

verus! {

/// The unread counters after one more unread message under `id`; the count
/// stops at `u32::MAX`.
pub open spec fn bump_unread(u: Seq<Unread>, id: u128) -> Seq<Unread> {
    match first_index(u, unread_is(id)) {
        Some(i) => u.update(
            i,
            Unread { id, count: if u[i].count < u32::MAX { (u[i].count + 1) as u32 } else { u32::MAX } },
        ),
        None => u.push(Unread { id, count: 1 }),
    }
}

/// The conversations after `dm` is added to the one with friend `fid`, which
/// is started if there is none.
pub open spec fn append_dm(c: Seq<ConversationView>, fid: u128, dm: DmView) -> Seq<ConversationView> {
    match first_index(c, conversation_is(fid)) {
        Some(i) => c.update(i, ConversationView { friend_id: c[i].friend_id, messages: c[i].messages.push(dm) }),
        None => c.push(ConversationView { friend_id: fid, messages: seq![dm] }),
    }
}

/// A friend added from a peer's message: its name and user id, no note.
pub open spec fn new_friend(id: u128, wire: WireMessage, now: u64) -> FriendView {
    FriendView {
        id,
        display_name: wire.from_name@,
        user_id: wire.from_id@,
        note: None,
        added_at: now,
        last_seen: None,
    }
}

/// A post received from a peer.
pub open spec fn received_post(id: u128, wire: WireMessage) -> PostView {
    PostView {
        id,
        from_id: wire.from_id@,
        from_name: wire.from_name@,
        body: wire.body@,
        timestamp: wire.timestamp,
        edited: false,
    }
}

/// The groups after `p` is posted in group `i`.
pub open spec fn post_in_group(g: Seq<GroupView>, i: int, p: PostView) -> Seq<GroupView> {
    g.update(i, GroupView { messages: g[i].messages.push(p), ..g[i] })
}

/// The servers after `p` is posted in channel `j` of server `i`.
pub open spec fn post_in_channel(s: Seq<ServerView>, i: int, j: int, p: PostView) -> Seq<ServerView> {
    s.update(
        i,
        ServerView {
            channels: s[i].channels.update(j, ChannelView { messages: s[i].channels[j].messages.push(p), ..s[i].channels[j] }),
            ..s[i]
        },
    )
}

/// What a message from a peer does, given the time `now` and two fresh ids
/// (for a friend it adds and for the stored message):
/// - a direct message is stored in the conversation with its sender, who is
///   added as a friend first if unknown, and counts as unread there;
/// - a group or channel message is stored in the group or channel that its
///   ids name and counts as unread there, if they name one;
/// - a friend request adds its sender as a friend unless already one;
/// - anything else changes nothing.
pub open spec fn incoming_step(s: AppStateView, wire: WireMessage, now: u64, fresh: u128, fresh_msg: u128) -> AppStateView {
    match wire.kind {
        WireKind::DirectMessage => {
            let (friends, fid) = match first_index(s.friends, friend_user_is(wire.from_id@)) {
                Some(i) => (s.friends, s.friends[i].id),
                None => (s.friends.push(new_friend(fresh, wire, now)), fresh),
            };
            let dm = DmView {
                id: fresh_msg,
                from_id: wire.from_id@,
                body: wire.body@,
                timestamp: wire.timestamp,
                outgoing: false,
                edited: false,
            };
            AppStateView {
                friends,
                conversations: append_dm(s.conversations, fid, dm),
                unread: bump_unread(s.unread, fid),
                ..s
            }
        },
        WireKind::GroupMessage { group_id } => match uuid_parsed(group_id@) {
            Some(gid) => match first_index(s.groups, group_is(gid)) {
                Some(i) => AppStateView {
                    groups: post_in_group(s.groups, i, received_post(fresh_msg, wire)),
                    unread: bump_unread(s.unread, gid),
                    ..s
                },
                None => s,
            },
            None => s,
        },
        WireKind::ChannelMessage { server_id, channel_id } => match (uuid_parsed(server_id@), uuid_parsed(channel_id@)) {
            (Some(sid), Some(cid)) => match first_index(s.servers, server_is(sid)) {
                Some(i) => match first_index(s.servers[i].channels, channel_is(cid)) {
                    Some(j) => AppStateView {
                        servers: post_in_channel(s.servers, i, j, received_post(fresh_msg, wire)),
                        unread: bump_unread(s.unread, cid),
                        ..s
                    },
                    None => s,
                },
                None => s,
            },
            _ => s,
        },
        WireKind::FriendRequest => match first_index(s.friends, friend_user_is(wire.from_id@)) {
            Some(_) => s,
            None => AppStateView { friends: s.friends.push(new_friend(fresh, wire, now)), ..s },
        },
        _ => s,
    }
}

/// Counts one more unread message under `id`.
pub fn bump_unread_exec(unread: &mut Vec<Unread>, id: u128)
    ensures
        final(unread)@ == bump_unread(old(unread)@, id),
{
    match find_unread(unread, id) {
        Some(i) => {
            let old_count = unread[i].count;
            let count = if old_count < u32::MAX { old_count + 1 } else { u32::MAX };
            let _ = unread.remove(i);
            unread.insert(i, Unread { id, count });
            assert(final(unread)@ =~= bump_unread(old(unread)@, id));
        },
        None => {
            unread.push(Unread { id, count: 1 });
        },
    }
}

/// Adds `dm` to the conversation with friend `fid`, starting one if needed.
pub fn append_dm_exec(conversations: &mut Vec<Conversation>, fid: u128, dm: DirectMessage)
    ensures
        conversations_view(final(conversations)@) == append_dm(conversations_view(old(conversations)@), fid, dm_view(dm)),
{
    let ghost old_v = conversations_view(conversations@);
    match find_conversation(conversations, fid) {
        Some(i) => {
            let mut c = conversations.remove(i);
            let ghost c0 = c;
            c.messages.push(dm);
            conversations.insert(i, c);
            assert(c.messages@.drop_last() == c0.messages@);
            assert(conversation_view(c).messages =~= old_v[i as int].messages.push(dm_view(dm)));
            assert(conversations_view(conversations@) =~= append_dm(old_v, fid, dm_view(dm)));
        },
        None => {
            let mut messages: Vec<DirectMessage> = Vec::new();
            messages.push(dm);
            conversations.push(Conversation { friend_id: fid, messages });
            assert(conversation_view(conversations@.last()).messages =~= seq![dm_view(dm)]);
            assert(conversations_view(conversations@) =~= append_dm(old_v, fid, dm_view(dm)));
        },
    }
}

fn copy_string(s: &String) -> (res: String)
    ensures
        res == *s,
{
    s.clone()
}

fn received_post_exec(id: u128, wire: &WireMessage) -> (res: Post)
    ensures
        post_view(res) == received_post(id, *wire),
{
    Post {
        id,
        from_id: copy_string(&wire.from_id),
        from_name: copy_string(&wire.from_name),
        body: copy_string(&wire.body),
        timestamp: wire.timestamp,
        edited: false,
    }
}

fn new_friend_exec(id: u128, wire: &WireMessage, now: u64) -> (res: Friend)
    ensures
        friend_view(res) == new_friend(id, *wire, now),
{
    Friend {
        id,
        display_name: copy_string(&wire.from_name),
        user_id: copy_string(&wire.from_id),
        note: None,
        added_at: now,
        last_seen: None,
    }
}

impl AppState {
    /// Applies a message from a peer; see `incoming_step`.
    pub fn handle_incoming(&mut self, wire: WireMessage, now: u64, fresh: u128, fresh_msg: u128)
        ensures
            final(self)@ == incoming_step(old(self)@, wire, now, fresh, fresh_msg),
    {
        let ghost s0 = self@;
        match &wire.kind {
            WireKind::DirectMessage => {
                let fid = match find_friend_by_user(&self.friends, &wire.from_id) {
                    Some(i) => self.friends[i].id,
                    None => {
                        self.friends.push(new_friend_exec(fresh, &wire, now));
                        assert(friends_view(self.friends@) =~= s0.friends.push(new_friend(fresh, wire, now)));
                        fresh
                    },
                };
                let dm = DirectMessage {
                    id: fresh_msg,
                    from_id: copy_string(&wire.from_id),
                    body: copy_string(&wire.body),
                    timestamp: wire.timestamp,
                    outgoing: false,
                    edited: false,
                };
                append_dm_exec(&mut self.conversations, fid, dm);
                bump_unread_exec(&mut self.unread, fid);
                assert(self@ == incoming_step(s0, wire, now, fresh, fresh_msg));
            },
            WireKind::GroupMessage { group_id } => {
                if let Some(gid) = uuid_parse(group_id.as_str()) {
                    if let Some(i) = find_group(&self.groups, gid) {
                        let post = received_post_exec(fresh_msg, &wire);
                        let mut g = self.groups.remove(i);
                        let ghost g0 = g;
                        g.messages.push(post);
                        assert(group_view(g).messages =~= group_view(g0).messages.push(received_post(fresh_msg, wire)));
                        self.groups.insert(i, g);
                        assert(groups_view(self.groups@) =~= post_in_group(
                            s0.groups,
                            i as int,
                            received_post(fresh_msg, wire),
                        ));
                        bump_unread_exec(&mut self.unread, gid);
                    }
                }
                assert(self@ == incoming_step(s0, wire, now, fresh, fresh_msg));
            },
            WireKind::ChannelMessage { server_id, channel_id } => {
                let sid = uuid_parse(server_id.as_str());
                let cid = uuid_parse(channel_id.as_str());
                if let (Some(sid), Some(cid)) = (sid, cid) {
                    if let Some(i) = find_server(&self.servers, sid) {
                        if let Some(j) = find_channel(&self.servers[i].channels, cid) {
                            let post = received_post_exec(fresh_msg, &wire);
                            let mut srv = self.servers.remove(i);
                            let ghost srv0 = srv;
                            let mut ch = srv.channels.remove(j);
                            let ghost ch0 = ch;
                            ch.messages.push(post);
                            assert(channel_view(ch).messages =~= channel_view(ch0).messages.push(received_post(fresh_msg, wire)));
                            srv.channels.insert(j, ch);
                            assert(channels_view(srv.channels@) =~= s0.servers[i as int].channels.update(
                                j as int,
                                ChannelView {
                                    messages: s0.servers[i as int].channels[j as int].messages.push(
                                        received_post(fresh_msg, wire),
                                    ),
                                    ..s0.servers[i as int].channels[j as int]
                                },
                            ));
                            self.servers.insert(i, srv);
                            assert(servers_view(self.servers@) =~= post_in_channel(
                                s0.servers,
                                i as int,
                                j as int,
                                received_post(fresh_msg, wire),
                            ));
                            bump_unread_exec(&mut self.unread, cid);
                        }
                    }
                }
                assert(self@ == incoming_step(s0, wire, now, fresh, fresh_msg));
            },
            WireKind::FriendRequest => {
                if find_friend_by_user(&self.friends, &wire.from_id).is_none() {
                    self.friends.push(new_friend_exec(fresh, &wire, now));
                    assert(friends_view(self.friends@) =~= s0.friends.push(new_friend(fresh, wire, now)));
                }
                assert(self@ == incoming_step(s0, wire, now, fresh, fresh_msg));
            },
            _ => {},
        }
    }
}

} // verus!
