//! The state of the messaging backend: the local profile, friends and their
//! conversations, groups, servers with channels, unread counters and the
//! peer-to-peer link, and the searches over it. Identifiers are UUIDs held as
//! their 128-bit values.
use vstd::prelude::*;

use crate::network::p2p::P2PStatus;

verus! {

/// Which screen the backend is on.
#[derive(Debug, Clone, Copy, PartialEq, Eq, Structural)]
pub enum Phase {
    Setup,
    Unlock,
    Main,
}

/// The local user's presence.
#[derive(Debug, Clone, Copy, PartialEq, Eq, Structural)]
pub enum UserStatus {
    Online,
    Away,
    DoNotDisturb,
    Invisible,
}

/// A member's role in a server or a group, from the highest down. Groups use
/// every role but `CoOwner`.
#[derive(Debug, Clone, Copy, PartialEq, Eq, Structural)]
pub enum Role {
    Owner,
    CoOwner,
    Admin,
    Moderator,
    Member,
}

/// The kind of a channel: in an announcement channel only the staff posts.
#[derive(Debug, Clone, Copy, PartialEq, Eq, Structural)]
pub enum ChannelType {
    Announcement,
    Public,
}

/// A member of a server or a group.
#[derive(Debug)]
pub struct Member {
    pub user_id: String,
    pub display_name: String,
    pub role: Role,
    pub muted: bool,
    pub banned: bool,
    pub joined_at: u64,
}

/// A friend.
#[derive(Debug)]
pub struct Friend {
    pub id: u128,
    pub display_name: String,
    pub user_id: String,
    pub note: Option<String>,
    pub added_at: u64,
    pub last_seen: Option<u64>,
}

/// One message of a direct conversation.
#[derive(Debug)]
pub struct DirectMessage {
    pub id: u128,
    pub from_id: String,
    pub body: String,
    pub timestamp: u64,
    pub outgoing: bool,
    pub edited: bool,
}

/// The conversation with one friend.
#[derive(Debug)]
pub struct Conversation {
    pub friend_id: u128,
    pub messages: Vec<DirectMessage>,
}

/// One message of a group or a channel.
#[derive(Debug)]
pub struct Post {
    pub id: u128,
    pub from_id: String,
    pub from_name: String,
    pub body: String,
    pub timestamp: u64,
    pub edited: bool,
}

/// A group chat.
#[derive(Debug)]
pub struct GroupChat {
    pub id: u128,
    pub name: String,
    pub description: Option<String>,
    pub owner_id: String,
    pub members: Vec<Member>,
    pub messages: Vec<Post>,
    pub created_at: u64,
}

/// A channel of a server.
#[derive(Debug)]
pub struct Channel {
    pub id: u128,
    pub name: String,
    pub topic: Option<String>,
    pub channel_type: ChannelType,
    pub messages: Vec<Post>,
    pub position: u32,
}

/// A server with its channels, members and bans.
#[derive(Debug)]
pub struct Server {
    pub id: u128,
    pub name: String,
    pub description: Option<String>,
    pub server_code: String,
    pub owner_id: String,
    pub channels: Vec<Channel>,
    pub members: Vec<Member>,
    pub banned_ids: Vec<String>,
    pub created_at: u64,
    pub is_owned: bool,
}

/// The unread count of a conversation, group or channel.
#[derive(Debug)]
pub struct Unread {
    pub id: u128,
    pub count: u32,
}

/// The backend's state.
#[derive(Debug)]
pub struct AppState {
    pub phase: Phase,
    pub my_name: String,
    pub my_user_id: String,
    pub my_nick: Option<String>,
    pub my_status: UserStatus,
    pub my_bio: Option<String>,
    pub friends: Vec<Friend>,
    pub groups: Vec<GroupChat>,
    pub servers: Vec<Server>,
    pub conversations: Vec<Conversation>,
    pub tor_status: P2PStatus,
    pub tor_socks: Option<String>,
    pub unread: Vec<Unread>,
}

// ------------------------------------------------------------------ views

/// A member as values.
pub struct MemberView {
    pub user_id: Seq<char>,
    pub display_name: Seq<char>,
    pub role: Role,
    pub muted: bool,
    pub banned: bool,
    pub joined_at: u64,
}

/// A friend as values.
pub struct FriendView {
    pub id: u128,
    pub display_name: Seq<char>,
    pub user_id: Seq<char>,
    pub note: Option<Seq<char>>,
    pub added_at: u64,
    pub last_seen: Option<u64>,
}

/// A direct message as values.
pub struct DmView {
    pub id: u128,
    pub from_id: Seq<char>,
    pub body: Seq<char>,
    pub timestamp: u64,
    pub outgoing: bool,
    pub edited: bool,
}

/// A post as values.
pub struct PostView {
    pub id: u128,
    pub from_id: Seq<char>,
    pub from_name: Seq<char>,
    pub body: Seq<char>,
    pub timestamp: u64,
    pub edited: bool,
}

/// A conversation as values.
#[verifier::ext_equal]
pub struct ConversationView {
    pub friend_id: u128,
    pub messages: Seq<DmView>,
}

/// A group as values.
#[verifier::ext_equal]
pub struct GroupView {
    pub id: u128,
    pub name: Seq<char>,
    pub description: Option<Seq<char>>,
    pub owner_id: Seq<char>,
    pub members: Seq<MemberView>,
    pub messages: Seq<PostView>,
    pub created_at: u64,
}

/// A channel as values.
#[verifier::ext_equal]
pub struct ChannelView {
    pub id: u128,
    pub name: Seq<char>,
    pub topic: Option<Seq<char>>,
    pub channel_type: ChannelType,
    pub messages: Seq<PostView>,
    pub position: u32,
}

/// A server as values.
#[verifier::ext_equal]
pub struct ServerView {
    pub id: u128,
    pub name: Seq<char>,
    pub description: Option<Seq<char>>,
    pub server_code: Seq<char>,
    pub owner_id: Seq<char>,
    pub channels: Seq<ChannelView>,
    pub members: Seq<MemberView>,
    pub banned_ids: Seq<Seq<char>>,
    pub created_at: u64,
    pub is_owned: bool,
}

/// The backend's state as values.
#[verifier::ext_equal]
pub struct AppStateView {
    pub phase: Phase,
    pub my_name: Seq<char>,
    pub my_user_id: Seq<char>,
    pub my_nick: Option<Seq<char>>,
    pub my_status: UserStatus,
    pub my_bio: Option<Seq<char>>,
    pub friends: Seq<FriendView>,
    pub groups: Seq<GroupView>,
    pub servers: Seq<ServerView>,
    pub conversations: Seq<ConversationView>,
    pub tor_status: P2PStatus,
    pub tor_socks: Option<Seq<char>>,
    pub unread: Seq<Unread>,
}

pub open spec fn opt_text(o: Option<String>) -> Option<Seq<char>> {
    match o {
        Some(s) => Some(s@),
        None => None,
    }
}

pub open spec fn member_view(m: Member) -> MemberView {
    MemberView {
        user_id: m.user_id@,
        display_name: m.display_name@,
        role: m.role,
        muted: m.muted,
        banned: m.banned,
        joined_at: m.joined_at,
    }
}

pub open spec fn members_view(v: Seq<Member>) -> Seq<MemberView> {
    v.map_values(|m: Member| member_view(m))
}

pub open spec fn friend_view(f: Friend) -> FriendView {
    FriendView {
        id: f.id,
        display_name: f.display_name@,
        user_id: f.user_id@,
        note: opt_text(f.note),
        added_at: f.added_at,
        last_seen: f.last_seen,
    }
}

pub open spec fn friends_view(v: Seq<Friend>) -> Seq<FriendView> {
    v.map_values(|f: Friend| friend_view(f))
}

pub open spec fn dm_view(d: DirectMessage) -> DmView {
    DmView {
        id: d.id,
        from_id: d.from_id@,
        body: d.body@,
        timestamp: d.timestamp,
        outgoing: d.outgoing,
        edited: d.edited,
    }
}

pub open spec fn dms_view(v: Seq<DirectMessage>) -> Seq<DmView> {
    v.map_values(|d: DirectMessage| dm_view(d))
}

pub open spec fn post_view(p: Post) -> PostView {
    PostView {
        id: p.id,
        from_id: p.from_id@,
        from_name: p.from_name@,
        body: p.body@,
        timestamp: p.timestamp,
        edited: p.edited,
    }
}

pub open spec fn posts_view(v: Seq<Post>) -> Seq<PostView> {
    v.map_values(|p: Post| post_view(p))
}

pub open spec fn texts_view(v: Seq<String>) -> Seq<Seq<char>> {
    v.map_values(|t: String| t@)
}

pub open spec fn conversation_view(c: Conversation) -> ConversationView {
    ConversationView { friend_id: c.friend_id, messages: dms_view(c.messages@) }
}

pub open spec fn group_view(g: GroupChat) -> GroupView {
    GroupView {
        id: g.id,
        name: g.name@,
        description: opt_text(g.description),
        owner_id: g.owner_id@,
        members: members_view(g.members@),
        messages: posts_view(g.messages@),
        created_at: g.created_at,
    }
}

pub open spec fn channel_view(c: Channel) -> ChannelView {
    ChannelView {
        id: c.id,
        name: c.name@,
        topic: opt_text(c.topic),
        channel_type: c.channel_type,
        messages: posts_view(c.messages@),
        position: c.position,
    }
}

pub open spec fn channels_view(v: Seq<Channel>) -> Seq<ChannelView> {
    v.map_values(|c: Channel| channel_view(c))
}

pub open spec fn groups_view(v: Seq<GroupChat>) -> Seq<GroupView> {
    v.map_values(|g: GroupChat| group_view(g))
}

pub open spec fn conversations_view(v: Seq<Conversation>) -> Seq<ConversationView> {
    v.map_values(|c: Conversation| conversation_view(c))
}

pub open spec fn servers_view(v: Seq<Server>) -> Seq<ServerView> {
    v.map_values(|s: Server| server_view(s))
}

pub open spec fn server_view(s: Server) -> ServerView {
    ServerView {
        id: s.id,
        name: s.name@,
        description: opt_text(s.description),
        server_code: s.server_code@,
        owner_id: s.owner_id@,
        channels: channels_view(s.channels@),
        members: members_view(s.members@),
        banned_ids: texts_view(s.banned_ids@),
        created_at: s.created_at,
        is_owned: s.is_owned,
    }
}

impl View for AppState {
    type V = AppStateView;

    open spec fn view(&self) -> AppStateView {
        AppStateView {
            phase: self.phase,
            my_name: self.my_name@,
            my_user_id: self.my_user_id@,
            my_nick: opt_text(self.my_nick),
            my_status: self.my_status,
            my_bio: opt_text(self.my_bio),
            friends: friends_view(self.friends@),
            groups: groups_view(self.groups@),
            servers: servers_view(self.servers@),
            conversations: conversations_view(self.conversations@),
            tor_status: self.tor_status,
            tor_socks: opt_text(self.tor_socks),
            unread: self.unread@,
        }
    }
}

// -------------------------------------------------------------- searching

/// The first index of `s` whose element satisfies `p`.
pub open spec fn first_index<T>(s: Seq<T>, p: spec_fn(T) -> bool) -> Option<int>
    decreases s.len(),
{
    if s.len() == 0 {
        None
    } else {
        match first_index(s.drop_last(), p) {
            Some(i) => Some(i),
            None => if p(s.last()) {
                Some(s.len() - 1)
            } else {
                None
            },
        }
    }
}

/// What the first index is: in range, satisfying `p`, with no earlier
/// element satisfying it; `None` when no element does.
pub proof fn lemma_first_index<T>(s: Seq<T>, p: spec_fn(T) -> bool)
    ensures
        match first_index(s, p) {
            Some(i) => 0 <= i < s.len() && p(s[i]) && forall|j: int| 0 <= j < i ==> !p(#[trigger] s[j]),
            None => forall|j: int| 0 <= j < s.len() ==> !p(#[trigger] s[j]),
        },
    decreases s.len(),
{
    if s.len() > 0 {
        lemma_first_index(s.drop_last(), p);
        assert forall|j: int| 0 <= j < s.len() - 1 implies s.drop_last()[j] == s[j] by {}
    }
}

/// The index that a scan from the front finds is the first index.
pub proof fn lemma_first_index_is<T>(s: Seq<T>, p: spec_fn(T) -> bool, i: int)
    requires
        0 <= i <= s.len(),
        forall|j: int| 0 <= j < i ==> !p(#[trigger] s[j]),
        i < s.len() ==> p(s[i]),
    ensures
        first_index(s, p) == if i < s.len() { Some(i) } else { None::<int> },
{
    lemma_first_index(s, p);
    match first_index(s, p) {
        Some(k) => {
            if k < i {
                assert(!p(s[k]));
            }
            if i < k {
                assert(!p(s[i]));
            }
        },
        None => {
            if i < s.len() {
                assert(!p(s[i]));
            }
        },
    }
}

/// Elements with this user id.
pub open spec fn member_is(uid: Seq<char>) -> spec_fn(MemberView) -> bool {
    |m: MemberView| m.user_id == uid
}

/// Friends with this user id.
pub open spec fn friend_user_is(uid: Seq<char>) -> spec_fn(FriendView) -> bool {
    |f: FriendView| f.user_id == uid
}

/// Friends with this id.
pub open spec fn friend_id_is(id: u128) -> spec_fn(FriendView) -> bool {
    |f: FriendView| f.id == id
}

/// Groups with this id.
pub open spec fn group_is(id: u128) -> spec_fn(GroupView) -> bool {
    |g: GroupView| g.id == id
}

/// Servers with this id.
pub open spec fn server_is(id: u128) -> spec_fn(ServerView) -> bool {
    |s: ServerView| s.id == id
}

/// Servers with this invite code.
pub open spec fn server_code_is(code: Seq<char>) -> spec_fn(ServerView) -> bool {
    |s: ServerView| s.server_code == code
}

/// Channels with this id.
pub open spec fn channel_is(id: u128) -> spec_fn(ChannelView) -> bool {
    |c: ChannelView| c.id == id
}

/// Conversations with this friend.
pub open spec fn conversation_is(id: u128) -> spec_fn(ConversationView) -> bool {
    |c: ConversationView| c.friend_id == id
}

/// Unread counters of this id.
pub open spec fn unread_is(id: u128) -> spec_fn(Unread) -> bool {
    |u: Unread| u.id == id
}

/// An optional index as a `usize`.
pub open spec fn as_index(o: Option<int>) -> Option<usize> {
    match o {
        Some(i) => Some(i as usize),
        None => None,
    }
}

/// The first member of `members` with user id `uid`.
pub fn find_member(members: &Vec<Member>, uid: &String) -> (res: Option<usize>)
    ensures
        res == as_index(first_index(members_view(members@), member_is(uid@))),
        res matches Some(i) ==> i < members@.len() && first_index(members_view(members@), member_is(uid@))
            == Some(i as int),
        res is None ==> first_index(members_view(members@), member_is(uid@)) is None,
{
    let ghost v = members_view(members@);
    let mut i: usize = 0;
    while i < members.len()
        invariant
            i <= members@.len(),
            v == members_view(members@),
            forall|j: int| 0 <= j < i ==> !member_is(uid@)(#[trigger] v[j]),
        decreases members@.len() - i,
    {
        if members[i].user_id == *uid {
            proof { lemma_first_index_is(v, member_is(uid@), i as int); }
            return Some(i);
        }
        i = i + 1;
    }
    proof { lemma_first_index_is(v, member_is(uid@), i as int); }
    None
}

/// The first friend with user id `uid`.
pub fn find_friend_by_user(friends: &Vec<Friend>, uid: &String) -> (res: Option<usize>)
    ensures
        res == as_index(first_index(friends_view(friends@), friend_user_is(uid@))),
        res matches Some(i) ==> i < friends@.len() && first_index(friends_view(friends@), friend_user_is(uid@))
            == Some(i as int),
        res is None ==> first_index(friends_view(friends@), friend_user_is(uid@)) is None,
{
    let ghost v = friends_view(friends@);
    let mut i: usize = 0;
    while i < friends.len()
        invariant
            i <= friends@.len(),
            v == friends_view(friends@),
            forall|j: int| 0 <= j < i ==> !friend_user_is(uid@)(#[trigger] v[j]),
        decreases friends@.len() - i,
    {
        if friends[i].user_id == *uid {
            proof { lemma_first_index_is(v, friend_user_is(uid@), i as int); }
            return Some(i);
        }
        i = i + 1;
    }
    proof { lemma_first_index_is(v, friend_user_is(uid@), i as int); }
    None
}

/// The first group with id `id`.
pub fn find_group(groups: &Vec<GroupChat>, id: u128) -> (res: Option<usize>)
    ensures
        res == as_index(first_index(groups_view(groups@), group_is(id))),
        res matches Some(i) ==> i < groups@.len() && first_index(groups_view(groups@), group_is(id)) == Some(i as int),
        res is None ==> first_index(groups_view(groups@), group_is(id)) is None,
{
    let ghost v = groups_view(groups@);
    let mut i: usize = 0;
    while i < groups.len()
        invariant
            i <= groups@.len(),
            v == groups_view(groups@),
            forall|j: int| 0 <= j < i ==> !group_is(id)(#[trigger] v[j]),
        decreases groups@.len() - i,
    {
        if groups[i].id == id {
            proof { lemma_first_index_is(v, group_is(id), i as int); }
            return Some(i);
        }
        i = i + 1;
    }
    proof { lemma_first_index_is(v, group_is(id), i as int); }
    None
}

/// The first server with id `id`.
pub fn find_server(servers: &Vec<Server>, id: u128) -> (res: Option<usize>)
    ensures
        res == as_index(first_index(servers_view(servers@), server_is(id))),
        res matches Some(i) ==> i < servers@.len() && first_index(servers_view(servers@), server_is(id)) == Some(i as int),
        res is None ==> first_index(servers_view(servers@), server_is(id)) is None,
{
    let ghost v = servers_view(servers@);
    let mut i: usize = 0;
    while i < servers.len()
        invariant
            i <= servers@.len(),
            v == servers_view(servers@),
            forall|j: int| 0 <= j < i ==> !server_is(id)(#[trigger] v[j]),
        decreases servers@.len() - i,
    {
        if servers[i].id == id {
            proof { lemma_first_index_is(v, server_is(id), i as int); }
            return Some(i);
        }
        i = i + 1;
    }
    proof { lemma_first_index_is(v, server_is(id), i as int); }
    None
}

/// The first server with invite code `code`.
pub fn find_server_by_code(servers: &Vec<Server>, code: &String) -> (res: Option<usize>)
    ensures
        res == as_index(first_index(servers_view(servers@), server_code_is(code@))),
        res matches Some(i) ==> i < servers@.len() && first_index(servers_view(servers@), server_code_is(code@)) == Some(i as int),
        res is None ==> first_index(servers_view(servers@), server_code_is(code@)) is None,
{
    let ghost v = servers_view(servers@);
    let mut i: usize = 0;
    while i < servers.len()
        invariant
            i <= servers@.len(),
            v == servers_view(servers@),
            forall|j: int| 0 <= j < i ==> !server_code_is(code@)(#[trigger] v[j]),
        decreases servers@.len() - i,
    {
        if servers[i].server_code == *code {
            proof { lemma_first_index_is(v, server_code_is(code@), i as int); }
            return Some(i);
        }
        i = i + 1;
    }
    proof { lemma_first_index_is(v, server_code_is(code@), i as int); }
    None
}

/// The first channel with id `id`.
pub fn find_channel(channels: &Vec<Channel>, id: u128) -> (res: Option<usize>)
    ensures
        res == as_index(first_index(channels_view(channels@), channel_is(id))),
        res matches Some(i) ==> i < channels@.len() && first_index(channels_view(channels@), channel_is(id)) == Some(i as int),
        res is None ==> first_index(channels_view(channels@), channel_is(id)) is None,
{
    let ghost v = channels_view(channels@);
    let mut i: usize = 0;
    while i < channels.len()
        invariant
            i <= channels@.len(),
            v == channels_view(channels@),
            forall|j: int| 0 <= j < i ==> !channel_is(id)(#[trigger] v[j]),
        decreases channels@.len() - i,
    {
        if channels[i].id == id {
            proof { lemma_first_index_is(v, channel_is(id), i as int); }
            return Some(i);
        }
        i = i + 1;
    }
    proof { lemma_first_index_is(v, channel_is(id), i as int); }
    None
}

/// The first conversation with friend `id`.
pub fn find_conversation(conversations: &Vec<Conversation>, id: u128) -> (res: Option<usize>)
    ensures
        res == as_index(first_index(conversations_view(conversations@), conversation_is(id))),
        res matches Some(i) ==> i < conversations@.len() && first_index(conversations_view(conversations@), conversation_is(id)) == Some(i as int),
        res is None ==> first_index(conversations_view(conversations@), conversation_is(id)) is None,
{
    let ghost v = conversations_view(conversations@);
    let mut i: usize = 0;
    while i < conversations.len()
        invariant
            i <= conversations@.len(),
            v == conversations_view(conversations@),
            forall|j: int| 0 <= j < i ==> !conversation_is(id)(#[trigger] v[j]),
        decreases conversations@.len() - i,
    {
        if conversations[i].friend_id == id {
            proof { lemma_first_index_is(v, conversation_is(id), i as int); }
            return Some(i);
        }
        i = i + 1;
    }
    proof { lemma_first_index_is(v, conversation_is(id), i as int); }
    None
}

/// The first unread counter of `id`.
pub fn find_unread(unread: &Vec<Unread>, id: u128) -> (res: Option<usize>)
    ensures
        res == as_index(first_index(unread@, unread_is(id))),
        res matches Some(i) ==> i < unread@.len() && first_index(unread@, unread_is(id)) == Some(i as int),
        res is None ==> first_index(unread@, unread_is(id)) is None,
{
    let mut i: usize = 0;
    while i < unread.len()
        invariant
            i <= unread@.len(),
            forall|j: int| 0 <= j < i ==> !unread_is(id)(#[trigger] unread@[j]),
        decreases unread@.len() - i,
    {
        if unread[i].id == id {
            proof { lemma_first_index_is(unread@, unread_is(id), i as int); }
            return Some(i);
        }
        i = i + 1;
    }
    proof { lemma_first_index_is(unread@, unread_is(id), i as int); }
    None
}

/// The first friend with id `id`.
pub fn find_friend_by_id(friends: &Vec<Friend>, id: u128) -> (res: Option<usize>)
    ensures
        res matches Some(i) ==> i < friends@.len() && first_index(friends_view(friends@), friend_id_is(id))
            == Some(i as int),
        res is None ==> first_index(friends_view(friends@), friend_id_is(id)) is None,
{
    let ghost v = friends_view(friends@);
    let mut i: usize = 0;
    while i < friends.len()
        invariant
            i <= friends@.len(),
            v == friends_view(friends@),
            forall|j: int| 0 <= j < i ==> !friend_id_is(id)(#[trigger] v[j]),
        decreases friends@.len() - i,
    {
        if friends[i].id == id {
            proof { lemma_first_index_is(v, friend_id_is(id), i as int); }
            return Some(i);
        }
        i = i + 1;
    }
    proof { lemma_first_index_is(v, friend_id_is(id), i as int); }
    None
}

} // verus!
