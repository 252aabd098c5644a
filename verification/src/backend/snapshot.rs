//! The picture of the state that the window is sent on every change: every
//! message carries its sender's name and whether it is the local user's own.
use vstd::prelude::*;

use crate::backend::rules::display_name_spec;
use crate::backend::state::{
    channel_view, dm_view, find_friend_by_id, first_index, friend_id_is, friends_view, members_view, opt_text,
    post_view, texts_view, AppState, AppStateView, Channel, ChannelType, ChannelView, ConversationView,
    DirectMessage, DmView, FriendView, GroupView, Member, MemberView, Post, PostView, Role, ServerView,
    Unread, UserStatus,
};
use crate::network::p2p::label_spec;

verus! {

/// A message as the window shows it.
pub struct MsgSnap {
    pub id: u128,
    pub from_id: String,
    pub from_name: String,
    pub body: String,
    pub ts: u64,
    pub outgoing: bool,
    pub edited: bool,
}

/// A member as the window shows it.
pub struct MemberSnap {
    pub user_id: String,
    pub display_name: String,
    pub role: String,
    pub muted: bool,
    pub banned: bool,
}

/// A friend as the window shows it.
pub struct FriendSnap {
    pub id: u128,
    pub display_name: String,
    pub user_id: String,
}

/// A group as the window shows it.
pub struct GroupSnap {
    pub id: u128,
    pub name: String,
    pub owner_id: String,
    pub members: Vec<MemberSnap>,
    pub messages: Vec<MsgSnap>,
}

/// A channel as the window shows it.
pub struct ChannelSnap {
    pub id: u128,
    pub name: String,
    pub topic: Option<String>,
    pub ch_type: String,
    pub messages: Vec<MsgSnap>,
}

/// A server as the window shows it.
pub struct ServerSnap {
    pub id: u128,
    pub name: String,
    pub server_code: String,
    pub owner_id: String,
    pub description: Option<String>,
    pub channels: Vec<ChannelSnap>,
    pub members: Vec<MemberSnap>,
    pub banned_ids: Vec<String>,
}

/// A conversation as the window shows it.
pub struct ConversationSnap {
    pub friend_id: u128,
    pub messages: Vec<MsgSnap>,
}

/// The whole state as the window shows it.
pub struct StateSnapshot {
    pub my_name: String,
    pub my_id: String,
    pub my_nick: Option<String>,
    pub my_status: String,
    pub my_bio: Option<String>,
    pub friends: Vec<FriendSnap>,
    pub groups: Vec<GroupSnap>,
    pub servers: Vec<ServerSnap>,
    pub conversations: Vec<ConversationSnap>,
    pub tor_status: String,
    pub unread: Vec<Unread>,
}

// ------------------------------------------------------------------ views

pub struct MsgSnapView {
    pub id: u128,
    pub from_id: Seq<char>,
    pub from_name: Seq<char>,
    pub body: Seq<char>,
    pub ts: u64,
    pub outgoing: bool,
    pub edited: bool,
}

pub struct MemberSnapView {
    pub user_id: Seq<char>,
    pub display_name: Seq<char>,
    pub role: Seq<char>,
    pub muted: bool,
    pub banned: bool,
}

pub struct FriendSnapView {
    pub id: u128,
    pub display_name: Seq<char>,
    pub user_id: Seq<char>,
}

#[verifier::ext_equal]
pub struct GroupSnapView {
    pub id: u128,
    pub name: Seq<char>,
    pub owner_id: Seq<char>,
    pub members: Seq<MemberSnapView>,
    pub messages: Seq<MsgSnapView>,
}

#[verifier::ext_equal]
pub struct ChannelSnapView {
    pub id: u128,
    pub name: Seq<char>,
    pub topic: Option<Seq<char>>,
    pub ch_type: Seq<char>,
    pub messages: Seq<MsgSnapView>,
}

#[verifier::ext_equal]
pub struct ServerSnapView {
    pub id: u128,
    pub name: Seq<char>,
    pub server_code: Seq<char>,
    pub owner_id: Seq<char>,
    pub description: Option<Seq<char>>,
    pub channels: Seq<ChannelSnapView>,
    pub members: Seq<MemberSnapView>,
    pub banned_ids: Seq<Seq<char>>,
}

#[verifier::ext_equal]
pub struct ConversationSnapView {
    pub friend_id: u128,
    pub messages: Seq<MsgSnapView>,
}

#[verifier::ext_equal]
pub struct StateSnapshotView {
    pub my_name: Seq<char>,
    pub my_id: Seq<char>,
    pub my_nick: Option<Seq<char>>,
    pub my_status: Seq<char>,
    pub my_bio: Option<Seq<char>>,
    pub friends: Seq<FriendSnapView>,
    pub groups: Seq<GroupSnapView>,
    pub servers: Seq<ServerSnapView>,
    pub conversations: Seq<ConversationSnapView>,
    pub tor_status: Seq<char>,
    pub unread: Seq<Unread>,
}

pub open spec fn msg_snap_view(m: MsgSnap) -> MsgSnapView {
    MsgSnapView {
        id: m.id,
        from_id: m.from_id@,
        from_name: m.from_name@,
        body: m.body@,
        ts: m.ts,
        outgoing: m.outgoing,
        edited: m.edited,
    }
}

pub open spec fn msg_snaps_view(v: Seq<MsgSnap>) -> Seq<MsgSnapView> {
    v.map_values(|m: MsgSnap| msg_snap_view(m))
}

pub open spec fn member_snap_view(m: MemberSnap) -> MemberSnapView {
    MemberSnapView { user_id: m.user_id@, display_name: m.display_name@, role: m.role@, muted: m.muted, banned: m.banned }
}

pub open spec fn member_snaps_view(v: Seq<MemberSnap>) -> Seq<MemberSnapView> {
    v.map_values(|m: MemberSnap| member_snap_view(m))
}

pub open spec fn friend_snap_view(f: FriendSnap) -> FriendSnapView {
    FriendSnapView { id: f.id, display_name: f.display_name@, user_id: f.user_id@ }
}

pub open spec fn friend_snaps_view(v: Seq<FriendSnap>) -> Seq<FriendSnapView> {
    v.map_values(|f: FriendSnap| friend_snap_view(f))
}

pub open spec fn group_snap_view(g: GroupSnap) -> GroupSnapView {
    GroupSnapView {
        id: g.id,
        name: g.name@,
        owner_id: g.owner_id@,
        members: member_snaps_view(g.members@),
        messages: msg_snaps_view(g.messages@),
    }
}

pub open spec fn group_snaps_view(v: Seq<GroupSnap>) -> Seq<GroupSnapView> {
    v.map_values(|g: GroupSnap| group_snap_view(g))
}

pub open spec fn channel_snap_view(c: ChannelSnap) -> ChannelSnapView {
    ChannelSnapView {
        id: c.id,
        name: c.name@,
        topic: opt_text(c.topic),
        ch_type: c.ch_type@,
        messages: msg_snaps_view(c.messages@),
    }
}

pub open spec fn channel_snaps_view(v: Seq<ChannelSnap>) -> Seq<ChannelSnapView> {
    v.map_values(|c: ChannelSnap| channel_snap_view(c))
}

pub open spec fn server_snap_view(s: ServerSnap) -> ServerSnapView {
    ServerSnapView {
        id: s.id,
        name: s.name@,
        server_code: s.server_code@,
        owner_id: s.owner_id@,
        description: opt_text(s.description),
        channels: channel_snaps_view(s.channels@),
        members: member_snaps_view(s.members@),
        banned_ids: texts_view(s.banned_ids@),
    }
}

pub open spec fn server_snaps_view(v: Seq<ServerSnap>) -> Seq<ServerSnapView> {
    v.map_values(|s: ServerSnap| server_snap_view(s))
}

pub open spec fn conversation_snap_view(c: ConversationSnap) -> ConversationSnapView {
    ConversationSnapView { friend_id: c.friend_id, messages: msg_snaps_view(c.messages@) }
}

pub open spec fn conversation_snaps_view(v: Seq<ConversationSnap>) -> Seq<ConversationSnapView> {
    v.map_values(|c: ConversationSnap| conversation_snap_view(c))
}

impl View for StateSnapshot {
    type V = StateSnapshotView;

    open spec fn view(&self) -> StateSnapshotView {
        StateSnapshotView {
            my_name: self.my_name@,
            my_id: self.my_id@,
            my_nick: opt_text(self.my_nick),
            my_status: self.my_status@,
            my_bio: opt_text(self.my_bio),
            friends: friend_snaps_view(self.friends@),
            groups: group_snaps_view(self.groups@),
            servers: server_snaps_view(self.servers@),
            conversations: conversation_snaps_view(self.conversations@),
            tor_status: self.tor_status@,
            unread: self.unread@,
        }
    }
}

// ------------------------------------------------------------- the picture

/// The word shown for a role.
pub open spec fn role_label(r: Role) -> Seq<char> {
    match r {
        Role::Owner => "Owner"@,
        Role::CoOwner => "Co-Owner"@,
        Role::Admin => "Admin"@,
        Role::Moderator => "Moderator"@,
        Role::Member => "Member"@,
    }
}

/// The word shown for a presence.
pub open spec fn status_label(s: UserStatus) -> Seq<char> {
    match s {
        UserStatus::Online => "Online"@,
        UserStatus::Away => "Away"@,
        UserStatus::DoNotDisturb => "DoNotDisturb"@,
        UserStatus::Invisible => "Invisible"@,
    }
}

/// The word shown for a channel's kind.
pub open spec fn channel_type_label(t: ChannelType) -> Seq<char> {
    match t {
        ChannelType::Announcement => "Announcement"@,
        ChannelType::Public => "Public"@,
    }
}

pub open spec fn member_snap(m: MemberView) -> MemberSnapView {
    MemberSnapView { user_id: m.user_id, display_name: m.display_name, role: role_label(m.role), muted: m.muted, banned: m.banned }
}

pub open spec fn member_snaps(v: Seq<MemberView>) -> Seq<MemberSnapView> {
    v.map_values(|m: MemberView| member_snap(m))
}

/// A group or channel post, which is the local user's own when `me` sent it.
pub open spec fn post_snap(p: PostView, me: Seq<char>) -> MsgSnapView {
    MsgSnapView {
        id: p.id,
        from_id: p.from_id,
        from_name: p.from_name,
        body: p.body,
        ts: p.timestamp,
        outgoing: p.from_id == me,
        edited: p.edited,
    }
}

pub open spec fn post_snaps(v: Seq<PostView>, me: Seq<char>) -> Seq<MsgSnapView> {
    v.map_values(|p: PostView| post_snap(p, me))
}

/// A direct message, sent by `mine` when outgoing and by `theirs` otherwise.
pub open spec fn dm_snap(d: DmView, theirs: Seq<char>, mine: Seq<char>) -> MsgSnapView {
    MsgSnapView {
        id: d.id,
        from_id: d.from_id,
        from_name: if d.outgoing { mine } else { theirs },
        body: d.body,
        ts: d.timestamp,
        outgoing: d.outgoing,
        edited: d.edited,
    }
}

pub open spec fn dm_snaps(v: Seq<DmView>, theirs: Seq<char>, mine: Seq<char>) -> Seq<MsgSnapView> {
    v.map_values(|d: DmView| dm_snap(d, theirs, mine))
}

pub open spec fn friend_snap(f: FriendView) -> FriendSnapView {
    FriendSnapView { id: f.id, display_name: f.display_name, user_id: f.user_id }
}

pub open spec fn group_snap(g: GroupView, me: Seq<char>) -> GroupSnapView {
    GroupSnapView {
        id: g.id,
        name: g.name,
        owner_id: g.owner_id,
        members: member_snaps(g.members),
        messages: post_snaps(g.messages, me),
    }
}

pub open spec fn channel_snap(c: ChannelView, me: Seq<char>) -> ChannelSnapView {
    ChannelSnapView {
        id: c.id,
        name: c.name,
        topic: c.topic,
        ch_type: channel_type_label(c.channel_type),
        messages: post_snaps(c.messages, me),
    }
}

pub open spec fn channel_snaps(v: Seq<ChannelView>, me: Seq<char>) -> Seq<ChannelSnapView> {
    v.map_values(|c: ChannelView| channel_snap(c, me))
}

pub open spec fn server_snap(s: ServerView, me: Seq<char>) -> ServerSnapView {
    ServerSnapView {
        id: s.id,
        name: s.name,
        server_code: s.server_code,
        owner_id: s.owner_id,
        description: s.description,
        channels: channel_snaps(s.channels, me),
        members: member_snaps(s.members),
        banned_ids: s.banned_ids,
    }
}

/// The name of friend `fid`, or `Unknown`.
pub open spec fn friend_name(friends: Seq<FriendView>, fid: u128) -> Seq<char> {
    match first_index(friends, friend_id_is(fid)) {
        Some(i) => friends[i].display_name,
        None => "Unknown"@,
    }
}

pub open spec fn conversation_snap(s: AppStateView, c: ConversationView) -> ConversationSnapView {
    ConversationSnapView {
        friend_id: c.friend_id,
        messages: dm_snaps(c.messages, friend_name(s.friends, c.friend_id), display_name_spec(s)),
    }
}

/// The picture of state `s`: every list in the state's order; a post is the
/// local user's own when its sender is the local user; a direct message is
/// named after the local user when outgoing and after the friend (or
/// `Unknown`) otherwise.
pub open spec fn snapshot_of(s: AppStateView) -> StateSnapshotView {
    StateSnapshotView {
        my_name: s.my_name,
        my_id: s.my_user_id,
        my_nick: s.my_nick,
        my_status: status_label(s.my_status),
        my_bio: s.my_bio,
        friends: s.friends.map_values(|f: FriendView| friend_snap(f)),
        groups: s.groups.map_values(|g: GroupView| group_snap(g, s.my_user_id)),
        servers: s.servers.map_values(|v: ServerView| server_snap(v, s.my_user_id)),
        conversations: s.conversations.map_values(|c: ConversationView| conversation_snap(s, c)),
        tor_status: label_spec(s.tor_status),
        unread: s.unread,
    }
}

// ------------------------------------------------------------- building it

fn copy_text(s: &String) -> (res: String)
    ensures
        res@ == s@,
{
    s.clone()
}

fn copy_opt(o: &Option<String>) -> (res: Option<String>)
    ensures
        opt_text(res) == opt_text(*o),
{
    match o {
        Some(x) => Some(x.clone()),
        None => None,
    }
}

fn role_word(r: Role) -> (res: &'static str)
    ensures
        res@ == role_label(r),
{
    match r {
        Role::Owner => "Owner",
        Role::CoOwner => "Co-Owner",
        Role::Admin => "Admin",
        Role::Moderator => "Moderator",
        Role::Member => "Member",
    }
}

fn status_word(s: UserStatus) -> (res: &'static str)
    ensures
        res@ == status_label(s),
{
    match s {
        UserStatus::Online => "Online",
        UserStatus::Away => "Away",
        UserStatus::DoNotDisturb => "DoNotDisturb",
        UserStatus::Invisible => "Invisible",
    }
}

fn channel_type_word(t: ChannelType) -> (res: &'static str)
    ensures
        res@ == channel_type_label(t),
{
    match t {
        ChannelType::Announcement => "Announcement",
        ChannelType::Public => "Public",
    }
}

fn snap_members(v: &Vec<Member>) -> (res: Vec<MemberSnap>)
    ensures
        member_snaps_view(res@) == member_snaps(members_view(v@)),
{
    let ghost src = members_view(v@);
    let mut out: Vec<MemberSnap> = Vec::new();
    let mut i: usize = 0;
    while i < v.len()
        invariant
            i <= v@.len(),
            src == members_view(v@),
            member_snaps_view(out@) == member_snaps(src.subrange(0, i as int)),
        decreases v@.len() - i,
    {
        let m = &v[i];
        let x = MemberSnap {
            user_id: copy_text(&m.user_id),
            display_name: copy_text(&m.display_name),
            role: role_word(m.role).to_owned(),
            muted: m.muted,
            banned: m.banned,
        };
        assert(member_snap_view(x) == member_snap(src[i as int]));
        let ghost before = out@;
        out.push(x);
        assert(member_snaps_view(out@) =~= member_snaps_view(before).push(member_snap_view(x)));
        assert(member_snaps(src.subrange(0, i + 1)) =~= member_snaps(src.subrange(0, i as int)).push(member_snap(src[i as int])));
        i = i + 1;
    }
    assert(src.subrange(0, i as int) =~= src);
    out
}

fn snap_posts(v: &Vec<Post>, me: &String) -> (res: Vec<MsgSnap>)
    ensures
        msg_snaps_view(res@) == post_snaps(v@.map_values(|p: Post| post_view(p)), me@),
{
    let ghost src = v@.map_values(|p: Post| post_view(p));
    let mut out: Vec<MsgSnap> = Vec::new();
    let mut i: usize = 0;
    while i < v.len()
        invariant
            i <= v@.len(),
            src == v@.map_values(|p: Post| post_view(p)),
            msg_snaps_view(out@) == post_snaps(src.subrange(0, i as int), me@),
        decreases v@.len() - i,
    {
        let p = &v[i];
        let x = MsgSnap {
            id: p.id,
            from_id: copy_text(&p.from_id),
            from_name: copy_text(&p.from_name),
            body: copy_text(&p.body),
            ts: p.timestamp,
            outgoing: p.from_id == *me,
            edited: p.edited,
        };
        assert(msg_snap_view(x) == post_snap(src[i as int], me@));
        let ghost before = out@;
        out.push(x);
        assert(msg_snaps_view(out@) =~= msg_snaps_view(before).push(msg_snap_view(x)));
        assert(post_snaps(src.subrange(0, i + 1), me@) =~= post_snaps(src.subrange(0, i as int), me@).push(
            post_snap(src[i as int], me@),
        ));
        i = i + 1;
    }
    assert(src.subrange(0, i as int) =~= src);
    out
}

fn snap_dms(v: &Vec<DirectMessage>, theirs: &String, mine: &String) -> (res: Vec<MsgSnap>)
    ensures
        msg_snaps_view(res@) == dm_snaps(v@.map_values(|d: DirectMessage| dm_view(d)), theirs@, mine@),
{
    let ghost src = v@.map_values(|d: DirectMessage| dm_view(d));
    let mut out: Vec<MsgSnap> = Vec::new();
    let mut i: usize = 0;
    while i < v.len()
        invariant
            i <= v@.len(),
            src == v@.map_values(|d: DirectMessage| dm_view(d)),
            msg_snaps_view(out@) == dm_snaps(src.subrange(0, i as int), theirs@, mine@),
        decreases v@.len() - i,
    {
        let d = &v[i];
        let x = MsgSnap {
            id: d.id,
            from_id: copy_text(&d.from_id),
            from_name: if d.outgoing { copy_text(mine) } else { copy_text(theirs) },
            body: copy_text(&d.body),
            ts: d.timestamp,
            outgoing: d.outgoing,
            edited: d.edited,
        };
        assert(msg_snap_view(x) == dm_snap(src[i as int], theirs@, mine@));
        let ghost before = out@;
        out.push(x);
        assert(msg_snaps_view(out@) =~= msg_snaps_view(before).push(msg_snap_view(x)));
        assert(dm_snaps(src.subrange(0, i + 1), theirs@, mine@) =~= dm_snaps(src.subrange(0, i as int), theirs@, mine@).push(
            dm_snap(src[i as int], theirs@, mine@),
        ));
        i = i + 1;
    }
    assert(src.subrange(0, i as int) =~= src);
    out
}

fn snap_channels(v: &Vec<Channel>, me: &String) -> (res: Vec<ChannelSnap>)
    ensures
        channel_snaps_view(res@) == channel_snaps(v@.map_values(|c: Channel| channel_view(c)), me@),
{
    let ghost src = v@.map_values(|c: Channel| channel_view(c));
    let mut out: Vec<ChannelSnap> = Vec::new();
    let mut i: usize = 0;
    while i < v.len()
        invariant
            i <= v@.len(),
            src == v@.map_values(|c: Channel| channel_view(c)),
            channel_snaps_view(out@) == channel_snaps(src.subrange(0, i as int), me@),
        decreases v@.len() - i,
    {
        let c = &v[i];
        let x = ChannelSnap {
            id: c.id,
            name: copy_text(&c.name),
            topic: copy_opt(&c.topic),
            ch_type: channel_type_word(c.channel_type).to_owned(),
            messages: snap_posts(&c.messages, me),
        };
        assert(channel_snap_view(x) =~= channel_snap(src[i as int], me@));
        let ghost before = out@;
        out.push(x);
        assert(channel_snaps_view(out@) =~= channel_snaps_view(before).push(channel_snap_view(x)));
        assert(channel_snaps(src.subrange(0, i + 1), me@) =~= channel_snaps(src.subrange(0, i as int), me@).push(
            channel_snap(src[i as int], me@),
        ));
        i = i + 1;
    }
    assert(src.subrange(0, i as int) =~= src);
    out
}

fn copy_texts(v: &Vec<String>) -> (res: Vec<String>)
    ensures
        texts_view(res@) == texts_view(v@),
{
    let mut out: Vec<String> = Vec::new();
    let mut i: usize = 0;
    while i < v.len()
        invariant
            i <= v@.len(),
            texts_view(out@) == texts_view(v@).subrange(0, i as int),
        decreases v@.len() - i,
    {
        let ghost before = out@;
        let t = copy_text(&v[i]);
        out.push(t);
        assert(texts_view(out@) =~= texts_view(before).push(t@));
        assert(texts_view(v@).subrange(0, i + 1) =~= texts_view(v@).subrange(0, i as int).push(v@[i as int]@));
        i = i + 1;
    }
    assert(texts_view(v@).subrange(0, i as int) =~= texts_view(v@));
    out
}

impl AppState {
    fn snap_friends(&self) -> (res: Vec<FriendSnap>)
        ensures
            friend_snaps_view(res@) == self@.friends.map_values(|f: FriendView| friend_snap(f)),
    {
        let ghost src = self@.friends;
        let mut out: Vec<FriendSnap> = Vec::new();
        let mut i: usize = 0;
        while i < self.friends.len()
            invariant
                i <= self.friends@.len(),
                src == friends_view(self.friends@),
                friend_snaps_view(out@) == src.subrange(0, i as int).map_values(|f: FriendView| friend_snap(f)),
            decreases self.friends@.len() - i,
        {
            let f = &self.friends[i];
            let x = FriendSnap { id: f.id, display_name: copy_text(&f.display_name), user_id: copy_text(&f.user_id) };
            assert(friend_snap_view(x) == friend_snap(src[i as int]));
            let ghost before = out@;
            out.push(x);
            assert(friend_snaps_view(out@) =~= friend_snaps_view(before).push(friend_snap_view(x)));
            assert(src.subrange(0, i + 1).map_values(|f: FriendView| friend_snap(f)) =~= src.subrange(0, i as int).map_values(
                |f: FriendView| friend_snap(f),
            ).push(friend_snap(src[i as int])));
            i = i + 1;
        }
        assert(src.subrange(0, i as int) =~= src);
        out
    }

    fn snap_groups(&self) -> (res: Vec<GroupSnap>)
        ensures
            group_snaps_view(res@) == self@.groups.map_values(|g: GroupView| group_snap(g, self@.my_user_id)),
    {
        let ghost src = self@.groups;
        let ghost me = self@.my_user_id;
        let mut out: Vec<GroupSnap> = Vec::new();
        let mut i: usize = 0;
        while i < self.groups.len()
            invariant
                i <= self.groups@.len(),
                src == self@.groups,
                me == self@.my_user_id,
                group_snaps_view(out@) == src.subrange(0, i as int).map_values(|g: GroupView| group_snap(g, me)),
            decreases self.groups@.len() - i,
        {
            let g = &self.groups[i];
            let x = GroupSnap {
                id: g.id,
                name: copy_text(&g.name),
                owner_id: copy_text(&g.owner_id),
                members: snap_members(&g.members),
                messages: snap_posts(&g.messages, &self.my_user_id),
            };
            assert(group_snap_view(x) =~= group_snap(src[i as int], me));
            let ghost before = out@;
            out.push(x);
            assert(group_snaps_view(out@) =~= group_snaps_view(before).push(group_snap_view(x)));
            assert(src.subrange(0, i + 1).map_values(|g: GroupView| group_snap(g, me)) =~= src.subrange(0, i as int).map_values(
                |g: GroupView| group_snap(g, me),
            ).push(group_snap(src[i as int], me)));
            i = i + 1;
        }
        assert(src.subrange(0, i as int) =~= src);
        out
    }

    fn snap_servers(&self) -> (res: Vec<ServerSnap>)
        ensures
            server_snaps_view(res@) == self@.servers.map_values(|v: ServerView| server_snap(v, self@.my_user_id)),
    {
        let ghost src = self@.servers;
        let ghost me = self@.my_user_id;
        let mut out: Vec<ServerSnap> = Vec::new();
        let mut i: usize = 0;
        while i < self.servers.len()
            invariant
                i <= self.servers@.len(),
                src == self@.servers,
                me == self@.my_user_id,
                server_snaps_view(out@) == src.subrange(0, i as int).map_values(|v: ServerView| server_snap(v, me)),
            decreases self.servers@.len() - i,
        {
            let s = &self.servers[i];
            let x = ServerSnap {
                id: s.id,
                name: copy_text(&s.name),
                server_code: copy_text(&s.server_code),
                owner_id: copy_text(&s.owner_id),
                description: copy_opt(&s.description),
                channels: snap_channels(&s.channels, &self.my_user_id),
                members: snap_members(&s.members),
                banned_ids: copy_texts(&s.banned_ids),
            };
            assert(server_snap_view(x) =~= server_snap(src[i as int], me));
            let ghost before = out@;
            out.push(x);
            assert(server_snaps_view(out@) =~= server_snaps_view(before).push(server_snap_view(x)));
            assert(src.subrange(0, i + 1).map_values(|v: ServerView| server_snap(v, me)) =~= src.subrange(0, i as int).map_values(
                |v: ServerView| server_snap(v, me),
            ).push(server_snap(src[i as int], me)));
            i = i + 1;
        }
        assert(src.subrange(0, i as int) =~= src);
        out
    }

    fn friend_name_of(&self, fid: u128) -> (res: String)
        ensures
            res@ == friend_name(self@.friends, fid),
    {
        match find_friend_by_id(&self.friends, fid) {
            Some(i) => copy_text(&self.friends[i].display_name),
            None => "Unknown".to_owned(),
        }
    }

    fn snap_conversations(&self) -> (res: Vec<ConversationSnap>)
        ensures
            conversation_snaps_view(res@) == self@.conversations.map_values(|c: ConversationView| conversation_snap(self@, c)),
    {
        let ghost src = self@.conversations;
        let ghost s = self@;
        let mut out: Vec<ConversationSnap> = Vec::new();
        let mut i: usize = 0;
        while i < self.conversations.len()
            invariant
                i <= self.conversations@.len(),
                src == self@.conversations,
                s == self@,
                conversation_snaps_view(out@) == src.subrange(0, i as int).map_values(
                    |c: ConversationView| conversation_snap(s, c),
                ),
            decreases self.conversations@.len() - i,
        {
            let c = &self.conversations[i];
            let theirs = self.friend_name_of(c.friend_id);
            let x = ConversationSnap {
                friend_id: c.friend_id,
                messages: snap_dms(&c.messages, &theirs, self.display_name()),
            };
            assert(conversation_snap_view(x) =~= conversation_snap(s, src[i as int]));
            let ghost before = out@;
            out.push(x);
            assert(conversation_snaps_view(out@) =~= conversation_snaps_view(before).push(conversation_snap_view(x)));
            assert(src.subrange(0, i + 1).map_values(|c: ConversationView| conversation_snap(s, c)) =~= src.subrange(
                0,
                i as int,
            ).map_values(|c: ConversationView| conversation_snap(s, c)).push(conversation_snap(s, src[i as int])));
            i = i + 1;
        }
        assert(src.subrange(0, i as int) =~= src);
        out
    }

    /// The picture of the state that the window is sent; see `snapshot_of`.
    pub fn snapshot(&self) -> (res: StateSnapshot)
        ensures
            res@ == snapshot_of(self@),
    {
        let mut unread: Vec<Unread> = Vec::new();
        let mut i: usize = 0;
        while i < self.unread.len()
            invariant
                i <= self.unread@.len(),
                unread@ == self.unread@.subrange(0, i as int),
            decreases self.unread@.len() - i,
        {
            unread.push(Unread { id: self.unread[i].id, count: self.unread[i].count });
            assert(unread@ =~= self.unread@.subrange(0, i + 1));
            i = i + 1;
        }
        assert(self.unread@.subrange(0, i as int) =~= self.unread@);
        let res = StateSnapshot {
            my_name: copy_text(&self.my_name),
            my_id: copy_text(&self.my_user_id),
            my_nick: copy_opt(&self.my_nick),
            my_status: status_word(self.my_status).to_owned(),
            my_bio: copy_opt(&self.my_bio),
            friends: self.snap_friends(),
            groups: self.snap_groups(),
            servers: self.snap_servers(),
            conversations: self.snap_conversations(),
            tor_status: self.tor_status.label().to_owned(),
            unread,
        };
        assert(res@ =~= snapshot_of(self@));
        res
    }
}

} // verus!
