//! The step of each command of the window: the new state, the events to
//! report and the sends to make.
use vstd::prelude::*;

use crate::backend::edits::{
    holds_id, holds_id_exec, not_id, not_member, remove_id, remove_member, set_muted, set_muted_exec,
};
use crate::backend::incoming::{append_dm, append_dm_exec};
use crate::backend::membership::{add_member_step, join_step, profile_step, set_role_step};
use crate::backend::posting::{send_channel_step, send_group_step};
use crate::backend::rules::{
    can_moderate, display_name_spec, events_view, my_role_in_group_spec, my_role_in_server_spec, Action,
    Event, EventView,
};
use crate::backend::state::{
    dm_view, find_friend_by_id, find_friend_by_user, find_group, find_server, first_index, friend_id_is,
    friend_user_is, friend_view, friends_view, group_is, group_view, groups_view, opt_text, server_is,
    server_view, servers_view, texts_view, Server, AppState, AppStateView, DirectMessage, DmView, Friend,
    FriendView, GroupChat, GroupView, Member, MemberView, Role, ServerView, UserStatus,
};
use crate::model::{ellipsis, short_id, WireKind, WireMessage};
use crate::text::{str_trim, string_push, trim_spec, uuid_parse, uuid_parsed};

verus! {

/// A command of the window.
pub enum Cmd {
    SendDm { friend_id: String, body: String },
    AddFriend { user_id: String, name: String },
    CreateGroup { name: String, desc: String },
    SetStatus { status: String },
    Kick { context_id: String, user_id: String, is_server: bool },
    Ban { context_id: String, user_id: String, is_server: bool },
    Unban { context_id: String, user_id: String },
    Mute { context_id: String, user_id: String, is_server: bool },
    Unmute { context_id: String, user_id: String, is_server: bool },
    SendChannel { server_id: String, channel_id: String, body: String },
    SendGroup { group_id: String, body: String },
    JoinServer { code: String },
    SaveProfile { name: String, nick: String, bio: String },
    SetRole { context_id: String, user_id: String, role: String, is_server: bool },
    AddGroupMember { group_id: String, user_id: String, name: String, role: String },
    GetState,
}

/// What a wire message is, as values.
pub enum KindView {
    Direct,
    Group(Seq<char>),
    Channel(Seq<char>, Seq<char>),
    FriendRequest,
    GroupInvite(Seq<char>, Seq<char>),
    Ping,
}

pub open spec fn kind_view(k: WireKind) -> KindView {
    match k {
        WireKind::DirectMessage => KindView::Direct,
        WireKind::GroupMessage { group_id } => KindView::Group(group_id@),
        WireKind::ChannelMessage { server_id, channel_id } => KindView::Channel(server_id@, channel_id@),
        WireKind::FriendRequest => KindView::FriendRequest,
        WireKind::GroupInvite { group_id, group_name } => KindView::GroupInvite(group_id@, group_name@),
        WireKind::Ping => KindView::Ping,
    }
}

/// A send as values.
pub struct SendView {
    pub peer: Seq<char>,
    pub from_id: Seq<char>,
    pub from_name: Seq<char>,
    pub target_id: Seq<char>,
    pub body: Seq<char>,
    pub timestamp: u64,
    pub kind: KindView,
    pub socks: Option<Seq<char>>,
}

/// The send of `wire` through `socks`, with no peer filled in yet.
pub open spec fn wire_template(wire: WireMessage, socks: Option<Seq<char>>) -> SendView {
    SendView {
        peer: seq![],
        from_id: wire.from_id@,
        from_name: wire.from_name@,
        target_id: wire.target_id@,
        body: wire.body@,
        timestamp: wire.timestamp,
        kind: kind_view(wire.kind),
        socks,
    }
}

pub open spec fn action_view(a: Action) -> SendView {
    match a {
        Action::Send { peer, wire, socks } => SendView { peer: peer@, ..wire_template(wire, opt_text(socks)) },
    }
}

pub open spec fn actions_view(v: Seq<Action>) -> Seq<SendView> {
    v.map_values(|a: Action| action_view(a))
}

/// `short_id`'s text of an id: more than 12 bytes are cut to the first 10
/// and `...`.
pub open spec fn short_text(id: Seq<char>) -> Seq<char> {
    if (vstd::utf8::encode_utf8(id).len() as usize) > 12 {
        vstd::utf8::decode_utf8(vstd::utf8::encode_utf8(id).subrange(0, 10)) + ellipsis()
    } else {
        id
    }
}

/// A cut of `id` at byte 10 falls on a character boundary, or `id` is not
/// cut.
pub open spec fn cuttable(id: Seq<char>) -> bool {
    (vstd::utf8::encode_utf8(id).len() as usize) > 12 ==> vstd::utf8::is_char_boundary(vstd::utf8::encode_utf8(id), 10)
}

/// A notice about `uid`, then the state.
pub open spec fn notice(kind: Seq<char>, verb: Seq<char>, uid: Seq<char>) -> Seq<EventView> {
    seq![EventView::Notif(kind, verb + short_text(uid) + seq!['.']), EventView::State]
}

/// The servers after server `sid`, if known, has its members or bans
/// changed by `f`.
pub open spec fn change_server(s: Seq<ServerView>, sid: u128, f: spec_fn(ServerView) -> ServerView) -> Seq<ServerView> {
    match first_index(s, server_is(sid)) {
        Some(i) => s.update(i, f(s[i])),
        None => s,
    }
}

/// The groups after group `gid`, if known, is changed by `f`.
pub open spec fn change_group(g: Seq<GroupView>, gid: u128, f: spec_fn(GroupView) -> GroupView) -> Seq<GroupView> {
    match first_index(g, group_is(gid)) {
        Some(i) => g.update(i, f(g[i])),
        None => g,
    }
}

/// The presence that a status word names; `Online` for any other word.
pub open spec fn status_of(w: Seq<char>) -> UserStatus {
    if w == "Away"@ {
        UserStatus::Away
    } else if w == "DoNotDisturb"@ {
        UserStatus::DoNotDisturb
    } else if w == "Invisible"@ {
        UserStatus::Invisible
    } else {
        UserStatus::Online
    }
}

/// A friend added by hand.
pub open spec fn added_friend(id: u128, uid: Seq<char>, name: Seq<char>, now: u64) -> FriendView {
    FriendView { id, display_name: name, user_id: uid, note: None, added_at: now, last_seen: None }
}

/// A new group of the local user: its owner and only member, no messages;
/// an empty description is none.
pub open spec fn new_group(s: AppStateView, id: u128, name: Seq<char>, desc: Seq<char>, now: u64) -> GroupView {
    GroupView {
        id,
        name,
        description: if desc.len() == 0 { None } else { Some(desc) },
        owner_id: s.my_user_id,
        members: seq![
            MemberView {
                user_id: s.my_user_id,
                display_name: display_name_spec(s),
                role: Role::Owner,
                muted: false,
                banned: false,
                joined_at: now,
            },
        ],
        messages: seq![],
        created_at: now,
    }
}

/// An outgoing direct message.
pub open spec fn outgoing_dm(s: AppStateView, id: u128, body: Seq<char>, now: u64) -> DmView {
    DmView { id, from_id: s.my_user_id, body, timestamp: now, outgoing: true, edited: false }
}

/// The send of a direct message to friend `fid`, if that friend is known.
pub open spec fn dm_sends(s: AppStateView, fid: u128, body: Seq<char>, now: u64) -> Seq<SendView> {
    match first_index(s.friends, friend_id_is(fid)) {
        Some(i) => seq![
            SendView {
                peer: s.friends[i].user_id,
                from_id: s.my_user_id,
                from_name: display_name_spec(s),
                target_id: s.friends[i].user_id,
                body,
                timestamp: now,
                kind: KindView::Direct,
                socks: s.tor_socks,
            },
        ],
        None => seq![],
    }
}

/// A server without member `uid`.
pub open spec fn drop_from_server(uid: Seq<char>) -> spec_fn(ServerView) -> ServerView {
    |v: ServerView| ServerView { members: v.members.filter(not_member(uid)), ..v }
}

/// A group without member `uid`.
pub open spec fn drop_from_group(uid: Seq<char>) -> spec_fn(GroupView) -> GroupView {
    |v: GroupView| GroupView { members: v.members.filter(not_member(uid)), ..v }
}

/// A server without member `uid`, whose id is recorded as banned once.
pub open spec fn ban_from_server(uid: Seq<char>) -> spec_fn(ServerView) -> ServerView {
    |v: ServerView| ServerView {
        members: v.members.filter(not_member(uid)),
        banned_ids: if holds_id(v.banned_ids, uid) { v.banned_ids } else { v.banned_ids.push(uid) },
        ..v
    }
}

/// A server whose bans no longer hold `uid`.
pub open spec fn unban_in_server(uid: Seq<char>) -> spec_fn(ServerView) -> ServerView {
    |v: ServerView| ServerView { banned_ids: v.banned_ids.filter(not_id(uid)), ..v }
}

/// A server with member `uid` muted or unmuted.
pub open spec fn mute_in_server(uid: Seq<char>, muted: bool) -> spec_fn(ServerView) -> ServerView {
    |v: ServerView| ServerView { members: set_muted(v.members, uid, muted), ..v }
}

/// A group with member `uid` muted or unmuted.
pub open spec fn mute_in_group(uid: Seq<char>, muted: bool) -> spec_fn(GroupView) -> GroupView {
    |v: GroupView| GroupView { members: set_muted(v.members, uid, muted), ..v }
}

/// Kicking `uid` from the server or group `ctx`: done when the local user
/// may moderate there.
pub open spec fn kick_step(s: AppStateView, ctx: Seq<char>, uid: Seq<char>, is_server: bool) -> AppStateView {
    match uuid_parsed(ctx) {
        Some(cid) => if is_server {
            if can_moderate(my_role_in_server_spec(s, cid)) {
                AppStateView {
                    servers: change_server(s.servers, cid, drop_from_server(uid)),
                    ..s
                }
            } else {
                s
            }
        } else {
            if can_moderate(my_role_in_group_spec(s, cid)) {
                AppStateView {
                    groups: change_group(s.groups, cid, drop_from_group(uid)),
                    ..s
                }
            } else {
                s
            }
        },
        None => s,
    }
}

/// Banning `uid` from server `ctx`: done when the local user may moderate
/// there; the member leaves and the id is recorded once. Groups have no bans.
pub open spec fn ban_step(s: AppStateView, ctx: Seq<char>, uid: Seq<char>, is_server: bool) -> AppStateView {
    match uuid_parsed(ctx) {
        Some(cid) => if is_server && can_moderate(my_role_in_server_spec(s, cid)) {
            AppStateView {
                servers: change_server(s.servers, cid, ban_from_server(uid)),
                ..s
            }
        } else {
            s
        },
        None => s,
    }
}

/// Lifting the ban of `uid` on server `ctx`.
pub open spec fn unban_step(s: AppStateView, ctx: Seq<char>, uid: Seq<char>) -> AppStateView {
    match uuid_parsed(ctx) {
        Some(cid) => AppStateView {
            servers: change_server(s.servers, cid, unban_in_server(uid)),
            ..s
        },
        None => s,
    }
}

/// Setting the mute flag of `uid` in the server or group `ctx`.
pub open spec fn mute_step(s: AppStateView, ctx: Seq<char>, uid: Seq<char>, is_server: bool, muted: bool) -> AppStateView {
    match uuid_parsed(ctx) {
        Some(cid) => if is_server {
            AppStateView {
                servers: change_server(s.servers, cid, mute_in_server(uid, muted)),
                ..s
            }
        } else {
            AppStateView {
                groups: change_group(s.groups, cid, mute_in_group(uid, muted)),
                ..s
            }
        },
        None => s,
    }
}

/// Whether a command can be carried out without a cut inside a character:
/// the moderation commands shorten the id they name.
pub open spec fn cmd_ok(cmd: Cmd) -> bool {
    match cmd {
        Cmd::Kick { user_id, .. } => cuttable(user_id@),
        Cmd::Ban { user_id, .. } => cuttable(user_id@),
        Cmd::Unban { user_id, .. } => cuttable(user_id@),
        Cmd::Mute { user_id, .. } => cuttable(user_id@),
        Cmd::Unmute { user_id, .. } => cuttable(user_id@),
        Cmd::AddGroupMember { user_id, name, .. } => trim_spec(name@).len() == 0 ==> cuttable(trim_spec(user_id@)),
        _ => true,
    }
}

/// What a command does, given the time `now` and a fresh id:
/// - `SendDm` stores a trimmed, non-empty body as an outgoing message in the
///   conversation that `friend_id` names, and sends it to that friend if
///   known; an empty body does nothing and reports nothing;
/// - `AddFriend` adds a friend with the trimmed id and name, refusing an
///   empty id or name, or an id already among the friends;
/// - `CreateGroup` makes a group with the trimmed name, owned by the local
///   user as its only member, refusing an empty name;
/// - `SetStatus` sets the presence;
/// - `Kick` and `Ban` act for a moderator only; `Unban`, `Mute` and `Unmute`
///   act for anyone; each reports a notice naming the shortened id;
/// - `SendChannel`, `SendGroup`, `JoinServer`, `SaveProfile`, `SetRole` and
///   `AddGroupMember` do what `send_channel_step`, `send_group_step`,
///   `join_step`, `profile_step`, `set_role_step` and `add_member_step` say;
/// - `GetState` reports the state.
pub open spec fn cmd_step(s: AppStateView, cmd: Cmd, now: u64, fresh: u128) -> (AppStateView, Seq<EventView>, Seq<SendView>) {
    match cmd {
        Cmd::SendDm { friend_id, body } => {
            let b = trim_spec(body@);
            if b.len() == 0 {
                (s, seq![], seq![])
            } else {
                match uuid_parsed(friend_id@) {
                    Some(fid) => (
                        AppStateView {
                            conversations: append_dm(s.conversations, fid, outgoing_dm(s, fresh, b, now)),
                            ..s
                        },
                        seq![EventView::State],
                        dm_sends(s, fid, b, now),
                    ),
                    None => (s, seq![EventView::State], seq![]),
                }
            }
        },
        Cmd::AddFriend { user_id, name } => {
            let uid = trim_spec(user_id@);
            let n = trim_spec(name@);
            if uid.len() == 0 {
                (s, seq![EventView::Error("Enter a User ID."@)], seq![])
            } else if n.len() == 0 {
                (s, seq![EventView::Error("Enter a display name."@)], seq![])
            } else if first_index(s.friends, friend_user_is(uid)) is Some {
                (s, seq![EventView::Error("Already in your friends list."@)], seq![])
            } else {
                (
                    AppStateView { friends: s.friends.push(added_friend(fresh, uid, n, now)), ..s },
                    seq![EventView::Notif("success"@, "Friend added!"@), EventView::State],
                    seq![],
                )
            }
        },
        Cmd::CreateGroup { name, desc } => {
            let n = trim_spec(name@);
            if n.len() == 0 {
                (s, seq![EventView::Error("Enter a group name."@)], seq![])
            } else {
                (
                    AppStateView { groups: s.groups.push(new_group(s, fresh, n, desc@, now)), ..s },
                    seq![EventView::Notif("success"@, "Group created!"@), EventView::State],
                    seq![],
                )
            }
        },
        Cmd::SetStatus { status } => (AppStateView { my_status: status_of(status@), ..s }, seq![EventView::State], seq![]),
        Cmd::Kick { context_id, user_id, is_server } => (
            kick_step(s, context_id@, user_id@, is_server),
            notice("warn"@, "Kicked "@, user_id@),
            seq![],
        ),
        Cmd::Ban { context_id, user_id, is_server } => (
            ban_step(s, context_id@, user_id@, is_server),
            notice("error"@, "Banned "@, user_id@),
            seq![],
        ),
        Cmd::Unban { context_id, user_id } => (
            unban_step(s, context_id@, user_id@),
            notice("info"@, "Unbanned "@, user_id@),
            seq![],
        ),
        Cmd::Mute { context_id, user_id, is_server } => (
            mute_step(s, context_id@, user_id@, is_server, true),
            notice("warn"@, "Muted "@, user_id@),
            seq![],
        ),
        Cmd::Unmute { context_id, user_id, is_server } => (
            mute_step(s, context_id@, user_id@, is_server, false),
            notice("info"@, "Unmuted "@, user_id@),
            seq![],
        ),
        Cmd::SendChannel { server_id, channel_id, body } => send_channel_step(s, server_id@, channel_id@, body@, now, fresh),
        Cmd::SendGroup { group_id, body } => send_group_step(s, group_id@, body@, now, fresh),
        Cmd::JoinServer { code } => {
            let (st, ev) = join_step(s, code@, now);
            (st, ev, seq![])
        },
        Cmd::SaveProfile { name, nick, bio } => (
            profile_step(s, name@, nick@, bio@),
            seq![EventView::Notif("success"@, "Profile saved!"@), EventView::State],
            seq![],
        ),
        Cmd::SetRole { context_id, user_id, role, is_server } => (
            set_role_step(s, context_id@, user_id@, role@, is_server),
            seq![EventView::Notif("success"@, "Role updated to "@ + role@ + seq!['.']), EventView::State],
            seq![],
        ),
        Cmd::AddGroupMember { group_id, user_id, name, role } => {
            let (st, ev) = add_member_step(s, group_id@, user_id@, name@, role@, now);
            (st, ev, seq![])
        },
        Cmd::GetState => (s, seq![EventView::State], seq![]),
    }
}

fn trimmed(s: &String) -> (res: String)
    ensures
        res@ == trim_spec(s@),
{
    str_trim(s.as_str()).to_owned()
}

fn copy_text(s: &String) -> (res: String)
    ensures
        res@ == s@,
{
    s.clone()
}

fn copy_opt_text(o: &Option<String>) -> (res: Option<String>)
    ensures
        opt_text(res) == opt_text(*o),
{
    match o {
        Some(x) => Some(x.clone()),
        None => None,
    }
}

fn state_only() -> (res: Vec<Event>)
    ensures
        events_view(res@) == seq![EventView::State],
{
    let mut v: Vec<Event> = Vec::new();
    v.push(Event::State);
    assert(events_view(v@) =~= seq![EventView::State]);
    v
}

fn error_only(msg: &str) -> (res: Vec<Event>)
    ensures
        events_view(res@) == seq![EventView::Error(msg@)],
{
    let mut v: Vec<Event> = Vec::new();
    v.push(Event::Error { msg: msg.to_owned() });
    assert(events_view(v@) =~= seq![EventView::Error(msg@)]);
    v
}

fn notif_and_state(kind: &str, msg: String) -> (res: Vec<Event>)
    ensures
        events_view(res@) == seq![EventView::Notif(kind@, msg@), EventView::State],
{
    let mut v: Vec<Event> = Vec::new();
    let ghost m = msg@;
    v.push(Event::Notif { kind: kind.to_owned(), msg });
    v.push(Event::State);
    assert(events_view(v@) =~= seq![EventView::Notif(kind@, m), EventView::State]);
    v
}

fn notice_events(kind: &str, verb: &str, uid: &String) -> (res: Vec<Event>)
    requires
        cuttable(uid@),
    ensures
        events_view(res@) == notice(kind@, verb@, uid@),
{
    let mut msg = verb.to_owned();
    let short = short_id(uid.as_str());
    msg.append(short.as_str());
    string_push(&mut msg, '.');
    assert(msg@ =~= verb@ + short_text(uid@) + seq!['.']);
    notif_and_state(kind, msg)
}

fn no_actions() -> (res: Vec<Action>)
    ensures
        actions_view(res@) == Seq::<SendView>::empty(),
{
    let v: Vec<Action> = Vec::new();
    assert(actions_view(v@) =~= Seq::<SendView>::empty());
    v
}

/// Whether `id` can be shortened without a cut inside a character.
pub fn id_cuttable(id: &str) -> (res: bool)
    ensures
        res == cuttable(id@),
{
    id.len() <= 12 || id.is_char_boundary(10)
}

impl Cmd {
    /// Whether the command can be carried out; see `cmd_ok`.
    pub fn is_ok(&self) -> (res: bool)
        ensures
            res == cmd_ok(*self),
    {
        match self {
            Cmd::Kick { user_id, .. } => id_cuttable(user_id.as_str()),
            Cmd::Ban { user_id, .. } => id_cuttable(user_id.as_str()),
            Cmd::Unban { user_id, .. } => id_cuttable(user_id.as_str()),
            Cmd::Mute { user_id, .. } => id_cuttable(user_id.as_str()),
            Cmd::Unmute { user_id, .. } => id_cuttable(user_id.as_str()),
            Cmd::AddGroupMember { user_id, name, .. } => !str_trim(name.as_str()).is_empty() || id_cuttable(
                str_trim(user_id.as_str()),
            ),
            _ => true,
        }
    }
}

impl AppState {
    fn step_send_dm(&mut self, friend_id: String, body: String, now: u64, fresh: u128) -> (res: (Vec<Event>, Vec<Action>))
        ensures
            ({
                let (st, ev, ac) = cmd_step(old(self)@, Cmd::SendDm { friend_id, body }, now, fresh);
                &&& final(self)@ == st
                &&& events_view(res.0@) == ev
                &&& actions_view(res.1@) == ac
            }),
    {
        let ghost s0 = self@;
        let b = trimmed(&body);
        if b.as_str().is_empty() {
            let ev: Vec<Event> = Vec::new();
            assert(events_view(ev@) =~= Seq::<EventView>::empty());
            return (ev, no_actions());
        }
        match uuid_parse(friend_id.as_str()) {
            Some(fid) => {
                let dm = DirectMessage {
                    id: fresh,
                    from_id: copy_text(&self.my_user_id),
                    body: copy_text(&b),
                    timestamp: now,
                    outgoing: true,
                    edited: false,
                };
                assert(dm_view(dm) == outgoing_dm(s0, fresh, b@, now));
                append_dm_exec(&mut self.conversations, fid, dm);
                let mut actions: Vec<Action> = Vec::new();
                match find_friend_by_id(&self.friends, fid) {
                    Some(i) => {
                        let peer = copy_text(&self.friends[i].user_id);
                        let wire = WireMessage {
                            kind: WireKind::DirectMessage,
                            from_id: copy_text(&self.my_user_id),
                            from_name: copy_text(self.display_name()),
                            target_id: copy_text(&peer),
                            body: b,
                            timestamp: now,
                        };
                        let socks = copy_opt_text(&self.tor_socks);
                        actions.push(Action::Send { peer, wire, socks });
                        assert(actions_view(actions@) =~= dm_sends(s0, fid, trim_spec(body@), now));
                    },
                    None => {
                        assert(actions_view(actions@) =~= dm_sends(s0, fid, trim_spec(body@), now));
                    },
                }
                (state_only(), actions)
            },
            None => (state_only(), no_actions()),
        }
    }

    fn step_add_friend(&mut self, user_id: String, name: String, now: u64, fresh: u128) -> (res: (Vec<Event>, Vec<Action>))
        ensures
            ({
                let (st, ev, ac) = cmd_step(old(self)@, Cmd::AddFriend { user_id, name }, now, fresh);
                &&& final(self)@ == st
                &&& events_view(res.0@) == ev
                &&& actions_view(res.1@) == ac
            }),
    {
        let ghost s0 = self@;
        let uid = trimmed(&user_id);
        let n = trimmed(&name);
        if uid.as_str().is_empty() {
            return (error_only("Enter a User ID."), no_actions());
        }
        if n.as_str().is_empty() {
            return (error_only("Enter a display name."), no_actions());
        }
        if find_friend_by_user(&self.friends, &uid).is_some() {
            return (error_only("Already in your friends list."), no_actions());
        }
        let f = Friend { id: fresh, display_name: n, user_id: uid, note: None, added_at: now, last_seen: None };
        assert(friend_view(f) == added_friend(fresh, trim_spec(user_id@), trim_spec(name@), now));
        self.friends.push(f);
        assert(friends_view(self.friends@) =~= s0.friends.push(
            added_friend(fresh, trim_spec(user_id@), trim_spec(name@), now),
        ));
        (notif_and_state("success", "Friend added!".to_owned()), no_actions())
    }

    fn step_create_group(&mut self, name: String, desc: String, now: u64, fresh: u128) -> (res: (Vec<Event>, Vec<Action>))
        ensures
            ({
                let (st, ev, ac) = cmd_step(old(self)@, Cmd::CreateGroup { name, desc }, now, fresh);
                &&& final(self)@ == st
                &&& events_view(res.0@) == ev
                &&& actions_view(res.1@) == ac
            }),
    {
        let ghost s0 = self@;
        let n = trimmed(&name);
        if n.as_str().is_empty() {
            return (error_only("Enter a group name."), no_actions());
        }
        let ghost d = desc@;
        let description = if desc.as_str().is_empty() { None } else { Some(desc) };
        let owner = Member {
            user_id: copy_text(&self.my_user_id),
            display_name: copy_text(self.display_name()),
            role: Role::Owner,
            muted: false,
            banned: false,
            joined_at: now,
        };
        let mut members: Vec<Member> = Vec::new();
        members.push(owner);
        let g = GroupChat {
            id: fresh,
            name: n,
            description,
            owner_id: copy_text(&self.my_user_id),
            members,
            messages: Vec::new(),
            created_at: now,
        };
        assert(group_view(g) =~= new_group(s0, fresh, trim_spec(name@), d, now));
        self.groups.push(g);
        assert(groups_view(self.groups@) =~= s0.groups.push(new_group(s0, fresh, trim_spec(name@), d, now)));
        (notif_and_state("success", "Group created!".to_owned()), no_actions())
    }

    fn step_set_status(&mut self, status: String) -> (res: (Vec<Event>, Vec<Action>))
        ensures
            final(self)@ == (AppStateView { my_status: status_of(status@), ..old(self)@ }),
            events_view(res.0@) == seq![EventView::State],
            actions_view(res.1@) == Seq::<SendView>::empty(),
    {
        let st = if status == "Away".to_owned() {
            UserStatus::Away
        } else if status == "DoNotDisturb".to_owned() {
            UserStatus::DoNotDisturb
        } else if status == "Invisible".to_owned() {
            UserStatus::Invisible
        } else {
            UserStatus::Online
        };
        self.my_status = st;
        (state_only(), no_actions())
    }
}

/// A change to one server, carried out in place.
pub enum ServerEdit {
    Drop(String),
    Ban(String),
    Unban(String),
    Mute(String, bool),
}

/// What a server change does.
pub open spec fn server_edit(e: ServerEdit) -> spec_fn(ServerView) -> ServerView {
    match e {
        ServerEdit::Drop(uid) => drop_from_server(uid@),
        ServerEdit::Ban(uid) => ban_from_server(uid@),
        ServerEdit::Unban(uid) => unban_in_server(uid@),
        ServerEdit::Mute(uid, m) => mute_in_server(uid@, m),
    }
}

/// A change to one group, carried out in place.
pub enum GroupEdit {
    Drop(String),
    Mute(String, bool),
}

/// What a group change does.
pub open spec fn group_edit(e: GroupEdit) -> spec_fn(GroupView) -> GroupView {
    match e {
        GroupEdit::Drop(uid) => drop_from_group(uid@),
        GroupEdit::Mute(uid, m) => mute_in_group(uid@, m),
    }
}

fn apply_server_edit(srv: &mut Server, e: &ServerEdit)
    ensures
        server_view(*final(srv)) == server_edit(*e)(server_view(*old(srv))),
{
    let ghost v0 = server_view(*srv);
    match e {
        ServerEdit::Drop(uid) => {
            remove_member(&mut srv.members, uid);
            assert(server_view(*srv) =~= server_edit(*e)(v0));
        },
        ServerEdit::Ban(uid) => {
            remove_member(&mut srv.members, uid);
            if !holds_id_exec(&srv.banned_ids, uid) {
                let ghost b0 = srv.banned_ids@;
                srv.banned_ids.push(copy_text(uid));
                assert(texts_view(srv.banned_ids@) =~= texts_view(b0).push(uid@));
            }
            assert(server_view(*srv) =~= server_edit(*e)(v0));
        },
        ServerEdit::Unban(uid) => {
            remove_id(&mut srv.banned_ids, uid);
            assert(server_view(*srv) =~= server_edit(*e)(v0));
        },
        ServerEdit::Mute(uid, m) => {
            set_muted_exec(&mut srv.members, uid, *m);
            assert(server_view(*srv) =~= server_edit(*e)(v0));
        },
    }
}

fn apply_group_edit(g: &mut GroupChat, e: &GroupEdit)
    ensures
        group_view(*final(g)) == group_edit(*e)(group_view(*old(g))),
{
    let ghost v0 = group_view(*g);
    match e {
        GroupEdit::Drop(uid) => {
            remove_member(&mut g.members, uid);
            assert(group_view(*g) =~= group_edit(*e)(v0));
        },
        GroupEdit::Mute(uid, m) => {
            set_muted_exec(&mut g.members, uid, *m);
            assert(group_view(*g) =~= group_edit(*e)(v0));
        },
    }
}

impl AppState {
    /// Changes server `sid`, if known.
    fn edit_server(&mut self, sid: u128, e: &ServerEdit)
        ensures
            final(self)@ == (AppStateView { servers: change_server(old(self)@.servers, sid, server_edit(*e)), ..old(self)@ }),
    {
        let ghost s0 = self@;
        match find_server(&self.servers, sid) {
            Some(i) => {
                let mut srv = self.servers.remove(i);
                apply_server_edit(&mut srv, e);
                self.servers.insert(i, srv);
                assert(servers_view(self.servers@) =~= change_server(s0.servers, sid, server_edit(*e)));
            },
            None => {},
        }
        assert(self@ =~= (AppStateView { servers: change_server(s0.servers, sid, server_edit(*e)), ..s0 }));
    }

    /// Changes group `gid`, if known.
    fn edit_group(&mut self, gid: u128, e: &GroupEdit)
        ensures
            final(self)@ == (AppStateView { groups: change_group(old(self)@.groups, gid, group_edit(*e)), ..old(self)@ }),
    {
        let ghost s0 = self@;
        match find_group(&self.groups, gid) {
            Some(i) => {
                let mut g = self.groups.remove(i);
                apply_group_edit(&mut g, e);
                self.groups.insert(i, g);
                assert(groups_view(self.groups@) =~= change_group(s0.groups, gid, group_edit(*e)));
            },
            None => {},
        }
        assert(self@ =~= (AppStateView { groups: change_group(s0.groups, gid, group_edit(*e)), ..s0 }));
    }

    fn step_kick(&mut self, context_id: &String, user_id: &String, is_server: bool)
        ensures
            final(self)@ == kick_step(old(self)@, context_id@, user_id@, is_server),
    {
        if let Some(cid) = uuid_parse(context_id.as_str()) {
            if is_server {
                if self.my_role_in_server(cid).can_moderate() {
                    let e = ServerEdit::Drop(copy_text(user_id));
                    self.edit_server(cid, &e);
                }
            } else {
                if self.my_role_in_group(cid).can_moderate() {
                    let e = GroupEdit::Drop(copy_text(user_id));
                    self.edit_group(cid, &e);
                }
            }
        }
    }

    fn step_ban(&mut self, context_id: &String, user_id: &String, is_server: bool)
        ensures
            final(self)@ == ban_step(old(self)@, context_id@, user_id@, is_server),
    {
        if let Some(cid) = uuid_parse(context_id.as_str()) {
            if is_server && self.my_role_in_server(cid).can_moderate() {
                let e = ServerEdit::Ban(copy_text(user_id));
                self.edit_server(cid, &e);
            }
        }
    }

    fn step_unban(&mut self, context_id: &String, user_id: &String)
        ensures
            final(self)@ == unban_step(old(self)@, context_id@, user_id@),
    {
        if let Some(cid) = uuid_parse(context_id.as_str()) {
            let e = ServerEdit::Unban(copy_text(user_id));
            self.edit_server(cid, &e);
        }
    }

    fn step_mute(&mut self, context_id: &String, user_id: &String, is_server: bool, muted: bool)
        ensures
            final(self)@ == mute_step(old(self)@, context_id@, user_id@, is_server, muted),
    {
        if let Some(cid) = uuid_parse(context_id.as_str()) {
            if is_server {
                let e = ServerEdit::Mute(copy_text(user_id), muted);
                self.edit_server(cid, &e);
            } else {
                let e = GroupEdit::Mute(copy_text(user_id), muted);
                self.edit_group(cid, &e);
            }
        }
    }

    /// Carries out a command of the window; see `cmd_step`. `now` is the
    /// time and `fresh` a new id for what the command creates.
    pub fn process_cmd(&mut self, cmd: Cmd, now: u64, fresh: u128) -> (res: (Vec<Event>, Vec<Action>))
        requires
            cmd_ok(cmd),
        ensures
            ({
                let (st, ev, ac) = cmd_step(old(self)@, cmd, now, fresh);
                &&& final(self)@ == st
                &&& events_view(res.0@) == ev
                &&& actions_view(res.1@) == ac
            }),
    {
        match cmd {
            Cmd::SendDm { friend_id, body } => self.step_send_dm(friend_id, body, now, fresh),
            Cmd::AddFriend { user_id, name } => self.step_add_friend(user_id, name, now, fresh),
            Cmd::CreateGroup { name, desc } => self.step_create_group(name, desc, now, fresh),
            Cmd::SetStatus { status } => self.step_set_status(status),
            Cmd::Kick { context_id, user_id, is_server } => {
                self.step_kick(&context_id, &user_id, is_server);
                (notice_events("warn", "Kicked ", &user_id), no_actions())
            },
            Cmd::Ban { context_id, user_id, is_server } => {
                self.step_ban(&context_id, &user_id, is_server);
                (notice_events("error", "Banned ", &user_id), no_actions())
            },
            Cmd::Unban { context_id, user_id } => {
                self.step_unban(&context_id, &user_id);
                (notice_events("info", "Unbanned ", &user_id), no_actions())
            },
            Cmd::Mute { context_id, user_id, is_server } => {
                self.step_mute(&context_id, &user_id, is_server, true);
                (notice_events("warn", "Muted ", &user_id), no_actions())
            },
            Cmd::Unmute { context_id, user_id, is_server } => {
                self.step_mute(&context_id, &user_id, is_server, false);
                (notice_events("info", "Unmuted ", &user_id), no_actions())
            },
            Cmd::SendChannel { server_id, channel_id, body } => self.send_channel(&server_id, &channel_id, &body, now, fresh),
            Cmd::SendGroup { group_id, body } => self.send_group(&group_id, &body, now, fresh),
            Cmd::JoinServer { code } => (self.join_server(&code, now), no_actions()),
            Cmd::SaveProfile { name, nick, bio } => (self.save_profile(&name, &nick, &bio), no_actions()),
            Cmd::SetRole { context_id, user_id, role, is_server } => (
                self.set_member_role(&context_id, &user_id, &role, is_server),
                no_actions(),
            ),
            Cmd::AddGroupMember { group_id, user_id, name, role } => (
                self.add_group_member(&group_id, &user_id, &name, &role, now),
                no_actions(),
            ),
            Cmd::GetState => (state_only(), no_actions()),
        }
    }
}

} // verus!
