//! Posting in a group or a channel: the message is stored and sent to every
//! other member.
use vstd::prelude::*;

use crate::backend::commands::{kind_view, wire_template, actions_view, action_view, KindView, SendView};
use crate::backend::incoming::{post_in_channel, post_in_group};
use crate::backend::rules::{
    display_name_spec, events_view, muted_in_server_spec, my_role_in_server_spec, Action, Event, EventView,
};
use crate::backend::state::{
    channel_is, channel_view, channels_view, find_channel, find_group, find_member, find_server, first_index,
    group_is, group_view, groups_view, member_is, member_view, members_view, opt_text, post_view, server_is,
    servers_view, AppState, AppStateView, ChannelType, ChannelView, Member, MemberView, Post, PostView, Role,
};
use crate::model::{WireKind, WireMessage};
use crate::text::{str_trim, trim_spec, uuid_parse, uuid_parsed, uuid_text, uuid_to_text};

verus! {

/// Who may post in a channel: anyone in a public one; in an announcement
/// channel the owner, co-owners and admins.
pub open spec fn can_send_in(t: ChannelType, r: Role) -> bool {
    t is Public || r is Owner || r is CoOwner || r is Admin
}

/// The ids of the members other than `me`, in order.
pub open spec fn peers_of(m: Seq<MemberView>, me: Seq<char>) -> Seq<Seq<char>>
    decreases m.len(),
{
    if m.len() == 0 {
        seq![]
    } else if m.last().user_id != me {
        peers_of(m.drop_last(), me).push(m.last().user_id)
    } else {
        peers_of(m.drop_last(), me)
    }
}

/// One send of the message `t` to each of `peers`.
pub open spec fn sends_of(peers: Seq<Seq<char>>, t: SendView) -> Seq<SendView> {
    peers.map_values(|p: Seq<char>| SendView { peer: p, ..t })
}

/// A post of the local user.
pub open spec fn my_post(s: AppStateView, id: u128, body: Seq<char>, now: u64) -> PostView {
    PostView { id, from_id: s.my_user_id, from_name: display_name_spec(s), body, timestamp: now, edited: false }
}

/// The message the local user sends to a group or channel.
pub open spec fn my_send(s: AppStateView, kind: KindView, target: Seq<char>, body: Seq<char>, now: u64) -> SendView {
    SendView {
        peer: seq![],
        from_id: s.my_user_id,
        from_name: display_name_spec(s),
        target_id: target,
        body,
        timestamp: now,
        kind,
        socks: s.tor_socks,
    }
}

/// Posting the trimmed `body` in group `gid`: refused where the local user
/// is muted there; stored and sent to every other member when the group is
/// known; an empty body does nothing and reports nothing.
pub open spec fn send_group_step(s: AppStateView, gid: Seq<char>, body: Seq<char>, now: u64, fresh: u128) -> (
    AppStateView,
    Seq<EventView>,
    Seq<SendView>,
) {
    let b = trim_spec(body);
    if b.len() == 0 {
        (s, seq![], seq![])
    } else {
        match uuid_parsed(gid) {
            Some(g) => match first_index(s.groups, group_is(g)) {
                Some(i) => {
                    let muted = match first_index(s.groups[i].members, member_is(s.my_user_id)) {
                        Some(j) => s.groups[i].members[j].muted,
                        None => false,
                    };
                    if muted {
                        (s, seq![EventView::Error("You are muted in this group."@)], seq![])
                    } else {
                        (
                            AppStateView { groups: post_in_group(s.groups, i, my_post(s, fresh, b, now)), ..s },
                            seq![EventView::State],
                            sends_of(
                                peers_of(s.groups[i].members, s.my_user_id),
                                my_send(s, KindView::Group(uuid_text(g)), uuid_text(g), b, now),
                            ),
                        )
                    }
                },
                None => (s, seq![EventView::State], seq![]),
            },
            None => (s, seq![EventView::State], seq![]),
        }
    }
}

/// Posting the trimmed `body` in channel `cid` of server `sid`: both ids
/// must parse; the channel must exist, the local user's role must allow
/// posting there and the user must not be muted in the server; the post is
/// stored and sent to every other member. An empty body does nothing.
pub open spec fn send_channel_step(s: AppStateView, sid: Seq<char>, cid: Seq<char>, body: Seq<char>, now: u64, fresh: u128) -> (
    AppStateView,
    Seq<EventView>,
    Seq<SendView>,
) {
    let b = trim_spec(body);
    let refused = (s, seq![EventView::Error("You cannot send messages in this channel."@)], Seq::<SendView>::empty());
    if b.len() == 0 {
        (s, seq![], seq![])
    } else {
        match (uuid_parsed(sid), uuid_parsed(cid)) {
            (Some(sv), Some(ch)) => match first_index(s.servers, server_is(sv)) {
                Some(i) => match first_index(s.servers[i].channels, channel_is(ch)) {
                    Some(j) => if can_send_in(s.servers[i].channels[j].channel_type, my_role_in_server_spec(s, sv))
                        && !muted_in_server_spec(s, sv) {
                        (
                            AppStateView { servers: post_in_channel(s.servers, i, j, my_post(s, fresh, b, now)), ..s },
                            seq![EventView::State],
                            sends_of(
                                peers_of(s.servers[i].members, s.my_user_id),
                                my_send(s, KindView::Channel(uuid_text(sv), uuid_text(ch)), uuid_text(ch), b, now),
                            ),
                        )
                    } else {
                        refused
                    },
                    None => refused,
                },
                None => refused,
            },
            _ => (s, seq![EventView::Error("Invalid IDs."@)], seq![]),
        }
    }
}

fn copy_text(s: &String) -> (res: String)
    ensures
        res@ == s@,
{
    s.clone()
}

fn copy_opt(o: &Option<String>) -> (res: Option<String>)
    ensures
        opt_text(res) == opt_text(*o),
{
    match o {
        Some(x) => Some(x.clone()),
        None => None,
    }
}

fn copy_kind(k: &WireKind) -> (res: WireKind)
    ensures
        kind_view(res) == kind_view(*k),
{
    match k {
        WireKind::DirectMessage => WireKind::DirectMessage,
        WireKind::GroupMessage { group_id } => WireKind::GroupMessage { group_id: copy_text(group_id) },
        WireKind::ChannelMessage { server_id, channel_id } => WireKind::ChannelMessage {
            server_id: copy_text(server_id),
            channel_id: copy_text(channel_id),
        },
        WireKind::FriendRequest => WireKind::FriendRequest,
        WireKind::GroupInvite { group_id, group_name } => WireKind::GroupInvite {
            group_id: copy_text(group_id),
            group_name: copy_text(group_name),
        },
        WireKind::Ping => WireKind::Ping,
    }
}

fn copy_wire(w: &WireMessage) -> (res: WireMessage)
    ensures
        wire_template(res, None) == wire_template(*w, None),
{
    WireMessage {
        kind: copy_kind(&w.kind),
        from_id: copy_text(&w.from_id),
        from_name: copy_text(&w.from_name),
        target_id: copy_text(&w.target_id),
        body: copy_text(&w.body),
        timestamp: w.timestamp,
    }
}

/// One send of `wire` to each member other than `me`.
fn fan_out(members: &Vec<Member>, me: &String, wire: &WireMessage, socks: &Option<String>) -> (res: Vec<Action>)
    ensures
        actions_view(res@) == sends_of(peers_of(members_view(members@), me@), wire_template(*wire, opt_text(*socks))),
{
    let ghost v = members_view(members@);
    let ghost t = wire_template(*wire, opt_text(*socks));
    let mut out: Vec<Action> = Vec::new();
    let mut k: usize = 0;
    assert(v.subrange(0, 0) =~= Seq::<MemberView>::empty());
    assert(actions_view(out@) =~= sends_of(peers_of(v.subrange(0, 0), me@), t));
    while k < members.len()
        invariant
            k <= members@.len(),
            v == members_view(members@),
            t == wire_template(*wire, opt_text(*socks)),
            actions_view(out@) == sends_of(peers_of(v.subrange(0, k as int), me@), t),
        decreases members@.len() - k,
    {
        let ghost before = out@;
        let ghost pre = peers_of(v.subrange(0, k as int), me@);
        assert(v.subrange(0, k + 1).drop_last() =~= v.subrange(0, k as int));
        assert(v.subrange(0, k + 1).last() == v[k as int]);
        assert(member_view(members@[k as int]) == v[k as int]);
        if members[k].user_id != *me {
            let w = copy_wire(wire);
            let a = Action::Send { peer: copy_text(&members[k].user_id), wire: w, socks: copy_opt(socks) };
            assert(action_view(a) == SendView { peer: v[k as int].user_id, ..t });
            out.push(a);
            assert(peers_of(v.subrange(0, k + 1), me@) == pre.push(v[k as int].user_id));
            assert(actions_view(out@) =~= actions_view(before).push(action_view(a)));
            assert(sends_of(pre.push(v[k as int].user_id), t) =~= sends_of(pre, t).push(SendView { peer: v[k as int].user_id, ..t }));
        } else {
            assert(peers_of(v.subrange(0, k + 1), me@) == pre);
        }
        k = k + 1;
    }
    assert(v.subrange(0, k as int) =~= v);
    out
}

fn my_post_exec(s: &AppState, id: u128, body: &String, now: u64) -> (res: Post)
    ensures
        post_view(res) == my_post(s@, id, body@, now),
{
    Post {
        id,
        from_id: copy_text(&s.my_user_id),
        from_name: copy_text(s.display_name()),
        body: copy_text(body),
        timestamp: now,
        edited: false,
    }
}

fn state_event() -> (res: Vec<Event>)
    ensures
        events_view(res@) == seq![EventView::State],
{
    let mut v: Vec<Event> = Vec::new();
    v.push(Event::State);
    assert(events_view(v@) =~= seq![EventView::State]);
    v
}

fn error_event(msg: &str) -> (res: Vec<Event>)
    ensures
        events_view(res@) == seq![EventView::Error(msg@)],
{
    let mut v: Vec<Event> = Vec::new();
    v.push(Event::Error { msg: msg.to_owned() });
    assert(events_view(v@) =~= seq![EventView::Error(msg@)]);
    v
}

fn none_sent() -> (res: Vec<Action>)
    ensures
        actions_view(res@) == Seq::<SendView>::empty(),
{
    let v: Vec<Action> = Vec::new();
    assert(actions_view(v@) =~= Seq::<SendView>::empty());
    v
}

fn nothing() -> (res: Vec<Event>)
    ensures
        events_view(res@) == Seq::<EventView>::empty(),
{
    let v: Vec<Event> = Vec::new();
    assert(events_view(v@) =~= Seq::<EventView>::empty());
    v
}

impl AppState {
    /// Posts in a group; see `send_group_step`.
    pub fn send_group(&mut self, group_id: &String, body: &String, now: u64, fresh: u128) -> (res: (Vec<Event>, Vec<Action>))
        ensures
            ({
                let (st, ev, ac) = send_group_step(old(self)@, group_id@, body@, now, fresh);
                &&& final(self)@ == st
                &&& events_view(res.0@) == ev
                &&& actions_view(res.1@) == ac
            }),
    {
        let ghost s0 = self@;
        let b = str_trim(body.as_str()).to_owned();
        if b.as_str().is_empty() {
            return (nothing(), none_sent());
        }
        let gid = match uuid_parse(group_id.as_str()) {
            Some(g) => g,
            None => return (state_event(), none_sent()),
        };
        let i = match find_group(&self.groups, gid) {
            Some(i) => i,
            None => return (state_event(), none_sent()),
        };
        let muted = match find_member(&self.groups[i].members, &self.my_user_id) {
            Some(j) => self.groups[i].members[j].muted,
            None => false,
        };
        if muted {
            return (error_event("You are muted in this group."), none_sent());
        }
        let post = my_post_exec(self, fresh, &b, now);
        let gid_text = uuid_to_text(gid);
        let wire = WireMessage {
            kind: WireKind::GroupMessage { group_id: copy_text(&gid_text) },
            from_id: copy_text(&self.my_user_id),
            from_name: copy_text(self.display_name()),
            target_id: gid_text,
            body: b,
            timestamp: now,
        };
        assert(wire_template(wire, s0.tor_socks) == my_send(s0, KindView::Group(uuid_text(gid)), uuid_text(gid), trim_spec(body@), now));
        let actions = fan_out(&self.groups[i].members, &self.my_user_id, &wire, &self.tor_socks);
        let mut g = self.groups.remove(i);
        let ghost g0 = g;
        g.messages.push(post);
        assert(group_view(g).messages =~= group_view(g0).messages.push(my_post(s0, fresh, trim_spec(body@), now)));
        self.groups.insert(i, g);
        assert(groups_view(self.groups@) =~= post_in_group(s0.groups, i as int, my_post(s0, fresh, trim_spec(body@), now)));
        (state_event(), actions)
    }

    /// Posts in a channel; see `send_channel_step`.
    pub fn send_channel(&mut self, server_id: &String, channel_id: &String, body: &String, now: u64, fresh: u128) -> (res: (
        Vec<Event>,
        Vec<Action>,
    ))
        ensures
            ({
                let (st, ev, ac) = send_channel_step(old(self)@, server_id@, channel_id@, body@, now, fresh);
                &&& final(self)@ == st
                &&& events_view(res.0@) == ev
                &&& actions_view(res.1@) == ac
            }),
    {
        let ghost s0 = self@;
        let b = str_trim(body.as_str()).to_owned();
        if b.as_str().is_empty() {
            return (nothing(), none_sent());
        }
        let (sid, cid) = match (uuid_parse(server_id.as_str()), uuid_parse(channel_id.as_str())) {
            (Some(a), Some(c)) => (a, c),
            _ => return (error_event("Invalid IDs."), none_sent()),
        };
        let role = self.my_role_in_server(sid);
        let i = match find_server(&self.servers, sid) {
            Some(i) => i,
            None => return (error_event("You cannot send messages in this channel."), none_sent()),
        };
        let j = match find_channel(&self.servers[i].channels, cid) {
            Some(j) => j,
            None => return (error_event("You cannot send messages in this channel."), none_sent()),
        };
        let open = match self.servers[i].channels[j].channel_type {
            ChannelType::Public => true,
            ChannelType::Announcement => match role {
                Role::Owner | Role::CoOwner | Role::Admin => true,
                _ => false,
            },
        };
        if !open || self.am_muted_server(sid) {
            return (error_event("You cannot send messages in this channel."), none_sent());
        }
        let post = my_post_exec(self, fresh, &b, now);
        let sid_text = uuid_to_text(sid);
        let cid_text = uuid_to_text(cid);
        let wire = WireMessage {
            kind: WireKind::ChannelMessage { server_id: sid_text, channel_id: copy_text(&cid_text) },
            from_id: copy_text(&self.my_user_id),
            from_name: copy_text(self.display_name()),
            target_id: cid_text,
            body: b,
            timestamp: now,
        };
        assert(wire_template(wire, s0.tor_socks) == my_send(
            s0,
            KindView::Channel(uuid_text(sid), uuid_text(cid)),
            uuid_text(cid),
            trim_spec(body@),
            now,
        ));
        let actions = fan_out(&self.servers[i].members, &self.my_user_id, &wire, &self.tor_socks);
        let ghost p = my_post(s0, fresh, trim_spec(body@), now);
        let mut srv = self.servers.remove(i);
        let mut ch = srv.channels.remove(j);
        let ghost ch0 = ch;
        ch.messages.push(post);
        assert(channel_view(ch).messages =~= channel_view(ch0).messages.push(p));
        srv.channels.insert(j, ch);
        assert(channels_view(srv.channels@) =~= s0.servers[i as int].channels.update(
            j as int,
            ChannelView { messages: s0.servers[i as int].channels[j as int].messages.push(p), ..s0.servers[i as int].channels[j as int] },
        ));
        self.servers.insert(i, srv);
        assert(servers_view(self.servers@) =~= post_in_channel(s0.servers, i as int, j as int, p));
        (state_event(), actions)
    }
}

} // verus!
