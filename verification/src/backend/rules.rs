//! The backend's events and actions, its permission rules, and the queries
//! that the commands ask of the state.
use vstd::prelude::*;

use crate::backend::state::{
    opt_text, find_group, find_member, find_server, first_index, group_is, member_is, server_is, members_view,
    AppState, AppStateView, Member, MemberView,
};
use crate::model::WireMessage;

verus! {

/// What the backend reports to the window.
#[derive(Debug)]
pub enum Event {
    /// The screen to show: `setup`, `unlock` or `main`.
    Phase { phase: String },
    /// The state changed; the window shows it anew.
    State,
    /// The link to Tor changed.
    Tor { status: String, onion: Option<String> },
    /// A notice of the given kind (`success`, `info`, `warn`, `error`).
    Notif { kind: String, msg: String },
    /// A refused command.
    Error { msg: String },
}

/// What the caller is asked to do outside the state.
pub enum Action {
    /// Send `wire` to `peer`, through the Tor proxy `socks` when there is one.
    Send { peer: String, wire: WireMessage, socks: Option<String> },
}

/// An event as values.
pub enum EventView {
    Phase(Seq<char>),
    State,
    Tor(Seq<char>, Option<Seq<char>>),
    Notif(Seq<char>, Seq<char>),
    Error(Seq<char>),
}

pub open spec fn event_view(e: Event) -> EventView {
    match e {
        Event::Phase { phase } => EventView::Phase(phase@),
        Event::State => EventView::State,
        Event::Tor { status, onion } => EventView::Tor(status@, opt_text(onion)),
        Event::Notif { kind, msg } => EventView::Notif(kind@, msg@),
        Event::Error { msg } => EventView::Error(msg@),
    }
}

pub open spec fn events_view(v: Seq<Event>) -> Seq<EventView> {
    v.map_values(|e: Event| event_view(e))
}

/// Who may kick and ban: every role above a plain member.
pub open spec fn can_moderate(r: crate::backend::state::Role) -> bool {
    !(r is Member)
}

/// Who may change roles: the owner and co-owners.
pub open spec fn can_manage_roles(r: crate::backend::state::Role) -> bool {
    r is Owner || r is CoOwner
}

/// The role of `uid` among `members`: that of its first entry, or `Member`.
pub open spec fn role_among(members: Seq<MemberView>, uid: Seq<char>) -> crate::backend::state::Role {
    match first_index(members, member_is(uid)) {
        Some(j) => members[j].role,
        None => crate::backend::state::Role::Member,
    }
}

/// The local user's role in server `sid`: `Member` where the server is not
/// known.
pub open spec fn my_role_in_server_spec(s: AppStateView, sid: u128) -> crate::backend::state::Role {
    match first_index(s.servers, server_is(sid)) {
        Some(i) => role_among(s.servers[i].members, s.my_user_id),
        None => crate::backend::state::Role::Member,
    }
}

/// The local user's role in group `gid`: `Member` where the group is not
/// known.
pub open spec fn my_role_in_group_spec(s: AppStateView, gid: u128) -> crate::backend::state::Role {
    match first_index(s.groups, group_is(gid)) {
        Some(i) => role_among(s.groups[i].members, s.my_user_id),
        None => crate::backend::state::Role::Member,
    }
}

/// Whether the local user is muted in server `sid`.
pub open spec fn muted_in_server_spec(s: AppStateView, sid: u128) -> bool {
    match first_index(s.servers, server_is(sid)) {
        Some(i) => match first_index(s.servers[i].members, member_is(s.my_user_id)) {
            Some(j) => s.servers[i].members[j].muted,
            None => false,
        },
        None => false,
    }
}

/// The name the local user goes by: the nickname, else the name.
pub open spec fn display_name_spec(s: AppStateView) -> Seq<char> {
    match s.my_nick {
        Some(n) => n,
        None => s.my_name,
    }
}

impl crate::backend::state::Role {
    /// Whether this role may kick and ban.
    pub fn can_moderate(&self) -> (res: bool)
        ensures
            res == can_moderate(*self),
    {
        match self {
            crate::backend::state::Role::Member => false,
            _ => true,
        }
    }

    /// Whether this role may change roles.
    pub fn can_manage_roles(&self) -> (res: bool)
        ensures
            res == can_manage_roles(*self),
    {
        match self {
            crate::backend::state::Role::Owner | crate::backend::state::Role::CoOwner => true,
            _ => false,
        }
    }
}

fn role_in(members: &Vec<Member>, uid: &String) -> (res: crate::backend::state::Role)
    ensures
        res == role_among(members_view(members@), uid@),
{
    match find_member(members, uid) {
        Some(j) => members[j].role,
        None => crate::backend::state::Role::Member,
    }
}

impl AppState {
    /// The name the local user goes by.
    pub fn display_name(&self) -> (res: &String)
        ensures
            res@ == display_name_spec(self@),
    {
        match &self.my_nick {
            Some(n) => n,
            None => &self.my_name,
        }
    }

    /// The local user's role in server `sid`.
    pub fn my_role_in_server(&self, sid: u128) -> (res: crate::backend::state::Role)
        ensures
            res == my_role_in_server_spec(self@, sid),
    {
        match find_server(&self.servers, sid) {
            Some(i) => role_in(&self.servers[i].members, &self.my_user_id),
            None => crate::backend::state::Role::Member,
        }
    }

    /// The local user's role in group `gid`.
    pub fn my_role_in_group(&self, gid: u128) -> (res: crate::backend::state::Role)
        ensures
            res == my_role_in_group_spec(self@, gid),
    {
        match find_group(&self.groups, gid) {
            Some(i) => role_in(&self.groups[i].members, &self.my_user_id),
            None => crate::backend::state::Role::Member,
        }
    }

    /// Whether the local user is muted in server `sid`.
    pub fn am_muted_server(&self, sid: u128) -> (res: bool)
        ensures
            res == muted_in_server_spec(self@, sid),
    {
        match find_server(&self.servers, sid) {
            Some(i) => match find_member(&self.servers[i].members, &self.my_user_id) {
                Some(j) => self.servers[i].members[j].muted,
                None => false,
            },
            None => false,
        }
    }
}

} // verus!
