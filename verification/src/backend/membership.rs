//! The commands that change who belongs where and how the local user is
//! known: joining a server by its code, saving the profile, changing a
//! member's role and adding a member to a group.
use vstd::prelude::*;

use crate::backend::commands::{cuttable, short_text};
use crate::backend::edits::{holds_id, holds_id_exec, set_name, set_name_exec, set_role, set_role_exec};
use crate::backend::rules::{can_manage_roles, display_name_spec, events_view, my_role_in_server_spec, Event, EventView};
use crate::backend::setup::NULLSEC_SERVER_ID;
use crate::backend::state::{
    find_group, find_member, find_server, find_server_by_code, first_index, group_is, group_view, groups_view,
    member_is, member_view, opt_text, server_code_is, server_is, server_view, servers_view, AppState,
    AppStateView, GroupView, Member, MemberView, Role, ServerView,
};
use crate::model::short_id;
use crate::text::{str_trim, str_upper, trim_spec, upper_spec, uuid_parse, uuid_parsed};

verus! {

/// A new plain member.
pub open spec fn plain_member(uid: Seq<char>, name: Seq<char>, role: Role, now: u64) -> MemberView {
    MemberView { user_id: uid, display_name: name, role, muted: false, banned: false, joined_at: now }
}

/// The invite code as typed: trimmed and upper-cased.
pub open spec fn join_code(code: Seq<char>) -> Seq<char> {
    upper_spec(trim_spec(code))
}

/// Joining the server whose code is `code`: the code must be 8 bytes once
/// trimmed and upper-cased, a server must have it, and the local user must
/// not be banned there; the user becomes a plain member unless already one.
pub open spec fn join_step(s: AppStateView, code: Seq<char>, now: u64) -> (AppStateView, Seq<EventView>) {
    let c = join_code(code);
    if (vstd::utf8::encode_utf8(c).len() as usize) != 8 {
        (s, seq![EventView::Error("Server code is 8 characters."@)])
    } else {
        match first_index(s.servers, server_code_is(c)) {
            None => (s, seq![EventView::Error("Server not found. Check the code."@)]),
            Some(i) => if holds_id(s.servers[i].banned_ids, s.my_user_id) {
                (s, seq![EventView::Error("You are banned from this server."@)])
            } else {
                let joined = if first_index(s.servers[i].members, member_is(s.my_user_id)) is Some {
                    s
                } else {
                    AppStateView {
                        servers: s.servers.update(
                            i,
                            ServerView {
                                members: s.servers[i].members.push(
                                    plain_member(s.my_user_id, display_name_spec(s), Role::Member, now),
                                ),
                                ..s.servers[i]
                            },
                        ),
                        ..s
                    }
                };
                (joined, seq![EventView::Notif("success"@, "Joined server!"@), EventView::State])
            },
        }
    }
}

/// The servers after the local user `me` is renamed `name` in the built-in
/// server.
pub open spec fn rename_in_nullsec(servers: Seq<ServerView>, me: Seq<char>, name: Seq<char>) -> Seq<ServerView> {
    match first_index(servers, server_is(NULLSEC_SERVER_ID)) {
        Some(i) => servers.update(i, ServerView { members: set_name(servers[i].members, me, name), ..servers[i] }),
        None => servers,
    }
}

/// A trimmed optional text: none when it is empty.
pub open spec fn optional_trimmed(t: Seq<char>) -> Option<Seq<char>> {
    if trim_spec(t).len() == 0 {
        None
    } else {
        Some(trim_spec(t))
    }
}

/// Saving the profile: a non-empty trimmed name becomes the name, also in
/// the built-in server; the nickname and bio are set, or cleared when blank.
pub open spec fn profile_step(s: AppStateView, name: Seq<char>, nick: Seq<char>, bio: Seq<char>) -> AppStateView {
    let n = trim_spec(name);
    let named = if n.len() == 0 {
        s
    } else {
        AppStateView { my_name: n, servers: rename_in_nullsec(s.servers, s.my_user_id, n), ..s }
    };
    AppStateView { my_nick: optional_trimmed(nick), my_bio: optional_trimmed(bio), ..named }
}

/// The server role that a word names; `Member` for any other word.
pub open spec fn server_role_word(w: Seq<char>) -> Role {
    if w == "Co-Owner"@ {
        Role::CoOwner
    } else if w == "Admin"@ {
        Role::Admin
    } else if w == "Moderator"@ {
        Role::Moderator
    } else {
        Role::Member
    }
}

/// The group role that a word names; `Member` for any other word.
pub open spec fn group_role_word(w: Seq<char>) -> Role {
    if w == "Admin"@ {
        Role::Admin
    } else if w == "Moderator"@ {
        Role::Moderator
    } else {
        Role::Member
    }
}

/// Giving `uid` the role that `role` names in server `ctx`: done only in a
/// server, by its owner or a co-owner.
pub open spec fn set_role_step(s: AppStateView, ctx: Seq<char>, uid: Seq<char>, role: Seq<char>, is_server: bool) -> AppStateView {
    match uuid_parsed(ctx) {
        Some(cid) => if is_server && can_manage_roles(my_role_in_server_spec(s, cid)) {
            match first_index(s.servers, server_is(cid)) {
                Some(i) => AppStateView {
                    servers: s.servers.update(
                        i,
                        ServerView { members: set_role(s.servers[i].members, uid, server_role_word(role)), ..s.servers[i] },
                    ),
                    ..s
                },
                None => s,
            }
        } else {
            s
        },
        None => s,
    }
}

/// The name a member added to a group goes by: the trimmed name, or the
/// shortened id when the name is blank.
pub open spec fn added_member_name(uid: Seq<char>, name: Seq<char>) -> Seq<char> {
    if trim_spec(name).len() == 0 {
        short_text(uid)
    } else {
        trim_spec(name)
    }
}

/// Adding the trimmed `user_id` to group `gid` with the role `role` names,
/// unless already a member; a blank id is refused.
pub open spec fn add_member_step(
    s: AppStateView,
    gid: Seq<char>,
    user_id: Seq<char>,
    name: Seq<char>,
    role: Seq<char>,
    now: u64,
) -> (AppStateView, Seq<EventView>) {
    let uid = trim_spec(user_id);
    if uid.len() == 0 {
        (s, seq![EventView::Error("Enter a User ID."@)])
    } else {
        let added = match uuid_parsed(gid) {
            Some(g) => match first_index(s.groups, group_is(g)) {
                Some(i) => if first_index(s.groups[i].members, member_is(uid)) is Some {
                    s
                } else {
                    AppStateView {
                        groups: s.groups.update(
                            i,
                            GroupView {
                                members: s.groups[i].members.push(
                                    plain_member(uid, added_member_name(uid, name), group_role_word(role), now),
                                ),
                                ..s.groups[i]
                            },
                        ),
                        ..s
                    }
                },
                None => s,
            },
            None => s,
        };
        (added, seq![EventView::Notif("success"@, "Member added!"@), EventView::State])
    }
}

fn copy_text(s: &String) -> (res: String)
    ensures
        res@ == s@,
{
    s.clone()
}

fn error_event(msg: &str) -> (res: Vec<Event>)
    ensures
        events_view(res@) == seq![EventView::Error(msg@)],
{
    let mut v: Vec<Event> = Vec::new();
    v.push(Event::Error { msg: msg.to_owned() });
    assert(events_view(v@) =~= seq![EventView::Error(msg@)]);
    v
}

fn notif_state(kind: &str, msg: String) -> (res: Vec<Event>)
    ensures
        events_view(res@) == seq![EventView::Notif(kind@, msg@), EventView::State],
{
    let mut v: Vec<Event> = Vec::new();
    let ghost m = msg@;
    v.push(Event::Notif { kind: kind.to_owned(), msg });
    v.push(Event::State);
    assert(events_view(v@) =~= seq![EventView::Notif(kind@, m), EventView::State]);
    v
}

fn trimmed_opt(t: &String) -> (res: Option<String>)
    ensures
        opt_text(res) == optional_trimmed(t@),
{
    let x = str_trim(t.as_str());
    if x.is_empty() {
        None
    } else {
        Some(x.to_owned())
    }
}

fn server_role_of(w: &String) -> (res: Role)
    ensures
        res == server_role_word(w@),
{
    proof {
        reveal_strlit("Co-Owner");
        reveal_strlit("Admin");
        reveal_strlit("Moderator");
    }
    if *w == "Co-Owner".to_owned() {
        Role::CoOwner
    } else if *w == "Admin".to_owned() {
        Role::Admin
    } else if *w == "Moderator".to_owned() {
        Role::Moderator
    } else {
        Role::Member
    }
}

fn group_role_of(w: &String) -> (res: Role)
    ensures
        res == group_role_word(w@),
{
    if *w == "Admin".to_owned() {
        Role::Admin
    } else if *w == "Moderator".to_owned() {
        Role::Moderator
    } else {
        Role::Member
    }
}

impl AppState {
    /// Joins a server by its code; see `join_step`.
    pub fn join_server(&mut self, code: &String, now: u64) -> (res: Vec<Event>)
        ensures
            (final(self)@, events_view(res@)) == join_step(old(self)@, code@, now),
    {
        let ghost s0 = self@;
        let c = str_upper(str_trim(code.as_str()));
        if c.as_str().len() != 8 {
            return error_event("Server code is 8 characters.");
        }
        match find_server_by_code(&self.servers, &c) {
            None => error_event("Server not found. Check the code."),
            Some(i) => {
                if holds_id_exec(&self.servers[i].banned_ids, &self.my_user_id) {
                    return error_event("You are banned from this server.");
                }
                if find_member(&self.servers[i].members, &self.my_user_id).is_none() {
                    let m = Member {
                        user_id: copy_text(&self.my_user_id),
                        display_name: copy_text(self.display_name()),
                        role: Role::Member,
                        muted: false,
                        banned: false,
                        joined_at: now,
                    };
                    assert(member_view(m) == plain_member(s0.my_user_id, display_name_spec(s0), Role::Member, now));
                    let mut srv = self.servers.remove(i);
                    let ghost v0 = server_view(srv);
                    srv.members.push(m);
                    assert(server_view(srv) =~= ServerView { members: v0.members.push(member_view(m)), ..v0 });
                    self.servers.insert(i, srv);
                    assert(servers_view(self.servers@) =~= s0.servers.update(
                        i as int,
                        ServerView { members: v0.members.push(member_view(m)), ..v0 },
                    ));
                }
                notif_state("success", "Joined server!".to_owned())
            },
        }
    }

    /// Saves the profile; see `profile_step`.
    pub fn save_profile(&mut self, name: &String, nick: &String, bio: &String) -> (res: Vec<Event>)
        ensures
            final(self)@ == profile_step(old(self)@, name@, nick@, bio@),
            events_view(res@) == seq![EventView::Notif("success"@, "Profile saved!"@), EventView::State],
    {
        let ghost s0 = self@;
        let n = str_trim(name.as_str());
        if !n.is_empty() {
            self.my_name = n.to_owned();
            if let Some(i) = find_server(&self.servers, NULLSEC_SERVER_ID) {
                let mut srv = self.servers.remove(i);
                let ghost v0 = server_view(srv);
                let me = copy_text(&self.my_user_id);
                set_name_exec(&mut srv.members, &me, n.to_owned());
                assert(server_view(srv) =~= ServerView { members: set_name(v0.members, s0.my_user_id, n@), ..v0 });
                self.servers.insert(i, srv);
                assert(servers_view(self.servers@) =~= rename_in_nullsec(s0.servers, s0.my_user_id, n@));
            }
        }
        self.my_nick = trimmed_opt(nick);
        self.my_bio = trimmed_opt(bio);
        proof {
            if n@.len() != 0 && first_index(s0.servers, server_is(NULLSEC_SERVER_ID)) is None {
                assert(servers_view(self.servers@) =~= rename_in_nullsec(s0.servers, s0.my_user_id, n@));
            }
        }
        assert(self@ =~= profile_step(s0, name@, nick@, bio@));
        notif_state("success", "Profile saved!".to_owned())
    }

    /// Changes a member's role; see `set_role_step`.
    pub fn set_member_role(&mut self, context_id: &String, user_id: &String, role: &String, is_server: bool) -> (res: Vec<Event>)
        ensures
            final(self)@ == set_role_step(old(self)@, context_id@, user_id@, role@, is_server),
            events_view(res@) == seq![
                EventView::Notif("success"@, "Role updated to "@ + role@ + seq!['.']),
                EventView::State,
            ],
    {
        let ghost s0 = self@;
        if let Some(cid) = uuid_parse(context_id.as_str()) {
            if is_server && self.my_role_in_server(cid).can_manage_roles() {
                if let Some(i) = find_server(&self.servers, cid) {
                    let r = server_role_of(role);
                    let mut srv = self.servers.remove(i);
                    let ghost v0 = server_view(srv);
                    set_role_exec(&mut srv.members, user_id, r);
                    assert(server_view(srv) =~= ServerView { members: set_role(v0.members, user_id@, r), ..v0 });
                    self.servers.insert(i, srv);
                    assert(servers_view(self.servers@) =~= s0.servers.update(
                        i as int,
                        ServerView { members: set_role(v0.members, user_id@, r), ..v0 },
                    ));
                }
            }
        }
        assert(self@ =~= set_role_step(s0, context_id@, user_id@, role@, is_server));
        let mut msg = "Role updated to ".to_owned();
        msg.append(role.as_str());
        crate::text::string_push(&mut msg, '.');
        proof { reveal_strlit("Role updated to "); }
        assert(msg@ =~= "Role updated to "@ + role@ + seq!['.']);
        notif_state("success", msg)
    }

    /// Adds a member to a group; see `add_member_step`.
    pub fn add_group_member(&mut self, group_id: &String, user_id: &String, name: &String, role: &String, now: u64) -> (res: Vec<Event>)
        requires
            trim_spec(name@).len() == 0 ==> cuttable(trim_spec(user_id@)),
        ensures
            (final(self)@, events_view(res@)) == add_member_step(old(self)@, group_id@, user_id@, name@, role@, now),
    {
        let ghost s0 = self@;
        let uid = str_trim(user_id.as_str()).to_owned();
        if uid.as_str().is_empty() {
            return error_event("Enter a User ID.");
        }
        if let Some(gid) = uuid_parse(group_id.as_str()) {
            if let Some(i) = find_group(&self.groups, gid) {
                if find_member(&self.groups[i].members, &uid).is_none() {
                    let nm = str_trim(name.as_str());
                    let display_name = if nm.is_empty() { short_id(uid.as_str()) } else { nm.to_owned() };
                    let m = Member {
                        user_id: uid,
                        display_name,
                        role: group_role_of(role),
                        muted: false,
                        banned: false,
                        joined_at: now,
                    };
                    assert(member_view(m) == plain_member(
                        trim_spec(user_id@),
                        added_member_name(trim_spec(user_id@), name@),
                        group_role_word(role@),
                        now,
                    ));
                    let mut g = self.groups.remove(i);
                    let ghost v0 = group_view(g);
                    g.members.push(m);
                    assert(group_view(g) =~= GroupView { members: v0.members.push(member_view(m)), ..v0 });
                    self.groups.insert(i, g);
                    assert(groups_view(self.groups@) =~= s0.groups.update(
                        i as int,
                        GroupView { members: v0.members.push(member_view(m)), ..v0 },
                    ));
                }
            }
        }
        notif_state("success", "Member added!".to_owned())
    }
}

} // verus!
