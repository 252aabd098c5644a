//! Getting the backend going: checking a setup or unlock request, what the
//! opened (or refused) vault does to the state, and what the outcome of
//! starting Tor does. Opening the vault and starting Tor are the caller's
//! work; these functions decide before and after it.
use vstd::prelude::*;

use crate::backend::commands::{cuttable, short_text};
use crate::backend::membership::rename_in_nullsec;
use crate::backend::edits::{set_name, set_name_exec};
use crate::backend::rules::{display_name_spec, event_view, events_view, Event, EventView};
use crate::backend::setup::NULLSEC_SERVER_ID;
use crate::backend::state::{
    find_member, find_server, first_index, member_is, members_view, server_is, server_view, servers_view, AppState,
    AppStateView, Member, MemberView, Phase, ServerView,
};
use crate::model::short_id;
use crate::network::p2p::{P2PStatus, TOR_SOCKS_LOCAL, TOR_SOCKS_SYSTEM};
use crate::text::{
    str_trim, trim_spec,
};

verus! {

/// How opening the vault went.
pub enum VaultOutcome {
    /// The vault is open.
    Opened,
    /// The passphrase did not open it (or the vault is corrupted).
    Refused,
    /// Another failure, with its message.
    Failed(String),
}

/// How starting Tor went.
pub enum TorOutcome {
    /// A Tor already running here answered.
    SystemTor,
    /// The bundled Tor started a hidden service with this onion address.
    HiddenService(String),
    /// Tor could not be had, for this reason.
    Failed(String),
}

/// Whether a setup request is complete: a non-blank name and a passphrase
/// of at least 12 bytes once trimmed.
pub open spec fn setup_ok(name: Seq<char>, pass: Seq<char>) -> bool {
    trim_spec(name).len() > 0 && (vstd::utf8::encode_utf8(trim_spec(pass)).len() as usize) >= 12
}

/// The refusal of an incomplete setup request.
pub open spec fn setup_error(name: Seq<char>) -> Seq<char> {
    if trim_spec(name).len() == 0 {
        "Enter a display name."@
    } else {
        "Passphrase must be \u{2265}12 characters."@
    }
}

/// Checks a setup request: the trimmed name and passphrase, or the error to
/// report.
pub fn check_setup(name: &String, pass: &String) -> (res: Result<(String, String), Event>)
    ensures
        res is Ok <==> setup_ok(name@, pass@),
        res matches Ok((n, p)) ==> n@ == trim_spec(name@) && p@ == trim_spec(pass@),
        res matches Err(e) ==> event_view(e) == EventView::Error(setup_error(name@)),
{
    let n = str_trim(name.as_str());
    let p = str_trim(pass.as_str());
    if n.is_empty() {
        return Err(Event::Error { msg: "Enter a display name.".to_owned() });
    }
    if p.len() < 12 {
        return Err(Event::Error { msg: "Passphrase must be \u{2265}12 characters.".to_owned() });
    }
    Ok((n.to_owned(), p.to_owned()))
}

/// Checks an unlock request: the trimmed passphrase, or the error to report
/// when it is blank.
pub fn check_unlock(pass: &String) -> (res: Result<String, Event>)
    ensures
        res is Ok <==> trim_spec(pass@).len() > 0,
        res matches Ok(p) ==> p@ == trim_spec(pass@),
        res matches Err(e) ==> event_view(e) == EventView::Error("Enter your passphrase."@),
{
    let p = str_trim(pass.as_str());
    if p.is_empty() {
        return Err(Event::Error { msg: "Enter your passphrase.".to_owned() });
    }
    Ok(p.to_owned())
}

/// What the outcome of opening the vault does. `name` is the name of a
/// setup request (none for an unlock): once the vault is open it becomes
/// the name, also in the built-in server, and the main screen is next. A
/// refused passphrase is reported as such on unlock, as a vault error on
/// setup.
pub open spec fn opened_step(s: AppStateView, name: Option<Seq<char>>, outcome: VaultOutcome) -> (AppStateView, Seq<EventView>) {
    match outcome {
        VaultOutcome::Opened => {
            let named = match name {
                Some(n) => AppStateView { my_name: n, servers: rename_in_nullsec(s.servers, s.my_user_id, n), ..s },
                None => s,
            };
            (AppStateView { phase: Phase::Main, ..named }, seq![EventView::Phase("main"@), EventView::State])
        },
        VaultOutcome::Refused => (
            s,
            seq![
                EventView::Error(
                    if name is Some {
                        "Vault error: incorrect passphrase or corrupted vault"@
                    } else {
                        "Incorrect passphrase."@
                    },
                ),
            ],
        ),
        VaultOutcome::Failed(m) => (s, seq![EventView::Error("Vault error: "@ + m@)]),
    }
}

/// The members after the first entry of `old_id` takes the id `new_id` and
/// the name `name`.
pub open spec fn relabel(members: Seq<MemberView>, old_id: Seq<char>, new_id: Seq<char>, name: Seq<char>) -> Seq<MemberView> {
    match first_index(members, member_is(old_id)) {
        Some(j) => members.update(j, MemberView { user_id: new_id, display_name: name, ..members[j] }),
        None => members,
    }
}

/// The servers after the local user's id changes from `old_id` to `new_id`
/// in the built-in server, as its owner and as a member.
pub open spec fn relabel_nullsec(servers: Seq<ServerView>, old_id: Seq<char>, new_id: Seq<char>, name: Seq<char>) -> Seq<ServerView> {
    match first_index(servers, server_is(NULLSEC_SERVER_ID)) {
        Some(i) => servers.update(
            i,
            ServerView {
                owner_id: if servers[i].owner_id == old_id { new_id } else { servers[i].owner_id },
                members: relabel(servers[i].members, old_id, new_id, name),
                ..servers[i]
            },
        ),
        None => servers,
    }
}

/// What the outcome of starting Tor does to the state (but the Tor status,
/// which `tor_status_after` gives): through a Tor already running, the
/// system proxy; with a hidden service, the onion address becomes the local
/// user's id and the bundled proxy is used; on failure, nothing.
pub open spec fn tor_state(s: AppStateView, outcome: TorOutcome) -> AppStateView {
    match outcome {
        TorOutcome::SystemTor => AppStateView { tor_socks: Some(TOR_SOCKS_SYSTEM@), ..s },
        TorOutcome::HiddenService(onion) => AppStateView {
            my_user_id: onion@,
            tor_socks: Some(TOR_SOCKS_LOCAL@),
            servers: relabel_nullsec(s.servers, s.my_user_id, onion@, display_name_spec(s)),
            ..s
        },
        TorOutcome::Failed(_) => s,
    }
}

/// The Tor status after the outcome: ready, under the shortened id and
/// `@tor` or the onion address, or the failure's reason.
pub open spec fn tor_status_after(st: P2PStatus, s: AppStateView, outcome: TorOutcome) -> bool {
    match outcome {
        TorOutcome::SystemTor => st matches P2PStatus::TorReady { onion } && onion@ == short_text(s.my_user_id) + "@tor"@,
        TorOutcome::HiddenService(on) => st matches P2PStatus::TorReady { onion } && onion@ == on@,
        TorOutcome::Failed(e) => st matches P2PStatus::Error(x) && x@ == e@,
    }
}

/// What is reported of the outcome of starting Tor.
pub open spec fn tor_events(s: AppStateView, outcome: TorOutcome) -> Seq<EventView> {
    match outcome {
        TorOutcome::SystemTor => seq![EventView::Tor("Tor Connected"@, Some(s.my_user_id))],
        TorOutcome::HiddenService(onion) => seq![EventView::Tor("Tor Ready"@, Some(onion@))],
        TorOutcome::Failed(e) => seq![EventView::Tor("Tor unavailable: "@ + e@, None)],
    }
}

fn copy_text(s: &String) -> (res: String)
    ensures
        res@ == s@,
{
    s.clone()
}

fn one_event(e: Event) -> (res: Vec<Event>)
    ensures
        events_view(res@) == seq![event_view(e)],
{
    let ghost ev = event_view(e);
    let mut v: Vec<Event> = Vec::new();
    v.push(e);
    assert(events_view(v@) =~= seq![ev]);
    v
}

fn relabel_exec(members: &mut Vec<Member>, old_id: &String, new_id: &String, name: &String)
    ensures
        members_view(final(members)@) == relabel(members_view(old(members)@), old_id@, new_id@, name@),
{
    let ghost v = members_view(members@);
    match find_member(members, old_id) {
        Some(j) => {
            let mut m = members.remove(j);
            m.user_id = copy_text(new_id);
            m.display_name = copy_text(name);
            members.insert(j, m);
            assert(members_view(members@) =~= relabel(v, old_id@, new_id@, name@));
        },
        None => {},
    }
}

impl AppState {
    /// Applies the outcome of opening the vault; see `opened_step`.
    pub fn vault_opened(&mut self, name: Option<String>, outcome: VaultOutcome) -> (res: Vec<Event>)
        ensures
            (final(self)@, events_view(res@)) == opened_step(old(self)@, crate::backend::state::opt_text(name), outcome),
    {
        let ghost s0 = self@;
        let ghost nv = crate::backend::state::opt_text(name);
        match outcome {
            VaultOutcome::Opened => {
                if let Some(n) = name {
                    if let Some(i) = find_server(&self.servers, NULLSEC_SERVER_ID) {
                        let mut srv = self.servers.remove(i);
                        let ghost v0 = server_view(srv);
                        let me = copy_text(&self.my_user_id);
                        set_name_exec(&mut srv.members, &me, copy_text(&n));
                        assert(server_view(srv) =~= ServerView { members: set_name(v0.members, s0.my_user_id, n@), ..v0 });
                        self.servers.insert(i, srv);
                    }
                    assert(servers_view(self.servers@) =~= rename_in_nullsec(s0.servers, s0.my_user_id, n@));
                    self.my_name = n;
                }
                self.phase = Phase::Main;
                let mut v: Vec<Event> = Vec::new();
                v.push(Event::Phase { phase: "main".to_owned() });
                v.push(Event::State);
                assert(events_view(v@) =~= seq![EventView::Phase("main"@), EventView::State]);
                assert(self@ =~= opened_step(s0, nv, VaultOutcome::Opened).0);
                v
            },
            VaultOutcome::Refused => {
                if name.is_some() {
                    one_event(Event::Error { msg: "Vault error: incorrect passphrase or corrupted vault".to_owned() })
                } else {
                    one_event(Event::Error { msg: "Incorrect passphrase.".to_owned() })
                }
            },
            VaultOutcome::Failed(m) => {
                let mut msg = "Vault error: ".to_owned();
                msg.append(m.as_str());
                one_event(Event::Error { msg })
            },
        }
    }

    /// Applies the outcome of starting Tor: the state becomes `tor_state`,
    /// the Tor status `tor_status_after`, and `tor_events` is reported.
    pub fn tor_started(&mut self, outcome: TorOutcome) -> (res: Vec<Event>)
        requires
            outcome is SystemTor ==> cuttable(old(self).my_user_id@),
        ensures
            final(self)@ == (AppStateView { tor_status: final(self)@.tor_status, ..tor_state(old(self)@, outcome) }),
            tor_status_after(final(self).tor_status, old(self)@, outcome),
            events_view(res@) == tor_events(old(self)@, outcome),
    {
        let ghost s0 = self@;
        let ghost o = outcome;
        match outcome {
            TorOutcome::SystemTor => {
                let mut onion = short_id(self.my_user_id.as_str());
                onion.append("@tor");
                proof { reveal_strlit("@tor"); }
                self.tor_status = P2PStatus::TorReady { onion };
                self.tor_socks = Some(TOR_SOCKS_SYSTEM.to_owned());
                let ev = Event::Tor { status: "Tor Connected".to_owned(), onion: Some(copy_text(&self.my_user_id)) };
                let res = one_event(ev);
                assert(self@ =~= (AppStateView { tor_status: self@.tor_status, ..tor_state(s0, o) }));
                res
            },
            TorOutcome::HiddenService(onion) => {
                let old_id = copy_text(&self.my_user_id);
                let dn = copy_text(self.display_name());
                if let Some(i) = find_server(&self.servers, NULLSEC_SERVER_ID) {
                    let mut srv = self.servers.remove(i);
                    let ghost v0 = server_view(srv);
                    if srv.owner_id == old_id {
                        srv.owner_id = copy_text(&onion);
                    }
                    relabel_exec(&mut srv.members, &old_id, &onion, &dn);
                    assert(server_view(srv) =~= ServerView {
                        owner_id: if v0.owner_id == old_id@ { onion@ } else { v0.owner_id },
                        members: relabel(v0.members, old_id@, onion@, dn@),
                        ..v0
                    });
                    self.servers.insert(i, srv);
                }
                assert(servers_view(self.servers@) =~= relabel_nullsec(s0.servers, s0.my_user_id, onion@, display_name_spec(s0)));
                self.my_user_id = copy_text(&onion);
                self.tor_socks = Some(TOR_SOCKS_LOCAL.to_owned());
                self.tor_status = P2PStatus::TorReady { onion: copy_text(&onion) };
                let res = one_event(Event::Tor { status: "Tor Ready".to_owned(), onion: Some(onion) });
                assert(self@ =~= (AppStateView { tor_status: self@.tor_status, ..tor_state(s0, o) }));
                res
            },
            TorOutcome::Failed(e) => {
                let mut status = "Tor unavailable: ".to_owned();
                status.append(e.as_str());
                self.tor_status = P2PStatus::Error(copy_text(&e));
                let res = one_event(Event::Tor { status, onion: None });
                assert(self@ =~= (AppStateView { tor_status: self@.tor_status, ..tor_state(s0, o) }));
                res
            },
        }
    }
}

} // verus!
