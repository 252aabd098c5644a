//! The backend's first state: a fresh identity's fingerprint as the user id,
//! and the built-in NullSec server that the user owns.
use vstd::prelude::*;

use crate::backend::state::{
    channels_view, members_view, server_view, texts_view, AppState, AppStateView, Channel, ChannelType,
    ChannelView, Member, MemberView, Phase, Role, Server, ServerView, UserStatus,
};
use crate::crypto::identity::LocalIdentity;
use crate::network::p2p::P2PStatus;
use crate::text::is_lower_hex_text;

verus! {

/// The id of the built-in server.
pub const NULLSEC_SERVER_ID: u128 = 0xa1b2c3d4e5f67890abcdef1234567890;

/// The id of its announcements channel.
pub const NULLSEC_CH_ANN: u128 = 0xaabbccdd112233445566778899001122;

/// The id of its chat channel.
pub const NULLSEC_CH_CHAT: u128 = 0xbbccddee223344556677889900112233;

/// The id of its hacking channel.
pub const NULLSEC_CH_HACK: u128 = 0xccddeeff334455667788990011223344;

/// The invite code of the built-in server.
pub const NULLSEC_CODE: &'static str = "NULLSEC0";

/// A channel of the built-in server, with no messages.
pub open spec fn nullsec_channel(id: u128, name: Seq<char>, topic: Seq<char>, t: ChannelType, position: u32) -> ChannelView {
    ChannelView { id, name, topic: Some(topic), channel_type: t, messages: seq![], position }
}

/// The built-in server owned by `owner`, created at `now`: three channels
/// (announcements, chat, hacking) and the owner as its only member.
pub open spec fn nullsec_server(owner: Seq<char>, now: u64) -> ServerView {
    ServerView {
        id: NULLSEC_SERVER_ID,
        name: "NullSec Hacking Ground"@,
        description: Some("Sovereign. Encrypted. Underground."@),
        server_code: NULLSEC_CODE@,
        owner_id: owner,
        channels: seq![
            nullsec_channel(NULLSEC_CH_ANN, "announcements"@, "Official announcements from the owner"@, ChannelType::Announcement, 0),
            nullsec_channel(NULLSEC_CH_CHAT, "chat"@, "General discussion \u{2014} all members"@, ChannelType::Public, 1),
            nullsec_channel(NULLSEC_CH_HACK, "hacking"@, "Hacking drops and techniques"@, ChannelType::Announcement, 2),
        ],
        members: seq![
            MemberView {
                user_id: owner,
                display_name: "Anonymous"@,
                role: Role::Owner,
                muted: false,
                banned: false,
                joined_at: now,
            },
        ],
        banned_ids: seq![],
        created_at: now,
        is_owned: true,
    }
}

fn channel(id: u128, name: &str, topic: &str, t: ChannelType, position: u32) -> (res: Channel)
    ensures
        crate::backend::state::channel_view(res) == nullsec_channel(id, name@, topic@, t, position),
{
    let res = Channel {
        id,
        name: name.to_owned(),
        topic: Some(topic.to_owned()),
        channel_type: t,
        messages: Vec::new(),
        position,
    };
    assert(crate::backend::state::channel_view(res) =~= nullsec_channel(id, name@, topic@, t, position));
    res
}

/// The built-in server owned by `owner_id`.
pub fn build_nullsec_server(owner_id: &String, now: u64) -> (res: Server)
    ensures
        server_view(res) == nullsec_server(owner_id@, now),
{
    let mut channels: Vec<Channel> = Vec::new();
    channels.push(channel(
        NULLSEC_CH_ANN,
        "announcements",
        "Official announcements from the owner",
        ChannelType::Announcement,
        0,
    ));
    channels.push(channel(NULLSEC_CH_CHAT, "chat", "General discussion \u{2014} all members", ChannelType::Public, 1));
    channels.push(channel(NULLSEC_CH_HACK, "hacking", "Hacking drops and techniques", ChannelType::Announcement, 2));
    let mut members: Vec<Member> = Vec::new();
    members.push(
        Member {
            user_id: owner_id.clone(),
            display_name: "Anonymous".to_owned(),
            role: Role::Owner,
            muted: false,
            banned: false,
            joined_at: now,
        },
    );
    let res = Server {
        id: NULLSEC_SERVER_ID,
        name: "NullSec Hacking Ground".to_owned(),
        description: Some("Sovereign. Encrypted. Underground.".to_owned()),
        server_code: NULLSEC_CODE.to_owned(),
        owner_id: owner_id.clone(),
        channels,
        members,
        banned_ids: Vec::new(),
        created_at: now,
        is_owned: true,
    };
    assert(channels_view(res.channels@) =~= nullsec_server(owner_id@, now).channels);
    assert(members_view(res.members@) =~= nullsec_server(owner_id@, now).members);
    assert(texts_view(res.banned_ids@) =~= Seq::<Seq<char>>::empty());
    assert(server_view(res) =~= nullsec_server(owner_id@, now));
    res
}

/// The first state for the user id `uid`: the setup screen on a first run,
/// else the unlock screen; the name `Anonymous`, online, no friends, groups
/// or conversations, the built-in server, and no link yet.
pub open spec fn initial_state(uid: Seq<char>, first_run: bool, now: u64) -> AppStateView {
    AppStateView {
        phase: if first_run { Phase::Setup } else { Phase::Unlock },
        my_name: "Anonymous"@,
        my_user_id: uid,
        my_nick: None,
        my_status: UserStatus::Online,
        my_bio: None,
        friends: seq![],
        groups: seq![],
        servers: seq![nullsec_server(uid, now)],
        conversations: seq![],
        tor_status: P2PStatus::Offline,
        tor_socks: None,
        unread: seq![],
    }
}

impl AppState {
    /// The first state, under the fingerprint of a fresh identity (64
    /// lower-case hexadecimal digits) as the user id.
    pub fn new(first_run: bool, now: u64) -> (res: Self)
        ensures
            res@ == initial_state(res@.my_user_id, first_run, now),
            res@.my_user_id.len() == 64,
            is_lower_hex_text(res@.my_user_id),
    {
        let fp = LocalIdentity::generate().fingerprint_hex();
        let servers_one = build_nullsec_server(&fp, now);
        let mut servers: Vec<Server> = Vec::new();
        servers.push(servers_one);
        let res = AppState {
            phase: if first_run { Phase::Setup } else { Phase::Unlock },
            my_name: "Anonymous".to_owned(),
            my_user_id: fp,
            my_nick: None,
            my_status: UserStatus::Online,
            my_bio: None,
            friends: Vec::new(),
            groups: Vec::new(),
            servers,
            conversations: Vec::new(),
            tor_status: P2PStatus::Offline,
            tor_socks: None,
            unread: Vec::new(),
        };
        assert(res@ =~= initial_state(res@.my_user_id, first_run, now));
        res
    }
}

} // verus!
