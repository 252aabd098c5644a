//! The data of profiles, friends, groups, servers and wire messages, and the
//! small text helpers that display them.
use vstd::prelude::*;
use vstd::string::StrSliceExecFns;

use crate::crypto::primitives::{rng_below, thread_rng_handle};
use crate::text::{
    char_is_whitespace, char_to_uppercase, is_unicode_whitespace, push_two_digits, string_push,
    two_digits, unicode_uppercase, unix_time_secs,
};

verus! {

#[verifier::external_type_specification]
#[verifier::external_body]
pub struct ExUuid(uuid::Uuid);

/// The local user's profile.
pub struct UserProfile {
    pub display_name: String,
    pub user_id: String,
    pub created_at: u64,
}

/// A friend: their display name and their user id (onion address or
/// fingerprint).
pub struct Friend {
    pub id: uuid::Uuid,
    pub display_name: String,
    pub user_id: String,
    pub added_at: u64,
}

/// One message of a direct conversation.
pub struct DirectMessage {
    pub id: uuid::Uuid,
    pub from_id: String,
    pub body: String,
    pub timestamp: u64,
    pub outgoing: bool,
}

/// A member of a group chat.
pub struct GroupMember {
    pub user_id: String,
    pub display_name: String,
}

/// A group chat with its members and messages.
pub struct GroupChat {
    pub id: uuid::Uuid,
    pub name: String,
    pub members: Vec<GroupMember>,
    pub messages: Vec<GroupMessage>,
    pub created_at: u64,
}

/// One message of a group chat.
pub struct GroupMessage {
    pub id: uuid::Uuid,
    pub from_id: String,
    pub from_name: String,
    pub body: String,
    pub timestamp: u64,
}

/// A server with its channels and members.
pub struct Server {
    pub id: uuid::Uuid,
    pub name: String,
    pub server_code: String,
    pub owner_id: String,
    pub channels: Vec<Channel>,
    pub member_ids: Vec<String>,
    pub created_at: u64,
    pub is_owned: bool,
}

/// A channel of a server.
pub struct Channel {
    pub id: uuid::Uuid,
    pub name: String,
    pub messages: Vec<ChannelMessage>,
}

/// One message of a channel.
pub struct ChannelMessage {
    pub id: uuid::Uuid,
    pub from_id: String,
    pub from_name: String,
    pub body: String,
    pub timestamp: u64,
}

/// A message as sent between peers.
pub struct WireMessage {
    pub kind: WireKind,
    pub from_id: String,
    pub from_name: String,
    pub target_id: String,
    pub body: String,
    pub timestamp: u64,
}

/// What a wire message is.
pub enum WireKind {
    DirectMessage,
    GroupMessage { group_id: String },
    ChannelMessage { server_id: String, channel_id: String },
    FriendRequest,
    GroupInvite { group_id: String, group_name: String },
    Ping,
}

/// The seconds of a clock reading, or 0 where the clock stands before the
/// epoch.
pub fn secs_or_zero(t: Option<u64>) -> (res: u64)
    ensures
        res == match t {
            Some(s) => s,
            None => 0,
        },
{
    match t {
        Some(secs) => secs,
        None => 0,
    }
}

/// Seconds since the Unix epoch, or 0 where the clock stands before it. The
/// clock is read outside (`unix_time_secs`); `secs_or_zero` states what is
/// made of the reading.
pub fn now_unix() -> (res: u64) {
    secs_or_zero(unix_time_secs())
}

/// `HH:MM` of a Unix time (hours of the day and minutes, zero-padded).
pub open spec fn format_ts_spec(ts: u64) -> Seq<char> {
    two_digits(((ts / 3600) % 24) as u64) + seq![':'] + two_digits(((ts / 60) % 60) as u64)
}

/// The time of day of `ts` as `HH:MM`.
pub fn format_ts(ts: u64) -> (res: String)
    ensures
        res@ == format_ts_spec(ts),
{
    let h = (ts / 3600) % 24;
    let m = (ts / 60) % 60;
    let mut s = String::new();
    push_two_digits(&mut s, h);
    string_push(&mut s, ':');
    push_two_digits(&mut s, m);
    assert(s@ =~= format_ts_spec(ts));
    s
}

/// The djb2 hash (start 5381, times 33 plus the byte, wrapping) of `bytes`.
pub open spec fn djb2(bytes: Seq<u8>) -> u32
    decreases bytes.len(),
{
    if bytes.len() == 0 {
        5381
    } else {
        djb2(bytes.drop_last()).wrapping_mul(33).wrapping_add(bytes.last() as u32)
    }
}

/// The palette entry of a user: the djb2 hash of the first 16 bytes of
/// their id, modulo the palette's 6 colours.
pub open spec fn user_color_index_spec(user_id: Seq<char>) -> nat {
    let bytes = vstd::utf8::encode_utf8(user_id);
    let prefix = if bytes.len() > 16 { bytes.subrange(0, 16) } else { bytes };
    (djb2(prefix) % 6) as nat
}

/// The index into the six-colour palette of a user's colour.
pub fn user_color_index(user_id: &str) -> (res: usize)
    ensures
        res == user_color_index_spec(user_id@),
        res < 6,
{
    let bytes = user_id.as_bytes();
    let n: usize = if bytes.len() > 16 { 16 } else { bytes.len() };
    let mut hash: u32 = 5381;
    let mut i: usize = 0;
    while i < n
        invariant
            n <= bytes@.len(),
            n == if bytes@.len() > 16 { 16 } else { bytes@.len() },
            i <= n,
            hash == djb2(bytes@.subrange(0, i as int)),
        decreases n - i,
    {
        assert(bytes@.subrange(0, i + 1).drop_last() =~= bytes@.subrange(0, i as int));
        hash = hash.wrapping_mul(33).wrapping_add(bytes[i] as u32);
        i = i + 1;
    }
    proof {
        let b = vstd::utf8::encode_utf8(user_id@);
        assert(bytes@ == b);
        if b.len() <= 16 {
            assert(b.subrange(0, n as int) =~= b);
        }
    }
    (hash % 6) as usize
}

/// Whether position `i` of `s` starts a whitespace-separated word.
pub open spec fn is_word_head(s: Seq<char>, i: int) -> bool {
    &&& 0 <= i < s.len()
    &&& !is_unicode_whitespace(s[i])
    &&& (i == 0 || is_unicode_whitespace(s[i - 1]))
}

/// The first characters of the whitespace-separated words of `s`, in order.
pub open spec fn word_heads(s: Seq<char>) -> Seq<char>
    decreases s.len(),
{
    if s.len() == 0 {
        seq![]
    } else if is_word_head(s, s.len() - 1) {
        word_heads(s.drop_last()).push(s.last())
    } else {
        word_heads(s.drop_last())
    }
}

/// The initials of a name: the upper-cased first characters of its first
/// two words, or of its only word, or `?` for a name without words.
pub open spec fn initials_spec(name: Seq<char>) -> Seq<char> {
    let heads = word_heads(name);
    if heads.len() == 0 {
        unicode_uppercase('?')
    } else if heads.len() == 1 {
        unicode_uppercase(heads[0])
    } else {
        unicode_uppercase(heads[0]) + unicode_uppercase(heads[1])
    }
}

/// The initials of a display name.
pub fn user_initials(name: &str) -> (res: String)
    ensures
        res@ == initials_spec(name@),
{
    let n = name.unicode_len();
    let mut count: usize = 0;
    let mut first: char = '?';
    let mut second: char = '?';
    let mut prev_ws = true;
    let mut i: usize = 0;
    while i < n
        invariant
            n == name@.len(),
            i <= n,
            count <= 2,
            count == if word_heads(name@.subrange(0, i as int)).len() >= 2 {
                2
            } else {
                word_heads(name@.subrange(0, i as int)).len()
            },
            count >= 1 ==> first == word_heads(name@.subrange(0, i as int))[0],
            count >= 2 ==> second == word_heads(name@.subrange(0, i as int))[1],
            prev_ws == (i == 0 || is_unicode_whitespace(name@[i - 1])),
        decreases n - i,
    {
        let c = name.get_char(i);
        let ws = char_is_whitespace(c);
        let ghost t = name@.subrange(0, i + 1);
        proof {
            assert(t.drop_last() =~= name@.subrange(0, i as int));
            assert(t.last() == c);
            assert(is_word_head(t, i as int) == (!ws && prev_ws));
        }
        if !ws && prev_ws {
            if count == 0 {
                first = c;
                count = 1;
            } else if count == 1 {
                second = c;
                count = 2;
            }
        }
        prev_ws = ws;
        i = i + 1;
    }
    assert(name@.subrange(0, n as int) =~= name@);
    if count == 0 {
        char_to_uppercase('?')
    } else if count == 1 {
        char_to_uppercase(first)
    } else {
        let mut res = char_to_uppercase(first);
        let up = char_to_uppercase(second);
        res.append(up.as_str());
        res
    }
}

/// The characters of server invite codes (no `I`, `O`, `0` or `1`).
pub open spec fn server_code_charset() -> Seq<char> {
    seq![
        'A', 'B', 'C', 'D', 'E', 'F', 'G', 'H', 'J', 'K', 'L', 'M', 'N', 'P', 'Q', 'R',
        'S', 'T', 'U', 'V', 'W', 'X', 'Y', 'Z', '2', '3', '4', '5', '6', '7', '8', '9',
    ]
}

fn server_code_char(i: usize) -> (res: char)
    requires
        i < 32,
    ensures
        res == server_code_charset()[i as int],
{
    let charset = [
        'A', 'B', 'C', 'D', 'E', 'F', 'G', 'H', 'J', 'K', 'L', 'M', 'N', 'P', 'Q', 'R',
        'S', 'T', 'U', 'V', 'W', 'X', 'Y', 'Z', '2', '3', '4', '5', '6', '7', '8', '9',
    ];
    assert(charset@ =~= server_code_charset());
    charset[i]
}

/// A random invite code: eight characters of the invite charset.
pub fn generate_server_code() -> (res: String)
    ensures
        res@.len() == 8,
        forall|i: int| 0 <= i < 8 ==> server_code_charset().contains(#[trigger] res@[i]),
{
    let mut rng = thread_rng_handle();
    let mut code = String::new();
    let mut k: usize = 0;
    while k < 8
        invariant
            k <= 8,
            code@.len() == k,
            forall|i: int| 0 <= i < k ==> server_code_charset().contains(#[trigger] code@[i]),
        decreases 8 - k,
    {
        let idx = rng_below(&mut rng, 0, 32);
        let c = server_code_char(idx);
        assert(server_code_charset()[idx as int] == c);
        string_push(&mut code, c);
        k = k + 1;
    }
    code
}

/// `...` as characters.
pub open spec fn ellipsis() -> Seq<char> {
    seq!['.', '.', '.']
}

/// Appends `...`.
pub fn push_ellipsis(s: &mut String)
    ensures
        final(s)@ == old(s)@ + ellipsis(),
{
    string_push(s, '.');
    string_push(s, '.');
    string_push(s, '.');
    assert(final(s)@ =~= old(s)@ + ellipsis());
}

/// An id shortened for display: ids of more than 12 bytes become their
/// first 10 bytes followed by `...`.
pub fn short_id(id: &str) -> (res: String)
    requires
        id.len() > 12 ==> vstd::utf8::is_char_boundary(
            vstd::utf8::encode_utf8(id@),
            10,
        ),
    ensures
        res@ == if id.len() > 12 {
            vstd::utf8::decode_utf8(vstd::utf8::encode_utf8(id@).subrange(0, 10)) + ellipsis()
        } else {
            id@
        },
{
    if id.len() > 12 {
        let (head, _rest) = id.split_at(10);
        proof {
            vstd::utf8::encode_utf8_decode_utf8(head@);
            assert(vstd::utf8::encode_utf8(head@) == vstd::utf8::encode_utf8(id@).subrange(0, 10));
        }
        let mut res = head.to_owned();
        assert(res@ == head@);
        push_ellipsis(&mut res);
        res
    } else {
        id.to_owned()
    }
}

} // verus!
