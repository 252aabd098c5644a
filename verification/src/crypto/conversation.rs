//! A whole conversation between two Double Ratchet sessions: every message
//! that either side sends and the other side decrypts, in whatever order
//! the messages arrive, decrypts to its plaintext.
use vstd::prelude::*;

use crate::crypto::primitives::x25519_public;
use crate::crypto::ratchet::{
    chain_nth, dh_agrees, dh_ratchet_state, encrypt_allowed, encrypt_next, encryption_of, holds_chain_keys,
    init_receiver_state, init_sender_state, key_held, law_chain_messages_decrypt_in_any_order,
    law_late_message_decrypts, law_new_key_keeps_old_chain, law_sending_keeps_pair, law_sent_on_chain,
    lemma_same_keys_held, lemma_skip_keeps_keys, lemma_unseen_chain_decrypts, pair_chain, ratchet_pair,
    receives_chain, sent_on_chain, spec_decrypt, spec_skip, RatchetError, RatchetHeader,
    RatchetState, MAX_SKIP,
};

verus! {

/// A message as it was sent: its plaintext, header and ciphertext.
pub struct Sent {
    pub pt: Seq<u8>,
    pub h: RatchetHeader,
    pub ct: Seq<u8>,
}

/// One side of a conversation: its session state, what it has sent, which
/// of the other side's messages it has decrypted (by ratchet key and
/// number), and, for each of its own ratchet keys that has a sending chain,
/// the chain's first key, and for each closed chain its length.
pub struct Party {
    pub state: RatchetState,
    pub sent: Seq<Sent>,
    pub got: Set<(Seq<u8>, u32)>,
    pub starts: Map<Seq<u8>, Seq<u8>>,
    pub ends: Map<Seq<u8>, u32>,
}

/// The two sides of a conversation; `a` started it.
pub struct World {
    pub a: Party,
    pub b: Party,
}

/// One event of a conversation: a side encrypts a message (and gets the
/// header and ciphertext), or a side decrypts the other side's message
/// number `index` (drawing `fresh` as its next ratchet secret, should it
/// take a Diffie-Hellman step).
pub enum Step {
    Send { by_a: bool, pt: Seq<u8>, h: RatchetHeader, ct: Seq<u8> },
    Deliver { to_a: bool, index: int, fresh: Seq<u8> },
}

// ------------------------------------------------------------- the events

/// The side after sending `(h, ct)`.
pub open spec fn after_send(s: Party, pt: Seq<u8>, h: RatchetHeader, ct: Seq<u8>) -> Party {
    Party { state: encrypt_next(s.state), sent: s.sent.push(Sent { pt, h, ct }), ..s }
}

/// The receiving side after decrypting the sender's message `i`: a new own
/// ratchet key starts a chain, and the old one closes at its length.
pub open spec fn after_deliver(r: Party, s: Party, i: int, fresh: Seq<u8>) -> Party {
    let m = s.sent[i];
    let st = spec_decrypt(r.state, m.h, m.ct, fresh).0;
    let ratcheted = st.dh_self_pub != r.state.dh_self_pub;
    Party {
        state: st,
        got: r.got.insert((m.h.dh_public@, m.h.message_number)),
        starts: if ratcheted { r.starts.insert(st.dh_self_pub, st.sending_chain.unwrap()) } else { r.starts },
        ends: if ratcheted { r.ends.insert(r.state.dh_self_pub, r.state.send_count) } else { r.ends },
        ..r
    }
}

/// What decrypting the sender's message `i` gives.
pub open spec fn deliver_result(r: Party, s: Party, i: int, fresh: Seq<u8>) -> Result<Seq<u8>, RatchetError> {
    spec_decrypt(r.state, s.sent[i].h, s.sent[i].ct, fresh).1
}

/// Whether `k` is a ratchet key either side has used.
pub open spec fn known_key(w: World, k: Seq<u8>) -> bool {
    ||| k == w.a.state.dh_self_pub
    ||| k == w.b.state.dh_self_pub
    ||| w.a.starts.contains_key(k)
    ||| w.a.ends.contains_key(k)
    ||| w.b.starts.contains_key(k)
    ||| w.b.ends.contains_key(k)
}

/// A fresh ratchet secret: a genuine X25519 secret whose public key neither
/// side has used.
pub open spec fn fresh_secret(w: World, fresh: Seq<u8>) -> bool {
    &&& fresh.len() == 32
    &&& dh_agrees(fresh, x25519_public(fresh))
    &&& !known_key(w, x25519_public(fresh))
}

/// A message within reach of the receiver: its key is stored, or it is on
/// the receiver's current chain at most `MAX_SKIP` numbers ahead of the
/// receive counter, or it is on a new chain at most `MAX_SKIP` numbers from
/// its start while the chain it closes ends at most `MAX_SKIP` numbers ahead.
pub open spec fn in_reach(r: RatchetState, h: RatchetHeader) -> bool {
    ||| r.skipped.contains_key((h.dh_public@, h.message_number))
    ||| (r.dh_remote == Some(h.dh_public@) && (h.message_number >= r.recv_count ==> h.message_number
        - r.recv_count <= MAX_SKIP))
    ||| (r.dh_remote != Some(h.dh_public@) && h.message_number <= MAX_SKIP && (r.recv_count <= h.prev_chain_length
        ==> h.prev_chain_length - r.recv_count <= MAX_SKIP))
}

/// Whether the receiving side may take the sender's message `i`: it was
/// sent, it has not been decrypted yet, it is within reach, and the fresh
/// secret is fresh.
pub open spec fn deliver_ok(w: World, r: Party, s: Party, i: int, fresh: Seq<u8>) -> bool {
    &&& 0 <= i < s.sent.len()
    &&& !r.got.contains((s.sent[i].h.dh_public@, s.sent[i].h.message_number))
    &&& in_reach(r.state, s.sent[i].h)
    &&& fresh_secret(w, fresh)
}

/// Whether a step can be taken: an encryption is allowed and gives
/// `(h, ct)`; a delivery is of a message that may be taken.
pub open spec fn step_ok(w: World, st: Step) -> bool {
    match st {
        Step::Send { by_a, pt, h, ct } => {
            let s = if by_a { w.a } else { w.b };
            encrypt_allowed(s.state) && encryption_of(s.state, pt, h, ct)
        },
        Step::Deliver { to_a, index, fresh } => if to_a {
            deliver_ok(w, w.a, w.b, index, fresh)
        } else {
            deliver_ok(w, w.b, w.a, index, fresh)
        },
    }
}

/// The conversation after a step.
pub open spec fn step(w: World, st: Step) -> World {
    match st {
        Step::Send { by_a, pt, h, ct } => if by_a {
            World { a: after_send(w.a, pt, h, ct), ..w }
        } else {
            World { b: after_send(w.b, pt, h, ct), ..w }
        },
        Step::Deliver { to_a, index, fresh } => if to_a {
            World { a: after_deliver(w.a, w.b, index, fresh), ..w }
        } else {
            World { b: after_deliver(w.b, w.a, index, fresh), ..w }
        },
    }
}

/// Whether a step that decrypts gives the plaintext of the message it takes.
pub open spec fn step_delivers(w: World, st: Step) -> bool {
    match st {
        Step::Send { .. } => true,
        Step::Deliver { to_a, index, fresh } => if to_a {
            deliver_result(w.a, w.b, index, fresh) == Ok::<Seq<u8>, RatchetError>(w.b.sent[index].pt)
        } else {
            deliver_result(w.b, w.a, index, fresh) == Ok::<Seq<u8>, RatchetError>(w.a.sent[index].pt)
        },
    }
}

/// Whether every step of `steps`, taken in turn from `w`, can be taken.
pub open spec fn run_ok(w: World, steps: Seq<Step>) -> bool
    decreases steps.len(),
{
    steps.len() == 0 || (step_ok(w, steps[0]) && run_ok(step(w, steps[0]), steps.drop_first()))
}

/// Whether every decryption of `steps`, taken in turn from `w`, gives the
/// plaintext of the message it takes.
pub open spec fn run_delivers(w: World, steps: Seq<Step>) -> bool
    decreases steps.len(),
{
    steps.len() == 0 || (step_delivers(w, steps[0]) && run_delivers(step(w, steps[0]), steps.drop_first()))
}

/// A conversation where `a` has been started against `b` (with the same
/// shared secret and `b`'s ratchet key) and nothing has happened yet.
pub open spec fn started(shared_secret: Seq<u8>, receiver_secret: Seq<u8>, sender_secret: Seq<u8>) -> World {
    let a = init_sender_state(shared_secret, x25519_public(receiver_secret), sender_secret);
    World {
        a: Party {
            state: a,
            sent: seq![],
            got: Set::empty(),
            starts: map![a.dh_self_pub => a.sending_chain.unwrap()],
            ends: Map::empty(),
        },
        b: Party {
            state: init_receiver_state(shared_secret, receiver_secret),
            sent: seq![],
            got: Set::empty(),
            starts: Map::empty(),
            ends: Map::empty(),
        },
    }
}

// --------------------------------------------------------- the invariant

/// The length so far of `s`'s chain under key `p`.
pub open spec fn len_of(s: Party, p: Seq<u8>) -> int {
    if p == s.state.dh_self_pub {
        s.state.send_count as int
    } else {
        s.ends[p] as int
    }
}

/// The numbers of the messages under key `p` that `r` has decrypted.
pub open spec fn got_on(r: Party, p: Seq<u8>) -> Set<u32> {
    Set::new(|n: u32| r.got.contains((p, n)))
}

/// Message `i` of `s` is the message of its number on the chain of its key.
pub open spec fn sent_ok(s: Party, i: int) -> bool {
    let m = s.sent[i];
    let p = m.h.dh_public@;
    &&& s.starts.contains_key(p)
    &&& (p == s.state.dh_self_pub || s.ends.contains_key(p))
    &&& sent_on_chain(s.starts[p], p, 0, m.pt, m.h, m.ct)
    &&& m.h.message_number < len_of(s, p)
    &&& (p == s.state.dh_self_pub ==> m.h.prev_chain_length == s.state.prev_send_count)
}

/// The sending side's own records agree with its state.
pub open spec fn sender_ok(s: Party) -> bool {
    let st = s.state;
    &&& st.wf()
    &&& !s.ends.contains_key(st.dh_self_pub)
    &&& (st.sending_chain is Some ==> s.starts.contains_key(st.dh_self_pub) && st.sending_chain == Some(
        chain_nth(s.starts[st.dh_self_pub], st.send_count as nat),
    ))
    &&& (st.sending_chain is None ==> {
        &&& s.sent.len() == 0
        &&& st.dh_remote is None
        &&& st.send_count == 0
        &&& st.receiving_chain is None
        &&& forall|p: Seq<u8>| !(#[trigger] s.starts.contains_key(p))
    })
    &&& forall|i: int| 0 <= i < s.sent.len() ==> #[trigger] sent_ok(s, i)
}

/// `r` receives `s`'s chain under its current peer key.
pub open spec fn current_ok(s: Party, r: Party) -> bool {
    let q = r.state.dh_remote.unwrap();
    &&& s.starts.contains_key(q)
    &&& receives_chain(r.state, s.starts[q], q, 0, got_on(r, q))
    &&& r.state.recv_count <= len_of(s, q)
}

/// `r` holds the keys of `s`'s closed chain under `p`.
pub open spec fn closed_ok(s: Party, r: Party, p: Seq<u8>) -> bool {
    &&& s.ends.contains_key(p)
    &&& holds_chain_keys(r.state, s.starts[p], p, 0, s.ends[p], got_on(r, p))
}

/// `s` sends on a chain that `r` has not seen yet.
pub open spec fn unseen(s: Party, r: Party) -> bool {
    s.state.sending_chain is Some && r.state.dh_remote != Some(s.state.dh_self_pub)
}

/// What holds while `r` has not seen `s`'s current chain: `s` has ratcheted
/// to `r`'s key, `r` holds no key and has decrypted no message of that
/// chain, and the chain it will close ends where `s`'s headers say.
pub open spec fn unseen_ok(s: Party, r: Party) -> bool {
    let st = s.state;
    let rt = r.state;
    &&& ratchet_pair(st, rt)
    &&& s.starts[st.dh_self_pub] == pair_chain(st, rt)
    &&& forall|n: u32| !(#[trigger] rt.skipped.contains_key((st.dh_self_pub, n)))
    &&& forall|n: u32| !(#[trigger] r.got.contains((st.dh_self_pub, n)))
    &&& (rt.receiving_chain is Some ==> s.ends.contains_key(rt.dh_remote.unwrap()) && s.ends[rt.dh_remote.unwrap()]
        == st.prev_send_count)
    &&& (rt.receiving_chain is None ==> st.prev_send_count == 0)
    &&& (rt.sending_chain is Some ==> st.receiving_chain is Some)
}

/// What `r` knows of `s`'s messages: stored keys and decrypted messages are
/// under `s`'s chain keys; its peer key is one of `s`'s keys; it receives
/// its current chain; it holds the keys of every closed chain it has moved
/// on from; and the unseen chain is as `unseen_ok` says.
pub open spec fn receiver_ok(s: Party, r: Party) -> bool {
    let st = s.state;
    let rt = r.state;
    &&& forall|k: (Seq<u8>, u32)| #[trigger] rt.skipped.contains_key(k) ==> s.starts.contains_key(k.0)
    &&& forall|k: (Seq<u8>, u32)| #[trigger] r.got.contains(k) ==> s.starts.contains_key(k.0)
    &&& (rt.dh_remote is Some ==> rt.dh_remote.unwrap() == st.dh_self_pub || s.starts.contains_key(
        rt.dh_remote.unwrap(),
    ) || s.ends.contains_key(rt.dh_remote.unwrap()))
    &&& (rt.receiving_chain is Some ==> current_ok(s, r))
    &&& (rt.receiving_chain is None ==> {
        &&& rt.recv_count == 0
        &&& (forall|k: (Seq<u8>, u32)| !(#[trigger] rt.skipped.contains_key(k)))
        &&& (forall|k: (Seq<u8>, u32)| !(#[trigger] r.got.contains(k)))
        &&& (rt.dh_remote is Some ==> !s.starts.contains_key(rt.dh_remote.unwrap()))
    })
    &&& forall|p: Seq<u8>|
        #[trigger] s.starts.contains_key(p) && p != st.dh_self_pub && rt.dh_remote != Some(p) ==> closed_ok(s, r, p)
    &&& (unseen(s, r) ==> unseen_ok(s, r))
}

/// The conversation's invariant.
pub open spec fn conversation_ok(w: World) -> bool {
    &&& sender_ok(w.a)
    &&& sender_ok(w.b)
    &&& receiver_ok(w.a, w.b)
    &&& receiver_ok(w.b, w.a)
}

// ------------------------------------------------------------ the proofs

/// A started conversation satisfies the invariant.
pub proof fn lemma_started_ok(shared_secret: Seq<u8>, receiver_secret: Seq<u8>, sender_secret: Seq<u8>)
    requires
        init_receiver_state(shared_secret, receiver_secret).wf(),
        init_sender_state(shared_secret, x25519_public(receiver_secret), sender_secret).wf(),
    ensures
        conversation_ok(started(shared_secret, receiver_secret, sender_secret)),
{
    let w = started(shared_secret, receiver_secret, sender_secret);
    crate::crypto::ratchet::law_started_pair(shared_secret, receiver_secret, sender_secret);
    assert(chain_nth(w.a.state.sending_chain.unwrap(), 0) == w.a.state.sending_chain.unwrap());
    assert(sender_ok(w.a));
    assert(sender_ok(w.b));
    assert(receiver_ok(w.a, w.b));
    assert(receiver_ok(w.b, w.a));
}

/// Sending keeps the invariant of both directions.
pub proof fn lemma_send_ok(s: Party, r: Party, pt: Seq<u8>, h: RatchetHeader, ct: Seq<u8>)
    requires
        sender_ok(s),
        receiver_ok(s, r),
        receiver_ok(r, s),
        encrypt_allowed(s.state),
        encryption_of(s.state, pt, h, ct),
    ensures
        sender_ok(after_send(s, pt, h, ct)),
        receiver_ok(after_send(s, pt, h, ct), r),
        receiver_ok(r, after_send(s, pt, h, ct)),
{
    let st = s.state;
    let s2 = after_send(s, pt, h, ct);
    let st2 = s2.state;
    assert(st.sending_chain is Some);
    assert(st2 == RatchetState {
        sending_chain: Some(crate::crypto::kdf::next_chain_key_of(st.sending_chain.unwrap())),
        send_count: (st.send_count + 1) as u32,
        ..st
    });
    law_sent_on_chain(st, s.starts[st.dh_self_pub], 0, pt, h, ct);
    assert forall|i: int| 0 <= i < s2.sent.len() implies #[trigger] sent_ok(s2, i) by {
        if i < s.sent.len() {
            assert(sent_ok(s, i));
            assert(s2.sent[i] == s.sent[i]);
        }
    }
    assert(sender_ok(s2));
    if unseen(s, r) {
        assert(unseen_ok(s, r));
        law_sending_keeps_pair(st, r.state);
        assert(pair_chain(st2, r.state) == pair_chain(st, r.state));
    }
    assert(receiver_ok(s2, r));
    assert(receiver_ok(r, s2)) by {
        if unseen(r, s2) {
            assert(unseen_ok(r, s));
            assert(ratchet_pair(r.state, st2));
        }
        if st2.receiving_chain is Some {
            assert(current_ok(r, s));
        }
        assert forall|p: Seq<u8>|
            #[trigger] r.starts.contains_key(p) && p != r.state.dh_self_pub && st2.dh_remote != Some(p) implies closed_ok(
            r,
            s2,
            p,
        ) by {
            assert(closed_ok(r, s, p));
            lemma_same_keys_held(st, st2, r.starts[p], p, 0, r.ends[p], got_on(s, p));
            assert(got_on(s2, p) == got_on(s, p));
        }
    }
}

/// Decrypting changes no stored key under any ratchet key but the message's
/// and the receiver's current peer key.
pub proof fn lemma_decrypt_frame(r: RatchetState, h: RatchetHeader, ct: Seq<u8>, fresh: Seq<u8>)
    requires
        r.wf(),
    ensures
        ({
            let r2 = spec_decrypt(r, h, ct, fresh).0;
            forall|k: (Seq<u8>, u32)|
                #![trigger r2.skipped.contains_key(k)]
                #![trigger r.skipped.contains_key(k)]
                k.0 != h.dh_public@ && (r.dh_remote != Some(k.0) || r.receiving_chain is None) ==> (r2.skipped.contains_key(k)
                    <==> r.skipped.contains_key(k)) && (r.skipped.contains_key(k) ==> r2.skipped[k] == r.skipped[k])
        }),
{
    let key = (h.dh_public@, h.message_number);
    let r2 = spec_decrypt(r, h, ct, fresh).0;
    if !r.skipped.contains_key(key) {
        let s1: RatchetState = if r.dh_remote != Some(h.dh_public@) {
            if spec_skip(r, h.prev_chain_length) is Ok {
                if r.dh_remote is Some && r.receiving_chain is Some {
                    lemma_skip_keeps_keys(r, h.prev_chain_length);
                } else {
                    assert(spec_skip(r, h.prev_chain_length)->Ok_0 == r);
                }
                dh_ratchet_state(spec_skip(r, h.prev_chain_length)->Ok_0, h.dh_public@, fresh)
            } else {
                r
            }
        } else {
            r
        };
        if r.dh_remote != Some(h.dh_public@) && spec_skip(r, h.prev_chain_length) is Err {
            assert(r2 == r);
        } else {
            assert(s1.dh_remote == Some(h.dh_public@));
            if spec_skip(s1, h.message_number) is Ok {
                lemma_skip_keeps_keys(s1, h.message_number);
                assert(r2.skipped == spec_skip(s1, h.message_number)->Ok_0.skipped);
            } else {
                assert(r2 == s1);
            }
        }
    }
}

/// A side whose state changed only in what it receives keeps its own
/// records and what the other side knows of its messages.
pub proof fn lemma_receiving_frame(r: Party, r2: Party, s: Party)
    requires
        sender_ok(r),
        receiver_ok(r, s),
        r2.state == (RatchetState {
            receiving_chain: r2.state.receiving_chain,
            recv_count: r2.state.recv_count,
            skipped: r2.state.skipped,
            ..r.state
        }),
        r2.sent == r.sent,
        r2.starts == r.starts,
        r2.ends == r.ends,
        r2.state.receiving_chain is Some <==> r.state.receiving_chain is Some,
    ensures
        sender_ok(r2),
        receiver_ok(r2, s),
{
    assert forall|i: int| 0 <= i < r2.sent.len() implies #[trigger] sent_ok(r2, i) by {
        assert(sent_ok(r, i));
    }
    if unseen(r2, s) {
        assert(unseen_ok(r, s));
    }
}

/// The facts that every case of a delivery starts from.
pub open spec fn deliver_pre(s: Party, r: Party, i: int, fresh: Seq<u8>) -> bool {
    &&& sender_ok(s)
    &&& sender_ok(r)
    &&& receiver_ok(s, r)
    &&& receiver_ok(r, s)
    &&& 0 <= i < s.sent.len()
    &&& !r.got.contains((s.sent[i].h.dh_public@, s.sent[i].h.message_number))
    &&& in_reach(r.state, s.sent[i].h)
    &&& fresh.len() == 32
    &&& dh_agrees(fresh, x25519_public(fresh))
    &&& x25519_public(fresh) != r.state.dh_self_pub
    &&& !r.starts.contains_key(x25519_public(fresh))
    &&& !r.ends.contains_key(x25519_public(fresh))
}

/// A message of the chain the receiver is on decrypts, and both directions
/// keep their invariant.
pub proof fn lemma_deliver_current(s: Party, r: Party, i: int, fresh: Seq<u8>)
    requires
        deliver_pre(s, r, i, fresh),
        r.state.dh_remote == Some(s.sent[i].h.dh_public@),
    ensures
        deliver_result(r, s, i, fresh) == Ok::<Seq<u8>, RatchetError>(s.sent[i].pt),
        sender_ok(after_deliver(r, s, i, fresh)),
        receiver_ok(s, after_deliver(r, s, i, fresh)),
        receiver_ok(after_deliver(r, s, i, fresh), s),
{
    let m = s.sent[i];
    let p = m.h.dh_public@;
    let n = m.h.message_number;
    let rt = r.state;
    assert(sent_ok(s, i));
    assert(rt.receiving_chain is Some);
    assert(current_ok(s, r));
    law_chain_messages_decrypt_in_any_order(rt, s.starts[p], p, 0, got_on(r, p), m.pt, m.h, m.ct, fresh);
    lemma_decrypt_frame(rt, m.h, m.ct, fresh);
    let r2 = after_deliver(r, s, i, fresh);
    let rt2 = r2.state;
    assert(rt2.dh_self_pub == rt.dh_self_pub);
    assert(r2.starts == r.starts && r2.ends == r.ends);
    assert(got_on(r2, p) == got_on(r, p).insert(n));
    lemma_receiving_frame(r, r2, s);
    assert(current_ok(s, r2));
    assert forall|p2: Seq<u8>|
        #[trigger] s.starts.contains_key(p2) && p2 != s.state.dh_self_pub && rt2.dh_remote != Some(p2) implies closed_ok(
        s,
        r2,
        p2,
    ) by {
        assert(closed_ok(s, r, p2));
        assert(got_on(r2, p2) == got_on(r, p2));
        lemma_same_keys_held(rt, rt2, s.starts[p2], p2, 0, s.ends[p2], got_on(r, p2));
    }
    assert forall|k: (Seq<u8>, u32)| #[trigger] rt2.skipped.contains_key(k) implies s.starts.contains_key(k.0) by {
        if k.0 != p {
            assert(rt.skipped.contains_key(k));
        }
    }
    if unseen(s, r2) {
        assert(unseen_ok(s, r));
        assert forall|n2: u32| !(#[trigger] rt2.skipped.contains_key((s.state.dh_self_pub, n2))) by {
            assert(!rt.skipped.contains_key((s.state.dh_self_pub, n2)));
        }
        assert(unseen_ok(s, r2));
    }
}

/// A late message of a closed chain decrypts with its stored key, and both
/// directions keep their invariant.
pub proof fn lemma_deliver_closed(s: Party, r: Party, i: int, fresh: Seq<u8>)
    requires
        deliver_pre(s, r, i, fresh),
        r.state.dh_remote != Some(s.sent[i].h.dh_public@),
        s.sent[i].h.dh_public@ != s.state.dh_self_pub,
    ensures
        deliver_result(r, s, i, fresh) == Ok::<Seq<u8>, RatchetError>(s.sent[i].pt),
        sender_ok(after_deliver(r, s, i, fresh)),
        receiver_ok(s, after_deliver(r, s, i, fresh)),
        receiver_ok(after_deliver(r, s, i, fresh), s),
{
    let m = s.sent[i];
    let p = m.h.dh_public@;
    let n = m.h.message_number;
    let key = (p, n);
    let rt = r.state;
    assert(sent_ok(s, i));
    assert(closed_ok(s, r, p));
    assert(key_held(rt, s.starts[p], p, 0, s.ends[p], got_on(r, p), n));
    assert(rt.skipped.contains_key(key));
    law_late_message_decrypts(rt, s.starts[p], p, 0, s.ends[p], got_on(r, p), m.pt, m.h, m.ct, fresh);
    let r2 = after_deliver(r, s, i, fresh);
    let rt2 = r2.state;
    assert(rt2 == RatchetState { skipped: rt.skipped.remove(key), ..rt });
    assert(rt.receiving_chain is Some);
    assert(got_on(r2, p) == got_on(r, p).insert(n));
    lemma_receiving_frame(r, r2, s);
    let q = rt.dh_remote.unwrap();
    assert(current_ok(s, r));
    assert(got_on(r2, q) == got_on(r, q));
    assert(receives_chain(rt2, s.starts[q], q, 0, got_on(r2, q))) by {
        assert forall|n2: u32| 0 <= n2 < rt2.recv_count && !got_on(r2, q).contains(n2) implies #[trigger] rt2.skipped.contains_key(
            (q, n2),
        ) && rt2.skipped[(q, n2)] == crate::crypto::kdf::message_key_of(chain_nth(s.starts[q], (n2 - 0) as nat)) by {
            assert(rt.skipped.contains_key((q, n2)));
        }
        assert forall|n2: u32| n2 >= rt2.recv_count implies !(#[trigger] rt2.skipped.contains_key((q, n2))) by {
            assert(!rt.skipped.contains_key((q, n2)));
        }
    }
    assert(current_ok(s, r2));
    assert forall|p2: Seq<u8>|
        #[trigger] s.starts.contains_key(p2) && p2 != s.state.dh_self_pub && rt2.dh_remote != Some(p2) implies closed_ok(
        s,
        r2,
        p2,
    ) by {
        assert(closed_ok(s, r, p2));
        if p2 != p {
            assert(got_on(r2, p2) == got_on(r, p2));
            lemma_same_keys_held(rt, rt2, s.starts[p2], p2, 0, s.ends[p2], got_on(r, p2));
        }
    }
    if unseen(s, r2) {
        assert(unseen_ok(s, r));
        assert(unseen_ok(s, r2));
    }
}

/// The first message of the sender's new chain to arrive decrypts; the
/// receiver ratchets, and both directions keep their invariant.
pub proof fn lemma_deliver_unseen(s: Party, r: Party, i: int, fresh: Seq<u8>)
    requires
        deliver_pre(s, r, i, fresh),
        r.state.dh_remote != Some(s.sent[i].h.dh_public@),
        s.sent[i].h.dh_public@ == s.state.dh_self_pub,
    ensures
        deliver_result(r, s, i, fresh) == Ok::<Seq<u8>, RatchetError>(s.sent[i].pt),
        sender_ok(after_deliver(r, s, i, fresh)),
        receiver_ok(s, after_deliver(r, s, i, fresh)),
        receiver_ok(after_deliver(r, s, i, fresh), s),
{
    let m = s.sent[i];
    let p = m.h.dh_public@;
    let n = m.h.message_number;
    let st = s.state;
    let rt = r.state;
    let f = x25519_public(fresh);
    assert(sent_ok(s, i));
    assert(st.sending_chain is Some);
    assert(unseen(s, r));
    assert(unseen_ok(s, r));
    assert(!rt.skipped.contains_key((p, n)));
    assert(n <= MAX_SKIP);
    let pn = m.h.prev_chain_length;
    assert(pn == st.prev_send_count);
    if rt.receiving_chain is Some {
        assert(current_ok(s, r));
        let q = rt.dh_remote.unwrap();
        assert(q != p);
        assert(rt.recv_count <= pn);
        assert(spec_skip(rt, pn) is Ok);
    } else {
        assert(spec_skip(rt, pn) is Ok);
    }
    lemma_unseen_chain_decrypts(st, rt, m.pt, m.h, m.ct, fresh);
    lemma_decrypt_frame(rt, m.h, m.ct, fresh);
    let r2 = after_deliver(r, s, i, fresh);
    let rt2 = r2.state;
    assert(rt2.dh_self_pub == f);
    assert(f != rt.dh_self_pub);
    assert(r2.starts == r.starts.insert(f, rt2.sending_chain.unwrap()));
    assert(r2.ends == r.ends.insert(rt.dh_self_pub, rt.send_count));
    assert(got_on(r2, p) == set![n]);
    // what the receiver knows of the sender's chains
    if rt.receiving_chain is Some {
        let q = rt.dh_remote.unwrap();
        law_new_key_keeps_old_chain(rt, s.starts[q], q, 0, got_on(r, q), m.h, m.ct, fresh);
        assert(got_on(r2, q) == got_on(r, q));
        assert(closed_ok(s, r2, q));
    }
    assert forall|p2: Seq<u8>|
        #[trigger] s.starts.contains_key(p2) && p2 != st.dh_self_pub && rt2.dh_remote != Some(p2) implies closed_ok(
        s,
        r2,
        p2,
    ) by {
        if rt.dh_remote != Some(p2) || rt.receiving_chain is None {
            if rt.dh_remote == Some(p2) {
                assert(false);
            }
            assert(closed_ok(s, r, p2));
            assert(got_on(r2, p2) == got_on(r, p2));
            lemma_same_keys_held(rt, rt2, s.starts[p2], p2, 0, s.ends[p2], got_on(r, p2));
        }
    }
    assert forall|k: (Seq<u8>, u32)| #[trigger] rt2.skipped.contains_key(k) implies s.starts.contains_key(k.0) by {
        if k.0 != p && (rt.dh_remote != Some(k.0) || rt.receiving_chain is None) {
            assert(rt.skipped.contains_key(k));
        } else if k.0 != p {
            assert(current_ok(s, r));
        }
    }
    assert(current_ok(s, r2));
    assert(receiver_ok(s, r2));
    // the receiver's own records
    assert(chain_nth(pair_chain(rt2, st), 0) == pair_chain(rt2, st));
    assert forall|j: int| 0 <= j < r2.sent.len() implies #[trigger] sent_ok(r2, j) by {
        assert(sent_ok(r, j));
    }
    assert(sender_ok(r2));
    // what the sender knows of the receiver's chains
    assert(st.dh_remote == Some(rt.dh_self_pub));
    if st.receiving_chain is Some {
        assert(current_ok(r, s));
        assert(current_ok(r2, s));
    } else {
        assert(rt.sending_chain is None);
        assert(rt.send_count == 0);
    }
    assert forall|p2: Seq<u8>|
        #[trigger] r2.starts.contains_key(p2) && p2 != rt2.dh_self_pub && st.dh_remote != Some(p2) implies closed_ok(
        r2,
        s,
        p2,
    ) by {
        assert(closed_ok(r, s, p2));
    }
    assert forall|n2: u32| !(#[trigger] st.skipped.contains_key((f, n2))) by {
        if st.skipped.contains_key((f, n2)) {
            assert(r.starts.contains_key(f));
        }
    }
    assert forall|n2: u32| !(#[trigger] s.got.contains((f, n2))) by {
        if s.got.contains((f, n2)) {
            assert(r.starts.contains_key(f));
        }
    }
    assert(unseen_ok(r2, s));
    assert(receiver_ok(r2, s));
}

/// Every step that can be taken decrypts what it takes and keeps the
/// invariant.
pub proof fn lemma_step_ok(w: World, st: Step)
    requires
        conversation_ok(w),
        step_ok(w, st),
    ensures
        step_delivers(w, st),
        conversation_ok(step(w, st)),
{
    match st {
        Step::Send { by_a, pt, h, ct } => {
            if by_a {
                lemma_send_ok(w.a, w.b, pt, h, ct);
            } else {
                lemma_send_ok(w.b, w.a, pt, h, ct);
            }
        },
        Step::Deliver { to_a, index, fresh } => {
            let (s, r) = if to_a { (w.b, w.a) } else { (w.a, w.b) };
            assert(deliver_pre(s, r, index, fresh));
            let p = s.sent[index].h.dh_public@;
            if r.state.dh_remote == Some(p) {
                lemma_deliver_current(s, r, index, fresh);
            } else if p == s.state.dh_self_pub {
                lemma_deliver_unseen(s, r, index, fresh);
            } else {
                lemma_deliver_closed(s, r, index, fresh);
            }
        },
    }
}

/// Every decryption of a run of steps that can all be taken gives its
/// message's plaintext.
pub proof fn lemma_run_delivers(w: World, steps: Seq<Step>)
    requires
        conversation_ok(w),
        run_ok(w, steps),
    ensures
        run_delivers(w, steps),
    decreases steps.len(),
{
    if steps.len() > 0 {
        lemma_step_ok(w, steps[0]);
        lemma_run_delivers(step(w, steps[0]), steps.drop_first());
    }
}

/// Law: in a conversation that a sender started against a receiver (the
/// same shared secret and the receiver's ratchet key), every message that
/// either side decrypts decrypts to the plaintext it was sent with, for
/// every order of events in which each step can be taken: each side
/// encrypts only where an encryption is allowed (so the receiver sends only
/// after it has received), each message is decrypted at most once, within
/// `MAX_SKIP` numbers of the receive counter on its chain (or of the start
/// of a new chain, whose announced predecessor also ends within reach), and
/// every ratchet secret drawn is fresh.
pub proof fn law_conversation_round_trip(
    shared_secret: Seq<u8>,
    receiver_secret: Seq<u8>,
    sender_secret: Seq<u8>,
    steps: Seq<Step>,
)
    requires
        init_receiver_state(shared_secret, receiver_secret).wf(),
        init_sender_state(shared_secret, x25519_public(receiver_secret), sender_secret).wf(),
        run_ok(started(shared_secret, receiver_secret, sender_secret), steps),
    ensures
        run_delivers(started(shared_secret, receiver_secret, sender_secret), steps),
{
    lemma_started_ok(shared_secret, receiver_secret, sender_secret);
    lemma_run_delivers(started(shared_secret, receiver_secret, sender_secret), steps);
}

} // verus!
