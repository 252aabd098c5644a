//! Edits of member lists and id lists: removing a member or an id, setting
//! a member's mute flag, and asking whether an id is listed.
use vstd::prelude::*;

use crate::backend::state::{
    find_member, first_index, member_is, member_view, members_view, texts_view, Member, MemberView, Role,
};

verus! {

/// Members other than `uid`.
pub open spec fn not_member(uid: Seq<char>) -> spec_fn(MemberView) -> bool {
    |m: MemberView| m.user_id != uid
}

/// Ids other than `uid`.
pub open spec fn not_id(uid: Seq<char>) -> spec_fn(Seq<char>) -> bool {
    |x: Seq<char>| x != uid
}

/// `members` with the first entry of `uid` muted or unmuted.
pub open spec fn set_muted(members: Seq<MemberView>, uid: Seq<char>, muted: bool) -> Seq<MemberView> {
    match first_index(members, member_is(uid)) {
        Some(j) => members.update(j, MemberView { muted, ..members[j] }),
        None => members,
    }
}

/// `members` with the first entry of `uid` given role `r`.
pub open spec fn set_role(members: Seq<MemberView>, uid: Seq<char>, r: Role) -> Seq<MemberView> {
    match first_index(members, member_is(uid)) {
        Some(j) => members.update(j, MemberView { role: r, ..members[j] }),
        None => members,
    }
}

/// `members` with the first entry of `uid` renamed to `name`.
pub open spec fn set_name(members: Seq<MemberView>, uid: Seq<char>, name: Seq<char>) -> Seq<MemberView> {
    match first_index(members, member_is(uid)) {
        Some(j) => members.update(j, MemberView { display_name: name, ..members[j] }),
        None => members,
    }
}

/// Whether `ids` holds `uid`.
pub open spec fn holds_id(ids: Seq<Seq<char>>, uid: Seq<char>) -> bool {
    exists|i: int| 0 <= i < ids.len() && ids[i] == uid
}

/// Removes every entry of `uid`.
pub fn remove_member(members: &mut Vec<Member>, uid: &String)
    ensures
        members_view(final(members)@) == members_view(old(members)@).filter(not_member(uid@)),
{
    let ghost orig = members@;
    let ghost v = members_view(orig);
    let mut kept: Vec<Member> = Vec::new();
    let mut k: usize = 0;
    assert(v.subrange(0, 0).filter(not_member(uid@)) =~= Seq::<MemberView>::empty()) by {
        reveal_with_fuel(Seq::filter, 1);
    }
    let n = members.len();
    assert(members@ =~= orig.subrange(0, orig.len() as int));
    while members.len() > 0
        invariant
            k <= orig.len(),
            orig.len() == n,
            v == members_view(orig),
            members@ == orig.subrange(k as int, orig.len() as int),
            members_view(kept@) == v.subrange(0, k as int).filter(not_member(uid@)),
        decreases members@.len(),
    {
        let m = members.remove(0);
        assert(member_view(m) == v[k as int]);
        assert(v.subrange(0, k + 1).drop_last() =~= v.subrange(0, k as int));
        assert(v.subrange(0, k + 1).last() == v[k as int]);
        let ghost before = kept@;
        let keep = m.user_id != *uid;
        if keep {
            kept.push(m);
            assert(members_view(kept@) =~= members_view(before).push(v[k as int]));
        }
        assert(v.subrange(0, k + 1).filter(not_member(uid@)) == members_view(kept@)) by {
            reveal_with_fuel(Seq::filter, 1);
        }
        k = k + 1;
        assert(members@ =~= orig.subrange(k as int, orig.len() as int));
    }
    assert(v.subrange(0, k as int) =~= v);
    *members = kept;
}

/// Removes every occurrence of `uid`.
pub fn remove_id(ids: &mut Vec<String>, uid: &String)
    ensures
        texts_view(final(ids)@) == texts_view(old(ids)@).filter(not_id(uid@)),
{
    let ghost orig = ids@;
    let ghost v = texts_view(orig);
    let mut kept: Vec<String> = Vec::new();
    let mut k: usize = 0;
    assert(v.subrange(0, 0).filter(not_id(uid@)) =~= Seq::<Seq<char>>::empty()) by {
        reveal_with_fuel(Seq::filter, 1);
    }
    let n = ids.len();
    assert(ids@ =~= orig.subrange(0, orig.len() as int));
    while ids.len() > 0
        invariant
            k <= orig.len(),
            orig.len() == n,
            v == texts_view(orig),
            ids@ == orig.subrange(k as int, orig.len() as int),
            texts_view(kept@) == v.subrange(0, k as int).filter(not_id(uid@)),
        decreases ids@.len(),
    {
        let x = ids.remove(0);
        assert(x@ == v[k as int]);
        assert(v.subrange(0, k + 1).drop_last() =~= v.subrange(0, k as int));
        assert(v.subrange(0, k + 1).last() == v[k as int]);
        let ghost before = kept@;
        let keep = x != *uid;
        if keep {
            kept.push(x);
            assert(texts_view(kept@) =~= texts_view(before).push(v[k as int]));
        }
        assert(v.subrange(0, k + 1).filter(not_id(uid@)) == texts_view(kept@)) by {
            reveal_with_fuel(Seq::filter, 1);
        }
        k = k + 1;
        assert(ids@ =~= orig.subrange(k as int, orig.len() as int));
    }
    assert(v.subrange(0, k as int) =~= v);
    *ids = kept;
}

/// Sets the mute flag of the first entry of `uid`.
pub fn set_muted_exec(members: &mut Vec<Member>, uid: &String, muted: bool)
    ensures
        members_view(final(members)@) == set_muted(members_view(old(members)@), uid@, muted),
{
    let ghost v = members_view(members@);
    match find_member(members, uid) {
        Some(j) => {
            let mut m = members.remove(j);
            m.muted = muted;
            members.insert(j, m);
            assert(members_view(members@) =~= set_muted(v, uid@, muted));
        },
        None => {},
    }
}

/// Gives the first entry of `uid` role `r`.
pub fn set_role_exec(members: &mut Vec<Member>, uid: &String, r: Role)
    ensures
        members_view(final(members)@) == set_role(members_view(old(members)@), uid@, r),
{
    let ghost v = members_view(members@);
    match find_member(members, uid) {
        Some(j) => {
            let mut m = members.remove(j);
            m.role = r;
            members.insert(j, m);
            assert(members_view(members@) =~= set_role(v, uid@, r));
        },
        None => {},
    }
}

/// Renames the first entry of `uid` to `name`.
pub fn set_name_exec(members: &mut Vec<Member>, uid: &String, name: String)
    ensures
        members_view(final(members)@) == set_name(members_view(old(members)@), uid@, name@),
{
    let ghost v = members_view(members@);
    let ghost nm = name@;
    match find_member(members, uid) {
        Some(j) => {
            let mut m = members.remove(j);
            m.display_name = name;
            members.insert(j, m);
            assert(members_view(members@) =~= set_name(v, uid@, nm));
        },
        None => {},
    }
}

/// Whether `ids` holds `uid`.
pub fn holds_id_exec(ids: &Vec<String>, uid: &String) -> (res: bool)
    ensures
        res == holds_id(texts_view(ids@), uid@),
{
    let ghost v = texts_view(ids@);
    let mut i: usize = 0;
    while i < ids.len()
        invariant
            i <= ids@.len(),
            v == texts_view(ids@),
            forall|j: int| 0 <= j < i ==> v[j] != uid@,
        decreases ids@.len() - i,
    {
        if ids[i] == *uid {
            assert(v[i as int] == uid@);
            return true;
        }
        i = i + 1;
    }
    false
}

} // verus!
