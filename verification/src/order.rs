//! The order in which dependencies are checked: by display name.

use vstd::prelude::*;
use crate::parse::{Dependency, DependencyModel};
use crate::text::{
    bytes_le_reflexive, bytes_le_total, bytes_le_transitive, text_before_or_equal, text_le,
};

verus! {

/// Whether `a` is checked no later than `b`: its display name comes before
/// that of `b`, or is the same.
pub open spec fn name_le(a: DependencyModel, b: DependencyModel) -> bool {
    text_le(a.display_name(), b.display_name())
}

/// Whether the display names never descend along `s`.
pub open spec fn in_name_order(s: Seq<DependencyModel>) -> bool {
    forall|i: int, j: int| 0 <= i < j < s.len() ==> name_le(s[i], s[j])
}

/// `sorted` with `d` put in front of the first dependency that it does not
/// come after.
pub open spec fn placed(d: DependencyModel, sorted: Seq<DependencyModel>) -> Seq<DependencyModel>
    decreases sorted.len(),
{
    if sorted.len() == 0 {
        seq![d]
    } else if name_le(d, sorted[0]) {
        seq![d] + sorted
    } else {
        seq![sorted[0]] + placed(d, sorted.drop_first())
    }
}

/// The dependencies of `s` by ascending display name. Dependencies of one
/// name keep the order that they have in `s`.
pub open spec fn by_name(s: Seq<DependencyModel>) -> Seq<DependencyModel>
    decreases s.len(),
{
    if s.len() == 0 {
        Seq::empty()
    } else {
        placed(s[0], by_name(s.drop_first()))
    }
}

proof fn placed_at(d: DependencyModel, sorted: Seq<DependencyModel>, p: int)
    requires
        0 <= p <= sorted.len(),
        forall|i: int| 0 <= i < p ==> !name_le(d, sorted[i]),
        p < sorted.len() ==> name_le(d, sorted[p]),
    ensures
        placed(d, sorted) == sorted.insert(p, d),
    decreases sorted.len(),
{
    if sorted.len() == 0 {
        assert(sorted.insert(p, d) =~= seq![d]);
    } else if p == 0 {
        assert(sorted.insert(p, d) =~= seq![d] + sorted);
    } else {
        let tail = sorted.drop_first();
        assert forall|i: int| 0 <= i < p - 1 implies !name_le(d, tail[i]) by {
            assert(tail[i] == sorted[i + 1]);
        }
        placed_at(d, tail, p - 1);
        assert(sorted.insert(p, d) =~= seq![sorted[0]] + tail.insert(p - 1, d));
    }
}

proof fn placed_keeps_order(d: DependencyModel, sorted: Seq<DependencyModel>)
    requires
        in_name_order(sorted),
    ensures
        in_name_order(placed(d, sorted)),
        placed(d, sorted).len() == sorted.len() + 1,
        placed(d, sorted).to_multiset() == sorted.to_multiset().insert(d),
        forall|e: DependencyModel| #[trigger]
            placed(d, sorted).contains(e) ==> e == d || sorted.contains(e),
    decreases sorted.len(),
{
    broadcast use vstd::seq_lib::group_to_multiset_ensures;

    let r = placed(d, sorted);
    if sorted.len() == 0 {
        assert(r =~= Seq::<DependencyModel>::empty().push(d));
        assert(sorted =~= Seq::<DependencyModel>::empty());
    } else if name_le(d, sorted[0]) {
        assert(r =~= sorted.insert(0, d));
        assert forall|i: int, j: int| 0 <= i < j < r.len() implies name_le(r[i], r[j]) by {
            if i == 0 {
                if j > 1 {
                    assert(name_le(sorted[0], sorted[j - 1]));
                    bytes_le_transitive(
                        vstd::utf8::encode_utf8(d.display_name()),
                        vstd::utf8::encode_utf8(sorted[0].display_name()),
                        vstd::utf8::encode_utf8(sorted[j - 1].display_name()),
                    );
                }
            } else {
                assert(name_le(sorted[i - 1], sorted[j - 1]));
            }
        }
        vstd::seq_lib::to_multiset_insert(sorted, 0, d);
        assert forall|e: DependencyModel| #[trigger] r.contains(e) implies e == d
            || sorted.contains(e) by {
            let k = choose|k: int| 0 <= k < r.len() && r[k] == e;
            if k > 0 {
                assert(sorted[k - 1] == e);
            }
        }
    } else {
        let head = sorted[0];
        let tail = sorted.drop_first();
        assert forall|i: int, j: int| 0 <= i < j < tail.len() implies name_le(tail[i], tail[j]) by {
            assert(name_le(sorted[i + 1], sorted[j + 1]));
        }
        placed_keeps_order(d, tail);
        let rest = placed(d, tail);
        assert(r =~= rest.insert(0, head));
        assert forall|i: int, j: int| 0 <= i < j < r.len() implies name_le(r[i], r[j]) by {
            if i == 0 {
                let e = rest[j - 1];
                assert(rest.contains(e));
                if e == d {
                    bytes_le_total(
                        vstd::utf8::encode_utf8(d.display_name()),
                        vstd::utf8::encode_utf8(head.display_name()),
                    );
                } else {
                    assert(tail.contains(e));
                    let k = choose|k: int| 0 <= k < tail.len() && tail[k] == e;
                    assert(name_le(sorted[0], sorted[k + 1]));
                }
            } else {
                assert(name_le(rest[i - 1], rest[j - 1]));
            }
        }
        vstd::seq_lib::to_multiset_insert(rest, 0, head);
        assert(sorted =~= tail.insert(0, head));
        vstd::seq_lib::to_multiset_insert(tail, 0, head);
        assert(r.to_multiset() =~= sorted.to_multiset().insert(d));
        assert forall|e: DependencyModel| #[trigger] r.contains(e) implies e == d
            || sorted.contains(e) by {
            let k = choose|k: int| 0 <= k < r.len() && r[k] == e;
            if k == 0 {
                assert(sorted[0] == e);
            } else {
                assert(rest.contains(rest[k - 1]));
                if e != d {
                    let m = choose|m: int| 0 <= m < tail.len() && tail[m] == e;
                    assert(sorted[m + 1] == e);
                }
            }
        }
    }
}

/// Sorting by name gives the same dependencies, each as often as before,
/// with display names that never descend.
pub proof fn by_name_sorts(s: Seq<DependencyModel>)
    ensures
        in_name_order(by_name(s)),
        by_name(s).len() == s.len(),
        by_name(s).to_multiset() == s.to_multiset(),
    decreases s.len(),
{
    broadcast use vstd::seq_lib::group_to_multiset_ensures;

    if s.len() == 0 {
        assert(by_name(s) =~= s);
    } else {
        let tail = s.drop_first();
        by_name_sorts(tail);
        placed_keeps_order(s[0], by_name(tail));
        assert(s =~= tail.insert(0, s[0]));
        vstd::seq_lib::to_multiset_insert(tail, 0, s[0]);
    }
}

/// The dependencies of `s` that bear the display name `name`, in the order
/// that they have in `s`.
pub open spec fn named(s: Seq<DependencyModel>, name: Seq<char>) -> Seq<DependencyModel> {
    s.filter(|d: DependencyModel| d.display_name() == name)
}

proof fn named_of_one(d: DependencyModel, name: Seq<char>)
    ensures
        named(seq![d], name) == if d.display_name() == name {
            seq![d]
        } else {
            Seq::<DependencyModel>::empty()
        },
{
    reveal_with_fuel(Seq::filter, 2);
    let one = seq![d];
    assert(one.drop_last() =~= Seq::<DependencyModel>::empty());
    assert(one.last() == d);
    assert(Seq::<DependencyModel>::empty().push(d) =~= one);
}

proof fn placed_keeps_named(d: DependencyModel, sorted: Seq<DependencyModel>, name: Seq<char>)
    ensures
        named(placed(d, sorted), name) == named(seq![d], name) + named(sorted, name),
    decreases sorted.len(),
{
    let of_name = |e: DependencyModel| e.display_name() == name;
    if sorted.len() == 0 {
        assert(sorted.filter(of_name) =~= Seq::<DependencyModel>::empty());
        assert(named(seq![d], name) + Seq::<DependencyModel>::empty() =~= named(seq![d], name));
    } else if name_le(d, sorted[0]) {
        Seq::filter_distributes_over_add(seq![d], sorted, of_name);
    } else {
        let head = sorted[0];
        let tail = sorted.drop_first();
        placed_keeps_named(d, tail, name);
        Seq::filter_distributes_over_add(seq![head], placed(d, tail), of_name);
        Seq::filter_distributes_over_add(seq![head], tail, of_name);
        assert(sorted =~= seq![head] + tail);
        named_of_one(head, name);
        named_of_one(d, name);
        if d.display_name() == name {
            bytes_le_reflexive(vstd::utf8::encode_utf8(name));
            assert(head.display_name() != name);
        }
        assert(named(seq![head], name) + (named(seq![d], name) + named(tail, name)) =~= named(
            seq![d],
            name,
        ) + (named(seq![head], name) + named(tail, name)));
    }
}

/// Sorting by name is stable: the dependencies of any one display name stand
/// in the sorted sequence as they stand in `s`, in the same order.
pub proof fn by_name_is_stable(s: Seq<DependencyModel>, name: Seq<char>)
    ensures
        named(by_name(s), name) == named(s, name),
    decreases s.len(),
{
    let of_name = |e: DependencyModel| e.display_name() == name;
    if s.len() == 0 {
        assert(by_name(s) =~= s);
    } else {
        let tail = s.drop_first();
        by_name_is_stable(tail, name);
        placed_keeps_named(s[0], by_name(tail), name);
        Seq::filter_distributes_over_add(seq![s[0]], tail, of_name);
        assert(s =~= seq![s[0]] + tail);
    }
}

/// Whether `a` is checked no later than `b`.
pub fn precedes(a: &Dependency, b: &Dependency) -> (le: bool)
    ensures
        le == name_le(a@, b@),
{
    let x = a.fullname();
    let y = b.fullname();
    text_before_or_equal(x.as_str(), y.as_str())
}

fn place_of(d: &Dependency, sorted: &Vec<Dependency>) -> (p: usize)
    ensures
        p <= sorted.len(),
        forall|i: int| 0 <= i < p ==> !name_le(d@, sorted[i]@),
        p < sorted.len() ==> name_le(d@, sorted[p as int]@),
{
    let mut p: usize = 0;
    while p < sorted.len()
        invariant
            p <= sorted.len(),
            forall|i: int| 0 <= i < p ==> !name_le(d@, sorted[i]@),
        decreases sorted.len() - p,
    {
        if precedes(d, &sorted[p]) {
            return p;
        }
        p += 1;
    }
    p
}

/// Sorts the dependencies by ascending display name. Dependencies of one
/// name keep their order.
pub fn sort_by_name(deps: Vec<Dependency>) -> (sorted: Vec<Dependency>)
    ensures
        sorted.deep_view() == by_name(deps.deep_view()),
{
    let ghost all = deps.deep_view();
    let mut rest = deps;
    let mut sorted: Vec<Dependency> = Vec::new();
    assert(all.skip(all.len() as int) =~= Seq::<DependencyModel>::empty());
    assert(sorted.deep_view() =~= Seq::<DependencyModel>::empty());
    while rest.len() > 0
        invariant
            rest.len() <= all.len(),
            rest.deep_view() == all.take(rest.len() as int),
            sorted.deep_view() == by_name(all.skip(rest.len() as int)),
        decreases rest.len(),
    {
        let ghost n = rest.len() as int;
        let ghost before = sorted.deep_view();
        let ghost rest_before = rest.deep_view();
        let d = rest.pop().unwrap();
        let p = place_of(&d, &sorted);
        proof {
            assert(d@ == rest_before[n - 1]);
            assert(d@ == all[n - 1]);
            assert(rest.deep_view() =~= all.take(n - 1));
            assert forall|i: int| 0 <= i < p implies !name_le(d@, before[i]) by {
                assert(before[i] == sorted[i]@);
            }
            if p < sorted.len() {
                assert(before[p as int] == sorted[p as int]@);
            }
            placed_at(d@, before, p as int);
            assert(all.skip(n - 1).drop_first() =~= all.skip(n));
            assert(all.skip(n - 1)[0] == d@);
        }
        sorted.insert(p, d);
        assert(sorted.deep_view() =~= before.insert(p as int, d@));
    }
    assert(all.skip(0) =~= all);
    sorted
}

} // verus!
