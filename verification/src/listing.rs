//! A listing of packages, brought down to one package for each name.

use crate::package::Package;
use vstd::prelude::*;

verus! {

/// Whether a package called `name` is among `packages`.
pub open spec fn lists(packages: Seq<Package>, name: Seq<char>) -> bool {
    exists|k: int| 0 <= k < packages.len() && (#[trigger] packages[k]).name@ == name
}

/// Whether one of `pairs` stands under `name`.
pub open spec fn has_key(pairs: Seq<(Seq<char>, Package)>, name: Seq<char>) -> bool {
    exists|i: int| 0 <= i < pairs.len() && (#[trigger] pairs[i]).0 == name
}

/// Whether no package after the one at `k` has the same name.
pub open spec fn is_last_of_its_name(packages: Seq<Package>, k: int) -> bool {
    &&& 0 <= k < packages.len()
    &&& forall|m: int|
        k < m < packages.len() ==> (#[trigger] packages[m]).name@ != packages[k].name@
}

/// Whether `package` is listed among `packages` and no package after it
/// has the same name.
pub open spec fn is_last_listed(packages: Seq<Package>, package: Package) -> bool {
    exists|k: int| #[trigger] is_last_of_its_name(packages, k) && packages[k] == package
}

/// One pair for each name among `packages`: the name, and the last package
/// that is listed under it.  The pairs stand in the order in which these
/// packages are listed.
pub open spec fn last_of_each_name(packages: Seq<Package>) -> Seq<(Seq<char>, Package)>
    decreases packages.len(),
{
    if packages.len() == 0 {
        Seq::empty()
    } else if lists(packages.drop_first(), packages.first().name@) {
        last_of_each_name(packages.drop_first())
    } else {
        seq![(packages.first().name@, packages.first())] + last_of_each_name(
            packages.drop_first(),
        )
    }
}

/// The pairs of a reply with the names read as sequences of characters.
pub open spec fn pairs_view(pairs: Seq<(String, Package)>) -> Seq<(Seq<char>, Package)> {
    pairs.map_values(|pair: (String, Package)| (pair.0@, pair.1))
}

/// A name is listed either by the first package or by one of the others.
proof fn lists_unfolds(packages: Seq<Package>, name: Seq<char>)
    requires
        packages.len() > 0,
    ensures
        lists(packages, name) == (packages.first().name@ == name || lists(
            packages.drop_first(),
            name,
        )),
{
    let rest = packages.drop_first();
    if lists(packages, name) {
        let k = choose|k: int| 0 <= k < packages.len() && (#[trigger] packages[k]).name@ == name;
        if k > 0 {
            assert(rest[k - 1].name@ == name);
        }
    }
    if lists(rest, name) {
        let k = choose|k: int| 0 <= k < rest.len() && (#[trigger] rest[k]).name@ == name;
        assert(packages[k + 1].name@ == name);
    }
    if packages.first().name@ == name {
        assert(packages[0].name@ == name);
    }
}

/// The names under which the pairs stand are the names of the listing,
/// all of them and no others.
pub proof fn every_name_is_kept(packages: Seq<Package>, name: Seq<char>)
    ensures
        has_key(last_of_each_name(packages), name) == lists(packages, name),
    decreases packages.len(),
{
    let pairs = last_of_each_name(packages);
    if packages.len() > 0 {
        let first = packages.first();
        let rest = packages.drop_first();
        let others = last_of_each_name(rest);
        every_name_is_kept(rest, name);
        every_name_is_kept(rest, first.name@);
        lists_unfolds(packages, name);
        if lists(rest, first.name@) {
        } else {
            assert(pairs == seq![(first.name@, first)] + others);
            if has_key(pairs, name) {
                let i = choose|i: int| 0 <= i < pairs.len() && (#[trigger] pairs[i]).0 == name;
                if i > 0 {
                    assert(others[i - 1].0 == name);
                }
            }
            if has_key(others, name) {
                let i = choose|i: int| 0 <= i < others.len() && (#[trigger] others[i]).0 == name;
                assert(pairs[i + 1].0 == name);
            }
            if first.name@ == name {
                assert(pairs[0].0 == name);
            }
        }
    }
}

/// No name stands twice among the pairs.
pub proof fn no_name_is_kept_twice(packages: Seq<Package>)
    ensures
        forall|i: int, j: int|
            0 <= i < j < last_of_each_name(packages).len() ==> (#[trigger] last_of_each_name(
                packages,
            )[i]).0 != (#[trigger] last_of_each_name(packages)[j]).0,
    decreases packages.len(),
{
    let pairs = last_of_each_name(packages);
    if packages.len() > 0 {
        let first = packages.first();
        let rest = packages.drop_first();
        let others = last_of_each_name(rest);
        no_name_is_kept_twice(rest);
        if !lists(rest, first.name@) {
            every_name_is_kept(rest, first.name@);
            assert(pairs == seq![(first.name@, first)] + others);
            assert forall|i: int, j: int| 0 <= i < j < pairs.len() implies (#[trigger] pairs[i]).0
                != (#[trigger] pairs[j]).0 by {
                assert(pairs[j] == others[j - 1]);
                if i == 0 {
                    if others[j - 1].0 == first.name@ {
                        assert(has_key(others, first.name@));
                    }
                } else {
                    assert(pairs[i] == others[i - 1]);
                }
            }
        }
    }
}

/// Each pair holds a package of the listing under its own name, and no
/// later package of the listing has that name.
pub proof fn the_last_of_a_name_is_kept(packages: Seq<Package>, i: int) -> (k: int)
    requires
        0 <= i < last_of_each_name(packages).len(),
    ensures
        is_last_of_its_name(packages, k),
        last_of_each_name(packages)[i] == (packages[k].name@, packages[k]),
    decreases packages.len(),
{
    let pairs = last_of_each_name(packages);
    let first = packages.first();
    let rest = packages.drop_first();
    let others = last_of_each_name(rest);
    if lists(rest, first.name@) {
        let k = the_last_of_a_name_is_kept(rest, i);
        assert(rest[k] == packages[k + 1]);
        assert forall|m: int| k + 1 < m < packages.len() implies (#[trigger] packages[m]).name@
            != packages[k + 1].name@ by {
            assert(rest[m - 1] == packages[m]);
        }
        k + 1
    } else {
        assert(pairs == seq![(first.name@, first)] + others);
        if i == 0 {
            assert forall|m: int| 0 < m < packages.len() implies (#[trigger] packages[m]).name@
                != packages[0].name@ by {
                assert(rest[m - 1] == packages[m]);
            }
            0
        } else {
            assert(pairs[i] == others[i - 1]);
            let k = the_last_of_a_name_is_kept(rest, i - 1);
            assert(rest[k] == packages[k + 1]);
            assert forall|m: int| k + 1 < m < packages.len() implies (#[trigger] packages[m]).name@
                != packages[k + 1].name@ by {
                assert(rest[m - 1] == packages[m]);
            }
            k + 1
        }
    }
}

/// Looks for a pair that stands under `name`.
fn holds_name(pairs: &Vec<(String, Package)>, name: &String) -> (found: bool)
    ensures
        found == has_key(pairs_view(pairs@), name@),
{
    let mut i: usize = 0;
    while i < pairs.len()
        invariant
            i <= pairs.len(),
            forall|k: int| 0 <= k < i ==> (#[trigger] pairs_view(pairs@)[k]).0 != name@,
        decreases pairs.len() - i,
    {
        if pairs[i].0 == *name {
            assert(pairs_view(pairs@)[i as int].0 == name@);
            return true;
        }
        i += 1;
    }
    false
}

/// Puts each package of a listing under its own name.  Of several packages
/// with one name only the last is kept, so that no name stands twice.
pub fn by_name(packages: Vec<Package>) -> (pairs: Vec<(String, Package)>)
    ensures
        pairs_view(pairs@) == last_of_each_name(packages@),
        forall|i: int, j: int|
            0 <= i < j < pairs@.len() ==> (#[trigger] pairs@[i]).0@ != (#[trigger] pairs@[j]).0@,
        forall|i: int|
            0 <= i < pairs@.len() ==> (#[trigger] pairs@[i]).0@ == pairs@[i].1.name@
                && is_last_listed(packages@, pairs@[i].1),
{
    let mut rest = packages;
    let mut kept: Vec<(String, Package)> = Vec::new();
    while rest.len() > 0
        invariant
            rest@ == packages@.take(rest@.len() as int),
            rest@.len() <= packages@.len(),
            kept@.len() == last_of_each_name(packages@.skip(rest@.len() as int)).len(),
            forall|i: int|
                0 <= i < kept@.len() ==> (#[trigger] pairs_view(kept@)[i]) == last_of_each_name(
                    packages@.skip(rest@.len() as int),
                )[kept@.len() - 1 - i],
        decreases rest@.len(),
    {
        let ghost n = rest@.len() as int;
        let ghost later = packages@.skip(n);
        let ghost tail = packages@.skip(n - 1);
        let ghost before = pairs_view(kept@);
        let package = rest.pop().unwrap();
        proof {
            assert(package == packages@[n - 1]);
            assert(tail.first() == package);
            assert(tail.drop_first() =~= later);
            assert(rest@ =~= packages@.take(n - 1));
            every_name_is_kept(later, package.name@);
            if has_key(before, package.name@) {
                let i = choose|i: int|
                    0 <= i < before.len() && (#[trigger] before[i]).0 == package.name@;
                assert(last_of_each_name(later)[before.len() - 1 - i].0 == package.name@);
            }
            if has_key(last_of_each_name(later), package.name@) {
                let j = choose|j: int|
                    0 <= j < last_of_each_name(later).len() && (#[trigger] last_of_each_name(
                        later,
                    )[j]).0 == package.name@;
                assert(before[before.len() - 1 - j].0 == package.name@);
            }
        }
        if !holds_name(&kept, &package.name) {
            let name = package.name.clone();
            kept.push((name, package));
            proof {
                assert(last_of_each_name(tail) == seq![(package.name@, package)]
                    + last_of_each_name(later));
                assert forall|i: int| 0 <= i < kept@.len() implies (#[trigger] pairs_view(
                    kept@,
                )[i]) == last_of_each_name(tail)[kept@.len() - 1 - i] by {
                    if i < before.len() {
                        assert(pairs_view(kept@)[i] == before[i]);
                    }
                }
            }
        } else {
            proof {
                assert(last_of_each_name(tail) == last_of_each_name(later));
            }
        }
    }
    assert(packages@.skip(0) =~= packages@);
    let ghost wanted = last_of_each_name(packages@);
    let mut pairs: Vec<(String, Package)> = Vec::new();
    while kept.len() > 0
        invariant
            pairs@.len() + kept@.len() == wanted.len(),
            forall|i: int|
                0 <= i < kept@.len() ==> (#[trigger] pairs_view(kept@)[i]) == wanted[wanted.len()
                    - 1 - i],
            forall|i: int| 0 <= i < pairs@.len() ==> (#[trigger] pairs_view(pairs@)[i]) == wanted[i],
        decreases kept@.len(),
    {
        let ghost held = pairs_view(kept@);
        let ghost done = pairs_view(pairs@);
        let pair = kept.pop().unwrap();
        assert((pair.0@, pair.1) == held[held.len() - 1]);
        pairs.push(pair);
        assert forall|i: int| 0 <= i < pairs@.len() implies (#[trigger] pairs_view(pairs@)[i])
            == wanted[i] by {
            if i < done.len() {
                assert(pairs_view(pairs@)[i] == done[i]);
            }
        }
        assert forall|i: int| 0 <= i < kept@.len() implies (#[trigger] pairs_view(kept@)[i])
            == wanted[wanted.len() - 1 - i] by {
            assert(pairs_view(kept@)[i] == held[i]);
        }
    }
    proof {
        assert(pairs_view(pairs@) =~= wanted);
        no_name_is_kept_twice(packages@);
        assert forall|i: int, j: int| 0 <= i < j < pairs@.len() implies (#[trigger] pairs@[i]).0@
            != (#[trigger] pairs@[j]).0@ by {
            assert(pairs_view(pairs@)[i].0 == pairs@[i].0@);
            assert(pairs_view(pairs@)[j].0 == pairs@[j].0@);
        }
        assert forall|i: int| 0 <= i < pairs@.len() implies (#[trigger] pairs@[i]).0@
            == pairs@[i].1.name@ && is_last_listed(packages@, pairs@[i].1) by {
            let k = the_last_of_a_name_is_kept(packages@, i);
            assert(pairs_view(pairs@)[i] == (pairs@[i].0@, pairs@[i].1));
            assert(is_last_of_its_name(packages@, k) && packages@[k] == pairs@[i].1);
        }
    }
    pairs
}

} // verus!
