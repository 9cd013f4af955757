//! Lists of texts: the flags and arguments of a command line.

use vstd::prelude::*;

verus! {

/// One flag if `on`, nothing otherwise.
pub open spec fn flag_if(on: bool, text: Seq<char>) -> Seq<Seq<char>> {
    if on {
        seq![text]
    } else {
        seq![]
    }
}

/// Every text of `want` occurs in `have`.
pub open spec fn covers(have: Seq<Seq<char>>, want: Seq<Seq<char>>) -> bool {
    forall|j: int| 0 <= j < want.len() ==> have.contains(#[trigger] want[j])
}

/// A text occurs in two lists put together exactly when it occurs in one
/// of them.
pub proof fn occurs_in_either(front: Seq<Seq<char>>, back: Seq<Seq<char>>, text: Seq<char>)
    ensures
        (front + back).contains(text) == (front.contains(text) || back.contains(text)),
{
    let both = front + back;
    if both.contains(text) {
        let i = choose|i: int| 0 <= i < both.len() && both[i] == text;
        if i < front.len() {
            assert(front[i] == text);
        } else {
            assert(back[i - front.len()] == text);
        }
    }
    if front.contains(text) {
        let i = choose|i: int| 0 <= i < front.len() && front[i] == text;
        assert(both[i] == text);
    }
    if back.contains(text) {
        let i = choose|i: int| 0 <= i < back.len() && back[i] == text;
        assert(both[front.len() + i] == text);
    }
}

/// A text occurs in what `flag_if` gives exactly when the flag is on and
/// is that text.
pub proof fn occurs_in_flag(on: bool, flag: Seq<char>, text: Seq<char>)
    ensures
        flag_if(on, flag).contains(text) == (on && flag == text),
{
    if on {
        assert(flag_if(on, flag)[0] == flag);
    }
}

/// Whether `text` occurs in `have`.
fn holds(have: &[String], text: &String) -> (found: bool)
    ensures
        found == have.deep_view().contains(text@),
{
    let mut i: usize = 0;
    while i < have.len()
        invariant
            i <= have.len(),
            forall|k: int| 0 <= k < i ==> have.deep_view()[k] != text@,
        decreases have.len() - i,
    {
        if have[i] == *text {
            assert(have.deep_view()[i as int] == text@);
            return true;
        }
        i += 1;
    }
    false
}

/// Whether every text of `want` occurs in `have`.
///
/// The texts are compared one by one: of a hash set keyed by `String`
/// vstd states nothing, so nothing could be proved of a lookup in one.
pub fn contains(have: &[String], want: &[String]) -> (all: bool)
    ensures
        all == covers(have.deep_view(), want.deep_view()),
{
    let mut j: usize = 0;
    while j < want.len()
        invariant
            j <= want.len(),
            forall|k: int| 0 <= k < j ==> have.deep_view().contains(#[trigger] want.deep_view()[k]),
        decreases want.len() - j,
    {
        if !holds(have, &want[j]) {
            assert(want.deep_view()[j as int] == want[j as int]@);
            return false;
        }
        assert(want.deep_view()[j as int] == want[j as int]@);
        j += 1;
    }
    true
}

/// Appends each text of `more` to `args`, in order.
pub fn push_all(args: &mut Vec<String>, more: &[&str])
    ensures
        final(args).deep_view() == old(args).deep_view() + more.deep_view(),
{
    let mut i: usize = 0;
    while i < more.len()
        invariant
            i <= more.len(),
            args.deep_view() == old(args).deep_view() + more.deep_view().take(i as int),
        decreases more.len() - i,
    {
        let ghost before = args.deep_view();
        args.push(more[i].to_owned());
        assert(args.deep_view() =~= before.push(more[i as int]@));
        assert(more.deep_view().take(i + 1) =~= more.deep_view().take(i as int).push(
            more[i as int]@,
        ));
        i += 1;
    }
    assert(more.deep_view().take(more.len() as int) =~= more.deep_view());
}

} // verus!
