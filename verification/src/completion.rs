//! Command-name completion: the candidates for a prefix, in order and
//! without repeats, and their longest common prefix.

use crate::builtins::Builtin;
use crate::text::{chars_eq, chars_of};
use vstd::prelude::*;

verus! {

/// Whether `a` comes before `b` in the order of strings, decided from
/// position `i` on: at the first position where they differ the smaller
/// character decides, and a string comes before each of its extensions.
pub open spec fn less_from(a: Seq<char>, b: Seq<char>, i: int) -> bool
    decreases a.len() - i,
{
    if i >= b.len() {
        false
    } else if i >= a.len() {
        true
    } else if a[i] != b[i] {
        a[i] < b[i]
    } else {
        less_from(a, b, i + 1)
    }
}

/// Whether `a` comes before `b` in the order of strings.
pub open spec fn less(a: Seq<char>, b: Seq<char>) -> bool {
    less_from(a, b, 0)
}

proof fn lemma_less_from_transitive(a: Seq<char>, b: Seq<char>, c: Seq<char>, i: int)
    requires
        0 <= i,
        less_from(a, b, i),
        less_from(b, c, i),
    ensures
        less_from(a, c, i),
    decreases a.len() - i,
{
    if i < a.len() && i < b.len() && i < c.len() && a[i] == b[i] && b[i] == c[i] {
        lemma_less_from_transitive(a, b, c, i + 1);
    }
}

proof fn lemma_less_from_total(a: Seq<char>, b: Seq<char>, i: int)
    requires
        0 <= i <= a.len(),
        i <= b.len(),
        a.subrange(0, i) == b.subrange(0, i),
        a != b,
    ensures
        less_from(a, b, i) || less_from(b, a, i),
    decreases a.len() - i,
{
    if i >= a.len() && i >= b.len() {
        assert(a =~= a.subrange(0, i));
        assert(b =~= b.subrange(0, i));
    } else if i < a.len() && i < b.len() && a[i] == b[i] {
        assert(a.subrange(0, i + 1) =~= a.subrange(0, i).push(a[i]));
        assert(b.subrange(0, i + 1) =~= b.subrange(0, i).push(b[i]));
        lemma_less_from_total(a, b, i + 1);
    }
}

proof fn lemma_less_from_asymmetric(a: Seq<char>, b: Seq<char>, i: int)
    requires
        0 <= i,
        less_from(a, b, i),
    ensures
        !less_from(b, a, i),
    decreases a.len() - i,
{
    if i < a.len() && i < b.len() && a[i] == b[i] {
        lemma_less_from_asymmetric(a, b, i + 1);
    }
}

/// The order of strings is transitive.
pub proof fn lemma_less_transitive(a: Seq<char>, b: Seq<char>, c: Seq<char>)
    requires
        less(a, b),
        less(b, c),
    ensures
        less(a, c),
{
    lemma_less_from_transitive(a, b, c, 0);
}

/// Of two different strings one comes before the other.
pub proof fn lemma_less_total(a: Seq<char>, b: Seq<char>)
    requires
        a != b,
    ensures
        less(a, b) || less(b, a),
{
    assert(a.subrange(0, 0) =~= b.subrange(0, 0));
    lemma_less_from_total(a, b, 0);
}

/// No string comes before itself, and no two come before each other.
pub proof fn lemma_less_asymmetric(a: Seq<char>, b: Seq<char>)
    requires
        less(a, b),
    ensures
        !less(b, a),
        a != b,
{
    lemma_less_from_asymmetric(a, b, 0);
}

/// Tells whether `a` comes before `b` in the order of strings.
pub fn chars_less(a: &Vec<char>, b: &Vec<char>) -> (r: bool)
    ensures
        r == less(a@, b@),
{
    let mut i: usize = 0;
    while i < a.len() && i < b.len()
        invariant
            i <= a.len(),
            i <= b.len(),
            less_from(a@, b@, i as int) == less(a@, b@),
        decreases a.len() - i,
    {
        if a[i] != b[i] {
            return a[i] < b[i];
        }
        i = i + 1;
    }
    i < b.len()
}

/// Whether every earlier name of the list comes before every later one.
pub open spec fn strictly_sorted(names: Seq<Seq<char>>) -> bool {
    forall|i: int, j: int| 0 <= i < j < names.len() ==> less(names[i], names[j])
}

/// The number of names at the start of the list that come before `name`.
pub open spec fn rank(names: Seq<Seq<char>>, name: Seq<char>) -> nat
    decreases names.len(),
{
    if names.len() > 0 && less(names[0], name) {
        1 + rank(names.drop_first(), name)
    } else {
        0
    }
}

/// The list with `name` put in at its place in the order, unless it is
/// there already.
pub open spec fn with_name(names: Seq<Seq<char>>, name: Seq<char>) -> Seq<Seq<char>> {
    let at = rank(names, name) as int;
    if at < names.len() && names[at] == name {
        names
    } else {
        names.insert(at, name)
    }
}

/// `rank` counts names that come before `name` and stops at one that does
/// not.
pub proof fn lemma_rank(names: Seq<Seq<char>>, name: Seq<char>)
    ensures
        rank(names, name) <= names.len(),
        forall|i: int| 0 <= i < rank(names, name) ==> less(#[trigger] names[i], name),
        rank(names, name) < names.len() ==> !less(names[rank(names, name) as int], name),
    decreases names.len(),
{
    if names.len() > 0 && less(names[0], name) {
        let rest = names.drop_first();
        lemma_rank(rest, name);
        assert forall|i: int| 0 <= i < rank(names, name) implies less(
            #[trigger] names[i],
            name,
        ) by {
            if i > 0 {
                assert(names[i] == rest[i - 1]);
            }
        }
    }
}

/// Putting a name into a sorted list without repeats gives a sorted list
/// without repeats that holds the name and what the list held, and nothing
/// else.
pub proof fn lemma_with_name(names: Seq<Seq<char>>, name: Seq<char>)
    requires
        strictly_sorted(names),
    ensures
        strictly_sorted(with_name(names, name)),
        forall|other: Seq<char>| #[trigger]
            with_name(names, name).contains(other) <==> (other == name || names.contains(other)),
{
    let at = rank(names, name) as int;
    let after = with_name(names, name);
    lemma_rank(names, name);
    if !(at < names.len() && names[at] == name) {
        // The names before `at` come before `name`, and `name` comes before
        // the names from `at` on.
        assert forall|i: int, j: int| 0 <= i < j < after.len() implies less(
            after[i],
            after[j],
        ) by {
            if i == at {
                lemma_less_total(names[at], name);
                if j - 1 > at {
                    lemma_less_transitive(name, names[at], names[j - 1]);
                }
            }
        }
        assert forall|other: Seq<char>| #[trigger]
            after.contains(other) <==> (other == name || names.contains(other)) by {
            if other == name {
                assert(after[at] == name);
            }
            if names.contains(other) {
                let k = choose|k: int| 0 <= k < names.len() && names[k] == other;
                if k >= at {
                    assert(after[k + 1] == other);
                }
            }
        }
    }
}

/// Puts `name` into the sorted list at its place, unless it is there
/// already.
pub fn insert_name(names: &mut Vec<String>, name: &str)
    ensures
        final(names).deep_view() == with_name(old(names).deep_view(), name@),
{
    let ghost list = names.deep_view();
    let wanted = chars_of(name);
    let mut i: usize = 0;
    let mut found: bool = false;
    assert(list.skip(0) =~= list);
    while i < names.len() && !found
        invariant
            i <= names.len(),
            list == names.deep_view(),
            wanted@ == name@,
            !found ==> i + rank(list.skip(i as int), name@) == rank(list, name@),
            found ==> i == rank(list, name@) && i < names.len() && !less(list[i as int], name@),
        decreases names.len() - i + if found { 0int } else { 1int },
    {
        let here = chars_of(names[i].as_str());
        assert(list.skip(i as int).drop_first() =~= list.skip(i + 1));
        if chars_less(&here, &wanted) {
            i = i + 1;
        } else {
            found = true;
        }
    }
    if !(found && chars_eq(&chars_of(names[i].as_str()), &wanted)) {
        names.insert(i, name.to_string());
    }
}

/// Tells whether `name` starts with `prefix`.
pub fn has_prefix(name: &Vec<char>, prefix: &Vec<char>) -> (r: bool)
    ensures
        r == prefix@.is_prefix_of(name@),
{
    if prefix.len() > name.len() {
        return false;
    }
    let mut i: usize = 0;
    while i < prefix.len()
        invariant
            i <= prefix.len() <= name.len(),
            prefix@.subrange(0, i as int) == name@.subrange(0, i as int),
        decreases prefix.len() - i,
    {
        if prefix[i] != name[i] {
            return false;
        }
        i = i + 1;
    }
    true
}

/// The list with `name` put in, where `name` starts with `prefix`.
pub open spec fn with_match(
    names: Seq<Seq<char>>,
    prefix: Seq<char>,
    name: Seq<char>,
) -> Seq<Seq<char>> {
    if prefix.is_prefix_of(name) {
        with_name(names, name)
    } else {
        names
    }
}

/// The list with each of `more` put in that starts with `prefix`.
pub open spec fn with_matches(
    names: Seq<Seq<char>>,
    prefix: Seq<char>,
    more: Seq<Seq<char>>,
) -> Seq<Seq<char>>
    decreases more.len(),
{
    if more.len() == 0 {
        names
    } else {
        with_match(with_matches(names, prefix, more.drop_last()), prefix, more.last())
    }
}

/// The names of the builtins.
pub open spec fn builtin_names() -> Seq<Seq<char>> {
    seq!["echo"@, "exit"@, "type"@, "pwd"@, "cd"@, "history"@]
}

/// The completion candidates for `prefix`: the names of the builtins and of
/// the executables on the search path that start with it, in the order of
/// strings, each once.
pub open spec fn candidates(prefix: Seq<char>, executables: Seq<Seq<char>>) -> Seq<Seq<char>> {
    with_matches(with_matches(Seq::empty(), prefix, builtin_names()), prefix, executables)
}

/// Adding matches to a sorted list without repeats gives a sorted list
/// without repeats that holds what the list held and the names added that
/// start with the prefix, and nothing else.
pub proof fn lemma_with_matches(names: Seq<Seq<char>>, prefix: Seq<char>, more: Seq<Seq<char>>)
    requires
        strictly_sorted(names),
    ensures
        strictly_sorted(with_matches(names, prefix, more)),
        forall|name: Seq<char>| #[trigger]
            with_matches(names, prefix, more).contains(name) <==> (names.contains(name) || (
            more.contains(name) && prefix.is_prefix_of(name))),
    decreases more.len(),
{
    if more.len() > 0 {
        let init = more.drop_last();
        let sofar = with_matches(names, prefix, init);
        lemma_with_matches(names, prefix, init);
        lemma_with_name(sofar, more.last());
        assert forall|name: Seq<char>| #[trigger]
            with_matches(names, prefix, more).contains(name) <==> (names.contains(name) || (
            more.contains(name) && prefix.is_prefix_of(name))) by {
            if more.contains(name) {
                let k = choose|k: int| 0 <= k < more.len() && more[k] == name;
                if k < init.len() {
                    assert(init[k] == name);
                }
            }
            assert(more.contains(more.last()));
        }
    }
}

/// The candidates are in the order of strings, without repeats, and they are
/// exactly the names of builtins and executables that start with the prefix.
pub proof fn lemma_candidates(prefix: Seq<char>, executables: Seq<Seq<char>>)
    ensures
        strictly_sorted(candidates(prefix, executables)),
        forall|name: Seq<char>| #[trigger]
            candidates(prefix, executables).contains(name) <==> (prefix.is_prefix_of(name) && (
            Builtin::named(name) is Some || executables.contains(name))),
{
    let none = Seq::<Seq<char>>::empty();
    let builtins = with_matches(none, prefix, builtin_names());
    lemma_with_matches(none, prefix, builtin_names());
    lemma_with_matches(builtins, prefix, executables);
    assert(forall|name: Seq<char>| #[trigger]
        builtin_names().contains(name) <==> Builtin::named(name) is Some);
}

/// Puts `name` into the sorted list where it starts with `prefix`.
fn add_match(names: &mut Vec<String>, prefix: &Vec<char>, name: &str)
    ensures
        final(names).deep_view() == with_match(old(names).deep_view(), prefix@, name@),
{
    if has_prefix(&chars_of(name), prefix) {
        insert_name(names, name);
    }
}

/// Collects the completion candidates for `prefix` among the builtins and
/// the given executables: sorted, each once.
pub fn find_candidates(prefix: &Vec<char>, executables: &[String]) -> (names: Vec<String>)
    ensures
        names.deep_view() == candidates(prefix@, executables.deep_view()),
{
    let mut names: Vec<String> = Vec::new();
    let ghost none = names.deep_view();
    add_match(&mut names, prefix, "echo");
    add_match(&mut names, prefix, "exit");
    add_match(&mut names, prefix, "type");
    add_match(&mut names, prefix, "pwd");
    add_match(&mut names, prefix, "cd");
    add_match(&mut names, prefix, "history");
    proof {
        assert(none =~= Seq::<Seq<char>>::empty());
        reveal_with_fuel(with_matches, 8);
    }
    let ghost base = names.deep_view();
    let ghost all = executables.deep_view();
    let mut i: usize = 0;
    while i < executables.len()
        invariant
            i <= executables.len(),
            all == executables.deep_view(),
            names.deep_view() == with_matches(base, prefix@, all.subrange(0, i as int)),
        decreases executables.len() - i,
    {
        assert(all.subrange(0, i + 1).drop_last() =~= all.subrange(0, i as int));
        add_match(&mut names, prefix, executables[i].as_str());
        i = i + 1;
    }
    assert(all.subrange(0, i as int) =~= all);
    names
}

/// Whether every name has a character at position `i`, and all the same one.
pub open spec fn agree_at(names: Seq<Seq<char>>, i: int) -> bool {
    forall|k: int|
        0 <= k < names.len() ==> i < (#[trigger] names[k]).len() && names[k][i] == names[0][i]
}

/// The first position from `i` on at which the names do not all agree.
pub open spec fn common_len(names: Seq<Seq<char>>, i: int) -> int
    decreases names[0].len() - i,
{
    if names.len() > 0 && 0 <= i < names[0].len() && agree_at(names, i) {
        common_len(names, i + 1)
    } else {
        i
    }
}

/// The longest string that every name starts with; the empty string for no
/// names.
pub open spec fn common_prefix(names: Seq<Seq<char>>) -> Seq<char> {
    if names.len() == 0 {
        Seq::empty()
    } else {
        names[0].subrange(0, common_len(names, 0))
    }
}

proof fn lemma_common_len(names: Seq<Seq<char>>, i: int)
    requires
        names.len() > 0,
        0 <= i <= names[0].len(),
        forall|j: int| 0 <= j < i ==> agree_at(names, j),
    ensures
        i <= common_len(names, i) <= names[0].len(),
        forall|j: int| 0 <= j < common_len(names, i) ==> agree_at(names, j),
        common_len(names, i) < names[0].len() ==> !agree_at(names, common_len(names, i)),
    decreases names[0].len() - i,
{
    if i < names[0].len() && agree_at(names, i) {
        lemma_common_len(names, i + 1);
    }
}

/// Every name starts with the common prefix, and every string that all the
/// names start with is itself a start of the common prefix.
pub proof fn lemma_common_prefix(names: Seq<Seq<char>>)
    requires
        names.len() > 0,
    ensures
        forall|k: int|
            0 <= k < names.len() ==> common_prefix(names).is_prefix_of(#[trigger] names[k]),
        forall|p: Seq<char>|
            (forall|k: int| 0 <= k < names.len() ==> p.is_prefix_of(#[trigger] names[k]))
                ==> p.is_prefix_of(common_prefix(names)),
{
    let n = common_len(names, 0);
    let lcp = common_prefix(names);
    lemma_common_len(names, 0);
    assert forall|k: int| 0 <= k < names.len() implies lcp.is_prefix_of(#[trigger] names[k]) by {
        if n > 0 {
            assert(agree_at(names, n - 1));
        }
        assert forall|j: int| 0 <= j < n implies lcp[j] == names[k][j] by {
            assert(agree_at(names, j));
        }
    }
    assert forall|p: Seq<char>|
        (forall|k: int| 0 <= k < names.len() ==> p.is_prefix_of(#[trigger] names[k]))
            implies p.is_prefix_of(lcp) by {
        if p.len() > n {
            assert forall|k: int| 0 <= k < names.len() implies n < (#[trigger] names[k]).len()
                && names[k][n] == names[0][n] by {
                assert(names[0].subrange(0, p.len() as int)[n] == p[n]);
            }
        }
    }
}

/// The longest string that all the given strings start with.
pub fn longest_common_prefix(strings: &[String]) -> (prefix: String)
    ensures
        prefix@ == common_prefix(strings.deep_view()),
{
    let ghost names = strings.deep_view();
    let mut prefix = String::new();
    if strings.len() == 0 {
        return prefix;
    }
    let mut all: Vec<Vec<char>> = Vec::new();
    let mut n: usize = 0;
    while n < strings.len()
        invariant
            n <= strings.len(),
            names == strings.deep_view(),
            all.len() == n,
            forall|j: int| 0 <= j < n ==> (#[trigger] all@[j])@ == names[j],
        decreases strings.len() - n,
    {
        all.push(chars_of(strings[n].as_str()));
        n = n + 1;
    }
    let mut i: usize = 0;
    while i < all[0].len()
        invariant
            i <= all@[0]@.len(),
            names == strings.deep_view(),
            names.len() > 0,
            all.len() == names.len(),
            forall|j: int| 0 <= j < all.len() ==> (#[trigger] all@[j])@ == names[j],
            prefix@ == names[0].subrange(0, i as int),
            common_len(names, i as int) == common_len(names, 0),
        decreases all@[0]@.len() - i,
    {
        let c: char = all[0][i];
        let mut k: usize = 0;
        while k < all.len()
            invariant
                k <= all.len(),
                names == strings.deep_view(),
                i < names[0].len(),
                c == names[0][i as int],
                all.len() == names.len(),
                forall|j: int| 0 <= j < all.len() ==> (#[trigger] all@[j])@ == names[j],
                forall|j: int|
                    0 <= j < k ==> i < (#[trigger] names[j]).len() && names[j][i as int] == c,
                prefix@ == names[0].subrange(0, i as int),
                common_len(names, i as int) == common_len(names, 0),
            decreases all.len() - k,
        {
            if i >= all[k].len() || all[k][i] != c {
                assert(!agree_at(names, i as int));
                return prefix;
            }
            k = k + 1;
        }
        prefix.push(c);
        i = i + 1;
    }
    prefix
}

} // verus!
