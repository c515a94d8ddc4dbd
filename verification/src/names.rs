//! Fresh names: "Name", then "Name 2", "Name 3", and so on.

use vstd::prelude::*;

verus! {

/// The character of decimal digit `d`.
pub open spec fn digit_char(d: int) -> char {
    if d == 0 {
        '0'
    } else if d == 1 {
        '1'
    } else if d == 2 {
        '2'
    } else if d == 3 {
        '3'
    } else if d == 4 {
        '4'
    } else if d == 5 {
        '5'
    } else if d == 6 {
        '6'
    } else if d == 7 {
        '7'
    } else if d == 8 {
        '8'
    } else {
        '9'
    }
}

/// The decimal representation of `n`, without leading zeros.
pub open spec fn decimal(n: nat) -> Seq<char>
    decreases n,
{
    if n < 10 {
        seq![digit_char(n as int)]
    } else {
        decimal(n / 10).push(digit_char((n % 10) as int))
    }
}

/// The `k`-th candidate name built on `base`: `base` itself first, then
/// `base`, a space and the number.
pub open spec fn numbered_name(base: Seq<char>, k: int) -> Seq<char> {
    if k <= 1 {
        base
    } else {
        base + seq![' '] + decimal(k as nat)
    }
}

/// The first candidate name built on `base` that `names` does not hold, with
/// its number: every earlier candidate is taken.
pub open spec fn is_first_free_name(names: Seq<Seq<char>>, base: Seq<char>, k: int) -> bool {
    &&& k >= 1
    &&& !names.contains(numbered_name(base, k))
    &&& forall|j: int| 1 <= j < k ==> names.contains(#[trigger] numbered_name(base, j))
}

/// The first candidate name built on `base` that `names` does not hold.
pub open spec fn fresh_name(names: Seq<Seq<char>>, base: Seq<char>) -> Seq<char> {
    numbered_name(base, choose|k: int| is_first_free_name(names, base, k))
}

/// Only one candidate is the first free one, so `fresh_name` names it.
pub proof fn lemma_fresh_name(names: Seq<Seq<char>>, base: Seq<char>, k: int)
    requires
        is_first_free_name(names, base, k),
    ensures
        fresh_name(names, base) == numbered_name(base, k),
        !names.contains(fresh_name(names, base)),
{
    let c = choose|k: int| is_first_free_name(names, base, k);
    assert(is_first_free_name(names, base, c));
    if c < k {
        assert(names.contains(numbered_name(base, c)));
    }
    if k < c {
        assert(names.contains(numbered_name(base, k)));
    }
}

/// The decimal digit `d` as a string.
fn digit_str(d: usize) -> (r: &'static str)
    requires
        d < 10,
    ensures
        r@ == seq![digit_char(d as int)],
{
    proof {
        reveal_strlit("0");
        reveal_strlit("1");
        reveal_strlit("2");
        reveal_strlit("3");
        reveal_strlit("4");
        reveal_strlit("5");
        reveal_strlit("6");
        reveal_strlit("7");
        reveal_strlit("8");
        reveal_strlit("9");
    }
    if d == 0 {
        "0"
    } else if d == 1 {
        "1"
    } else if d == 2 {
        "2"
    } else if d == 3 {
        "3"
    } else if d == 4 {
        "4"
    } else if d == 5 {
        "5"
    } else if d == 6 {
        "6"
    } else if d == 7 {
        "7"
    } else if d == 8 {
        "8"
    } else {
        "9"
    }
}

/// `n` written in decimal, without leading zeros.
pub(crate) fn decimal_string(n: usize) -> (r: String)
    ensures
        r@ == decimal(n as nat),
    decreases n,
{
    if n < 10 {
        digit_str(n).to_owned()
    } else {
        let mut s = decimal_string(n / 10);
        s.append(digit_str(n % 10));
        assert(s@ =~= decimal((n / 10) as nat).push(digit_char((n % 10) as int)));
        s
    }
}

proof fn lemma_decimal_len(n: nat)
    ensures
        decimal(n).len() >= 1,
        n >= 10 ==> decimal(n).len() >= 2,
    decreases n,
{
    if n >= 10 {
        lemma_decimal_len(n / 10);
    }
}

/// Different numbers have different decimal representations.
pub proof fn lemma_decimal_injective(n: nat, m: nat)
    requires
        decimal(n) == decimal(m),
    ensures
        n == m,
    decreases n,
{
    lemma_decimal_len(n);
    lemma_decimal_len(m);
    if n >= 10 && m >= 10 {
        assert(decimal(n).drop_last() =~= decimal(n / 10));
        assert(decimal(m).drop_last() =~= decimal(m / 10));
        assert(decimal(n).last() == digit_char((n % 10) as int));
        lemma_decimal_injective(n / 10, m / 10);
    } else if n < 10 && m < 10 {
        assert(decimal(n)[0] == digit_char(n as int));
        assert(decimal(m)[0] == digit_char(m as int));
    }
}

/// Different numbers give different candidate names.
pub proof fn lemma_numbered_name_injective(base: Seq<char>, j: int, k: int)
    requires
        j >= 1,
        k >= 1,
        numbered_name(base, j) == numbered_name(base, k),
    ensures
        j == k,
{
    if j >= 2 && k >= 2 {
        let nj = numbered_name(base, j);
        let nk = numbered_name(base, k);
        assert(nj.skip(base.len() as int + 1) =~= decimal(j as nat));
        assert(nk.skip(base.len() as int + 1) =~= decimal(k as nat));
        lemma_decimal_injective(j as nat, k as nat);
    } else if j >= 2 {
        lemma_decimal_len(j as nat);
        assert(numbered_name(base, j).len() > base.len());
    } else if k >= 2 {
        lemma_decimal_len(k as nat);
        assert(numbered_name(base, k).len() > base.len());
    }
}

/// A sequence of `len` names holds at most `len` of the candidate names.
pub proof fn lemma_candidates_bound(names: Seq<Seq<char>>, base: Seq<char>, n: int)
    requires
        n >= 0,
        forall|k: int| 1 <= k <= n ==> names.contains(#[trigger] numbered_name(base, k)),
    ensures
        n <= names.len(),
{
    let range = vstd::set_lib::set_int_range(1, n + 1);
    vstd::set_lib::lemma_int_range(1, n + 1);
    let f = |k: int| numbered_name(base, k);
    assert(vstd::relations::injective_on(f, range)) by {
        assert forall|a: int, b: int| range.contains(a) && range.contains(b) && #[trigger] f(a) == #[trigger] f(b) implies a == b by {
            lemma_numbered_name_injective(base, a, b);
        }
    }
    let image = range.map(f);
    vstd::set_lib::lemma_map_size(range, image, f);
    let all = names.to_set();
    assert(image.subset_of(all)) by {
        assert forall|x: Seq<char>| image.contains(x) implies all.contains(x) by {
            let k = choose|k: int| range.contains(k) && f(k) == x;
            assert(names.contains(numbered_name(base, k)));
        }
    }
    names.lemma_cardinality_of_set();
    vstd::set_lib::lemma_len_subset(image, all);
}

/// Picks the first candidate name built on `base` that `names` does not hold.
pub fn first_free_name(names: &Vec<String>, base: &str) -> (r: String)
    requires
        names@.len() < usize::MAX,
    ensures
        exists|k: int|
            is_first_free_name(names@.map_values(|s: String| s@), base@, k) && r@ == numbered_name(
                base@,
                k,
            ),
{
    let ghost model = names@.map_values(|s: String| s@);
    let separator = " ";
    proof {
        reveal_strlit(" ");
    }
    let mut name = base.to_owned();
    let mut index: usize = 1;
    while contains_string(names, &name)
        invariant
            model == names@.map_values(|s: String| s@),
            names@.len() < usize::MAX,
            separator@ == seq![' '],
            1 <= index <= names@.len() + 1,
            name@ == numbered_name(base@, index as int),
            forall|j: int| 1 <= j < index ==> model.contains(#[trigger] numbered_name(base@, j)),
        decreases names@.len() + 1 - index,
    {
        proof {
            lemma_candidates_bound(model, base@, index as int);
        }
        index += 1;
        let number = decimal_string(index);
        name = base.to_owned().concat(separator).concat(number.as_str());
        assert(name@ =~= numbered_name(base@, index as int));
    }
    assert(is_first_free_name(model, base@, index as int));
    name
}

/// Whether `names` holds `name`.
pub fn contains_string(names: &Vec<String>, name: &String) -> (r: bool)
    ensures
        r == names@.map_values(|s: String| s@).contains(name@),
{
    let ghost model = names@.map_values(|s: String| s@);
    let mut i: usize = 0;
    while i < names.len()
        invariant
            i <= names.len(),
            model == names@.map_values(|s: String| s@),
            forall|j: int| 0 <= j < i ==> model[j] != name@,
        decreases names.len() - i,
    {
        if names[i] == *name {
            assert(model[i as int] == name@);
            return true;
        }
        i += 1;
    }
    false
}

/// Whether `a` comes before `b` in the order of `String`s: character by
/// character, by code point, a proper prefix first.
pub open spec fn name_less(a: Seq<char>, b: Seq<char>) -> bool
    decreases a.len(),
{
    if a.len() == 0 {
        b.len() > 0
    } else if b.len() == 0 {
        false
    } else if a[0] != b[0] {
        (a[0] as u32) < (b[0] as u32)
    } else {
        name_less(a.drop_first(), b.drop_first())
    }
}

/// Whether no name of `names` comes before one that precedes it.
pub open spec fn names_sorted(names: Seq<Seq<char>>) -> bool {
    forall|i: int, j: int| 0 <= i < j < names.len() ==> !name_less(#[trigger] names[j], #[trigger] names[i])
}

/// `names` in the order in which `std` sorts `String`s.
pub uninterp spec fn spec_sorted_names(names: Seq<Seq<char>>) -> Seq<Seq<char>>;

/// Sorts `names` with `sort_unstable`. The result is a reordering of
/// `names`, sorted in the order of `String`s, which `std` documents as
/// lexicographic by bytes, that is by code points. Which reordering (it
/// matters only among equal names) is named `spec_sorted_names`, a
/// function of `names` alone.
#[verifier::external_body]
pub(crate) fn sorted_names(names: Vec<String>) -> (r: Vec<String>)
    ensures
        r@.map_values(|s: String| s@) == spec_sorted_names(names@.map_values(|s: String| s@)),
        r@.map_values(|s: String| s@).to_multiset() == names@.map_values(|s: String| s@).to_multiset(),
        names_sorted(r@.map_values(|s: String| s@)),
{
    let mut sorted = names;
    sorted.sort_unstable();
    sorted
}

} // verus!
