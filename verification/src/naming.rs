//! Prefab naming: stripping a numeric suffix and finding a fresh name when
//! a wanted name is already taken.
//!
//! A taken name `base` is retried as `base`, `base_2`, `base_3`, … after its
//! own numeric suffix (if any) has been stripped, so that duplicating
//! `tree_3` yields `tree_4` rather than `tree_3_2`.

use vstd::prelude::*;

use crate::text::{
    contains_str, dec_rep, digit_char, is_digit, is_digit_char, lemma_dec_rep_injective,
    lemma_dec_rep_val, names_contain, str_eq, usize_to_decimal,
};

verus! {

/// The name with a trailing `_<digits>` group removed: everything from the
/// last underscore on is dropped when only digits follow it (possibly
/// none). A name without such a group is kept as it is.
pub open spec fn stripped(s: Seq<char>) -> Seq<char>
    decreases s.len(),
{
    if s.len() == 0 {
        s
    } else if s.last() == '_' {
        s.drop_last()
    } else if is_digit(s.last()) {
        let r = stripped(s.drop_last());
        if r == s.drop_last() {
            s
        } else {
            r
        }
    } else {
        s
    }
}

/// Removes a trailing underscore-and-digits group from a name.
pub fn remove_numeric_suffix(name: &str) -> (r: String)
    ensures
        r@ == stripped(name@),
    decreases name@.len(),
{
    let len = name.unicode_len();
    if len == 0 {
        return String::from_str(name);
    }
    let last = name.get_char(len - 1);
    if last == '_' {
        let head = name.substring_char(0, len - 1);
        proof {
            assert(head@ =~= name@.drop_last());
        }
        String::from_str(head)
    } else if is_digit_char(last) {
        let head = name.substring_char(0, len - 1);
        proof {
            assert(head@ =~= name@.drop_last());
        }
        let r = remove_numeric_suffix(head);
        if str_eq(r.as_str(), head) {
            String::from_str(name)
        } else {
            r
        }
    } else {
        String::from_str(name)
    }
}

/// The `base_<i>` form that the retry loop tries for a taken name.
pub open spec fn numbered(base: Seq<char>, i: nat) -> Seq<char> {
    base + seq!['_'] + dec_rep(i)
}

proof fn lemma_numbered_injective(base: Seq<char>, i: nat, j: nat)
    requires
        numbered(base, i) == numbered(base, j),
    ensures
        i == j,
{
    let a = numbered(base, i);
    let b = numbered(base, j);
    assert(a.len() == base.len() + 1 + dec_rep(i).len());
    assert(b.len() == base.len() + 1 + dec_rep(j).len());
    assert(dec_rep(i).len() == dec_rep(j).len());
    assert(dec_rep(i) =~= dec_rep(j)) by {
        assert forall|k: int| 0 <= k < dec_rep(i).len() implies dec_rep(i)[k] == dec_rep(j)[k] by {
            assert(dec_rep(i)[k] == a[base.len() + 1 + k]);
            assert(dec_rep(j)[k] == b[base.len() + 1 + k]);
        }
    }
    lemma_dec_rep_injective(i, j);
}

/// Every character of a decimal writing is a digit.
proof fn lemma_dec_rep_digits(n: nat)
    ensures
        forall|k: int| 0 <= k < dec_rep(n).len() ==> is_digit(#[trigger] dec_rep(n)[k]),
    decreases n,
{
    assert(is_digit(digit_char(n % 10)));
    if n < 10 {
        assert(is_digit(digit_char(n)));
    } else {
        lemma_dec_rep_digits(n / 10);
        assert forall|k: int| 0 <= k < dec_rep(n).len() implies is_digit(
            #[trigger] dec_rep(n)[k],
        ) by {
            if k < dec_rep(n / 10).len() {
                assert(dec_rep(n)[k] == dec_rep(n / 10)[k]);
            } else {
                assert(dec_rep(n)[k] == digit_char(n % 10));
            }
        }
    }
}

proof fn lemma_stripped_digit_suffix(base: Seq<char>, d: Seq<char>)
    requires
        forall|k: int| 0 <= k < d.len() ==> is_digit(#[trigger] d[k]),
    ensures
        stripped(base + seq!['_'] + d) == base,
    decreases d.len(),
{
    let s = base + seq!['_'] + d;
    if d.len() == 0 {
        assert(s.last() == '_');
        assert(s.drop_last() =~= base);
    } else {
        assert(s.last() == d.last());
        assert(is_digit(d.last()));
        assert(s.last() != '_');
        assert(s.drop_last() =~= base + seq!['_'] + d.drop_last());
        lemma_stripped_digit_suffix(base, d.drop_last());
        assert(stripped(s.drop_last()) == base);
        assert(base.len() != s.drop_last().len());
    }
}

/// A numbered name strips back to its base: this is why duplicating a
/// copy counts on from the base name instead of stacking suffixes.
pub proof fn lemma_stripped_numbered(base: Seq<char>, i: nat)
    ensures
        stripped(numbered(base, i)) == base,
{
    lemma_dec_rep_digits(i);
    lemma_stripped_digit_suffix(base, dec_rep(i));
}

/// All names the retry loop has tried before reaching counter `i`: the
/// base itself, then `base_2` up to `base_<i-1>`.
spec fn tried(base: Seq<char>, i: int) -> Seq<Seq<char>> {
    seq![base] + Seq::new((i - 2) as nat, |k: int| numbered(base, (k + 2) as nat))
}

/// The names tried so far are pairwise distinct, so once they all sit in
/// `names` the counter can be no larger than the number of names: the
/// retry loop therefore stops.
proof fn lemma_counter_bound(names: Seq<String>, base: Seq<char>, i: int)
    requires
        2 <= i,
        contains_str(names, base),
        forall|j: int| 2 <= j < i ==> contains_str(names, #[trigger] numbered(base, j as nat)),
    ensures
        i <= names.len() + 1,
{
    let t = tried(base, i);
    assert(t.len() == i - 1);
    assert forall|p: int, q: int| 0 <= p < q < t.len() implies t[p] != t[q] by {
        if p == 0 {
            lemma_dec_rep_val((q + 1) as nat);
            assert(t[q].len() >= base.len() + 2);
        } else {
            if t[p] == t[q] {
                lemma_numbered_injective(base, (p + 1) as nat, (q + 1) as nat);
            }
        }
    }
    assert(t.no_duplicates());
    t.unique_seq_to_set();
    let views = names.map_values(|s: String| s@);
    views.lemma_cardinality_of_set();
    assert(t.to_set().subset_of(views.to_set())) by {
        assert forall|x: Seq<char>| t.to_set().contains(x) implies views.to_set().contains(x) by {
            assert(t.contains(x));
            let p = choose|p: int| 0 <= p < t.len() && t[p] == x;
            if p == 0 {
                assert(contains_str(names, base));
            } else {
                assert(t[p] == numbered(base, (p + 1) as nat));
                assert(contains_str(names, numbered(base, (p + 1) as nat)));
            }
            let k = choose|k: int| 0 <= k < names.len() && names[k]@ == x;
            assert(views[k] == x);
            assert(views.contains(x));
        }
    }
    vstd::seq_lib::seq_to_set_is_finite::<Seq<char>>(views);
    vstd::set_lib::lemma_len_subset(t.to_set(), views.to_set());
}

/// What the retry loop guarantees of its result `r` for a wanted name:
/// `r` is free; a free wanted name is kept; a taken one falls back to its
/// stripped base when that is free; otherwise `r` is the first free
/// numbered form of the base, counting from two.
pub open spec fn unique_name_ok(new_name: Seq<char>, names: Seq<String>, r: Seq<char>) -> bool {
    &&& !contains_str(names, r)
    &&& !contains_str(names, new_name) ==> r == new_name
    &&& contains_str(names, new_name) && !contains_str(names, stripped(new_name)) ==> r == stripped(
        new_name,
    )
    &&& contains_str(names, new_name) && contains_str(names, stripped(new_name)) ==> exists|i: int|
        2 <= i && r == #[trigger] numbered(stripped(new_name), i as nat) && forall|j: int|
            2 <= j < i ==> contains_str(names, #[trigger] numbered(stripped(new_name), j as nat))
}

/// A name not yet in `names`: the wanted name itself when it is free, else
/// its stripped base, else the first free `base_<i>` counting from two.
pub fn create_unique_name(new_name: &String, names: Vec<String>) -> (r: String)
    requires
        names@.len() < usize::MAX,
    ensures
        unique_name_ok(new_name@, names@, r@),
{
    if !names_contain(&names, new_name.as_str()) {
        return new_name.clone();
    }
    let short = remove_numeric_suffix(new_name.as_str());
    if !names_contain(&names, short.as_str()) {
        return short;
    }
    let ghost base = short@;
    let mut i: usize = 2;
    loop
        invariant
            2 <= i <= names@.len() + 1,
            names@.len() < usize::MAX,
            short@ == base,
            contains_str(names@, base),
            contains_str(names@, new_name@),
            contains_str(names@, stripped(new_name@)),
            base == stripped(new_name@),
            forall|j: int| 2 <= j < i ==> contains_str(names@, #[trigger] numbered(base, j as nat)),
        decreases names@.len() + 1 - i,
    {
        let mut candidate = short.clone();
        candidate.append("_");
        let digits = usize_to_decimal(i);
        candidate.append(digits.as_str());
        proof {
            reveal_strlit("_");
            assert("_"@ =~= seq!['_']);
            assert(candidate@ =~= numbered(base, i as nat));
        }
        if !names_contain(&names, candidate.as_str()) {
            proof {
                let k = i as int;
                assert(2 <= k && candidate@ == numbered(base, k as nat) && forall|j: int|
                    2 <= j < k ==> contains_str(names@, #[trigger] numbered(base, j as nat)));
            }
            return candidate;
        }
        proof {
            lemma_counter_bound(names@, base, i + 1);
        }
        i = i + 1;
    }
}

} // verus!
