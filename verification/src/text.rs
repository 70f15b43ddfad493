//! Text helpers over strings seen as character sequences: the order in which
//! `str` compares (lexicographic by code point, which is the order of their
//! UTF-8 bytes), prefixes, and sorting a list of names.
use vstd::prelude::*;

verus! {

/// `a` comes strictly before `b`: at the first position where they differ
/// `a` has the smaller character, or `a` is a proper prefix of `b`.
pub open spec fn lex_lt(a: Seq<char>, b: Seq<char>) -> bool
    decreases a.len(),
{
    if a.len() == 0 {
        b.len() > 0
    } else if b.len() == 0 {
        false
    } else if a[0] != b[0] {
        (a[0] as int) < (b[0] as int)
    } else {
        lex_lt(a.drop_first(), b.drop_first())
    }
}

/// No string comes before itself.
pub proof fn lemma_lex_lt_irreflexive(a: Seq<char>)
    ensures
        !lex_lt(a, a),
    decreases a.len(),
{
    if a.len() > 0 {
        lemma_lex_lt_irreflexive(a.drop_first());
    }
}

/// Of two different strings, one comes before the other.
pub proof fn lemma_lex_lt_total(a: Seq<char>, b: Seq<char>)
    requires
        a != b,
    ensures
        lex_lt(a, b) || lex_lt(b, a),
    decreases a.len(),
{
    if a.len() == 0 {
        assert(b.len() > 0) by {
            if b.len() == 0 {
                assert(a =~= b);
            }
        }
    } else if b.len() == 0 {
    } else if a[0] != b[0] {
        assert((a[0] as int) != (b[0] as int));
    } else {
        assert(a.drop_first() != b.drop_first()) by {
            if a.drop_first() == b.drop_first() {
                assert(a =~= seq![a[0]] + a.drop_first());
                assert(b =~= seq![b[0]] + b.drop_first());
            }
        }
        lemma_lex_lt_total(a.drop_first(), b.drop_first());
    }
}

/// The order is transitive.
pub proof fn lemma_lex_lt_transitive(a: Seq<char>, b: Seq<char>, c: Seq<char>)
    requires
        lex_lt(a, b),
        lex_lt(b, c),
    ensures
        lex_lt(a, c),
    decreases a.len(),
{
    if a.len() > 0 && b.len() > 0 && c.len() > 0 && a[0] == b[0] && b[0] == c[0] {
        lemma_lex_lt_transitive(a.drop_first(), b.drop_first(), c.drop_first());
    }
}

/// Two strings never both come before each other.
pub proof fn lemma_lex_lt_asymmetric(a: Seq<char>, b: Seq<char>)
    requires
        lex_lt(a, b),
    ensures
        !lex_lt(b, a),
{
    if lex_lt(b, a) {
        lemma_lex_lt_transitive(a, b, a);
        lemma_lex_lt_irreflexive(a);
    }
}

/// After a common first character, the order is that of the rests.
proof fn lemma_lex_lt_skip(a: Seq<char>, b: Seq<char>, i: int)
    requires
        0 <= i < a.len(),
        i < b.len(),
        a[i] == b[i],
    ensures
        lex_lt(a.skip(i), b.skip(i)) == lex_lt(a.skip(i + 1), b.skip(i + 1)),
{
    assert(a.skip(i).drop_first() =~= a.skip(i + 1));
    assert(b.skip(i).drop_first() =~= b.skip(i + 1));
}

/// Whether `a` sorts strictly before `b` as `str` values do.
pub fn str_less(a: &str, b: &str) -> (less: bool)
    ensures
        less == lex_lt(a@, b@),
{
    let len_a = a.unicode_len();
    let len_b = b.unicode_len();
    let mut i: usize = 0;
    assert(a@.skip(0) =~= a@);
    assert(b@.skip(0) =~= b@);
    while i < len_a && i < len_b
        invariant
            len_a == a@.len(),
            len_b == b@.len(),
            i <= len_a,
            i <= len_b,
            lex_lt(a@, b@) == lex_lt(a@.skip(i as int), b@.skip(i as int)),
        decreases len_a - i,
    {
        let ca = a.get_char(i);
        let cb = b.get_char(i);
        if ca != cb {
            proof {
                assert(a@.skip(i as int)[0] == ca);
                assert(b@.skip(i as int)[0] == cb);
            }
            return (ca as u32) < (cb as u32);
        }
        proof {
            lemma_lex_lt_skip(a@, b@, i as int);
        }
        i = i + 1;
    }
    proof {
        assert(a@.skip(i as int).len() == len_a - i);
        assert(b@.skip(i as int).len() == len_b - i);
    }
    i == len_a && i < len_b
}

/// Whether `s` begins with `prefix`.
pub fn has_prefix(s: &str, prefix: &str) -> (found: bool)
    ensures
        found == prefix@.is_prefix_of(s@),
{
    let len_s = s.unicode_len();
    let len_p = prefix.unicode_len();
    if len_p > len_s {
        return false;
    }
    let mut i: usize = 0;
    while i < len_p
        invariant
            len_s == s@.len(),
            len_p == prefix@.len(),
            len_p <= len_s,
            i <= len_p,
            forall|j: int| 0 <= j < i ==> prefix@[j] == s@[j],
        decreases len_p - i,
    {
        if prefix.get_char(i) != s.get_char(i) {
            return false;
        }
        i = i + 1;
    }
    true
}

/// `names` is strictly increasing in the order of `str`.
pub open spec fn strictly_sorted(names: Seq<Seq<char>>) -> bool {
    forall|i: int, j: int| 0 <= i < j < names.len() ==> lex_lt(#[trigger] names[i], #[trigger] names[j])
}

/// A set of strings has one strictly increasing order only: two strictly
/// sorted sequences of the same strings are the same sequence.
pub proof fn lemma_strictly_sorted_unique(a: Seq<Seq<char>>, b: Seq<Seq<char>>)
    requires
        strictly_sorted(a),
        strictly_sorted(b),
        a.to_set() == b.to_set(),
    ensures
        a == b,
    decreases a.len(),
{
    if a.len() == 0 {
        if b.len() > 0 {
            assert(b.to_set().contains(b[0]));
        }
        assert(a =~= b);
    } else if b.len() == 0 {
        assert(a.to_set().contains(a[0]));
    } else {
        assert(a.to_set().contains(a[0]));
        assert(b.to_set().contains(b[0]));
        let k = choose|k: int| 0 <= k < b.len() && b[k] == a[0];
        let m = choose|m: int| 0 <= m < a.len() && a[m] == b[0];
        if k > 0 {
            assert(lex_lt(b[0], b[k]));
            if m > 0 {
                assert(lex_lt(a[0], a[m]));
                lemma_lex_lt_asymmetric(a[0], a[m]);
            } else {
                lemma_lex_lt_irreflexive(a[0]);
            }
        }
        assert(a[0] == b[0]);
        let a1 = a.drop_first();
        let b1 = b.drop_first();
        assert forall|i: int, j: int| 0 <= i < j < a1.len() implies lex_lt(#[trigger] a1[i], #[trigger] a1[j]) by {
            assert(a1[i] == a[i + 1] && a1[j] == a[j + 1]);
        }
        assert forall|i: int, j: int| 0 <= i < j < b1.len() implies lex_lt(#[trigger] b1[i], #[trigger] b1[j]) by {
            assert(b1[i] == b[i + 1] && b1[j] == b[j + 1]);
        }
        assert forall|x: Seq<char>| a1.to_set().contains(x) <==> b1.to_set().contains(x) by {
            if a1.to_set().contains(x) {
                let i = choose|i: int| 0 <= i < a1.len() && a1[i] == x;
                assert(lex_lt(a[0], a[i + 1]));
                lemma_lex_lt_irreflexive(a[0]);
                assert(a.to_set().contains(x));
                let j = choose|j: int| 0 <= j < b.len() && b[j] == x;
                assert(j != 0);
                assert(b1[j - 1] == x);
            }
            if b1.to_set().contains(x) {
                let i = choose|i: int| 0 <= i < b1.len() && b1[i] == x;
                assert(lex_lt(b[0], b[i + 1]));
                lemma_lex_lt_irreflexive(b[0]);
                assert(b.to_set().contains(x));
                let j = choose|j: int| 0 <= j < a.len() && a[j] == x;
                assert(j != 0);
                assert(a1[j - 1] == x);
            }
        }
        assert(a1.to_set() =~= b1.to_set());
        lemma_strictly_sorted_unique(a1, b1);
        assert(a =~= seq![a[0]] + a1);
        assert(b =~= seq![b[0]] + b1);
    }
}

/// No two strings of `names` are equal.
pub open spec fn distinct_strings(names: Seq<String>) -> bool {
    forall|i: int, j: int| 0 <= i < j < names.len() ==> names[i]@ != names[j]@
}

/// The character sequences of `names`, in order.
pub open spec fn string_views(names: Seq<String>) -> Seq<Seq<char>> {
    names.map_values(|name: String| name@)
}

/// Sorts distinct names into the order of `str`.
pub fn sort_names(names: &Vec<String>) -> (sorted: Vec<String>)
    requires
        distinct_strings(names@),
    ensures
        sorted@.len() == names@.len(),
        strictly_sorted(string_views(sorted@)),
        string_views(sorted@).to_set() == string_views(names@).to_set(),
{
    let mut sorted: Vec<String> = Vec::new();
    let ghost source = string_views(names@);
    for i in 0..names.len()
        invariant
            source == string_views(names@),
            distinct_strings(names@),
            sorted@.len() == i,
            strictly_sorted(string_views(sorted@)),
            string_views(sorted@).to_set() == source.take(i as int).to_set(),
    {
        let name = names[i].clone();
        let ghost before = string_views(sorted@);
        let mut p: usize = 0;
        while p < sorted.len() && str_less(sorted[p].as_str(), name.as_str())
            invariant
                p <= sorted@.len(),
                before == string_views(sorted@),
                forall|j: int| 0 <= j < p ==> lex_lt(#[trigger] before[j], name@),
            decreases sorted@.len() - p,
        {
            p = p + 1;
        }
        proof {
            // The new name is not yet among the sorted ones.
            assert(name@ == source[i as int]);
            assert forall|j: int| 0 <= j < before.len() implies #[trigger] before[j] != name@ by {
                assert(before.to_set().contains(before[j]));
                assert(source.take(i as int).to_set().contains(before[j]));
                let k = choose|k: int| 0 <= k < i && source.take(i as int)[k] == before[j];
                assert(source[k] == names@[k]@);
                assert(source[i as int] == names@[i as int]@);
            }
            if p < before.len() {
                assert(!lex_lt(before[p as int], name@));
                lemma_lex_lt_total(before[p as int], name@);
            }
        }
        sorted.insert(p, name);
        proof {
            let after = string_views(sorted@);
            assert(after =~= before.insert(p as int, name@));
            assert forall|a: int, b: int| 0 <= a < b < after.len() implies lex_lt(#[trigger] after[a], #[trigger] after[b]) by {
                if b < p {
                } else if b == p {
                } else if a < p {
                    assert(after[b] == before[b - 1]);
                    if b - 1 > p {
                        lemma_lex_lt_transitive(name@, before[p as int], before[b - 1]);
                    }
                    lemma_lex_lt_transitive(before[a], name@, before[b - 1]);
                } else if a == p {
                    if b - 1 > p {
                        lemma_lex_lt_transitive(name@, before[p as int], before[b - 1]);
                    }
                } else {
                }
            }
            assert(source.take(i + 1) =~= source.take(i as int).push(name@));
            assert(after.to_set() =~= before.to_set().insert(name@)) by {
                assert forall|x: Seq<char>| after.to_set().contains(x) <==> before.to_set().insert(name@).contains(x) by {
                    if after.to_set().contains(x) {
                        let k = choose|k: int| 0 <= k < after.len() && after[k] == x;
                        if k < p {
                            assert(before[k] == x);
                        } else if k > p {
                            assert(before[k - 1] == x);
                        }
                    }
                    if before.to_set().contains(x) && x != name@ {
                        let k = choose|k: int| 0 <= k < before.len() && before[k] == x;
                        if k < p {
                            assert(after[k] == x);
                        } else {
                            assert(after[k + 1] == x);
                        }
                    }
                    if x == name@ {
                        assert(after[p as int] == x);
                    }
                }
            }
            let prev = source.take(i as int);
            assert(prev.push(name@).to_set() =~= prev.to_set().insert(name@)) by {
                assert forall|x: Seq<char>| prev.push(name@).to_set().contains(x) <==> prev.to_set().insert(name@).contains(x) by {
                    if prev.push(name@).to_set().contains(x) {
                        let k = choose|k: int| 0 <= k < prev.len() + 1 && prev.push(name@)[k] == x;
                        if k < prev.len() {
                            assert(prev[k] == x);
                        }
                    }
                    if prev.to_set().contains(x) {
                        let k = choose|k: int| 0 <= k < prev.len() && prev[k] == x;
                        assert(prev.push(name@)[k] == x);
                    }
                    if x == name@ {
                        assert(prev.push(name@)[prev.len() as int] == x);
                    }
                }
            }
        }
    }
    proof {
        assert(source.take(names@.len() as int) =~= source);
    }
    sorted
}

} // verus!
