//! Three-way comparison: on integers, composed field by field, and
//! lexicographic on sequences.
use core::cmp::Ordering;
use vstd::prelude::*;
use vstd::string::*;

verus! {

/// Three-way comparison of two integers.
pub open spec fn ord_of(a: int, b: int) -> Ordering {
    if a < b {
        Ordering::Less
    } else if a == b {
        Ordering::Equal
    } else {
        Ordering::Greater
    }
}

/// Compares by `first`, and by `second` where `first` ties.
pub open spec fn then_cmp(first: Ordering, second: Ordering) -> Ordering {
    if first == Ordering::Equal {
        second
    } else {
        first
    }
}

/// The opposite outcome: what comparing the same two values the other way round gives.
pub open spec fn flip(o: Ordering) -> Ordering {
    match o {
        Ordering::Less => Ordering::Greater,
        Ordering::Equal => Ordering::Equal,
        Ordering::Greater => Ordering::Less,
    }
}

/// Lexicographic comparison; a proper prefix comes first.
pub open spec fn seq_cmp(a: Seq<int>, b: Seq<int>) -> Ordering
    decreases a.len(),
{
    if a.len() == 0 {
        if b.len() == 0 {
            Ordering::Equal
        } else {
            Ordering::Less
        }
    } else if b.len() == 0 {
        Ordering::Greater
    } else {
        then_cmp(ord_of(a[0], b[0]), seq_cmp(a.drop_first(), b.drop_first()))
    }
}

/// The integers that a sequence of indices holds.
pub open spec fn usize_ints(s: Seq<usize>) -> Seq<int> {
    s.map_values(|x: usize| x as int)
}

/// The code points that a sequence of characters holds.
pub open spec fn char_ints(s: Seq<char>) -> Seq<int> {
    s.map_values(|c: char| c as int)
}

/// Lexicographic comparison of two texts by code point.
pub open spec fn text_cmp(a: Seq<char>, b: Seq<char>) -> Ordering {
    seq_cmp(char_ints(a), char_ints(b))
}

/// Lexicographic comparison calls two sequences `Equal` exactly when they are.
pub proof fn lemma_seq_cmp_equal(a: Seq<int>, b: Seq<int>)
    ensures
        seq_cmp(a, b) == Ordering::Equal <==> a == b,
    decreases a.len(),
{
    if a.len() > 0 && b.len() > 0 {
        lemma_seq_cmp_equal(a.drop_first(), b.drop_first());
        if a.drop_first() == b.drop_first() && a[0] == b[0] {
            assert(a =~= seq![a[0]] + a.drop_first());
            assert(b =~= seq![b[0]] + b.drop_first());
        }
        if a == b {
            assert(a.drop_first() == b.drop_first());
        }
    } else if a.len() == 0 && b.len() == 0 {
        assert(a =~= b);
    }
}

/// Comparing the other way round gives the opposite outcome.
pub proof fn lemma_seq_cmp_flip(a: Seq<int>, b: Seq<int>)
    ensures
        seq_cmp(b, a) == flip(seq_cmp(a, b)),
    decreases a.len(),
{
    if a.len() > 0 && b.len() > 0 {
        lemma_seq_cmp_flip(a.drop_first(), b.drop_first());
    }
}

/// `Less` is transitive.
pub proof fn lemma_seq_cmp_less_trans(a: Seq<int>, b: Seq<int>, c: Seq<int>)
    requires
        seq_cmp(a, b) == Ordering::Less,
        seq_cmp(b, c) == Ordering::Less,
    ensures
        seq_cmp(a, c) == Ordering::Less,
    decreases a.len(),
{
    if a.len() > 0 && b.len() > 0 && c.len() > 0 {
        lemma_seq_cmp_equal(a.drop_first(), b.drop_first());
        lemma_seq_cmp_equal(b.drop_first(), c.drop_first());
        if a[0] == b[0] && b[0] == c[0] {
            lemma_seq_cmp_less_trans(a.drop_first(), b.drop_first(), c.drop_first());
        }
    }
}

/// Distinct texts have distinct code-point sequences.
pub proof fn lemma_char_ints_injective(a: Seq<char>, b: Seq<char>)
    requires
        char_ints(a) == char_ints(b),
    ensures
        a == b,
{
    assert(char_ints(a).len() == a.len() && char_ints(b).len() == b.len());
    assert forall|i: int| 0 <= i < a.len() implies a[i] == b[i] by {
        assert(char_ints(a)[i] == a[i] as int);
        assert(char_ints(b)[i] == b[i] as int);
    }
    assert(a =~= b);
}

/// One step of the comparison, taken at index `i`.
proof fn lemma_seq_cmp_step(a: Seq<int>, b: Seq<int>, i: int)
    requires
        0 <= i < a.len(),
        i < b.len(),
    ensures
        seq_cmp(a.skip(i), b.skip(i)) == then_cmp(
            ord_of(a[i], b[i]),
            seq_cmp(a.skip(i + 1), b.skip(i + 1)),
        ),
{
    assert(a.skip(i).drop_first() =~= a.skip(i + 1));
    assert(b.skip(i).drop_first() =~= b.skip(i + 1));
}

/// Lexicographic comparison of two sequences of indices.
pub fn compare_indices(a: &Vec<usize>, b: &Vec<usize>) -> (r: Ordering)
    ensures
        r == seq_cmp(usize_ints(a@), usize_ints(b@)),
{
    let ghost sa = usize_ints(a@);
    let ghost sb = usize_ints(b@);
    let mut i: usize = 0;
    assert(sa.skip(0) =~= sa && sb.skip(0) =~= sb);
    while i < a.len() && i < b.len()
        invariant
            i <= a.len(),
            i <= b.len(),
            sa == usize_ints(a@),
            sb == usize_ints(b@),
            seq_cmp(sa, sb) == seq_cmp(sa.skip(i as int), sb.skip(i as int)),
        decreases a.len() - i,
    {
        proof {
            lemma_seq_cmp_step(sa, sb, i as int);
            assert(sa[i as int] == a@[i as int] as int);
            assert(sb[i as int] == b@[i as int] as int);
        }
        if a[i] < b[i] {
            return Ordering::Less;
        } else if a[i] > b[i] {
            return Ordering::Greater;
        }
        i = i + 1;
    }
    compare_usize(a.len() - i, b.len() - i)
}

/// Lexicographic comparison of two texts by code point.
pub fn compare_text(a: &str, b: &str) -> (r: Ordering)
    ensures
        r == text_cmp(a@, b@),
{
    let ghost sa = char_ints(a@);
    let ghost sb = char_ints(b@);
    let la = a.unicode_len();
    let lb = b.unicode_len();
    let mut i: usize = 0;
    assert(sa.skip(0) =~= sa && sb.skip(0) =~= sb);
    while i < la && i < lb
        invariant
            la == a@.len(),
            lb == b@.len(),
            i <= la,
            i <= lb,
            sa == char_ints(a@),
            sb == char_ints(b@),
            seq_cmp(sa, sb) == seq_cmp(sa.skip(i as int), sb.skip(i as int)),
        decreases la - i,
    {
        proof {
            lemma_seq_cmp_step(sa, sb, i as int);
            assert(sa[i as int] == a@[i as int] as int);
            assert(sb[i as int] == b@[i as int] as int);
        }
        let ca = a.get_char(i);
        let cb = b.get_char(i);
        if (ca as u32) < (cb as u32) {
            return Ordering::Less;
        } else if (ca as u32) > (cb as u32) {
            return Ordering::Greater;
        }
        i = i + 1;
    }
    compare_usize(la - i, lb - i)
}

/// Distinct index sequences have distinct integer sequences.
pub proof fn lemma_usize_ints_injective(a: Seq<usize>, b: Seq<usize>)
    requires
        usize_ints(a) == usize_ints(b),
    ensures
        a == b,
{
    assert(usize_ints(a).len() == a.len() && usize_ints(b).len() == b.len());
    assert forall|i: int| 0 <= i < a.len() implies a[i] == b[i] by {
        assert(usize_ints(a)[i] == a[i] as int);
        assert(usize_ints(b)[i] == b[i] as int);
    }
    assert(a =~= b);
}

/// Whether two sequences of indices are the same.
pub fn indices_equal(a: &Vec<usize>, b: &Vec<usize>) -> (r: bool)
    ensures
        r == (a@ == b@),
{
    let o = compare_indices(a, b);
    proof {
        lemma_seq_cmp_equal(usize_ints(a@), usize_ints(b@));
        if usize_ints(a@) == usize_ints(b@) {
            lemma_usize_ints_injective(a@, b@);
        }
    }
    match o {
        Ordering::Equal => true,
        _ => false,
    }
}

/// Whether two texts are the same.
pub fn text_equal(a: &str, b: &str) -> (r: bool)
    ensures
        r == (a@ == b@),
{
    let o = compare_text(a, b);
    proof {
        lemma_seq_cmp_equal(char_ints(a@), char_ints(b@));
        if char_ints(a@) == char_ints(b@) {
            lemma_char_ints_injective(a@, b@);
        }
    }
    match o {
        Ordering::Equal => true,
        _ => false,
    }
}

/// Executable three-way comparison of two characters by code point.
pub fn compare_char(a: char, b: char) -> (r: Ordering)
    ensures
        r == ord_of(a as int, b as int),
{
    if (a as u32) < (b as u32) {
        Ordering::Less
    } else if (a as u32) == (b as u32) {
        Ordering::Equal
    } else {
        Ordering::Greater
    }
}

/// Executable three-way comparison of two indices.
pub fn compare_usize(a: usize, b: usize) -> (r: Ordering)
    ensures
        r == ord_of(a as int, b as int),
{
    if a < b {
        Ordering::Less
    } else if a == b {
        Ordering::Equal
    } else {
        Ordering::Greater
    }
}

} // verus!
