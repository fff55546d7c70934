//! Character-level text helpers.
//!
//! Station codes and display names are compared as sequences of characters.
//! Every function here states its result over `Seq<char>`.

use vstd::prelude::*;

verus! {

/// `i` is the position of the first `c` in `s`.
pub open spec fn is_first_occurrence(s: Seq<char>, c: char, i: int) -> bool {
    &&& 0 <= i < s.len()
    &&& s[i] == c
    &&& forall|j: int| 0 <= j < i ==> s[j] != c
}

/// The position of the first `c` in `s`, or the length of `s` where it holds none.
pub open spec fn first_position(s: Seq<char>, c: char) -> int {
    if s.contains(c) {
        choose|i: int| is_first_occurrence(s, c, i)
    } else {
        s.len() as int
    }
}

/// What stands in `s` before its first `c`; all of `s` where it holds none.
pub open spec fn prefix_before(s: Seq<char>, c: char) -> Seq<char> {
    s.take(first_position(s, c))
}

/// `needle` stands in `hay` from position `i` on.
pub open spec fn occurs_at(hay: Seq<char>, needle: Seq<char>, i: int) -> bool {
    &&& 0 <= i
    &&& i + needle.len() <= hay.len()
    &&& hay.subrange(i, i + needle.len()) == needle
}

/// `needle` stands somewhere in `hay`. The empty sequence stands in every sequence.
pub open spec fn contains_slice(hay: Seq<char>, needle: Seq<char>) -> bool {
    exists|i: int| occurs_at(hay, needle, i)
}

/// `a` comes strictly before `b` in the order of a dictionary, characters
/// compared by their code points.
pub open spec fn lex_less(a: Seq<char>, b: Seq<char>) -> bool
    decreases a.len(),
{
    if b.len() == 0 {
        false
    } else if a.len() == 0 {
        true
    } else if a[0] != b[0] {
        (a[0] as int) < (b[0] as int)
    } else {
        lex_less(a.drop_first(), b.drop_first())
    }
}

/// `a` comes before `b` in the order of a dictionary, or equals it.
pub open spec fn lex_le(a: Seq<char>, b: Seq<char>) -> bool {
    a == b || lex_less(a, b)
}

/// A sequence that holds `c` has exactly one first occurrence of it.
pub proof fn lemma_first_occurrence_exists(s: Seq<char>, c: char)
    requires
        s.contains(c),
    ensures
        is_first_occurrence(s, c, first_position(s, c)),
    decreases s.len(),
{
    let k = choose|k: int| 0 <= k < s.len() && s[k] == c;
    lemma_first_occurrence_below(s, c, k);
}

proof fn lemma_first_occurrence_below(s: Seq<char>, c: char, k: int)
    requires
        0 <= k < s.len(),
        s[k] == c,
    ensures
        exists|i: int| is_first_occurrence(s, c, i),
    decreases k,
{
    if forall|j: int| 0 <= j < k ==> s[j] != c {
        assert(is_first_occurrence(s, c, k));
    } else {
        let j = choose|j: int| 0 <= j < k && s[j] == c;
        lemma_first_occurrence_below(s, c, j);
    }
}

/// The first occurrence is unique: whatever position is one, is `first_position`.
pub proof fn lemma_first_occurrence_unique(s: Seq<char>, c: char, i: int)
    requires
        is_first_occurrence(s, c, i),
    ensures
        first_position(s, c) == i,
        prefix_before(s, c) == s.take(i),
{
    assert(s.contains(c));
    lemma_first_occurrence_exists(s, c);
    let p = first_position(s, c);
    if p < i {
        assert(s[p] != c);
    } else if i < p {
        assert(s[i] != c);
    }
}

/// Of two sequences, one comes before the other or they are the same.
pub proof fn lemma_lex_total(a: Seq<char>, b: Seq<char>)
    ensures
        lex_less(a, b) || a == b || lex_less(b, a),
    decreases a.len(),
{
    if a.len() == 0 || b.len() == 0 {
        if a.len() == 0 && b.len() == 0 {
            assert(a =~= b);
        }
    } else if a[0] == b[0] {
        lemma_lex_total(a.drop_first(), b.drop_first());
        if a.drop_first() == b.drop_first() {
            assert(a =~= seq![a[0]] + a.drop_first());
            assert(b =~= seq![b[0]] + b.drop_first());
        }
    }
}

/// The order of a dictionary is transitive.
pub proof fn lemma_lex_transitive(a: Seq<char>, b: Seq<char>, c: Seq<char>)
    requires
        lex_less(a, b),
        lex_less(b, c),
    ensures
        lex_less(a, c),
    decreases a.len(),
{
    if a.len() > 0 && a[0] == b[0] && b[0] == c[0] {
        lemma_lex_transitive(a.drop_first(), b.drop_first(), c.drop_first());
    }
}

/// No sequence comes before itself, and no two come before each other.
pub proof fn lemma_lex_asymmetric(a: Seq<char>, b: Seq<char>)
    requires
        lex_less(a, b),
    ensures
        !lex_less(b, a),
        a != b,
    decreases a.len(),
{
    if a.len() > 0 && a[0] == b[0] {
        lemma_lex_asymmetric(a.drop_first(), b.drop_first());
    }
}

/// `lex_le` is a total order: total, transitive and antisymmetric; `lex_less` is
/// its strict part.
pub proof fn lemma_lex_le_order(a: Seq<char>, b: Seq<char>, c: Seq<char>)
    ensures
        lex_le(a, b) || lex_le(b, a),
        lex_le(a, b) && lex_le(b, c) ==> lex_le(a, c),
        lex_le(a, b) && lex_le(b, a) ==> a == b,
        !lex_less(a, b) ==> lex_le(b, a),
        lex_less(a, b) ==> a != b && !lex_less(b, a),
{
    lemma_lex_total(a, b);
    if lex_less(a, b) && lex_less(b, c) {
        lemma_lex_transitive(a, b, c);
    }
    if lex_less(a, b) {
        lemma_lex_asymmetric(a, b);
    }
}

/// The lowercase form of a text: what `str::to_lowercase` returns for it.
pub uninterp spec fn lowercase(s: Seq<char>) -> Seq<char>;

/// Calls `str::to_lowercase` of std. The contract gives the result the name
/// `lowercase` of the argument's characters and claims nothing else of it: the
/// mapping follows the Unicode tables that std carries and depends on the text
/// alone.
#[verifier::external_body]
pub(crate) fn to_lowercase(s: &str) -> (r: String)
    ensures
        r@ == lowercase(s@),
{
    s.to_lowercase()
}

/// The characters of a string slice, in order.
pub fn chars_of(s: &str) -> (r: Vec<char>)
    ensures
        r@ == s@,
{
    let mut out: Vec<char> = Vec::new();
    for c in it: s.chars()
        invariant
            out@ == s@.take(it.index() as int),
            it.seq() == s@,
    {
        out.push(c);
    }
    out
}

/// The position of the first `c` in `s`.
pub fn find_char(s: &Vec<char>, c: char) -> (r: Option<usize>)
    ensures
        match r {
            Some(i) => is_first_occurrence(s@, c, i as int),
            None => !s@.contains(c),
        },
{
    let mut i: usize = 0;
    while i < s.len()
        invariant
            i <= s.len(),
            forall|j: int| 0 <= j < i ==> s@[j] != c,
        decreases s.len() - i,
    {
        if s[i] == c {
            return Some(i);
        }
        i = i + 1;
    }
    None
}

/// Whether two character sequences are the same.
pub fn chars_eq(a: &Vec<char>, b: &Vec<char>) -> (r: bool)
    ensures
        r == (a@ == b@),
{
    if a.len() != b.len() {
        return false;
    }
    let mut i: usize = 0;
    while i < a.len()
        invariant
            i <= a.len(),
            a.len() == b.len(),
            forall|j: int| 0 <= j < i ==> a@[j] == b@[j],
        decreases a.len() - i,
    {
        if a[i] != b[i] {
            return false;
        }
        i = i + 1;
    }
    assert(a@ =~= b@);
    true
}

/// Whether `needle` stands in `hay` from position `i` on.
fn occurs_here(hay: &Vec<char>, needle: &Vec<char>, i: usize) -> (r: bool)
    requires
        i + needle.len() <= hay.len(),
    ensures
        r == occurs_at(hay@, needle@, i as int),
{
    let mut k: usize = 0;
    while k < needle.len()
        invariant
            k <= needle.len(),
            i + needle.len() <= hay.len(),
            forall|j: int| 0 <= j < k ==> hay@[i + j] == needle@[j],
        decreases needle.len() - k,
    {
        if hay[i + k] != needle[k] {
            assert(hay@.subrange(i as int, i + needle.len())[k as int] == hay@[i + k]);
            return false;
        }
        k = k + 1;
    }
    assert(hay@.subrange(i as int, i + needle.len()) =~= needle@);
    true
}

/// Whether `needle` stands somewhere in `hay`.
pub fn slice_contains(hay: &Vec<char>, needle: &Vec<char>) -> (r: bool)
    ensures
        r == contains_slice(hay@, needle@),
{
    if needle.len() > hay.len() {
        return false;
    }
    let last: usize = hay.len() - needle.len();
    let mut i: usize = 0;
    loop
        invariant
            i <= last,
            last == hay.len() - needle.len(),
            needle.len() <= hay.len(),
            forall|j: int| 0 <= j < i ==> !occurs_at(hay@, needle@, j),
        decreases last - i,
    {
        if occurs_here(hay, needle, i) {
            return true;
        }
        if i == last {
            return false;
        }
        i = i + 1;
    }
}

/// Whether `a` comes strictly before `b` in the order of a dictionary.
pub fn chars_less(a: &Vec<char>, b: &Vec<char>) -> (r: bool)
    ensures
        r == lex_less(a@, b@),
{
    let mut i: usize = 0;
    assert(a@.skip(0) =~= a@ && b@.skip(0) =~= b@);
    while i < a.len() && i < b.len()
        invariant
            i <= a.len(),
            i <= b.len(),
            lex_less(a@, b@) == lex_less(a@.skip(i as int), b@.skip(i as int)),
        decreases a.len() - i,
    {
        let ghost x = a@.skip(i as int);
        let ghost y = b@.skip(i as int);
        assert(x[0] == a@[i as int] && y[0] == b@[i as int]);
        if a[i] != b[i] {
            return a[i] < b[i];
        }
        assert(x.drop_first() =~= a@.skip(i + 1));
        assert(y.drop_first() =~= b@.skip(i + 1));
        i = i + 1;
    }
    assert(a@.skip(i as int).len() == a.len() - i);
    assert(b@.skip(i as int).len() == b.len() - i);
    i < b.len()
}

} // verus!
