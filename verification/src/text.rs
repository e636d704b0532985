//! Text building blocks: decimal rendering of integers and byte-wise
//! comparison of names.

use vstd::prelude::*;
use vstd::string::*;

verus! {

/// The character that writes a single decimal digit.
pub open spec fn digit_char(d: nat) -> char {
    if d == 0 {
        '0'
    } else if d == 1 {
        '1'
    } else if d == 2 {
        '2'
    } else if d == 3 {
        '3'
    } else if d == 4 {
        '4'
    } else if d == 5 {
        '5'
    } else if d == 6 {
        '6'
    } else if d == 7 {
        '7'
    } else if d == 8 {
        '8'
    } else {
        '9'
    }
}

/// The decimal numeral of `n`: most significant digit first, no sign, no
/// leading zeros, and `"0"` for zero.
pub open spec fn decimal(n: nat) -> Seq<char>
    decreases n,
{
    if n < 10 {
        seq![digit_char(n)]
    } else {
        decimal(n / 10).push(digit_char(n % 10))
    }
}

/// Appends the decimal numeral of `n` to `out`.
pub fn append_decimal(out: &mut String, n: u64)
    ensures
        final(out)@ == old(out)@ + decimal(n as nat),
    decreases n,
{
    if n >= 10 {
        append_decimal(out, n / 10);
    }
    let d: u64 = n % 10;
    let digit: &str = if d == 0 {
        "0"
    } else if d == 1 {
        "1"
    } else if d == 2 {
        "2"
    } else if d == 3 {
        "3"
    } else if d == 4 {
        "4"
    } else if d == 5 {
        "5"
    } else if d == 6 {
        "6"
    } else if d == 7 {
        "7"
    } else if d == 8 {
        "8"
    } else {
        "9"
    };
    proof {
        reveal_strlit("0");
        reveal_strlit("1");
        reveal_strlit("2");
        reveal_strlit("3");
        reveal_strlit("4");
        reveal_strlit("5");
        reveal_strlit("6");
        reveal_strlit("7");
        reveal_strlit("8");
        reveal_strlit("9");
    }
    out.append(digit);
}

/// `k` is where `a` turns out to come before `b`: the two agree on their
/// first `k` bytes, and there `a` ends while `b` goes on, or `a` has the
/// smaller byte.
pub open spec fn lex_lt_at(a: Seq<u8>, b: Seq<u8>, k: int) -> bool {
    &&& 0 <= k <= a.len()
    &&& k <= b.len()
    &&& a.take(k) == b.take(k)
    &&& (k == a.len() && k < b.len()) || (k < a.len() && k < b.len() && a[k] < b[k])
}

/// `a` comes strictly before `b` in the lexicographic order of their bytes.
pub open spec fn lex_lt(a: Seq<u8>, b: Seq<u8>) -> bool {
    exists|k: int| lex_lt_at(a, b, k)
}

/// Two byte strings that agree on their first `i` bytes and differ at
/// position `i`, or of which one ends there, are ordered by what they hold
/// at that position.
pub proof fn lemma_lex_decided_at(a: Seq<u8>, b: Seq<u8>, i: int)
    requires
        0 <= i <= a.len(),
        i <= b.len(),
        a.take(i) == b.take(i),
        i == a.len() || i == b.len() || a[i] != b[i],
    ensures
        lex_lt(a, b) <==> lex_lt_at(a, b, i),
        a == b <==> i == a.len() && i == b.len(),
{
    if lex_lt(a, b) {
        let k = choose|k: int| lex_lt_at(a, b, k);
        if k < i {
            assert(a.take(i)[k] == a[k]);
            assert(b.take(i)[k] == b[k]);
        } else if k > i {
            assert(a.take(k)[i] == a[i]);
            assert(b.take(k)[i] == b[i]);
        }
    }
    if i == a.len() && i == b.len() {
        assert(a.take(i) == a);
        assert(b.take(i) == b);
    }
}

/// The order is total: of two different byte strings one comes before the
/// other.
pub proof fn lemma_lex_total(a: Seq<u8>, b: Seq<u8>)
    ensures
        lex_lt(a, b) || lex_lt(b, a) || a == b,
{
    assert(a.take(0) =~= b.take(0));
    lemma_lex_total_from(a, b, 0);
}

proof fn lemma_lex_total_from(a: Seq<u8>, b: Seq<u8>, i: int)
    requires
        0 <= i <= a.len(),
        i <= b.len(),
        a.take(i) == b.take(i),
    ensures
        lex_lt(a, b) || lex_lt(b, a) || a == b,
    decreases a.len() - i,
{
    if i == a.len() || i == b.len() || a[i] != b[i] {
        lemma_lex_decided_at(a, b, i);
        lemma_lex_decided_at(b, a, i);
    } else {
        assert(a.take(i + 1) == a.take(i).push(a[i]));
        assert(b.take(i + 1) == b.take(i).push(b[i]));
        lemma_lex_total_from(a, b, i + 1);
    }
}

/// Nothing comes before itself, and of two byte strings at most one comes
/// before the other.
pub proof fn lemma_lex_asymmetric(a: Seq<u8>, b: Seq<u8>)
    ensures
        !(lex_lt(a, b) && lex_lt(b, a)),
        !lex_lt(a, a),
{
    if lex_lt(a, b) && lex_lt(b, a) {
        let k = choose|k: int| lex_lt_at(a, b, k);
        lemma_lex_decided_at(b, a, k);
    }
    if lex_lt(a, a) {
        let k = choose|k: int| lex_lt_at(a, a, k);
    }
}

/// What comes before something that comes before a third comes before the
/// third.
pub proof fn lemma_lex_transitive(a: Seq<u8>, b: Seq<u8>, c: Seq<u8>)
    requires
        lex_lt(a, b),
        lex_lt(b, c),
    ensures
        lex_lt(a, c),
{
    let i = choose|k: int| lex_lt_at(a, b, k);
    let j = choose|k: int| lex_lt_at(b, c, k);
    if i <= j {
        assert(a.take(i) == c.take(i)) by {
            assert(b.take(j).take(i) == b.take(i));
            assert(c.take(j).take(i) == c.take(i));
        }
        if i < j {
            assert(b.take(j)[i] == c.take(j)[i]);
        }
        assert(lex_lt_at(a, c, i));
    } else {
        assert(a.take(j) == c.take(j)) by {
            assert(a.take(i).take(j) == a.take(j));
            assert(b.take(i).take(j) == b.take(j));
        }
        assert(a.take(i)[j] == b.take(i)[j]);
        assert(lex_lt_at(a, c, j));
    }
}

/// Tells whether `a` comes strictly before `b` in the lexicographic order of
/// their bytes.
pub fn bytes_lt(a: &[u8], b: &[u8]) -> (before: bool)
    ensures
        before == lex_lt(a@, b@),
{
    let mut i: usize = 0;
    while i < a.len() && i < b.len()
        invariant
            i <= a.len(),
            i <= b.len(),
            a@.take(i as int) == b@.take(i as int),
        decreases a.len() - i,
    {
        if a[i] != b[i] {
            proof {
                lemma_lex_decided_at(a@, b@, i as int);
            }
            return a[i] < b[i];
        }
        i = i + 1;
    }
    proof {
        lemma_lex_decided_at(a@, b@, i as int);
    }
    a.len() < b.len()
}

/// The bytes by which a name is ordered: its UTF-8 encoding.
pub open spec fn name_key(name: Seq<char>) -> Seq<u8> {
    vstd::utf8::encode_utf8(name)
}

/// Tells whether the name `a` sorts strictly before the name `b`.
pub fn name_lt(a: &str, b: &str) -> (before: bool)
    ensures
        before == lex_lt(name_key(a@), name_key(b@)),
{
    bytes_lt(a.as_bytes(), b.as_bytes())
}

/// `needle` stands in `hay` at position `i`.
pub open spec fn occurs_at(hay: Seq<u8>, needle: Seq<u8>, i: int) -> bool {
    &&& 0 <= i
    &&& i + needle.len() <= hay.len()
    &&& hay.subrange(i, i + needle.len()) == needle
}

/// `needle` stands somewhere in `hay`.
pub open spec fn occurs(hay: Seq<u8>, needle: Seq<u8>) -> bool {
    exists|i: int| occurs_at(hay, needle, i)
}

/// Tells whether `needle` stands in `hay` at position `start`.
fn bytes_match_at(hay: &[u8], needle: &[u8], start: usize) -> (found: bool)
    requires
        start + needle.len() <= hay.len(),
    ensures
        found == occurs_at(hay@, needle@, start as int),
{
    let mut k: usize = 0;
    while k < needle.len()
        invariant
            k <= needle.len(),
            start + needle.len() <= hay.len(),
            hay@.subrange(start as int, start + k) == needle@.take(k as int),
        decreases needle.len() - k,
    {
        if hay[start + k] != needle[k] {
            proof {
                let window = hay@.subrange(start as int, start + needle.len());
                assert(window[k as int] != needle@[k as int]);
            }
            return false;
        }
        proof {
            assert(hay@.subrange(start as int, start + k + 1) == hay@.subrange(
                start as int,
                start + k,
            ).push(hay@[start + k]));
        }
        k = k + 1;
    }
    proof {
        assert(needle@.take(k as int) == needle@);
    }
    true
}

/// Tells whether `needle` stands somewhere in `hay`.
pub fn bytes_contain(hay: &[u8], needle: &[u8]) -> (found: bool)
    ensures
        found == occurs(hay@, needle@),
{
    if needle.len() > hay.len() {
        return false;
    }
    let last: usize = hay.len() - needle.len();
    let mut i: usize = 0;
    loop
        invariant
            i <= last,
            last == hay.len() - needle.len(),
            needle.len() <= hay.len(),
            forall|j: int| 0 <= j < i ==> !occurs_at(hay@, needle@, j),
        decreases last - i,
    {
        if bytes_match_at(hay, needle, i) {
            return true;
        }
        if i == last {
            return false;
        }
        i = i + 1;
    }
}

/// The text `needle` stands somewhere in the text `hay`, both taken as
/// UTF-8.
pub open spec fn text_contains(hay: Seq<char>, needle: Seq<char>) -> bool {
    occurs(name_key(hay), name_key(needle))
}

/// Tells whether the text `needle` stands somewhere in the text `hay`.
pub fn str_contains(hay: &str, needle: &str) -> (found: bool)
    ensures
        found == text_contains(hay@, needle@),
{
    bytes_contain(hay.as_bytes(), needle.as_bytes())
}

} // verus!
