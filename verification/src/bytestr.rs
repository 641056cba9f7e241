//! Byte-level text utilities: equality and prefix tests on UTF-8 bytes,
//! splitting on a separator, ASCII-whitespace trimming, and decimal parsing.
//! Session names and size strings are compared and parsed through these.

use vstd::prelude::*;

verus! {

/// The UTF-8 bytes of a character sequence.
pub open spec fn chars_bytes(s: Seq<char>) -> Seq<u8> {
    vstd::utf8::encode_utf8(s)
}

/// `p` is a prefix of `s`.
pub open spec fn is_prefix_of(p: Seq<u8>, s: Seq<u8>) -> bool {
    p.len() <= s.len() && p == s.subrange(0, p.len() as int)
}

/// Byte-for-byte equality of two slices.
pub fn bytes_eq(a: &[u8], b: &[u8]) -> (r: bool)
    ensures
        r == (a@ == b@),
{
    if a.len() != b.len() {
        assert(a@ != b@);
        return false;
    }
    let mut i: usize = 0;
    while i < a.len()
        invariant
            i <= a.len(),
            a.len() == b.len(),
            forall|j: int| 0 <= j < i ==> a@[j] == b@[j],
        decreases a.len() - i,
    {
        if a[i] != b[i] {
            return false;
        }
        i += 1;
    }
    proof {
        assert(a@ =~= b@);
    }
    true
}

/// Whether `p` is a byte prefix of `s`.
pub fn bytes_starts_with(s: &[u8], p: &[u8]) -> (r: bool)
    ensures
        r == is_prefix_of(p@, s@),
{
    if p.len() > s.len() {
        return false;
    }
    let mut i: usize = 0;
    while i < p.len()
        invariant
            i <= p.len(),
            p.len() <= s.len(),
            forall|j: int| 0 <= j < i ==> p@[j] == s@[j],
        decreases p.len() - i,
    {
        if p[i] != s[i] {
            assert(p@ != s@.subrange(0, p@.len() as int));
            return false;
        }
        i += 1;
    }
    proof {
        assert(p@ =~= s@.subrange(0, p@.len() as int));
    }
    true
}

/// ASCII whitespace, as trimmed from the ends of a size string.
pub open spec fn is_ascii_space(b: u8) -> bool {
    b == 32 || (9 <= b <= 13)
}

/// `s` with leading ASCII whitespace removed.
pub open spec fn spec_trim_front(s: Seq<u8>) -> Seq<u8>
    decreases s.len(),
{
    if s.len() > 0 && is_ascii_space(s[0]) {
        spec_trim_front(s.drop_first())
    } else {
        s
    }
}

/// `s` with trailing ASCII whitespace removed.
pub open spec fn spec_trim_back(s: Seq<u8>) -> Seq<u8>
    decreases s.len(),
{
    if s.len() > 0 && is_ascii_space(s.last()) {
        spec_trim_back(s.drop_last())
    } else {
        s
    }
}

/// `s` with ASCII whitespace removed from both ends.
pub open spec fn spec_trim(s: Seq<u8>) -> Seq<u8> {
    spec_trim_back(spec_trim_front(s))
}

proof fn lemma_trim_front_subrange(s: Seq<u8>, k: int)
    requires
        0 <= k <= s.len(),
        forall|j: int| 0 <= j < k ==> is_ascii_space(s[j]),
        k == s.len() || !is_ascii_space(s[k]),
    ensures
        spec_trim_front(s) == s.subrange(k, s.len() as int),
    decreases k,
{
    if k == 0 {
        assert(s.subrange(0, s.len() as int) =~= s);
    } else {
        assert(is_ascii_space(s[0]));
        lemma_trim_front_subrange(s.drop_first(), k - 1);
        assert(s.drop_first().subrange(k - 1, s.drop_first().len() as int) =~= s.subrange(
            k,
            s.len() as int,
        ));
    }
}

proof fn lemma_trim_back_subrange(s: Seq<u8>, k: int)
    requires
        0 <= k <= s.len(),
        forall|j: int| k <= j < s.len() ==> is_ascii_space(s[j]),
        k == 0 || !is_ascii_space(s[k - 1]),
    ensures
        spec_trim_back(s) == s.subrange(0, k),
    decreases s.len() - k,
{
    if k == s.len() {
        assert(s.subrange(0, s.len() as int) =~= s);
    } else {
        assert(is_ascii_space(s.last()));
        lemma_trim_back_subrange(s.drop_last(), k);
        assert(s.drop_last().subrange(0, k) =~= s.subrange(0, k));
    }
}

/// Recognizes ASCII whitespace.
fn is_space_byte(b: u8) -> (r: bool)
    ensures
        r == is_ascii_space(b),
{
    b == 32 || (9 <= b && b <= 13)
}

/// Copies `s` without ASCII whitespace at either end.
pub fn trim_bytes(s: &[u8]) -> (r: Vec<u8>)
    ensures
        r@ == spec_trim(s@),
{
    let mut start: usize = 0;
    while start < s.len() && is_space_byte(s[start])
        invariant
            start <= s.len(),
            forall|j: int| 0 <= j < start ==> is_ascii_space(s@[j]),
        decreases s.len() - start,
    {
        start += 1;
    }
    proof {
        lemma_trim_front_subrange(s@, start as int);
    }
    let mut end: usize = s.len();
    while end > start && is_space_byte(s[end - 1])
        invariant
            start <= end <= s.len(),
            forall|j: int| end <= j < s.len() ==> is_ascii_space(s@[j]),
        decreases end,
    {
        end -= 1;
    }
    let ghost front = spec_trim_front(s@);
    proof {
        assert(front =~= s@.subrange(start as int, s@.len() as int));
        lemma_trim_back_subrange(front, end - start);
    }
    let mut r: Vec<u8> = Vec::new();
    let mut i: usize = start;
    while i < end
        invariant
            start <= i <= end <= s.len(),
            r@ =~= s@.subrange(start as int, i as int),
        decreases end - i,
    {
        r.push(s[i]);
        assert(r@ =~= s@.subrange(start as int, i + 1 as int));
        i += 1;
    }
    proof {
        assert(front.subrange(0, end - start as int) =~= s@.subrange(start as int, end as int));
    }
    r
}

/// Splitting on a separator byte, defined over the bytes already read: the
/// empty sequence yields one empty piece; a separator closes the piece, any
/// other byte extends the last piece.
pub open spec fn spec_split(s: Seq<u8>, sep: u8) -> Seq<Seq<u8>>
    decreases s.len(),
{
    if s.len() == 0 {
        seq![Seq::<u8>::empty()]
    } else if s.last() == sep {
        spec_split(s.drop_last(), sep).push(Seq::<u8>::empty())
    } else {
        let p = spec_split(s.drop_last(), sep);
        p.update(p.len() - 1, p.last().push(s.last()))
    }
}

pub proof fn lemma_split_len(s: Seq<u8>, sep: u8)
    ensures
        spec_split(s, sep).len() >= 1,
    decreases s.len(),
{
    if s.len() > 0 {
        lemma_split_len(s.drop_last(), sep);
    }
}

/// Splits `s` on the separator byte; a trailing separator yields a trailing
/// empty piece, and the empty input yields one empty piece.
pub fn split_bytes(s: &[u8], sep: u8) -> (r: Vec<Vec<u8>>)
    ensures
        r@.len() == spec_split(s@, sep).len(),
        forall|k: int| 0 <= k < r@.len() ==> r@[k]@ == spec_split(s@, sep)[k],
{
    let mut pieces: Vec<Vec<u8>> = Vec::new();
    let mut cur: Vec<u8> = Vec::new();
    let mut i: usize = 0;
    proof {
        assert(s@.take(0) =~= Seq::<u8>::empty());
    }
    while i < s.len()
        invariant
            i <= s.len(),
            spec_split(s@.take(i as int), sep).len() == pieces@.len() + 1,
            forall|k: int|
                0 <= k < pieces@.len() ==> pieces@[k]@ == spec_split(s@.take(i as int), sep)[k],
            cur@ == spec_split(s@.take(i as int), sep).last(),
        decreases s.len() - i,
    {
        let ghost prev = s@.take(i as int);
        let b = s[i];
        if b == sep {
            pieces.push(cur);
            cur = Vec::new();
        } else {
            cur.push(b);
        }
        i += 1;
        proof {
            let t = s@.take(i as int);
            assert(t.drop_last() =~= prev);
            lemma_split_len(prev, sep);
        }
    }
    proof {
        assert(s@.take(s@.len() as int) =~= s@);
    }
    pieces.push(cur);
    pieces
}

/// A decimal digit.
pub open spec fn is_digit(b: u8) -> bool {
    48 <= b <= 57
}

/// The value of a sequence of decimal digits, most significant first.
pub open spec fn digits_value(s: Seq<u8>) -> nat
    decreases s.len(),
{
    if s.len() == 0 {
        0
    } else {
        (digits_value(s.drop_last()) * 10 + (s.last() - 48)) as nat
    }
}

/// Why a decimal string failed to parse.
#[derive(Clone, Copy, Debug, PartialEq, Eq, Structural)]
pub enum IntParseError {
    /// The input was empty.
    Empty,
    /// A byte other than a decimal digit (or a lone leading plus sign).
    InvalidDigit,
    /// The value does not fit in the target integer type.
    Overflow,
}

/// The digits of `s` after an optional leading plus sign.
pub open spec fn spec_unsigned_body(s: Seq<u8>) -> Seq<u8> {
    if s.len() > 0 && s[0] == 43 {
        s.drop_first()
    } else {
        s
    }
}

/// Parsing a non-negative decimal integer: an optional leading plus sign,
/// then one or more decimal digits, valued most significant first; anything
/// else is rejected, and values above `usize::MAX` overflow.
pub open spec fn spec_parse_usize(s: Seq<u8>) -> Result<usize, IntParseError> {
    if s.len() == 0 {
        Err(IntParseError::Empty)
    } else {
        let t = spec_unsigned_body(s);
        if t.len() == 0 {
            Err(IntParseError::InvalidDigit)
        } else if exists|j: int| 0 <= j < t.len() && !is_digit(t[j]) {
            Err(IntParseError::InvalidDigit)
        } else if digits_value(t) > usize::MAX {
            Err(IntParseError::Overflow)
        } else {
            Ok(digits_value(t) as usize)
        }
    }
}

proof fn lemma_digits_value_grows(t: Seq<u8>, i: int)
    requires
        0 <= i < t.len(),
        forall|j: int| 0 <= j < t.len() ==> is_digit(t[j]),
    ensures
        digits_value(t) >= digits_value(t.take(i + 1)),
    decreases t.len() - i,
{
    if i + 1 == t.len() {
        assert(t.take(i + 1) =~= t);
    } else {
        lemma_digits_value_grows(t, i + 1);
        let u = t.take(i + 2);
        assert(u.drop_last() =~= t.take(i + 1));
        assert(is_digit(u.last()));
        assert(digits_value(u) >= digits_value(t.take(i + 1)));
    }
}

/// Parses a non-negative decimal integer, as the size string's fields are
/// written: optional leading plus sign, then decimal digits.
pub fn parse_usize(s: &[u8]) -> (r: Result<usize, IntParseError>)
    ensures
        r == spec_parse_usize(s@),
{
    if s.len() == 0 {
        return Err(IntParseError::Empty);
    }
    let start: usize = if s[0] == 43 {
        1
    } else {
        0
    };
    let ghost t = spec_unsigned_body(s@);
    proof {
        assert(t =~= s@.subrange(start as int, s@.len() as int));
    }
    if start == s.len() {
        return Err(IntParseError::InvalidDigit);
    }
    let mut i: usize = start;
    while i < s.len()
        invariant
            start <= i <= s.len(),
            start < s.len(),
            t == spec_unsigned_body(s@),
            t =~= s@.subrange(start as int, s@.len() as int),
            forall|j: int| start <= j < i ==> is_digit(s@[j]),
        decreases s.len() - i,
    {
        let b = s[i];
        if b < 48 || b > 57 {
            proof {
                assert(t.len() > 0);
                assert(exists|j: int| 0 <= j < t.len() && !is_digit(t[j])) by {
                    assert(!is_digit(t[i - start]));
                }
            }
            return Err(IntParseError::InvalidDigit);
        }
        i += 1;
    }
    assert(forall|j: int| 0 <= j < t.len() ==> is_digit(t[j]));
    let mut acc: usize = 0;
    let mut i: usize = start;
    while i < s.len()
        invariant
            start <= i <= s.len(),
            start < s.len(),
            t == spec_unsigned_body(s@),
            t =~= s@.subrange(start as int, s@.len() as int),
            forall|j: int| 0 <= j < t.len() ==> is_digit(t[j]),
            acc == digits_value(t.take(i - start)),
        decreases s.len() - i,
    {
        let b = s[i];
        proof {
            assert(is_digit(t[i - start]));
        }
        let d: usize = (b - 48) as usize;
        let ghost piece = t.take(i + 1 - start);
        proof {
            assert(piece.drop_last() =~= t.take(i - start));
            assert(piece.last() == b);
        }
        if acc > (usize::MAX - d) / 10 {
            proof {
                assert(digits_value(piece) == acc * 10 + d);
                assert(acc >= (usize::MAX - d) / 10 + 1);
                assert(((usize::MAX - d) / 10 + 1) * 10 + d > usize::MAX) by (nonlinear_arith)
                    requires
                        d <= 9,
                ;
                assert(acc * 10 + d >= ((usize::MAX - d) / 10 + 1) * 10 + d) by (nonlinear_arith)
                    requires
                        acc >= (usize::MAX - d) / 10 + 1,
                ;
                lemma_digits_value_grows(t, i - start);
                assert(digits_value(t) > usize::MAX);
            }
            return Err(IntParseError::Overflow);
        }
        proof {
            assert(acc <= (usize::MAX - d) / 10);
            assert(acc * 10 <= usize::MAX - d) by (nonlinear_arith)
                requires
                    acc <= (usize::MAX - d) / 10,
                    d <= usize::MAX,
            ;
        }
        acc = acc * 10 + d;
        i += 1;
        proof {
            assert(acc == digits_value(t.take(i - start)));
        }
    }
    proof {
        assert(t.take(s@.len() - start as int) =~= t);
    }
    Ok(acc)
}

} // verus!
