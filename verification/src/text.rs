//! Character-level text building blocks shared by the reporters and the
//! error types: decimal rendering, zero padding, and appending.

use vstd::prelude::*;

verus! {

broadcast use vstd::string::group_string_axioms;

/// Appends one character to `s` (`String::push`).
#[verifier::external_body]
pub(crate) fn push_char(s: &mut String, c: char)
    ensures
        final(s)@ == old(s)@.push(c),
{
    s.push(c);
}

/// Appends `t` to `s`.
pub fn push_str(s: &mut String, t: &str)
    ensures
        final(s)@ == old(s)@ + t@,
{
    s.append(t);
}

/// An owned copy of `t`.
pub fn owned(t: &str) -> (r: String)
    ensures
        r@ == t@,
{
    String::from_str(t)
}

/// The characters of `s`, in order.
pub fn chars_of(s: &str) -> (r: Vec<char>)
    ensures
        r@ == s@,
{
    let mut out: Vec<char> = Vec::new();
    for c in it: s.chars()
        invariant
            out@ == it.seq().take(it.index() as int),
    {
        out.push(c);
    }
    out
}

/// The ASCII digit for `d` (`0 <= d < 10`).
pub open spec fn digit_char(d: nat) -> char {
    if d == 0 {
        '0'
    } else if d == 1 {
        '1'
    } else if d == 2 {
        '2'
    } else if d == 3 {
        '3'
    } else if d == 4 {
        '4'
    } else if d == 5 {
        '5'
    } else if d == 6 {
        '6'
    } else if d == 7 {
        '7'
    } else if d == 8 {
        '8'
    } else {
        '9'
    }
}

/// Base-10 rendering of `n`, most significant digit first, no leading zeros.
pub open spec fn decimal(n: nat) -> Seq<char>
    decreases n,
{
    if n < 10 {
        seq![digit_char(n)]
    } else {
        decimal(n / 10).push(digit_char(n % 10))
    }
}

/// `digits` left-padded with `'0'` up to `width` characters.
pub open spec fn left_pad_zeros(digits: Seq<char>, width: nat) -> Seq<char> {
    if digits.len() >= width {
        digits
    } else {
        Seq::new((width - digits.len()) as nat, |i: int| '0') + digits
    }
}

/// Base-10 rendering of a signed integer: a leading `'-'` for negative
/// values, then the digits of its magnitude zero-padded so that the whole
/// rendering (sign included) is at least `width` characters wide.
pub open spec fn signed_decimal_padded(n: int, width: nat) -> Seq<char> {
    if n < 0 {
        seq!['-'] + left_pad_zeros(decimal((-n) as nat), if width > 0 { (width - 1) as nat } else { 0 })
    } else {
        left_pad_zeros(decimal(n as nat), width)
    }
}

fn digit(d: u128) -> (c: char)
    requires
        d < 10,
    ensures
        c == digit_char(d as nat),
{
    if d == 0 {
        '0'
    } else if d == 1 {
        '1'
    } else if d == 2 {
        '2'
    } else if d == 3 {
        '3'
    } else if d == 4 {
        '4'
    } else if d == 5 {
        '5'
    } else if d == 6 {
        '6'
    } else if d == 7 {
        '7'
    } else if d == 8 {
        '8'
    } else {
        '9'
    }
}

/// Appends the base-10 rendering of `n` to `s`.
pub fn push_decimal(s: &mut String, n: u128)
    ensures
        final(s)@ == old(s)@ + decimal(n as nat),
    decreases n,
{
    if n >= 10 {
        push_decimal(s, n / 10);
    }
    push_char(s, digit(n % 10));
    assert(final(s)@ =~= old(s)@ + decimal(n as nat));
}

/// The base-10 rendering of `n`.
pub fn decimal_string(n: u128) -> (r: String)
    ensures
        r@ == decimal(n as nat),
{
    let mut s = String::new();
    push_decimal(&mut s, n);
    assert(s@ =~= decimal(n as nat));
    s
}

/// Every rendering has at least one digit.
pub proof fn lemma_decimal_nonempty(n: nat)
    ensures
        decimal(n).len() >= 1,
    decreases n,
{
    if n >= 10 {
        lemma_decimal_nonempty(n / 10);
    }
}

/// Renderings of numbers below `10^k`-ish bounds: a value below 10 has one
/// digit, below 100 at most two, below 10000 at most four.
pub proof fn lemma_decimal_len_small(n: nat)
    ensures
        n < 10 ==> decimal(n).len() == 1,
        10 <= n < 100 ==> decimal(n).len() == 2,
        n < 100 ==> decimal(n).len() <= 2,
        n < 1000 ==> decimal(n).len() <= 3,
        n < 10000 ==> decimal(n).len() <= 4,
    decreases n,
{
    if n >= 10 {
        lemma_decimal_len_small(n / 10);
    }
}

/// Appends `n` zero-padded to at least `width` digits.
pub fn push_decimal_padded(s: &mut String, n: u128, width: usize)
    ensures
        final(s)@ == old(s)@ + left_pad_zeros(decimal(n as nat), width as nat),
{
    let digits = decimal_string(n);
    let len = digits.as_str().unicode_len();
    let ghost start = s@;
    if len < width {
        let mut k: usize = 0;
        while k < width - len
            invariant
                len < width,
                len == decimal(n as nat).len(),
                k <= width - len,
                s@ == start + Seq::new(k as nat, |i: int| '0'),
            decreases width - len - k,
        {
            push_char(s, '0');
            k = k + 1;
            assert(s@ =~= start + Seq::new(k as nat, |i: int| '0'));
        }
    }
    push_str(s, digits.as_str());
    assert(s@ =~= start + left_pad_zeros(decimal(n as nat), width as nat));
}

/// Whether `prefix@` is a prefix of `s@`, checked from position `from`
/// onwards: `s@.skip(from)` starts with `prefix@`.
pub fn starts_with_at(s: &Vec<char>, from: usize, prefix: &str) -> (r: bool)
    requires
        from <= s@.len(),
    ensures
        r == prefix@.is_prefix_of(s@.skip(from as int)),
{
    let p = chars_of(prefix);
    if p.len() > s.len() - from {
        return false;
    }
    let mut i: usize = 0;
    while i < p.len()
        invariant
            p@ == prefix@,
            from <= s@.len(),
            p@.len() <= s@.len() - from,
            s@.len() == s.len(),
            i <= p@.len(),
            forall|j: int| 0 <= j < i ==> p@[j] == s@[from + j],
        decreases p@.len() - i,
    {
        if p[i] != s[from + i] {
            assert(p@[i as int] != s@.skip(from as int)[i as int]);
            return false;
        }
        i = i + 1;
    }
    assert(p@ =~= s@.skip(from as int).subrange(0, p@.len() as int));
    true
}

/// Whether `prefix@` is a prefix of `s@`.
pub fn starts_with(s: &Vec<char>, prefix: &str) -> (r: bool)
    ensures
        r == prefix@.is_prefix_of(s@),
{
    assert(s@.skip(0) =~= s@);
    starts_with_at(s, 0, prefix)
}

/// Whether `suffix@` is a suffix of `s@`.
pub fn ends_with(s: &Vec<char>, suffix: &str) -> (r: bool)
    ensures
        r == suffix@.is_suffix_of(s@),
{
    let n = suffix.unicode_len();
    if n > s.len() {
        return false;
    }
    let r = starts_with_at(s, s.len() - n, suffix);
    assert(s@.skip((s@.len() - n) as int) =~= s@.subrange(
        (s@.len() - n) as int,
        s@.len() as int,
    ));
    r
}

/// Whether `s@` equals `t@`.
pub fn equals(s: &Vec<char>, t: &str) -> (r: bool)
    ensures
        r == (s@ == t@),
{
    let n = t.unicode_len();
    if n != s.len() {
        return false;
    }
    let r = starts_with(s, t);
    if r {
        assert(t@ =~= s@);
    }
    r
}

/// Lexicographic order on character sequences, by code point: the
/// order `String` comparison gives, since UTF-8 preserves it.
pub open spec fn seq_lt(a: Seq<char>, b: Seq<char>) -> bool
    decreases a.len(),
{
    if a.len() == 0 {
        b.len() > 0
    } else if b.len() == 0 {
        false
    } else if a[0] != b[0] {
        a[0] < b[0]
    } else {
        seq_lt(a.drop_first(), b.drop_first())
    }
}

/// `seq_lt` is irreflexive.
pub proof fn lemma_seq_lt_irreflexive(a: Seq<char>)
    ensures
        !seq_lt(a, a),
    decreases a.len(),
{
    if a.len() > 0 {
        lemma_seq_lt_irreflexive(a.drop_first());
    }
}

/// `seq_lt` is transitive.
pub proof fn lemma_seq_lt_transitive(a: Seq<char>, b: Seq<char>, c: Seq<char>)
    requires
        seq_lt(a, b),
        seq_lt(b, c),
    ensures
        seq_lt(a, c),
    decreases a.len(),
{
    if a.len() > 0 && b.len() > 0 && c.len() > 0 {
        if a[0] == b[0] && b[0] == c[0] {
            lemma_seq_lt_transitive(a.drop_first(), b.drop_first(), c.drop_first());
        }
    }
}

/// Two distinct sequences are ordered one way or the other.
pub proof fn lemma_seq_lt_total(a: Seq<char>, b: Seq<char>)
    requires
        a != b,
    ensures
        seq_lt(a, b) || seq_lt(b, a),
    decreases a.len(),
{
    if a.len() == 0 && b.len() == 0 {
        assert(a =~= b);
    } else if a.len() > 0 && b.len() > 0 && a[0] == b[0] {
        if a.drop_first() == b.drop_first() {
            assert(a.drop_first().len() == a.len() - 1);
            assert(b.drop_first().len() == b.len() - 1);
            assert(a.len() == b.len());
            assert forall|i: int| 0 <= i < a.len() implies a[i] == b[i] by {
                if i > 0 {
                    assert(a[i] == a.drop_first()[i - 1]);
                    assert(b[i] == b.drop_first()[i - 1]);
                }
            }
            assert(a =~= b);
        }
        lemma_seq_lt_total(a.drop_first(), b.drop_first());
    }
}

/// `seq_lt` is asymmetric.
pub proof fn lemma_seq_lt_asymmetric(a: Seq<char>, b: Seq<char>)
    requires
        seq_lt(a, b),
    ensures
        !seq_lt(b, a),
    decreases a.len(),
{
    if a.len() > 0 && b.len() > 0 && a[0] == b[0] {
        lemma_seq_lt_asymmetric(a.drop_first(), b.drop_first());
    }
}

/// Whether `a` sorts strictly before `b`.
pub fn str_lt(a: &str, b: &str) -> (r: bool)
    ensures
        r == seq_lt(a@, b@),
{
    let x = chars_of(a);
    let y = chars_of(b);
    let mut i: usize = 0;
    assert(x@.skip(0) =~= x@);
    assert(y@.skip(0) =~= y@);
    while i < x.len() && i < y.len()
        invariant
            x@ == a@,
            y@ == b@,
            i <= x@.len(),
            i <= y@.len(),
            seq_lt(a@, b@) == seq_lt(x@.skip(i as int), y@.skip(i as int)),
        decreases x@.len() - i,
    {
        if x[i] != y[i] {
            assert(x@.skip(i as int)[0] == x@[i as int]);
            assert(y@.skip(i as int)[0] == y@[i as int]);
            assert(x@.skip(i as int).len() > 0 && y@.skip(i as int).len() > 0);
            return x[i] < y[i];
        }
        assert(x@.skip(i as int).drop_first() =~= x@.skip(i + 1));
        assert(y@.skip(i as int).drop_first() =~= y@.skip(i + 1));
        i = i + 1;
    }
    x.len() < y.len()
}

} // verus!
