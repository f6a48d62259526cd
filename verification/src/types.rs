//! The text side of percentage parsing: what is left of the input once
//! surrounding whitespace and a trailing percent sign are taken off.

use vstd::prelude::*;
use vstd::string::StrSliceExecFns;

verus! {

/// Whether a character has the Unicode `White_Space` property.
pub open spec fn is_white_space(c: char) -> bool {
    let u = c as u32;
    ||| 0x9 <= u <= 0xd
    ||| u == 0x20
    ||| u == 0x85
    ||| u == 0xa0
    ||| u == 0x1680
    ||| 0x2000 <= u <= 0x200a
    ||| u == 0x2028
    ||| u == 0x2029
    ||| u == 0x202f
    ||| u == 0x205f
    ||| u == 0x3000
}

/// Whether a character has the Unicode `White_Space` property, as
/// `char::is_whitespace` decides it.
pub fn char_is_whitespace(c: char) -> (b: bool)
    ensures
        b == is_white_space(c),
{
    let u = c as u32;
    (0x9 <= u && u <= 0xd) || u == 0x20 || u == 0x85 || u == 0xa0 || u == 0x1680 || (0x2000 <= u
        && u <= 0x200a) || u == 0x2028 || u == 0x2029 || u == 0x202f || u == 0x205f || u == 0x3000
}

/// The text with leading whitespace removed.
pub open spec fn trim_start(s: Seq<char>) -> Seq<char>
    decreases s.len(),
{
    if s.len() > 0 && is_white_space(s[0]) {
        trim_start(s.drop_first())
    } else {
        s
    }
}

/// The text with trailing whitespace removed.
pub open spec fn trim_end(s: Seq<char>) -> Seq<char>
    decreases s.len(),
{
    if s.len() > 0 && is_white_space(s.last()) {
        trim_end(s.drop_last())
    } else {
        s
    }
}

/// The text with leading and trailing whitespace removed.
pub open spec fn trim(s: Seq<char>) -> Seq<char> {
    trim_end(trim_start(s))
}

/// The number part of a percentage input and whether it carried a percent
/// sign: the input is trimmed, and a single trailing `%` is then taken off.
pub open spec fn percent_body(s: Seq<char>) -> (Seq<char>, bool) {
    let t = trim(s);
    if t.len() > 0 && t.last() == '%' {
        (t.drop_last(), true)
    } else {
        (t, false)
    }
}

/// Taking off leading whitespace removes a run of whitespace at the front and
/// nothing else: the result is the text from the returned position on, every
/// character before it is whitespace, and the character at it (if any) is not.
pub proof fn lemma_trim_start_shape(s: Seq<char>) -> (a: int)
    ensures
        0 <= a <= s.len(),
        trim_start(s) == s.subrange(a, s.len() as int),
        forall|i: int| 0 <= i < a ==> is_white_space(#[trigger] s[i]),
        a < s.len() ==> !is_white_space(s[a]),
    decreases s.len(),
{
    if s.len() > 0 && is_white_space(s[0]) {
        let a0 = lemma_trim_start_shape(s.drop_first());
        assert(s.drop_first().subrange(a0, s.drop_first().len() as int) =~= s.subrange(
            a0 + 1,
            s.len() as int,
        ));
        assert forall|i: int| 0 <= i < a0 + 1 implies is_white_space(#[trigger] s[i]) by {
            if i > 0 {
                assert(s[i] == s.drop_first()[i - 1]);
            }
        }
        a0 + 1
    } else {
        assert(s.subrange(0, s.len() as int) =~= s);
        0
    }
}

/// Taking off trailing whitespace removes a run of whitespace at the end and
/// nothing else: the result is the text before the returned position, every
/// character from it on is whitespace, and the character before it (if any)
/// is not.
pub proof fn lemma_trim_end_shape(s: Seq<char>) -> (b: int)
    ensures
        0 <= b <= s.len(),
        trim_end(s) == s.subrange(0, b),
        forall|i: int| b <= i < s.len() ==> is_white_space(#[trigger] s[i]),
        b > 0 ==> !is_white_space(s[b - 1]),
    decreases s.len(),
{
    if s.len() > 0 && is_white_space(s.last()) {
        let b0 = lemma_trim_end_shape(s.drop_last());
        assert(s.drop_last().subrange(0, b0) =~= s.subrange(0, b0));
        assert forall|i: int| b0 <= i < s.len() implies is_white_space(#[trigger] s[i]) by {
            if i < s.len() - 1 {
                assert(s[i] == s.drop_last()[i]);
            }
        }
        b0
    } else {
        assert(s.subrange(0, s.len() as int) =~= s);
        s.len() as int
    }
}

/// Trimming keeps a contiguous part of the text and drops only whitespace
/// around it: every character outside the kept part is whitespace, and the
/// kept part neither starts nor ends with whitespace.
pub proof fn lemma_trim_shape(s: Seq<char>) -> (ab: (int, int))
    ensures
        0 <= ab.0 <= ab.1 <= s.len(),
        trim(s) == s.subrange(ab.0, ab.1),
        forall|i: int| 0 <= i < ab.0 ==> is_white_space(#[trigger] s[i]),
        forall|i: int| ab.1 <= i < s.len() ==> is_white_space(#[trigger] s[i]),
        trim(s).len() > 0 ==> !is_white_space(trim(s)[0]) && !is_white_space(trim(s).last()),
{
    let a = lemma_trim_start_shape(s);
    let rest = s.subrange(a, s.len() as int);
    let b = lemma_trim_end_shape(rest);
    assert(rest.subrange(0, b) =~= s.subrange(a, a + b));
    assert forall|i: int| a + b <= i < s.len() implies is_white_space(#[trigger] s[i]) by {
        assert(s[i] == rest[i - a]);
    }
    if b > 0 {
        assert(trim(s)[0] == s[a]);
        assert(trim(s).last() == rest[b - 1]);
    }
    (a, a + b)
}

/// A percent sign at the end of the trimmed input is always reported and
/// always taken off, whatever the number part holds and however long it is;
/// without one, the trimmed input is the number part as it stands. Putting
/// the reported sign back gives the trimmed input again.
pub proof fn lemma_percent_sign_reported(s: Seq<char>)
    ensures
        percent_body(s).1 <==> (trim(s).len() > 0 && trim(s).last() == '%'),
        (if percent_body(s).1 {
            percent_body(s).0.push('%')
        } else {
            percent_body(s).0
        }) == trim(s),
{
    let t = trim(s);
    if t.len() > 0 && t.last() == '%' {
        assert(t.drop_last().push('%') =~= t);
    }
}

/// A number written without surrounding whitespace and followed by a percent
/// sign splits into exactly that number, with the sign reported.
pub proof fn lemma_number_then_percent(n: Seq<char>)
    requires
        n.len() == 0 || !is_white_space(n[0]),
    ensures
        percent_body(n.push('%')) == (n, true),
{
    let t = n.push('%');
    assert(!is_white_space('%'));
    assert(!is_white_space(t[0]));
    assert(trim_start(t) == t);
    assert(trim_end(t) == t);
    assert(t.drop_last() =~= n);
}

/// Splits a percentage input into its number part and whether it ended in a
/// percent sign (after surrounding whitespace is removed). `" 80% "` gives
/// `("80", true)` and `"0.8"` gives `("0.8", false)`.
pub fn split_percent_suffix(s: &str) -> (r: (&str, bool))
    ensures
        (r.0@, r.1) == percent_body(s@),
        r.1 <==> (trim(s@).len() > 0 && trim(s@).last() == '%'),
        r.1 ==> r.0@.push('%') == trim(s@),
        !r.1 ==> r.0@ == trim(s@),
{
    let n = s.unicode_len();
    let mut i: usize = 0;
    assert(s@.subrange(0, n as int) =~= s@);
    loop
        invariant
            i <= n,
            n == s@.len(),
            trim_start(s@) == trim_start(s@.subrange(i as int, n as int)),
        ensures
            i <= n,
            trim_start(s@) == s@.subrange(i as int, n as int),
        decreases n - i,
    {
        if i == n {
            break;
        }
        let c = s.get_char(i);
        if !char_is_whitespace(c) {
            break;
        }
        assert(s@.subrange(i as int, n as int).drop_first() =~= s@.subrange(i + 1, n as int));
        i = i + 1;
    }
    let mut j: usize = n;
    loop
        invariant
            i <= j <= n,
            n == s@.len(),
            trim_start(s@) == s@.subrange(i as int, n as int),
            trim(s@) == trim_end(s@.subrange(i as int, j as int)),
        ensures
            i <= j <= n,
            trim(s@) == s@.subrange(i as int, j as int),
        decreases j - i,
    {
        if j == i {
            break;
        }
        let c = s.get_char(j - 1);
        if !char_is_whitespace(c) {
            break;
        }
        assert(s@.subrange(i as int, j as int).drop_last() =~= s@.subrange(i as int, j - 1));
        j = j - 1;
    }
    if j > i && s.get_char(j - 1) == '%' {
        let body = s.substring_char(i, j - 1);
        assert(body@ =~= s@.subrange(i as int, j as int).drop_last());
        (body, true)
    } else {
        (s.substring_char(i, j), false)
    }
}

} // verus!
