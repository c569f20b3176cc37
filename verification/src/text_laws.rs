//! The laws of texts: what numbers, joined texts, trimmed texts and failures look like.

use crate::failure::{failure_text, outermost, within};
use crate::text::{
    decimal, digits_value, integer_value, is_digit, joined, lemma_decimal_value, signed_decimal,
    starts_with, trimmed, trimmed_end, trimmed_start, white_space,
};
use vstd::prelude::*;

verus! {

/// A number is written with the digits `0` to `9` alone, so that they write that number, and
/// without zeros before it.
pub proof fn law_decimal_writes_the_number(n: nat)
    ensures
        decimal(n).len() > 0,
        forall|i: int| 0 <= i < decimal(n).len() ==> '0' <= #[trigger] decimal(n)[i] <= '9',
        digits_value(decimal(n)) == n,
        decimal(n).len() > 1 ==> decimal(n)[0] != '0',
{
    lemma_decimal_value(n);
    lemma_no_zero_in_front(n);
    assert forall|i: int| 0 <= i < decimal(n).len() implies '0' <= #[trigger] decimal(n)[i]
        <= '9' by {
        assert(is_digit(decimal(n)[i]));
    }
}

/// A number above zero does not begin with a zero.
proof fn lemma_no_zero_in_front(n: nat)
    ensures
        decimal(n).len() > 0,
        n > 0 ==> decimal(n)[0] != '0',
        decimal(n).len() > 1 ==> n > 0,
    decreases n,
{
    if n >= 10 {
        lemma_no_zero_in_front(n / 10);
        assert(decimal(n)[0] == decimal(n / 10)[0]);
    }
}

/// Different numbers are written differently.
pub proof fn law_decimals_differ(a: nat, b: nat)
    requires
        a != b,
    ensures
        decimal(a) != decimal(b),
{
    lemma_decimal_value(a);
    lemma_decimal_value(b);
}

/// A number with a sign reads as that number; only a negative one has a sign, and the rest of it is
/// its magnitude.
pub proof fn law_signed_decimal_writes_the_number(n: int)
    ensures
        integer_value(signed_decimal(n)) == Some(n),
        n >= 0 ==> signed_decimal(n) == decimal(n as nat),
        n < 0 ==> signed_decimal(n) == seq!['-'] + decimal((-n) as nat),
{
    reveal_strlit("-");
    if n < 0 {
        let s = signed_decimal(n);
        assert(s =~= seq!['-'] + decimal((-n) as nat));
        assert(s.skip(1) =~= decimal((-n) as nat));
        lemma_decimal_value((-n) as nat);
        assert(!is_digit(s[0]));
    } else {
        lemma_decimal_value(n as nat);
    }
}

/// Texts that are joined stand one after the other with the separator between them: nothing for no
/// text, a text for itself, and what was joined of two lists with one separator between.
pub proof fn law_joining(a: Seq<Seq<char>>, b: Seq<Seq<char>>, separator: Seq<char>)
    ensures
        a.len() == 0 ==> joined(a, separator).len() == 0,
        a.len() == 1 ==> joined(a, separator) == a[0],
        a.len() > 0 && b.len() > 0 ==> joined(a + b, separator) == joined(a, separator) + separator
            + joined(b, separator),
    decreases a.len(),
{
    if a.len() > 0 && b.len() > 0 {
        let whole = a + b;
        assert(whole.skip(1) =~= a.skip(1) + b);
        assert(whole[0] == a[0]);
        if a.len() == 1 {
            assert(whole.skip(1) =~= b);
        } else {
            law_joining(a.skip(1), b, separator);
            assert(a[0] + separator + (joined(a.skip(1), separator) + separator + joined(
                b,
                separator,
            )) =~= a[0] + separator + joined(a.skip(1), separator) + separator + joined(
                b,
                separator,
            ));
        }
    }
}

/// A text begins with a prefix exactly where the prefix and something behind it make up the text.
pub proof fn law_prefix(s: Seq<char>, prefix: Seq<char>, rest: Seq<char>)
    ensures
        starts_with(prefix + rest, prefix),
        starts_with(s, prefix) ==> s == prefix + s.skip(prefix.len() as int),
{
    assert((prefix + rest).take(prefix.len() as int) =~= prefix);
    if starts_with(s, prefix) {
        assert(s =~= s.take(prefix.len() as int) + s.skip(prefix.len() as int));
    }
}

/// White space is what Unicode says it is.
pub proof fn law_white_space(c: char)
    ensures
        white_space(c) == {
            let n = c as u32;
            ||| n == 0x9 || n == 0xa || n == 0xb || n == 0xc || n == 0xd
            ||| n == 0x20 || n == 0x85 || n == 0xa0 || n == 0x1680
            ||| n == 0x2000 || n == 0x2001 || n == 0x2002 || n == 0x2003 || n == 0x2004
            ||| n == 0x2005 || n == 0x2006 || n == 0x2007 || n == 0x2008 || n == 0x2009
            ||| n == 0x200a || n == 0x2028 || n == 0x2029 || n == 0x202f || n == 0x205f
            ||| n == 0x3000
        },
{
}

/// Whether all characters are white space.
pub open spec fn all_white(s: Seq<char>) -> bool {
    forall|i: int| 0 <= i < s.len() ==> white_space(#[trigger] s[i])
}

/// What is cut off the end of a text is its white space, all of it and nothing else.
pub proof fn law_trimmed_end(s: Seq<char>)
    ensures
        trimmed_end(s).len() <= s.len(),
        trimmed_end(s) == s.take(trimmed_end(s).len() as int),
        all_white(s.skip(trimmed_end(s).len() as int)),
        trimmed_end(s).len() > 0 ==> !white_space(trimmed_end(s).last()),
    decreases s.len(),
{
    if s.len() > 0 && white_space(s.last()) {
        let shorter = s.drop_last();
        law_trimmed_end(shorter);
        let n = trimmed_end(s).len() as int;
        assert(shorter.take(n) =~= s.take(n));
        assert forall|i: int| 0 <= i < s.skip(n).len() implies white_space(
            #[trigger] s.skip(n)[i],
        ) by {
            if i < shorter.skip(n).len() {
                assert(s.skip(n)[i] == shorter.skip(n)[i]);
            }
        }
    } else {
        assert(s.take(s.len() as int) =~= s);
    }
}

/// The same of the front.
proof fn lemma_trimmed_start(s: Seq<char>)
    ensures
        trimmed_start(s).len() <= s.len(),
        trimmed_start(s) == s.skip(s.len() - trimmed_start(s).len()),
        all_white(s.take(s.len() - trimmed_start(s).len())),
        trimmed_start(s).len() > 0 ==> !white_space(trimmed_start(s)[0]),
    decreases s.len(),
{
    if s.len() > 0 && white_space(s[0]) {
        let shorter = s.skip(1);
        lemma_trimmed_start(shorter);
        let n = s.len() - trimmed_start(s).len();
        assert(shorter.skip(n - 1) =~= s.skip(n));
        assert forall|i: int| 0 <= i < s.take(n).len() implies white_space(
            #[trigger] s.take(n)[i],
        ) by {
            if i > 0 {
                assert(s.take(n)[i] == shorter.take(n - 1)[i - 1]);
            }
        }
    } else {
        assert(s.skip(0) =~= s);
    }
}

/// A trimmed text is the text without the white space at its front and its end: it neither begins
/// nor ends with any, and nothing else is missing.
pub proof fn law_trimmed(s: Seq<char>)
    ensures
        exists|a: int, b: int|
            #![trigger s.subrange(a, b)]
            0 <= a <= b <= s.len() && trimmed(s) == s.subrange(a, b) && all_white(s.take(a))
                && all_white(s.skip(b)),
        trimmed(s).len() > 0 ==> !white_space(trimmed(s)[0]) && !white_space(trimmed(s).last()),
{
    law_trimmed_end(s);
    let e = trimmed_end(s);
    lemma_trimmed_start(e);
    let b = e.len() as int;
    let a = b - trimmed(s).len();
    assert(s.subrange(a, b) =~= e.skip(a));
    assert(s.take(a) =~= e.take(a));
    assert(0 <= a <= b <= s.len() && trimmed(s) == s.subrange(a, b));
    if trimmed(s).len() > 0 {
        assert(trimmed(s).last() == e.last());
    }
}

/// A failure in a context says the context first, and then all that it said before; in short it
/// says the context alone.
pub proof fn law_failure_in_context(context: Seq<char>, failure: Seq<Seq<char>>)
    ensures
        within(context, failure).len() == failure.len() + 1,
        within(context, failure)[0] == context,
        within(context, failure).skip(1) == failure,
        outermost(within(context, failure)) == context,
        outermost(seq![context]) == context,
        failure_text(seq![context]) == context,
        failure.len() > 0 ==> failure_text(within(context, failure)) == context + seq![':', ' ']
            + failure_text(failure),
{
    reveal_strlit(": ");
    assert(": "@ =~= seq![':', ' ']);
    assert(within(context, failure).skip(1) =~= failure);
}

} // verus!
