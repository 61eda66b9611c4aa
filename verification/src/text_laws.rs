//! What holds of the operations on texts, whatever the texts are.

use crate::text::{
    ascii_alphanumeric, ascii_lower, contains_text, decimal, digit, digits_value, has_prefix,
    is_digit, joined, occurs_at, parsed_bool, parsed_u64, pieces, replaced, trimmed,
    unsigned_part, white_space, without_leading, without_outer_hyphens, without_trailing,
};
use vstd::prelude::*;

verus! {

/// Whether a text has a word somewhere in it.
pub open spec fn mentions(s: Seq<char>, word: Seq<char>) -> bool {
    exists|a: Seq<char>, b: Seq<char>| s == #[trigger] (a + word + b)
}

/// Whether a text has the given character nowhere.
pub open spec fn lacks(s: Seq<char>, c: char) -> bool {
    forall|i: int| 0 <= i < s.len() ==> #[trigger] s[i] != c
}

/// A text contains another exactly where it is made of something, the other and something.
pub proof fn containing_is_having_in_between(s: Seq<char>, word: Seq<char>)
    ensures
        contains_text(s, word) <==> mentions(s, word),
{
    if contains_text(s, word) {
        let i = choose|i: int| #[trigger] occurs_at(s, word, i);
        let a = s.take(i);
        let b = s.skip(i + word.len());
        assert(s =~= a + s.subrange(i, i + word.len()) + b);
        assert(s == a + word + b);
    }
    if mentions(s, word) {
        let (a, b) = choose|a: Seq<char>, b: Seq<char>| s == #[trigger] (a + word + b);
        assert(s.subrange(a.len() as int, a.len() as int + word.len()) =~= word);
        assert(occurs_at(s, word, a.len() as int));
    }
}

/// A text begins with another exactly where it is the other and something behind it.
pub proof fn prefixes_are_what_comes_first(s: Seq<char>, prefix: Seq<char>, rest: Seq<char>)
    ensures
        has_prefix(prefix + rest, prefix),
        (prefix + rest).skip(prefix.len() as int) == rest,
        has_prefix(s, prefix) ==> s == prefix + s.skip(prefix.len() as int),
{
    assert((prefix + rest).take(prefix.len() as int) =~= prefix);
    assert((prefix + rest).skip(prefix.len() as int) =~= rest);
    if has_prefix(s, prefix) {
        assert(s =~= s.take(prefix.len() as int) + s.skip(prefix.len() as int));
    }
}

/// Replacing leaves what cannot begin an occurrence as it is.
pub proof fn replacing_skips_what_is_different(
    a: Seq<char>,
    s: Seq<char>,
    from: Seq<char>,
    to: Seq<char>,
)
    requires
        from.len() > 0,
        lacks(a, from[0]),
    ensures
        replaced(a + s, from, to) == a + replaced(s, from, to),
    decreases a.len(),
{
    let t = a + s;
    if a.len() == 0 {
        assert(t =~= s);
        assert(a + replaced(s, from, to) =~= replaced(s, from, to));
    } else if t.len() < from.len() {
    } else {
        let b = a.skip(1);
        assert(t[0] == a[0]);
        if has_prefix(t, from) {
            assert(t.take(from.len() as int)[0] == t[0]);
        }
        assert(t.skip(1) =~= b + s);
        assert forall|i: int| 0 <= i < b.len() implies #[trigger] b[i] != from[0] by {
            assert(b[i] == a[i + 1]);
        }
        replacing_skips_what_is_different(b, s, from, to);
        assert(seq![a[0]] + (b + replaced(s, from, to)) =~= a + replaced(s, from, to));
    }
}

/// Replacing puts the new text in the place of the old one, and goes on behind it.
pub proof fn replacing_takes_the_place(s: Seq<char>, from: Seq<char>, to: Seq<char>)
    requires
        from.len() > 0,
    ensures
        replaced(from + s, from, to) == to + replaced(s, from, to),
        s.len() < from.len() ==> replaced(s, from, to) == s,
{
    prefixes_are_what_comes_first(from + s, from, s);
}

/// What is left of a text without the white space around it neither begins nor ends with white
/// space, and nothing but white space is gone.
pub proof fn trimming_takes_only_white_space(s: Seq<char>)
    ensures
        trimmed(s).len() > 0 ==> !white_space(trimmed(s)[0]) && !white_space(trimmed(s).last()),
        exists|a: Seq<char>, b: Seq<char>|
            s == #[trigger] (a + trimmed(s) + b) && (forall|i: int|
                0 <= i < a.len() ==> white_space(#[trigger] a[i])) && (forall|i: int|
                0 <= i < b.len() ==> white_space(#[trigger] b[i])),
{
    let drop = |c: char| white_space(c);
    let t = without_leading(s, drop);
    let a = leading(s, drop);
    let b = trailing(t, drop);
    assert(s =~= a + trimmed(s) + b);
    if trimmed(s).len() > 0 {
        assert(t[0] == trimmed(s)[0]);
    }
}

/// The characters that are dropped in front of a text.
proof fn leading(s: Seq<char>, drop: spec_fn(char) -> bool) -> (a: Seq<char>)
    ensures
        s == a + without_leading(s, drop),
        forall|i: int| 0 <= i < a.len() ==> drop(#[trigger] a[i]),
        without_leading(s, drop).len() > 0 ==> !drop(without_leading(s, drop)[0]),
    decreases s.len(),
{
    if s.len() > 0 && drop(s[0]) {
        let rest = leading(s.skip(1), drop);
        let a = seq![s[0]] + rest;
        let kept = without_leading(s.skip(1), drop);
        assert(s =~= seq![s[0]] + s.skip(1));
        assert(seq![s[0]] + (rest + kept) =~= a + kept);
        a
    } else {
        let a = Seq::<char>::empty();
        assert(s =~= a + without_leading(s, drop));
        a
    }
}

/// The characters that are dropped behind a text.
proof fn trailing(s: Seq<char>, drop: spec_fn(char) -> bool) -> (b: Seq<char>)
    ensures
        s == without_trailing(s, drop) + b,
        forall|i: int| 0 <= i < b.len() ==> drop(#[trigger] b[i]),
        without_trailing(s, drop).len() > 0 ==> !drop(without_trailing(s, drop).last()),
    decreases s.len(),
{
    if s.len() > 0 && drop(s.last()) {
        let rest = trailing(s.drop_last(), drop);
        let b = rest.push(s.last());
        let kept = without_trailing(s.drop_last(), drop);
        assert(s =~= s.drop_last().push(s.last()));
        assert((kept + rest).push(s.last()) =~= kept + b);
        b
    } else {
        let b = Seq::<char>::empty();
        assert(s =~= without_trailing(s, drop) + b);
        b
    }
}

/// What is left of a text without the hyphens around it neither begins nor ends with a hyphen,
/// and nothing but hyphens is gone.
pub proof fn only_outer_hyphens_go(s: Seq<char>)
    ensures
        without_outer_hyphens(s).len() > 0 ==> without_outer_hyphens(s)[0] != '-'
            && without_outer_hyphens(s).last() != '-',
        exists|a: Seq<char>, b: Seq<char>|
            s == #[trigger] (a + without_outer_hyphens(s) + b) && (forall|i: int|
                0 <= i < a.len() ==> #[trigger] a[i] == '-') && (forall|i: int|
                0 <= i < b.len() ==> #[trigger] b[i] == '-'),
{
    let drop = |c: char| c == '-';
    let t = without_leading(s, drop);
    let a = leading(s, drop);
    let b = trailing(t, drop);
    assert(s =~= a + without_outer_hyphens(s) + b);
    if without_outer_hyphens(s).len() > 0 {
        assert(t[0] == without_outer_hyphens(s)[0]);
    }
}

/// White space in ASCII is the space and what lies from the tabulator to the carriage return.
pub proof fn ascii_white_space_is_known(c: char)
    requires
        (c as u32) < 128,
    ensures
        white_space(c) <==> c == ' ' || '\t' <= c <= '\r',
{
}

/// A text is its pieces with the separator between them; no piece has the separator in it.
pub proof fn pieces_make_up_the_text(s: Seq<char>, sep: char)
    ensures
        pieces(s, sep).len() > 0,
        joined(pieces(s, sep), seq![sep]) == s,
        forall|i: int| 0 <= i < pieces(s, sep).len() ==> lacks(#[trigger] pieces(s, sep)[i], sep),
    decreases s.len(),
{
    let parts = pieces(s, sep);
    if s.len() == 0 {
    } else {
        let before = pieces(s.drop_last(), sep);
        pieces_make_up_the_text(s.drop_last(), sep);
        if s.last() == sep {
            assert(parts.drop_last() =~= before);
            assert(joined(before, seq![sep]) + seq![sep] + Seq::<char>::empty() =~= s);
        } else {
            let last = before.last().push(s.last());
            assert(parts.drop_last() =~= before.drop_last());
            assert(parts.last() == last);
            assert forall|i: int| 0 <= i < parts.len() implies lacks(#[trigger] parts[i], sep) by {
                if i < parts.len() - 1 {
                    assert(parts[i] == before[i]);
                } else {
                    assert(lacks(before[before.len() - 1], sep));
                }
            }
            if before.len() == 1 {
                assert(last =~= s);
            } else {
                let front = joined(before.drop_last(), seq![sep]) + seq![sep];
                assert(s =~= s.drop_last().push(s.last()));
                assert(front + last =~= (front + before.last()).push(s.last()));
            }
        }
    }
}

/// The pieces in front of a separator and behind it are the pieces of what stands there.
pub proof fn pieces_are_parted_by_the_separator(a: Seq<char>, b: Seq<char>, sep: char)
    ensures
        pieces(a + seq![sep] + b, sep) == pieces(a, sep) + pieces(b, sep),
        lacks(a, sep) ==> pieces(a, sep) == seq![a],
    decreases b.len(),
{
    let s = a + seq![sep] + b;
    if b.len() == 0 {
        assert(s.drop_last() =~= a);
        assert(b =~= Seq::empty());
        assert(pieces(s, sep) =~= pieces(a, sep) + pieces(b, sep));
    } else {
        let t = a + seq![sep] + b.drop_last();
        assert(s.drop_last() =~= t);
        pieces_are_parted_by_the_separator(a, b.drop_last(), sep);
        pieces_make_up_the_text(b.drop_last(), sep);
        assert(pieces(s, sep) =~= pieces(a, sep) + pieces(b, sep));
    }
    if lacks(a, sep) {
        text_without_separator_is_one_piece(a, sep);
    }
}

proof fn text_without_separator_is_one_piece(a: Seq<char>, sep: char)
    requires
        lacks(a, sep),
    ensures
        pieces(a, sep) == seq![a],
    decreases a.len(),
{
    if a.len() > 0 {
        let b = a.drop_last();
        assert forall|i: int| 0 <= i < b.len() implies #[trigger] b[i] != sep by {
            assert(b[i] == a[i]);
        }
        text_without_separator_is_one_piece(b, sep);
        assert(b.push(a.last()) =~= a);
        assert(pieces(a, sep) =~= seq![a]);
    } else {
        assert(pieces(a, sep) =~= seq![a]);
    }
}

/// A number in decimal notation is made of digits, does not begin with a zero but for zero
/// itself, and denotes the number; so it is read as the number, with or without a plus sign.
pub proof fn numbers_are_read_as_they_are_written(n: u64)
    ensures
        decimal(n as nat).len() > 0,
        forall|i: int| 0 <= i < decimal(n as nat).len() ==> '0' <= #[trigger] decimal(n as nat)[i]
            <= '9',
        n > 0 ==> decimal(n as nat)[0] != '0',
        n < 10 ==> decimal(n as nat).len() == 1,
        parsed_u64(decimal(n as nat)) == Some(n),
        parsed_u64(seq!['+'] + decimal(n as nat)) == Some(n),
{
    decimals_denote(n as nat);
    let s = decimal(n as nat);
    assert(s[0] != '+');
    assert(unsigned_part(s) == s);
    assert((seq!['+'] + s).skip(1) =~= s);
}

proof fn decimals_denote(n: nat)
    ensures
        decimal(n).len() > 0,
        forall|i: int| 0 <= i < decimal(n).len() ==> is_digit(#[trigger] decimal(n)[i]),
        n > 0 ==> decimal(n)[0] != '0',
        digits_value(decimal(n)) == n,
    decreases n,
{
    if n < 10 {
        assert(decimal(n).drop_last() =~= Seq::empty());
        assert(digits_value(decimal(n).drop_last()) == 0);
        assert(digit(n) as u32 == 48 + n);
    } else {
        decimals_denote(n / 10);
        assert(decimal(n).drop_last() =~= decimal(n / 10));
        assert(digit(n % 10) as u32 == 48 + n % 10);
    }
}

/// One more digit behind a number multiplies it by ten and adds the digit.
pub proof fn digits_count_ten_times_as_much_further_left(n: nat, d: nat)
    requires
        n > 0,
        d < 10,
    ensures
        decimal(10 * n + d) == decimal(n).push(('0' as u32 + d) as char),
        decimal(d) == seq![('0' as u32 + d) as char],
{
}

/// What has anything but digits in it behind an optional plus sign, or nothing at all, is no
/// number.
pub proof fn other_texts_are_no_numbers(s: Seq<char>, i: int)
    requires
        s.len() == 0 || (0 <= i < s.len() && !('0' <= s[i] <= '9') && (i > 0 || s[i] != '+')),
    ensures
        parsed_u64(s) is None,
{
    if s.len() > 0 {
        let digits = unsigned_part(s);
        if s[0] == '+' {
            assert(digits[i - 1] == s[i]);
        } else {
            assert(digits[i] == s[i]);
        }
    }
}

/// `true` and `false` are read as what they say, and no other text is read at all.
pub proof fn words_are_read_as_they_are_written(s: Seq<char>)
    ensures
        parsed_bool("true"@) == Some(true),
        parsed_bool("false"@) == Some(false),
        parsed_bool(s) is Some ==> s == "true"@ || s == "false"@,
{
    reveal_strlit("true");
    reveal_strlit("false");
    assert("true"@[0] != "false"@[0]);
}

/// The lower-case form of the letters is what lies thirty-two further on; everything else stays.
/// It is a letter or digit where the character is, and never a capital letter.
pub proof fn lower_case_has_no_capitals(c: char)
    ensures
        !('A' <= ascii_lower(c) <= 'Z'),
        'A' <= c <= 'Z' ==> ascii_lower(c) as u32 == c as u32 + 32,
        !('A' <= c <= 'Z') ==> ascii_lower(c) == c,
        ascii_alphanumeric(c) <==> ascii_alphanumeric(ascii_lower(c)),
        ascii_alphanumeric(c) <==> 'a' <= c <= 'z' || 'A' <= c <= 'Z' || '0' <= c <= '9',
{
}

/// White space beyond ASCII is the next line, the no-break spaces, the spaces of typography and of
/// other scripts, and the separators of lines and paragraphs.
pub proof fn other_white_space_is_known(c: char)
    requires
        (c as u32) >= 128,
    ensures
        white_space(c) <==> ({
            let n = c as u32;
            n == 133 || n == 160 || n == 5760 || (8192 <= n <= 8202) || n == 8232 || n == 8233 || n
                == 8239 || n == 8287 || n == 12288
        }),
{
}

} // verus!
