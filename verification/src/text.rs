//! Text operations over the characters of a string.
//!
//! Every contract speaks of a text as the sequence of its characters.

use vstd::prelude::*;
use vstd::string::*;
use vstd::utf8::*;

verus! {

/// `String::push` appends one character to the end of the string.
pub assume_specification[ String::push ](s: &mut String, ch: char)
    ensures
        final(s)@ == old(s)@.push(ch),
;

/// What `str::to_lowercase` makes of a text.
pub uninterp spec fn lowercased(s: Seq<char>) -> Seq<char>;

/// What `String::from_utf8_lossy` makes of a byte string.
pub uninterp spec fn lossily_decoded(bytes: Seq<u8>) -> Seq<char>;

/// What the `Debug` format of a string writes: the text in double quotes, with escapes.
pub uninterp spec fn debug_quoted(s: Seq<char>) -> Seq<char>;

/// Whether `pattern` occurs in `s` at position `i`.
pub open spec fn occurs_at(s: Seq<char>, pattern: Seq<char>, i: int) -> bool {
    &&& 0 <= i
    &&& i + pattern.len() <= s.len()
    &&& s.subrange(i, i + pattern.len()) == pattern
}

/// Whether `pattern` occurs somewhere in `s`.
pub open spec fn contains_text(s: Seq<char>, pattern: Seq<char>) -> bool {
    exists|i: int| #[trigger] occurs_at(s, pattern, i)
}

/// Whether `s` begins with `prefix`.
pub open spec fn has_prefix(s: Seq<char>, prefix: Seq<char>) -> bool {
    prefix.len() <= s.len() && s.take(prefix.len() as int) == prefix
}

/// Characters with the Unicode property `White_Space`.
pub open spec fn white_space(c: char) -> bool {
    let n = c as u32;
    ||| 0x9 <= n <= 0xd
    ||| n == 0x20
    ||| n == 0x85
    ||| n == 0xa0
    ||| n == 0x1680
    ||| 0x2000 <= n <= 0x200a
    ||| n == 0x2028
    ||| n == 0x2029
    ||| n == 0x202f
    ||| n == 0x205f
    ||| n == 0x3000
}

/// `s` without the longest run of leading characters that are in `drop`.
pub open spec fn without_leading(s: Seq<char>, drop: spec_fn(char) -> bool) -> Seq<char>
    decreases s.len(),
{
    if s.len() > 0 && drop(s[0]) {
        without_leading(s.skip(1), drop)
    } else {
        s
    }
}

/// `s` without the longest run of trailing characters that are in `drop`.
pub open spec fn without_trailing(s: Seq<char>, drop: spec_fn(char) -> bool) -> Seq<char>
    decreases s.len(),
{
    if s.len() > 0 && drop(s.last()) {
        without_trailing(s.drop_last(), drop)
    } else {
        s
    }
}

/// `s` without leading and trailing white space.
pub open spec fn trimmed(s: Seq<char>) -> Seq<char> {
    without_trailing(without_leading(s, |c: char| white_space(c)), |c: char| white_space(c))
}

/// `s` without leading and trailing hyphens.
pub open spec fn without_outer_hyphens(s: Seq<char>) -> Seq<char> {
    without_trailing(without_leading(s, |c: char| c == '-'), |c: char| c == '-')
}

/// `s` with every occurrence of `from` replaced by `to`, taken from left to right without
/// overlap.
pub open spec fn replaced(s: Seq<char>, from: Seq<char>, to: Seq<char>) -> Seq<char>
    decreases s.len(),
{
    if from.len() == 0 || s.len() < from.len() {
        s
    } else if has_prefix(s, from) {
        to + replaced(s.skip(from.len() as int), from, to)
    } else {
        seq![s[0]] + replaced(s.skip(1), from, to)
    }
}

/// The pieces of `s` between occurrences of `sep`; one piece more than there are separators.
pub open spec fn pieces(s: Seq<char>, sep: char) -> Seq<Seq<char>>
    decreases s.len(),
{
    if s.len() == 0 {
        seq![s]
    } else if s.last() == sep {
        pieces(s.drop_last(), sep).push(Seq::empty())
    } else {
        let before = pieces(s.drop_last(), sep);
        before.drop_last().push(before.last().push(s.last()))
    }
}

/// The pieces joined with `sep` between each two of them.
pub open spec fn joined(parts: Seq<Seq<char>>, sep: Seq<char>) -> Seq<char>
    decreases parts.len(),
{
    if parts.len() == 0 {
        Seq::empty()
    } else if parts.len() == 1 {
        parts[0]
    } else {
        joined(parts.drop_last(), sep) + sep + parts.last()
    }
}

/// The decimal digit with value `n`.
pub open spec fn digit(n: nat) -> char {
    ('0' as u32 + n) as char
}

/// The decimal notation of `n`, without leading zeros.
pub open spec fn decimal(n: nat) -> Seq<char>
    decreases n,
{
    if n < 10 {
        seq![digit(n)]
    } else {
        decimal(n / 10).push(digit(n % 10))
    }
}

pub open spec fn is_digit(c: char) -> bool {
    '0' <= c <= '9'
}

/// The number that a run of decimal digits denotes.
pub open spec fn digits_value(s: Seq<char>) -> nat
    decreases s.len(),
{
    if s.len() == 0 {
        0
    } else {
        digits_value(s.drop_last()) * 10 + (s.last() as u32 - '0' as u32) as nat
    }
}

/// What stands behind an optional plus sign.
pub open spec fn unsigned_part(s: Seq<char>) -> Seq<char> {
    if s.len() > 0 && s[0] == '+' {
        s.skip(1)
    } else {
        s
    }
}

/// At least one decimal digit and nothing else, denoting a number of at most 64 bits.
pub open spec fn denotes_u64(digits: Seq<char>) -> bool {
    &&& digits.len() > 0
    &&& forall|i: int| 0 <= i < digits.len() ==> is_digit(#[trigger] digits[i])
    &&& digits_value(digits) <= u64::MAX
}

/// An optional plus sign and at least one decimal digit, denoting a number of at most 64 bits.
pub open spec fn parsed_u64(s: Seq<char>) -> Option<u64> {
    if denotes_u64(unsigned_part(s)) {
        Some(digits_value(unsigned_part(s)) as u64)
    } else {
        None
    }
}

/// Exactly the words `true` and `false`.
pub open spec fn parsed_bool(s: Seq<char>) -> Option<bool> {
    if s == "true"@ {
        Some(true)
    } else if s == "false"@ {
        Some(false)
    } else {
        None
    }
}

/// The lower-case form of an ASCII letter; any other character is kept.
pub open spec fn ascii_lower(c: char) -> char {
    if 'A' <= c <= 'Z' {
        (c as u32 + 32) as char
    } else {
        c
    }
}

/// ASCII letters and digits.
pub open spec fn ascii_alphanumeric(c: char) -> bool {
    'a' <= c <= 'z' || 'A' <= c <= 'Z' || is_digit(c)
}

/// An optional text as the sequence of its characters.
pub open spec fn option_view(t: Option<String>) -> Option<Seq<char>> {
    match t {
        Some(t) => Some(t@),
        None => None,
    }
}

/// An optional text as the sequence of its characters.
pub open spec fn str_view(t: Option<&str>) -> Option<Seq<char>> {
    match t {
        Some(t) => Some(t@),
        None => None,
    }
}

/// Texts as the sequences of their characters.
pub open spec fn views(texts: Seq<String>) -> Seq<Seq<char>> {
    texts.map_values(|t: String| t@)
}

/// The same text again, if there is one.
pub fn copy_option(t: &Option<String>) -> (copy: Option<String>)
    ensures
        copy == t,
{
    match t {
        Some(t) => Some(t.clone()),
        None => None,
    }
}

/// The same texts again.
pub fn copy_list(list: &Vec<String>) -> (copy: Vec<String>)
    ensures
        copy@ == list@,
{
    let mut copy: Vec<String> = Vec::new();
    let mut i: usize = 0;
    while i < list.len()
        invariant
            i <= list@.len(),
            copy@ == list@.take(i as int),
        decreases list@.len() - i,
    {
        copy.push(list[i].clone());
        assert(copy@ =~= list@.take(i + 1));
        i = i + 1;
    }
    assert(list@.take(list@.len() as int) =~= list@);
    copy
}

/// The characters of a text, in order.
pub fn chars_of(s: &str) -> (chars: Vec<char>)
    ensures
        chars@ == s@,
{
    let mut chars: Vec<char> = Vec::new();
    for c in it: s.chars()
        invariant
            it.seq() == s@,
            chars@ == s@.take(it.index() as int),
    {
        chars.push(c);
        assert(s@.take(it.index() as int).push(c) =~= s@.take(it.index() + 1));
    }
    assert(s@.take(s@.len() as int) =~= s@);
    chars
}

/// The text made of the characters from `from` up to but not including `to`.
pub fn text_between(chars: &Vec<char>, from: usize, to: usize) -> (s: String)
    requires
        from <= to <= chars@.len(),
    ensures
        s@ == chars@.subrange(from as int, to as int),
{
    let mut s: String = String::new();
    let mut i: usize = from;
    while i < to
        invariant
            from <= i <= to <= chars@.len(),
            s@ == chars@.subrange(from as int, i as int),
        decreases to - i,
    {
        s.push(chars[i]);
        assert(chars@.subrange(from as int, i as int).push(chars@[i as int]) =~= chars@.subrange(
            from as int,
            i + 1,
        ));
        i = i + 1;
    }
    s
}

/// Whether the two texts hold the same characters.
pub fn same_text(a: &str, b: &str) -> (same: bool)
    ensures
        same == (a@ == b@),
{
    let x: Vec<char> = chars_of(a);
    let y: Vec<char> = chars_of(b);
    if x.len() != y.len() {
        return false;
    }
    matches_at(&x, &y, 0)
}

/// Whether `pattern` stands in `chars` at position `at`.
fn matches_at(chars: &Vec<char>, pattern: &Vec<char>, at: usize) -> (found: bool)
    requires
        at + pattern@.len() <= chars@.len(),
    ensures
        found == (chars@.subrange(at as int, at + pattern@.len()) == pattern@),
        at == 0 && chars@.len() == pattern@.len() ==> found == (chars@ == pattern@),
{
    let ghost piece = chars@.subrange(at as int, at + pattern@.len());
    proof {
        if at == 0 && chars@.len() == pattern@.len() {
            assert(piece =~= chars@);
        }
    }
    let total: usize = chars.len();
    let mut k: usize = 0;
    while k < pattern.len()
        invariant
            k <= pattern@.len(),
            total == chars@.len(),
            at + pattern@.len() <= chars@.len(),
            piece == chars@.subrange(at as int, at + pattern@.len()),
            forall|j: int| 0 <= j < k ==> piece[j] == pattern@[j],
        decreases pattern@.len() - k,
    {
        if chars[at + k] != pattern[k] {
            assert(piece[k as int] != pattern@[k as int]);
            return false;
        }
        k = k + 1;
    }
    assert(piece =~= pattern@);
    true
}

/// Whether `pattern` occurs in `s`.
pub fn contains(s: &str, pattern: &str) -> (found: bool)
    ensures
        found == contains_text(s@, pattern@),
{
    let chars: Vec<char> = chars_of(s);
    let p: Vec<char> = chars_of(pattern);
    if p.len() > chars.len() {
        return false;
    }
    let last: usize = chars.len() - p.len();
    let mut i: usize = 0;
    while i <= last
        invariant
            chars@ == s@,
            p@ == pattern@,
            last + p@.len() == chars@.len(),
            i <= last + 1,
            forall|j: int| 0 <= j < i ==> !occurs_at(s@, pattern@, j),
        decreases last + 1 - i,
    {
        if matches_at(&chars, &p, i) {
            assert(occurs_at(s@, pattern@, i as int));
            return true;
        }
        if i == last {
            assert forall|j: int| !occurs_at(s@, pattern@, j) by {
                if 0 <= j < i {
                }
            }
            return false;
        }
        i = i + 1;
    }
    false
}

/// Whether `s` begins with `prefix`.
pub fn starts_with(s: &str, prefix: &str) -> (found: bool)
    ensures
        found == has_prefix(s@, prefix@),
{
    let chars: Vec<char> = chars_of(s);
    let p: Vec<char> = chars_of(prefix);
    proof {
        if prefix@.len() <= s@.len() {
            assert(s@.subrange(0, prefix@.len() as int) =~= s@.take(prefix@.len() as int));
        }
    }
    p.len() <= chars.len() && matches_at(&chars, &p, 0)
}

/// What follows `prefix` in `s`, if `s` begins with it.
pub fn strip_prefix(s: &str, prefix: &str) -> (rest: Option<String>)
    ensures
        rest is Some == has_prefix(s@, prefix@),
        rest matches Some(r) ==> r@ == s@.skip(prefix@.len() as int),
{
    if starts_with(s, prefix) {
        let chars: Vec<char> = chars_of(s);
        let p: Vec<char> = chars_of(prefix);
        let rest: String = text_between(&chars, p.len(), chars.len());
        assert(s@.subrange(prefix@.len() as int, s@.len() as int) =~= s@.skip(
            prefix@.len() as int,
        ));
        Some(rest)
    } else {
        None
    }
}

/// Whether the character is white space.
pub fn is_white_space(c: char) -> (r: bool)
    ensures
        r == white_space(c),
{
    let n: u32 = c as u32;
    (0x9 <= n && n <= 0xd) || n == 0x20 || n == 0x85 || n == 0xa0 || n == 0x1680 || (0x2000 <= n
        && n <= 0x200a) || n == 0x2028 || n == 0x2029 || n == 0x202f || n == 0x205f || n == 0x3000
}

/// Dropping characters in `drop` from the front and then the back leaves `s[from..to]`, where
/// `from` is the first position to keep and `to` the end of what is kept.
proof fn lemma_outer_run(s: Seq<char>, drop: spec_fn(char) -> bool, from: int, to: int)
    requires
        0 <= from <= to <= s.len(),
        forall|j: int| 0 <= j < from ==> drop(#[trigger] s[j]),
        forall|j: int| to <= j < s.len() ==> drop(#[trigger] s[j]),
        from < to ==> !drop(s[from]) && !drop(s[to - 1]),
        from == to ==> from == s.len(),
    ensures
        without_trailing(without_leading(s, drop), drop) == s.subrange(from, to),
{
    lemma_leading_run(s, drop, from);
    let rest = s.skip(from);
    lemma_trailing_run(rest, drop, to - from);
    assert(rest.take(to - from) =~= s.subrange(from, to));
}

proof fn lemma_leading_run(s: Seq<char>, drop: spec_fn(char) -> bool, from: int)
    requires
        0 <= from <= s.len(),
        forall|j: int| 0 <= j < from ==> drop(#[trigger] s[j]),
        from < s.len() ==> !drop(s[from]),
    ensures
        without_leading(s, drop) == s.skip(from),
    decreases s.len(),
{
    if from > 0 {
        lemma_leading_run(s.skip(1), drop, from - 1);
        assert(s.skip(1).skip(from - 1) =~= s.skip(from));
    } else {
        assert(s.skip(0) =~= s);
    }
}

proof fn lemma_trailing_run(s: Seq<char>, drop: spec_fn(char) -> bool, to: int)
    requires
        0 <= to <= s.len(),
        forall|j: int| to <= j < s.len() ==> drop(#[trigger] s[j]),
        to > 0 ==> !drop(s[to - 1]),
    ensures
        without_trailing(s, drop) == s.take(to),
    decreases s.len(),
{
    if to < s.len() {
        lemma_trailing_run(s.drop_last(), drop, to);
        assert(s.drop_last().take(to) =~= s.take(to));
    } else {
        assert(s.take(to) =~= s);
    }
}

/// `s` without leading and trailing white space.
pub fn trim(s: &str) -> (t: String)
    ensures
        t@ == trimmed(s@),
{
    let chars: Vec<char> = chars_of(s);
    let mut from: usize = 0;
    while from < chars.len() && is_white_space(chars[from])
        invariant
            from <= chars@.len(),
            forall|j: int| 0 <= j < from ==> white_space(#[trigger] chars@[j]),
        decreases chars@.len() - from,
    {
        from = from + 1;
    }
    let mut to: usize = chars.len();
    while to > from && is_white_space(chars[to - 1])
        invariant
            from <= to <= chars@.len(),
            forall|j: int| to <= j < chars@.len() ==> white_space(#[trigger] chars@[j]),
            from < chars@.len() ==> !white_space(chars@[from as int]),
        decreases to,
    {
        to = to - 1;
    }
    proof {
        lemma_outer_run(chars@, |c: char| white_space(c), from as int, to as int);
    }
    text_between(&chars, from, to)
}

/// `s` without leading and trailing hyphens.
pub fn trim_hyphens(s: &str) -> (t: String)
    ensures
        t@ == without_outer_hyphens(s@),
{
    let chars: Vec<char> = chars_of(s);
    let mut from: usize = 0;
    while from < chars.len() && chars[from] == '-'
        invariant
            from <= chars@.len(),
            forall|j: int| 0 <= j < from ==> #[trigger] chars@[j] == '-',
        decreases chars@.len() - from,
    {
        from = from + 1;
    }
    let mut to: usize = chars.len();
    while to > from && chars[to - 1] == '-'
        invariant
            from <= to <= chars@.len(),
            forall|j: int| to <= j < chars@.len() ==> #[trigger] chars@[j] == '-',
            from < chars@.len() ==> chars@[from as int] != '-',
        decreases to,
    {
        to = to - 1;
    }
    proof {
        lemma_outer_run(chars@, |c: char| c == '-', from as int, to as int);
    }
    text_between(&chars, from, to)
}

/// `s` with every occurrence of `from` replaced by `to`.
pub fn replace(s: &str, from: &str, to: &str) -> (r: String)
    requires
        from@.len() > 0,
    ensures
        r@ == replaced(s@, from@, to@),
{
    let chars: Vec<char> = chars_of(s);
    let pattern: Vec<char> = chars_of(from);
    let mut out: String = String::new();
    let mut i: usize = 0;
    assert(s@.skip(0) =~= s@);
    assert(out@ + replaced(s@, from@, to@) =~= replaced(s@, from@, to@));
    while i < chars.len()
        invariant
            chars@ == s@,
            pattern@ == from@,
            pattern@.len() > 0,
            i <= chars@.len(),
            out@ + replaced(s@.skip(i as int), from@, to@) == replaced(s@, from@, to@),
        decreases chars@.len() - i,
    {
        let ghost rest = s@.skip(i as int);
        let ghost before = out@;
        if pattern.len() <= chars.len() - i && matches_at(&chars, &pattern, i) {
            out.append(to);
            proof {
                assert(rest.take(from@.len() as int) =~= s@.subrange(i as int, i + from@.len()));
                assert(rest.skip(from@.len() as int) =~= s@.skip(i + from@.len()));
                assert(before + (to@ + replaced(s@.skip(i + from@.len()), from@, to@)) =~= before
                    + to@ + replaced(s@.skip(i + from@.len()), from@, to@));
            }
            i = i + pattern.len();
        } else {
            out.push(chars[i]);
            proof {
                if from@.len() <= rest.len() {
                    assert(rest.take(from@.len() as int) =~= s@.subrange(
                        i as int,
                        i + from@.len(),
                    ));
                    assert(rest.skip(1) =~= s@.skip(i + 1));
                } else {
                    let tail = s@.skip(i + 1);
                    assert(replaced(tail, from@, to@) == tail);
                    assert(rest =~= seq![rest[0]] + tail);
                }
                assert(before + (seq![rest[0]] + replaced(s@.skip(i + 1), from@, to@)) =~= before
                    + seq![rest[0]] + replaced(s@.skip(i + 1), from@, to@));
                assert(before.push(rest[0]) =~= before + seq![rest[0]]);
            }
            i = i + 1;
        }
    }
    assert(s@.skip(i as int).len() == 0);
    assert(out@ + replaced(s@.skip(i as int), from@, to@) =~= out@);
    out
}

/// The pieces of `s` between occurrences of `sep`.
pub fn split(s: &str, sep: char) -> (parts: Vec<String>)
    ensures
        views(parts@) == pieces(s@, sep),
        parts@.len() > 0,
{
    let chars: Vec<char> = chars_of(s);
    let mut done: Vec<String> = Vec::new();
    let mut current: String = String::new();
    let mut i: usize = 0;
    proof {
        assert(current@ =~= s@.take(0));
        assert(done@.map_values(|p: String| p@).push(current@) =~= pieces(s@.take(0), sep));
    }
    while i < chars.len()
        invariant
            chars@ == s@,
            i <= chars@.len(),
            done@.map_values(|p: String| p@).push(current@) == pieces(s@.take(i as int), sep),
        decreases chars@.len() - i,
    {
        let c: char = chars[i];
        let ghost before = done@.map_values(|p: String| p@);
        let ghost all = before.push(current@);
        proof {
            let next = s@.take(i + 1);
            assert(next.drop_last() =~= s@.take(i as int));
            assert(next.last() == c);
            assert(all.drop_last() =~= before);
            assert(all.last() == current@);
        }
        if c == sep {
            let ghost old_current = current@;
            done.push(current);
            current = String::new();
            assert(done@.map_values(|p: String| p@) =~= before.push(old_current));
            assert(Seq::<char>::empty() =~= current@);
        } else {
            current.push(c);
        }
        i = i + 1;
    }
    assert(s@.take(s@.len() as int) =~= s@);
    let ghost before = done@.map_values(|p: String| p@);
    let ghost last = current@;
    done.push(current);
    assert(done@.map_values(|p: String| p@) =~= before.push(last));
    done
}

/// The pieces joined with `sep` between each two of them.
pub fn join(parts: &Vec<String>, sep: &str) -> (s: String)
    ensures
        s@ == joined(views(parts@), sep@),
{
    let mut out: String = String::new();
    let ghost all = views(parts@);
    let mut i: usize = 0;
    assert(out@ =~= joined(all.take(0), sep@));
    while i < parts.len()
        invariant
            i <= parts@.len(),
            all == views(parts@),
            out@ == joined(all.take(i as int), sep@),
        decreases parts@.len() - i,
    {
        proof {
            let next = all.take(i + 1);
            assert(next.drop_last() =~= all.take(i as int));
            assert(next.last() == parts@[i as int]@);
            if i == 0 {
                assert(joined(next, sep@) == next[0]);
                assert(out@ + next[0] =~= next[0]);
            }
        }
        if i > 0 {
            out.append(sep);
        }
        out.append(parts[i].as_str());
        i = i + 1;
    }
    assert(all.take(parts@.len() as int) =~= all);
    out
}

/// The decimal notation of `n`.
pub fn number(n: u64) -> (s: String)
    ensures
        s@ == decimal(n as nat),
    decreases n,
{
    let last: char = ((48 + n % 10) as u8) as char;
    assert(last == digit((n % 10) as nat));
    if n < 10 {
        let mut s: String = String::new();
        s.push(last);
        assert(s@ =~= seq![digit(n as nat)]);
        s
    } else {
        let mut s: String = number(n / 10);
        s.push(last);
        s
    }
}

proof fn lemma_digits_value_monotone(s: Seq<char>, k: int)
    requires
        0 <= k <= s.len(),
        forall|i: int| 0 <= i < s.len() ==> is_digit(#[trigger] s[i]),
    ensures
        digits_value(s.take(k)) <= digits_value(s),
    decreases s.len() - k,
{
    if k < s.len() {
        lemma_digits_value_monotone(s, k + 1);
        assert(s.take(k + 1).drop_last() =~= s.take(k));
    } else {
        assert(s.take(k) =~= s);
    }
}

/// Reads an unsigned number in decimal notation.
pub fn parse_u64(s: &str) -> (n: Option<u64>)
    ensures
        n == parsed_u64(s@),
{
    let chars: Vec<char> = chars_of(s);
    let from: usize = if chars.len() > 0 && chars[0] == '+' {
        1
    } else {
        0
    };
    let ghost digits = unsigned_part(s@);
    assert(digits =~= s@.skip(from as int));
    if from == chars.len() {
        return None;
    }
    let mut value: u64 = 0;
    let mut i: usize = from;
    assert(digits.take(0).len() == 0);
    while i < chars.len()
        invariant
            chars@ == s@,
            from <= i <= chars@.len(),
            from < chars@.len(),
            digits == s@.skip(from as int),
            digits == unsigned_part(s@),
            forall|k: int| 0 <= k < i - from ==> is_digit(#[trigger] digits[k]),
            value == digits_value(digits.take(i - from)),
        decreases chars@.len() - i,
    {
        let c: char = chars[i];
        assert(digits[i - from] == c);
        if c < '0' || c > '9' {
            return None;
        }
        let d: u64 = (c as u32 - '0' as u32) as u64;
        proof {
            let next = digits.take(i - from + 1);
            assert(next.drop_last() =~= digits.take(i - from));
            assert(next.last() == c);
            assert(digits_value(next) == value * 10 + d);
            if denotes_u64(digits) {
                lemma_digits_value_monotone(digits, i - from + 1);
            }
        }
        if value > (u64::MAX - d) / 10 {
            return None;
        }
        value = value * 10 + d;
        i = i + 1;
    }
    assert(digits.take(i - from) =~= digits);
    Some(value)
}

/// Reads one of the words `true` and `false`.
pub fn parse_bool(s: &str) -> (b: Option<bool>)
    ensures
        b == parsed_bool(s@),
{
    if same_text(s, "true") {
        Some(true)
    } else if same_text(s, "false") {
        Some(false)
    } else {
        None
    }
}

/// The lower-case form of an ASCII letter; any other character is kept.
pub fn to_ascii_lower(c: char) -> (r: char)
    ensures
        r == ascii_lower(c),
{
    if 'A' <= c && c <= 'Z' {
        ((c as u8) + 32) as char
    } else {
        c
    }
}

/// Whether the character is an ASCII letter or digit.
pub fn is_ascii_alphanumeric(c: char) -> (r: bool)
    ensures
        r == ascii_alphanumeric(c),
{
    ('a' <= c && c <= 'z') || ('A' <= c && c <= 'Z') || ('0' <= c && c <= '9')
}

/// `str::to_lowercase`: the result depends on the text alone. Of a text in ASCII every letter is
/// replaced by its lower-case form and nothing else changes.
#[verifier::external_body]
pub(crate) fn lowercase(s: &str) -> (r: String)
    ensures
        r@ == lowercased(s@),
        is_ascii_chars(s@) ==> r@ == s@.map_values(|c: char| ascii_lower(c)),
{
    s.to_lowercase()
}

/// `String::from_utf8_lossy`: the result depends on the bytes alone, and well-formed UTF-8 is
/// decoded as it stands.
#[verifier::external_body]
pub(crate) fn decode_lossily(bytes: &Vec<u8>) -> (r: String)
    ensures
        r@ == lossily_decoded(bytes@),
        valid_utf8(bytes@) ==> r@ == decode_utf8(bytes@),
{
    String::from_utf8_lossy(bytes).into_owned()
}

/// The `Debug` format of a string: the result depends on the text alone.
#[verifier::external_body]
pub(crate) fn quote(s: &str) -> (r: String)
    ensures
        r@ == debug_quoted(s@),
{
    format!("{:?}", s)
}

} // verus!
