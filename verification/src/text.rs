//! Character sequences: the conversions between strings and vectors of
//! characters, and the searches and edits that the rest of the library is
//! built from.
//!
//! Every function here works on whole characters, so a position is always a
//! count of characters and never splits one.

use vstd::prelude::*;
use vstd::string::StringExecFns;

verus! {

/// `String::push` appends one character to the end of the string.
pub assume_specification[ String::push ](s: &mut String, c: char)
    ensures
        final(s)@ == old(s)@.push(c),
;

/// Whether `c` is white space: the code points that Unicode gives the
/// property White_Space.
pub open spec fn is_whitespace(c: char) -> bool {
    let n = c as u32;
    ||| 0x09 <= n <= 0x0D
    ||| n == 0x20
    ||| n == 0x85
    ||| n == 0xA0
    ||| n == 0x1680
    ||| 0x2000 <= n <= 0x200A
    ||| n == 0x2028
    ||| n == 0x2029
    ||| n == 0x202F
    ||| n == 0x205F
    ||| n == 0x3000
}

/// Whether every character of `s` is white space. The empty sequence is blank.
pub open spec fn is_blank(s: Seq<char>) -> bool {
    forall|i: int| 0 <= i < s.len() ==> is_whitespace(#[trigger] s[i])
}

/// Whether `pat` stands in `s` at position `i`.
pub open spec fn occurs_at(s: Seq<char>, pat: Seq<char>, i: int) -> bool {
    &&& 0 <= i
    &&& i + pat.len() <= s.len()
    &&& s.subrange(i, i + pat.len()) == pat
}

/// Whether `pat` stands somewhere in `s`. The empty pattern stands in every
/// sequence.
pub open spec fn contains(s: Seq<char>, pat: Seq<char>) -> bool {
    exists|i: int| occurs_at(s, pat, i)
}

/// `s` with every occurrence of `from` replaced by `to`, found from the left
/// and never overlapping. With an empty `from` nothing is replaced.
pub open spec fn replace_all(s: Seq<char>, from: Seq<char>, to: Seq<char>) -> Seq<char>
    decreases s.len(),
{
    if from.len() == 0 || s.len() < from.len() {
        s
    } else if s.take(from.len() as int) == from {
        to + replace_all(s.skip(from.len() as int), from, to)
    } else {
        seq![s[0]] + replace_all(s.skip(1), from, to)
    }
}

/// `s` without its leading white space.
pub open spec fn trim_start(s: Seq<char>) -> Seq<char>
    decreases s.len(),
{
    if s.len() > 0 && is_whitespace(s[0]) {
        trim_start(s.skip(1))
    } else {
        s
    }
}

/// `s` without its trailing white space.
pub open spec fn trim_end(s: Seq<char>) -> Seq<char>
    decreases s.len(),
{
    if s.len() > 0 && is_whitespace(s.last()) {
        trim_end(s.drop_last())
    } else {
        s
    }
}

/// `s` without its leading and trailing white space.
pub open spec fn trim(s: Seq<char>) -> Seq<char> {
    trim_end(trim_start(s))
}

/// The pieces of `s` between the occurrences of `sep`, in order. There is
/// always one piece more than there are separators, so the empty sequence
/// splits into one empty piece.
pub open spec fn split(s: Seq<char>, sep: char) -> Seq<Seq<char>>
    decreases s.len(),
{
    if s.len() == 0 {
        seq![Seq::<char>::empty()]
    } else {
        let before = split(s.drop_last(), sep);
        if s.last() == sep {
            before.push(Seq::<char>::empty())
        } else {
            before.drop_last().push(before.last().push(s.last()))
        }
    }
}

/// The pieces of `parts` in order, with `sep` between each two neighbours.
pub open spec fn join(parts: Seq<Seq<char>>, sep: Seq<char>) -> Seq<char>
    decreases parts.len(),
{
    if parts.len() == 0 {
        Seq::<char>::empty()
    } else if parts.len() == 1 {
        parts[0]
    } else {
        join(parts.drop_last(), sep) + sep + parts.last()
    }
}

/// The character that writes the digit `d`.
pub open spec fn digit(d: nat) -> char {
    if d == 0 {
        '0'
    } else if d == 1 {
        '1'
    } else if d == 2 {
        '2'
    } else if d == 3 {
        '3'
    } else if d == 4 {
        '4'
    } else if d == 5 {
        '5'
    } else if d == 6 {
        '6'
    } else if d == 7 {
        '7'
    } else if d == 8 {
        '8'
    } else {
        '9'
    }
}

/// `n` written in decimal, without leading zeros.
pub open spec fn decimal(n: nat) -> Seq<char>
    decreases n,
{
    if n < 10 {
        seq![digit(n)]
    } else {
        decimal(n / 10).push(digit(n % 10))
    }
}

/// The integer `i` written in decimal, with a minus sign where it is
/// negative.
pub open spec fn signed_decimal(i: int) -> Seq<char> {
    if i < 0 {
        seq!['-'] + decimal((-i) as nat)
    } else {
        decimal(i as nat)
    }
}

/// `n` copies of `c`.
pub open spec fn repeat(c: char, n: nat) -> Seq<char> {
    Seq::new(n, |i: int| c)
}

/// `s` filled up on the right with `c` to `width` characters; `s` itself
/// where it is that long already.
pub open spec fn pad_right(s: Seq<char>, width: nat, c: char) -> Seq<char> {
    if s.len() >= width {
        s
    } else {
        s + repeat(c, (width - s.len()) as nat)
    }
}

/// The character sequences that the vectors of `v` hold, in order.
pub open spec fn rows(v: Seq<Vec<char>>) -> Seq<Seq<char>> {
    v.map_values(|r: Vec<char>| r@)
}

/// The views of the strings of `v`, in order.
pub open spec fn views(v: Seq<String>) -> Seq<Seq<char>> {
    v.map_values(|s: String| s@)
}

/// The characters of `s`, in order.
pub fn to_chars(s: &str) -> (v: Vec<char>)
    ensures
        v@ == s@,
{
    let mut v: Vec<char> = Vec::new();
    for c in it: s.chars()
        invariant
            v@ == it.seq().take(it.index()),
            it.seq() == s@,
    {
        v.push(c);
    }
    v
}

/// The string that holds the characters of `v`, in order.
pub fn from_chars(v: &Vec<char>) -> (s: String)
    ensures
        s@ == v@,
{
    let mut s = String::new();
    let mut i: usize = 0;
    while i < v.len()
        invariant
            i <= v.len(),
            s@ == v@.take(i as int),
        decreases v.len() - i,
    {
        s.push(v[i]);
        i += 1;
    }
    s
}

/// Whether `c` is white space.
pub fn char_is_whitespace(c: char) -> (b: bool)
    ensures
        b == is_whitespace(c),
{
    let n: u32 = c as u32;
    (0x09 <= n && n <= 0x0D) || n == 0x20 || n == 0x85 || n == 0xA0 || n == 0x1680 || (0x2000 <= n
        && n <= 0x200A) || n == 0x2028 || n == 0x2029 || n == 0x202F || n == 0x205F || n == 0x3000
}

/// Whether two sequences of characters are the same.
pub fn chars_eq(a: &Vec<char>, b: &Vec<char>) -> (same: bool)
    ensures
        same == (a@ == b@),
{
    if a.len() != b.len() {
        return false;
    }
    let mut i: usize = 0;
    while i < a.len()
        invariant
            i <= a.len(),
            a.len() == b.len(),
            a@.take(i as int) == b@.take(i as int),
        decreases a.len() - i,
    {
        if a[i] != b[i] {
            return false;
        }
        assert(a@.take(i + 1) == a@.take(i as int).push(a@[i as int]));
        assert(b@.take(i + 1) == b@.take(i as int).push(b@[i as int]));
        i += 1;
    }
    assert(a@.take(a.len() as int) == a@);
    assert(b@.take(b.len() as int) == b@);
    true
}

/// Whether two strings hold the same characters.
pub fn str_eq(a: &str, b: &str) -> (same: bool)
    ensures
        same == (a@ == b@),
{
    let x = to_chars(a);
    let y = to_chars(b);
    chars_eq(&x, &y)
}

/// Whether `pat` stands in `s` at position `i`.
pub fn matches_at(s: &Vec<char>, pat: &Vec<char>, i: usize) -> (found: bool)
    ensures
        found == occurs_at(s@, pat@, i as int),
{
    if i > s.len() || pat.len() > s.len() - i {
        return false;
    }
    let mut k: usize = 0;
    while k < pat.len()
        invariant
            k <= pat.len(),
            i + pat.len() <= s.len(),
            s@.subrange(i as int, i + k) == pat@.take(k as int),
        decreases pat.len() - k,
    {
        if s[i + k] != pat[k] {
            assert(s@.subrange(i as int, i + pat.len())[k as int] != pat@[k as int]);
            return false;
        }
        assert(s@.subrange(i as int, i + k + 1) == s@.subrange(i as int, i + k).push(
            s@[i + k],
        ));
        assert(pat@.take(k + 1) == pat@.take(k as int).push(pat@[k as int]));
        k += 1;
    }
    assert(pat@.take(pat.len() as int) == pat@);
    true
}

/// Whether `pat` stands somewhere in `s`.
pub fn has(s: &Vec<char>, pat: &Vec<char>) -> (found: bool)
    ensures
        found == contains(s@, pat@),
{
    if pat.len() > s.len() {
        return false;
    }
    let last: usize = s.len() - pat.len();
    let mut i: usize = 0;
    while i < last
        invariant
            i <= last,
            last == s.len() - pat.len(),
            pat.len() <= s.len(),
            forall|j: int| 0 <= j < i ==> !occurs_at(s@, pat@, j),
        decreases last - i,
    {
        if matches_at(s, pat, i) {
            return true;
        }
        i += 1;
    }
    matches_at(s, pat, last)
}

/// Whether `pat` stands somewhere in `s`.
pub fn str_contains(s: &str, pat: &str) -> (found: bool)
    ensures
        found == contains(s@, pat@),
{
    let text = to_chars(s);
    let needle = to_chars(pat);
    has(&text, &needle)
}

/// Appends the characters of `tail` to `out`.
pub fn extend(out: &mut Vec<char>, tail: &Vec<char>)
    ensures
        final(out)@ == old(out)@ + tail@,
{
    let mut k: usize = 0;
    while k < tail.len()
        invariant
            k <= tail.len(),
            out@ == old(out)@ + tail@.take(k as int),
        decreases tail.len() - k,
    {
        out.push(tail[k]);
        assert(tail@.take(k + 1) == tail@.take(k as int).push(tail@[k as int]));
        k += 1;
    }
    assert(tail@.take(tail.len() as int) == tail@);
}

/// `s` with every occurrence of `from` replaced by `to`.
pub fn replaced(s: &Vec<char>, from: &Vec<char>, to: &Vec<char>) -> (out: Vec<char>)
    ensures
        out@ == replace_all(s@, from@, to@),
{
    let mut out: Vec<char> = Vec::new();
    if from.len() == 0 {
        extend(&mut out, s);
        return out;
    }
    let mut i: usize = 0;
    assert(s@.skip(0) == s@);
    assert(out@ + replace_all(s@, from@, to@) == replace_all(s@, from@, to@));
    while i < s.len()
        invariant
            i <= s.len(),
            from.len() > 0,
            replace_all(s@, from@, to@) == out@ + replace_all(s@.skip(i as int), from@, to@),
        decreases s.len() - i,
    {
        let ghost rest = s@.skip(i as int);
        if matches_at(s, from, i) {
            assert(rest.take(from.len() as int) == s@.subrange(i as int, i + from.len()));
            assert(rest.skip(from.len() as int) == s@.skip(i + from.len()));
            extend(&mut out, to);
            i += from.len();
        } else {
            if from.len() <= s.len() - i {
                assert(rest.take(from.len() as int) == s@.subrange(i as int, i + from.len()));
                assert(rest.skip(1) == s@.skip(i + 1));
                assert(rest[0] == s@[i as int]);
            } else {
                assert(replace_all(rest, from@, to@) == rest);
                assert(rest == seq![rest[0]] + rest.skip(1));
                assert(rest.skip(1) == s@.skip(i + 1));
                assert(rest.skip(1).len() < from.len());
            }
            out.push(s[i]);
            i += 1;
        }
    }
    assert(s@.skip(s.len() as int) == Seq::<char>::empty());
    out
}

/// Whether every character of `s` is white space.
pub fn blank(s: &Vec<char>) -> (b: bool)
    ensures
        b == is_blank(s@),
{
    let mut i: usize = 0;
    while i < s.len()
        invariant
            i <= s.len(),
            forall|j: int| 0 <= j < i ==> is_whitespace(#[trigger] s@[j]),
        decreases s.len() - i,
    {
        if !char_is_whitespace(s[i]) {
            return false;
        }
        i += 1;
    }
    true
}

/// The part of `s` from position `from` up to, not including, position `to`.
pub fn slice(s: &Vec<char>, from: usize, to: usize) -> (out: Vec<char>)
    requires
        from <= to <= s.len(),
    ensures
        out@ == s@.subrange(from as int, to as int),
{
    let mut out: Vec<char> = Vec::new();
    let mut i: usize = from;
    while i < to
        invariant
            from <= i <= to,
            to <= s.len(),
            out@ == s@.subrange(from as int, i as int),
        decreases to - i,
    {
        out.push(s[i]);
        assert(s@.subrange(from as int, i + 1) == s@.subrange(from as int, i as int).push(
            s@[i as int],
        ));
        i += 1;
    }
    out
}

/// `s` without its leading and trailing white space.
pub fn trimmed(s: &Vec<char>) -> (out: Vec<char>)
    ensures
        out@ == trim(s@),
{
    let mut start: usize = 0;
    assert(s@.skip(0) == s@);
    while start < s.len() && char_is_whitespace(s[start])
        invariant
            start <= s.len(),
            trim_start(s@) == trim_start(s@.skip(start as int)),
        decreases s.len() - start,
    {
        assert(s@.skip(start as int).skip(1) == s@.skip(start + 1));
        start += 1;
    }
    let ghost body = s@.skip(start as int);
    assert(trim_start(s@) == body);
    let mut end: usize = s.len();
    while end > start && char_is_whitespace(s[end - 1])
        invariant
            start <= end <= s.len(),
            body == s@.skip(start as int),
            trim_end(body) == trim_end(s@.subrange(start as int, end as int)),
        decreases end - start,
    {
        assert(s@.subrange(start as int, end as int).drop_last() == s@.subrange(
            start as int,
            end - 1,
        ));
        end -= 1;
    }
    assert(s@.subrange(start as int, s.len() as int) == body);
    slice(s, start, end)
}

/// The pieces of `s` between the occurrences of `sep`.
pub fn split_at_char(s: &Vec<char>, sep: char) -> (parts: Vec<Vec<char>>)
    ensures
        rows(parts@) == split(s@, sep),
{
    let mut parts: Vec<Vec<char>> = Vec::new();
    let mut piece: Vec<char> = Vec::new();
    let mut i: usize = 0;
    assert(s@.take(0) == Seq::<char>::empty());
    assert(rows(parts@).push(piece@) == seq![Seq::<char>::empty()]);
    while i < s.len()
        invariant
            i <= s.len(),
            rows(parts@).push(piece@) == split(s@.take(i as int), sep),
        decreases s.len() - i,
    {
        let ghost so_far = s@.take(i as int);
        let ghost next = s@.take(i + 1);
        assert(next.drop_last() == so_far);
        assert(next.last() == s@[i as int]);
        let ghost before = rows(parts@).push(piece@);
        assert(before.drop_last() == rows(parts@));
        if s[i] == sep {
            let ghost old_parts = parts@;
            parts.push(piece);
            piece = Vec::new();
            assert(rows(parts@) == rows(old_parts).push(before.last()));
        } else {
            piece.push(s[i]);
        }
        i += 1;
    }
    assert(s@.take(s.len() as int) == s@);
    let ghost old_parts = parts@;
    parts.push(piece);
    assert(rows(parts@) == rows(old_parts).push(piece@));
    parts
}

/// The pieces of `parts` in order, with `sep` between each two neighbours.
pub fn joined(parts: &Vec<Vec<char>>, sep: &Vec<char>) -> (out: Vec<char>)
    ensures
        out@ == join(rows(parts@), sep@),
{
    let mut out: Vec<char> = Vec::new();
    let mut i: usize = 0;
    assert(rows(parts@).take(0) == Seq::<Seq<char>>::empty());
    while i < parts.len()
        invariant
            i <= parts.len(),
            out@ == join(rows(parts@).take(i as int), sep@),
        decreases parts.len() - i,
    {
        let ghost done = rows(parts@).take(i as int);
        let ghost next = rows(parts@).take(i + 1);
        assert(next.drop_last() == done);
        assert(next.last() == parts@[i as int]@);
        if i > 0 {
            extend(&mut out, sep);
        }
        extend(&mut out, &parts[i]);
        i += 1;
    }
    assert(rows(parts@).take(parts.len() as int) == rows(parts@));
    out
}

/// The character that writes the digit `d`.
pub fn digit_char(d: u8) -> (c: char)
    requires
        d < 10,
    ensures
        c == digit(d as nat),
{
    if d == 0 {
        '0'
    } else if d == 1 {
        '1'
    } else if d == 2 {
        '2'
    } else if d == 3 {
        '3'
    } else if d == 4 {
        '4'
    } else if d == 5 {
        '5'
    } else if d == 6 {
        '6'
    } else if d == 7 {
        '7'
    } else if d == 8 {
        '8'
    } else {
        '9'
    }
}

/// `n` written in decimal.
pub fn decimal_chars(n: u128) -> (out: Vec<char>)
    ensures
        out@ == decimal(n as nat),
    decreases n,
{
    if n < 10 {
        let mut out: Vec<char> = Vec::new();
        out.push(digit_char(n as u8));
        out
    } else {
        let mut out = decimal_chars(n / 10);
        out.push(digit_char((n % 10) as u8));
        out
    }
}

/// `s` filled up on the right with `c` to `width` characters.
pub fn padded_right(s: &Vec<char>, width: usize, c: char) -> (out: Vec<char>)
    ensures
        out@ == pad_right(s@, width as nat, c),
{
    let mut out: Vec<char> = Vec::new();
    extend(&mut out, s);
    while out.len() < width
        invariant
            s.len() <= out.len(),
            out.len() <= width || out.len() == s.len(),
            out@ == s@ + repeat(c, (out.len() - s.len()) as nat),
        decreases width - out.len(),
    {
        out.push(c);
    }
    assert(s@ + repeat(c, 0) == s@);
    out
}

/// The number of bytes that `s` takes as UTF-8.
pub open spec fn byte_len(s: Seq<char>) -> nat {
    vstd::utf8::encode_utf8(s).len()
}

/// `s` without the line feeds at its end.
pub open spec fn strip_newlines(s: Seq<char>) -> Seq<char>
    decreases s.len(),
{
    if s.len() > 0 && s.last() == '\n' {
        strip_newlines(s.drop_last())
    } else {
        s
    }
}

/// All of `parts` in a row.
pub open spec fn flatten(parts: Seq<Seq<char>>) -> Seq<char>
    decreases parts.len(),
{
    if parts.len() == 0 {
        Seq::<char>::empty()
    } else {
        flatten(parts.drop_last()) + parts.last()
    }
}

/// The view of the string that `o` holds, where it holds one.
pub open spec fn opt_view(o: Option<String>) -> Option<Seq<char>> {
    match o {
        Some(s) => Some(s@),
        None => None,
    }
}

/// A string of its own with the characters of `s`.
pub fn owned(s: &str) -> (out: String)
    ensures
        out@ == s@,
{
    String::from_str(s)
}

/// `a` followed by `b`.
pub fn concat(a: &str, b: &str) -> (out: String)
    ensures
        out@ == a@ + b@,
{
    let mut out = String::from_str(a);
    out.append(b);
    out
}

/// `a`, `b` and `c` in a row.
pub fn concat3(a: &str, b: &str, c: &str) -> (out: String)
    ensures
        out@ == a@ + b@ + c@,
{
    let mut out = String::from_str(a);
    out.append(b);
    out.append(c);
    out
}

/// A copy of the string that `o` holds, where it holds one.
pub fn cloned_opt(o: &Option<String>) -> (out: Option<String>)
    ensures
        opt_view(out) == opt_view(*o),
{
    match o {
        Some(s) => Some(s.clone()),
        None => None,
    }
}

/// `n` written in decimal.
pub fn decimal_string(n: u128) -> (out: String)
    ensures
        out@ == decimal(n as nat),
{
    let digits = decimal_chars(n);
    from_chars(&digits)
}

/// `s` without the line feeds at its end.
pub fn without_newlines(s: &Vec<char>) -> (out: Vec<char>)
    ensures
        out@ == strip_newlines(s@),
{
    let mut end: usize = s.len();
    assert(s@.subrange(0, s.len() as int) == s@);
    while end > 0 && s[end - 1] == '\n'
        invariant
            end <= s.len(),
            strip_newlines(s@) == strip_newlines(s@.subrange(0, end as int)),
        decreases end,
    {
        assert(s@.subrange(0, end as int).drop_last() == s@.subrange(0, end - 1));
        end -= 1;
    }
    slice(s, 0, end)
}

/// The integer `i` written in decimal.
pub fn signed_decimal_string(i: i64) -> (out: String)
    ensures
        out@ == signed_decimal(i as int),
{
    if i < 0 {
        let magnitude: u128 = (-(i as i128)) as u128;
        let mut digits: Vec<char> = Vec::new();
        digits.push('-');
        assert(digits@ == seq!['-']);
        extend(&mut digits, &decimal_chars(magnitude));
        from_chars(&digits)
    } else {
        decimal_string(i as u128)
    }
}

/// Where `from` does not stand in `s`, replacing it leaves `s` as it is.
pub proof fn lemma_replace_absent(s: Seq<char>, from: Seq<char>, to: Seq<char>)
    requires
        !contains(s, from),
    ensures
        replace_all(s, from, to) == s,
    decreases s.len(),
{
    if from.len() == 0 || s.len() < from.len() {
    } else {
        assert(!occurs_at(s, from, 0));
        assert(s.subrange(0, from.len() as int) == s.take(from.len() as int));
        assert(!contains(s.skip(1), from)) by {
            if contains(s.skip(1), from) {
                let i = choose|i: int| occurs_at(s.skip(1), from, i);
                assert(s.skip(1).subrange(i, i + from.len()) == s.subrange(
                    i + 1,
                    i + 1 + from.len(),
                ));
                assert(occurs_at(s, from, i + 1));
            }
        }
        lemma_replace_absent(s.skip(1), from, to);
        assert(seq![s[0]] + s.skip(1) == s);
    }
}

/// How many times `replace_all` finds `from` in `s`.
pub open spec fn occurrences(s: Seq<char>, from: Seq<char>) -> nat
    decreases s.len(),
{
    if from.len() == 0 || s.len() < from.len() {
        0
    } else if s.take(from.len() as int) == from {
        1 + occurrences(s.skip(from.len() as int), from)
    } else {
        occurrences(s.skip(1), from)
    }
}

/// Each replacement changes the length by the difference between the
/// lengths of the new string and the old.
pub proof fn lemma_replace_len(s: Seq<char>, from: Seq<char>, to: Seq<char>)
    ensures
        replace_all(s, from, to).len() == s.len() + occurrences(s, from) * (to.len() - from.len()),
    decreases s.len(),
{
    let d = to.len() - from.len();
    let k = occurrences(s, from);
    if from.len() == 0 || s.len() < from.len() {
        assert(k == 0);
        assert(k * d == 0) by (nonlinear_arith)
            requires
                k == 0,
        ;
    } else if s.take(from.len() as int) == from {
        let rest = s.skip(from.len() as int);
        let j = occurrences(rest, from);
        lemma_replace_len(rest, from, to);
        assert(k == 1 + j);
        assert(k * d == d + j * d) by (nonlinear_arith)
            requires
                k == 1 + j,
        ;
    } else {
        let j = occurrences(s.skip(1), from);
        lemma_replace_len(s.skip(1), from, to);
        assert(k == j);
        assert(k * d == j * d);
    }
}

/// Where `from` stands in `s`, is not empty and differs from `to`,
/// replacing it changes `s`.
pub proof fn lemma_replace_present(s: Seq<char>, from: Seq<char>, to: Seq<char>)
    requires
        contains(s, from),
        from.len() > 0,
        from != to,
    ensures
        replace_all(s, from, to) != s,
    decreases s.len(),
{
    let n = from.len() as int;
    let at = choose|i: int| occurs_at(s, from, i);
    if s.take(n) == from {
        let rest = s.skip(n);
        let replaced = to + replace_all(rest, from, to);
        if to.len() == from.len() {
            assert(replaced.take(n) == to);
        } else {
            lemma_replace_len(s, from, to);
            let k = occurrences(s, from);
            let d = to.len() - from.len();
            assert(k >= 1);
            assert(k * d != 0) by (nonlinear_arith)
                requires
                    k >= 1,
                    d != 0,
            ;
        }
    } else {
        assert(s.subrange(0, n) == s.take(n));
        assert(at >= 1);
        assert(s.skip(1).subrange(at - 1, at - 1 + n) == s.subrange(at, at + n));
        assert(occurs_at(s.skip(1), from, at - 1));
        lemma_replace_present(s.skip(1), from, to);
        let replaced = seq![s[0]] + replace_all(s.skip(1), from, to);
        assert(replaced.skip(1) == replace_all(s.skip(1), from, to));
    }
}

} // verus!
