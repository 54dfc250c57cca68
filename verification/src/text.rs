//! Texts as sequences of characters: taking them apart and putting them
//! together.

use vstd::prelude::*;
use vstd::std_specs::iter::IteratorSpec;
use vstd::utf8::{decode_utf8, valid_utf8};

verus! {

/// `String::push` appends one character to the end of the string.
pub assume_specification[ String::push ](s: &mut String, ch: char)
    ensures
        final(s)@ == old(s)@.push(ch),
;

/// `std::str::from_utf8` takes bytes as a text where they are UTF-8: the text
/// is then what the bytes decode to. Bytes that are not UTF-8 give no text.
#[verifier::external_body]
pub(crate) fn from_utf8(bytes: &[u8]) -> (text: Option<&str>)
    ensures
        text is Some <==> valid_utf8(bytes@),
        text matches Some(s) ==> s@ == decode_utf8(bytes@),
{
    match std::str::from_utf8(bytes) {
        Ok(text) => Some(text),
        Err(_) => None,
    }
}

/// A text that may be absent, as mathematics.
pub open spec fn text_view(text: Option<String>) -> Option<Seq<char>> {
    match text {
        Some(t) => Some(t@),
        None => None,
    }
}

/// The characters of `s`, one by one.
pub fn chars_of(s: &str) -> (cs: Vec<char>)
    ensures
        cs@ == s@,
{
    let mut cs: Vec<char> = Vec::new();
    let chars = s.chars();
    for c in it: chars
        invariant
            it.seq() == s@,
            cs@ == s@.take(it.index()),
    {
        assert(s@.take(it.index() + 1) == s@.take(it.index()).push(c));
        cs.push(c);
    }
    assert(s@.take(s@.len() as int) == s@);
    cs
}

/// The text made of the characters `cs[from..to]`.
pub fn string_of(cs: &Vec<char>, from: usize, to: usize) -> (s: String)
    requires
        from <= to <= cs.len(),
    ensures
        s@ == cs@.subrange(from as int, to as int),
{
    let mut s = String::new();
    let mut i: usize = from;
    while i < to
        invariant
            from <= i <= to <= cs.len(),
            s@ == cs@.subrange(from as int, i as int),
        decreases to - i,
    {
        s.push(cs[i]);
        i += 1;
        assert(cs@.subrange(from as int, i as int) == cs@.subrange(from as int, i - 1).push(
            cs@[i - 1],
        ));
    }
    s
}

/// The character for one decimal digit.
pub open spec fn digit(d: nat) -> char {
    if d == 0 {
        '0'
    } else if d == 1 {
        '1'
    } else if d == 2 {
        '2'
    } else if d == 3 {
        '3'
    } else if d == 4 {
        '4'
    } else if d == 5 {
        '5'
    } else if d == 6 {
        '6'
    } else if d == 7 {
        '7'
    } else if d == 8 {
        '8'
    } else {
        '9'
    }
}

/// A number written in base ten, without sign or leading zeros.
pub open spec fn decimal(n: nat) -> Seq<char>
    decreases n,
{
    if n < 10 {
        seq![digit(n)]
    } else {
        decimal(n / 10).push(digit(n % 10))
    }
}

fn digit_char(d: u64) -> (c: char)
    requires
        d < 10,
    ensures
        c == digit(d as nat),
{
    match d {
        0 => '0',
        1 => '1',
        2 => '2',
        3 => '3',
        4 => '4',
        5 => '5',
        6 => '6',
        7 => '7',
        8 => '8',
        _ => '9',
    }
}

/// Appends `n`, written in base ten, to `out`.
pub fn push_decimal(out: &mut String, n: u64)
    ensures
        final(out)@ == old(out)@ + decimal(n as nat),
    decreases n,
{
    if n >= 10 {
        push_decimal(out, n / 10);
    }
    out.push(digit_char(n % 10));
}

/// The place of the first occurrence of `needle` in `hay`, if there is one.
pub open spec fn first_occurrence(hay: Seq<char>, needle: Seq<char>) -> Option<int> {
    if exists|i: int| occurs_at(hay, needle, i) {
        Some(choose|i: int| occurs_at(hay, needle, i) && no_occurrence_before(hay, needle, i))
    } else {
        None
    }
}

/// Whether `needle` stands in `hay` at place `i`.
pub open spec fn occurs_at(hay: Seq<char>, needle: Seq<char>, i: int) -> bool {
    0 <= i && i + needle.len() <= hay.len() && hay.subrange(i, i + needle.len()) == needle
}

/// Whether `needle` stands nowhere in `hay` before place `i`.
pub open spec fn no_occurrence_before(hay: Seq<char>, needle: Seq<char>, i: int) -> bool {
    forall|j: int| 0 <= j < i ==> !occurs_at(hay, needle, j)
}

fn matches_at(hay: &Vec<char>, needle: &Vec<char>, at: usize) -> (found: bool)
    requires
        at + needle.len() <= hay.len(),
    ensures
        found == occurs_at(hay@, needle@, at as int),
{
    let mut k: usize = 0;
    while k < needle.len()
        invariant
            k <= needle.len(),
            at + needle.len() <= hay.len(),
            hay@.subrange(at as int, at + k) == needle@.take(k as int),
        decreases needle.len() - k,
    {
        if hay[at + k] != needle[k] {
            assert(hay@.subrange(at as int, at + needle.len())[k as int] != needle@[k as int]);
            return false;
        }
        k += 1;
        assert(hay@.subrange(at as int, at + k) == hay@.subrange(at as int, at + k - 1).push(
            hay@[at + k - 1],
        ));
        assert(needle@.take(k as int) == needle@.take(k - 1).push(needle@[k - 1]));
    }
    assert(needle@.take(needle.len() as int) == needle@);
    true
}

/// Finds the first occurrence of `needle` in `hay`.
pub fn find(hay: &Vec<char>, needle: &Vec<char>) -> (place: Option<usize>)
    ensures
        match place {
            Some(i) => {
                &&& first_occurrence(hay@, needle@) == Some(i as int)
                &&& occurs_at(hay@, needle@, i as int)
                &&& no_occurrence_before(hay@, needle@, i as int)
            },
            None => first_occurrence(hay@, needle@) is None,
        },
{
    if needle.len() > hay.len() {
        return None;
    }
    let last: usize = hay.len() - needle.len();
    let mut i: usize = 0;
    loop
        invariant
            i <= last,
            last == hay.len() - needle.len(),
            no_occurrence_before(hay@, needle@, i as int),
        decreases last - i,
    {
        if matches_at(hay, needle, i) {
            proof {
                lemma_first_occurrence(hay@, needle@, i as int);
            }
            return Some(i);
        }
        if i == last {
            return None;
        }
        i += 1;
    }
}

/// The first occurrence is the one place where the needle stands and before
/// which it stands nowhere.
pub proof fn lemma_first_occurrence(hay: Seq<char>, needle: Seq<char>, i: int)
    requires
        occurs_at(hay, needle, i),
        no_occurrence_before(hay, needle, i),
    ensures
        first_occurrence(hay, needle) == Some(i),
{
    let c = choose|c: int| occurs_at(hay, needle, c) && no_occurrence_before(hay, needle, c);
    assert(occurs_at(hay, needle, c) && no_occurrence_before(hay, needle, c));
    if c < i {
        assert(!occurs_at(hay, needle, c));
    }
    if i < c {
        assert(!occurs_at(hay, needle, i));
    }
}

/// The parts of `s` between the occurrences of `sep`, in order. A text
/// without `sep` is one part; two neighbouring separators have an empty part
/// between them.
#[verifier::opaque]
pub open spec fn split(s: Seq<char>, sep: char) -> Seq<Seq<char>>
    decreases s.len(),
{
    match first_occurrence(s, seq![sep]) {
        Some(i) => if 0 <= i < s.len() {
            seq![s.take(i)] + split(s.skip(i + 1), sep)
        } else {
            seq![s]
        },
        None => seq![s],
    }
}

/// A text whose first separator stands at `at` is the part before it,
/// followed by the parts of what comes after it.
pub proof fn lemma_split_at_separator(s: Seq<char>, sep: char, at: int)
    requires
        0 <= at < s.len(),
        s[at] == sep,
        forall|j: int| 0 <= j < at ==> s[j] != sep,
    ensures
        split(s, sep) == seq![s.take(at)] + split(s.skip(at + 1), sep),
{
    reveal(split);
    assert(s.subrange(at, at + 1) == seq![sep]);
    assert forall|j: int| 0 <= j < at implies !occurs_at(s, seq![sep], j) by {
        assert(s.subrange(j, j + 1)[0] == s[j]);
    }
    lemma_first_occurrence(s, seq![sep], at);
}

/// A text without a separator is one part.
pub proof fn lemma_split_without_separator(s: Seq<char>, sep: char)
    requires
        forall|j: int| 0 <= j < s.len() ==> s[j] != sep,
    ensures
        split(s, sep) == seq![s],
{
    reveal(split);
    assert forall|j: int| !occurs_at(s, seq![sep], j) by {
        if occurs_at(s, seq![sep], j) {
            assert(s.subrange(j, j + 1)[0] == s[j]);
        }
    }
}

/// Cuts `cs` at every `sep`.
pub fn split_at(cs: &Vec<char>, sep: char) -> (parts: Vec<String>)
    ensures
        parts.deep_view() == split(cs@, sep),
{
    let mut parts: Vec<String> = Vec::new();
    let mut start: usize = 0;
    let mut i: usize = 0;
    assert(cs@.skip(0) == cs@);
    assert(parts.deep_view() + split(cs@, sep) == split(cs@, sep));
    while i < cs.len()
        invariant
            start <= i <= cs.len(),
            forall|j: int| start <= j < i ==> cs@[j] != sep,
            split(cs@, sep) == parts.deep_view() + split(cs@.skip(start as int), sep),
        decreases cs.len() - i,
    {
        if cs[i] == sep {
            let part = string_of(cs, start, i);
            let ghost before = parts.deep_view();
            let ghost rest = cs@.skip(start as int);
            parts.push(part);
            proof {
                assert(parts.deep_view() == before.push(part@));
                lemma_split_at_separator(rest, sep, i - start);
                assert(rest.take(i - start) == part@);
                assert(rest.skip(i - start + 1) == cs@.skip(i + 1));
                let tail = split(cs@.skip(i + 1), sep);
                assert(before.push(part@) + tail == before + (seq![part@] + tail));
            }
            start = i + 1;
        }
        i += 1;
    }
    let part = string_of(cs, start, cs.len());
    let ghost before = parts.deep_view();
    let ghost rest = cs@.skip(start as int);
    parts.push(part);
    proof {
        assert(parts.deep_view() == before.push(part@));
        assert(rest == part@);
        lemma_split_without_separator(rest, sep);
        assert(before.push(part@) == before + seq![rest]);
    }
    parts
}

/// Whether a character is a blank: a space, a tab, or the end of a line.
pub open spec fn is_blank(c: char) -> bool {
    c == ' ' || c == '\t' || c == '\r' || c == '\n'
}

/// `s` without the blanks at its start.
pub open spec fn trim_start(s: Seq<char>) -> Seq<char>
    decreases s.len(),
{
    if s.len() > 0 && is_blank(s[0]) {
        trim_start(s.skip(1))
    } else {
        s
    }
}

/// `s` without the blanks at its end.
pub open spec fn trim_end(s: Seq<char>) -> Seq<char>
    decreases s.len(),
{
    if s.len() > 0 && is_blank(s.last()) {
        trim_end(s.drop_last())
    } else {
        s
    }
}

/// `s` without the blanks at its start and at its end.
pub open spec fn trim(s: Seq<char>) -> Seq<char> {
    trim_end(trim_start(s))
}

fn blank(c: char) -> (b: bool)
    ensures
        b == is_blank(c),
{
    c == ' ' || c == '\t' || c == '\r' || c == '\n'
}

/// The text `cs[from..to]` without the blanks at its start and at its end.
pub fn trimmed(cs: &Vec<char>, from: usize, to: usize) -> (s: String)
    requires
        from <= to <= cs.len(),
    ensures
        s@ == trim(cs@.subrange(from as int, to as int)),
{
    let ghost whole = cs@.subrange(from as int, to as int);
    let mut a: usize = from;
    while a < to && blank(cs[a])
        invariant
            from <= a <= to <= cs.len(),
            trim_start(whole) == trim_start(cs@.subrange(a as int, to as int)),
        decreases to - a,
    {
        assert(cs@.subrange(a as int, to as int).skip(1) == cs@.subrange(a + 1, to as int));
        a += 1;
    }
    let mut b: usize = to;
    while b > a && blank(cs[b - 1])
        invariant
            a <= b <= to <= cs.len(),
            trim_end(trim_start(whole)) == trim_end(cs@.subrange(a as int, b as int)),
            trim_start(whole) == cs@.subrange(a as int, to as int),
        decreases b - a,
    {
        assert(cs@.subrange(a as int, b as int).drop_last() == cs@.subrange(a as int, b - 1));
        b -= 1;
    }
    string_of(cs, a, b)
}

/// The small letter for a capital letter of the basic alphabet; every other
/// character as it is.
pub open spec fn lower(c: char) -> char {
    if 'A' <= c <= 'Z' {
        ((c as u8) + 32) as char
    } else {
        c
    }
}

/// Whether two texts are the same but for the case of the letters `a` to
/// `z`.
pub open spec fn same_ignoring_case(a: Seq<char>, b: Seq<char>) -> bool {
    a.len() == b.len() && forall|i: int| 0 <= i < a.len() ==> lower(a[i]) == lower(b[i])
}

fn to_lower(c: char) -> (l: char)
    ensures
        l == lower(c),
{
    if 'A' <= c && c <= 'Z' {
        ((c as u8) + 32) as char
    } else {
        c
    }
}

/// Compares `cs[from..to]` with `name`, ignoring the case of letters.
pub fn equals_ignoring_case(cs: &Vec<char>, from: usize, to: usize, name: &Vec<char>) -> (same:
    bool)
    requires
        from <= to <= cs.len(),
    ensures
        same == same_ignoring_case(cs@.subrange(from as int, to as int), name@),
{
    if to - from != name.len() {
        return false;
    }
    let ghost part = cs@.subrange(from as int, to as int);
    let mut i: usize = 0;
    while i < name.len()
        invariant
            i <= name.len(),
            from <= to <= cs.len(),
            to - from == name.len(),
            part == cs@.subrange(from as int, to as int),
            forall|j: int| 0 <= j < i ==> lower(part[j]) == lower(name@[j]),
        decreases name.len() - i,
    {
        if to_lower(cs[from + i]) != to_lower(name[i]) {
            assert(lower(part[i as int]) != lower(name@[i as int]));
            return false;
        }
        i += 1;
    }
    true
}

/// Whether a character is one of the digits `0` to `9`.
pub open spec fn is_digit(c: char) -> bool {
    '0' <= c <= '9'
}

/// Whether a text is made of digits alone.
pub open spec fn all_digits(s: Seq<char>) -> bool {
    forall|i: int| 0 <= i < s.len() ==> is_digit(#[trigger] s[i])
}

/// The number that digits stand for in base ten.
pub open spec fn digits_value(s: Seq<char>) -> nat
    decreases s.len(),
{
    if s.len() == 0 {
        0
    } else {
        (digits_value(s.drop_last()) * 10 + (s.last() as nat - '0' as nat)) as nat
    }
}

/// The digits of a numeral: what follows a plus sign at its start, or the
/// whole of it.
pub open spec fn digits_of(s: Seq<char>) -> Seq<char> {
    if s.len() > 0 && s[0] == '+' {
        s.skip(1)
    } else {
        s
    }
}

/// The number that a text stands for as a numeral: one digit or more, with
/// or without a plus sign before them and with nothing else around them,
/// that stand for a number of 64 bits. `None` for every other text.
pub open spec fn numeral(s: Seq<char>) -> Option<u64> {
    let digits = digits_of(s);
    if digits.len() > 0 && all_digits(digits) && digits_value(digits) <= u64::MAX {
        Some(digits_value(digits) as u64)
    } else {
        None
    }
}

/// More digits make no smaller number.
pub proof fn lemma_digits_grow(s: Seq<char>, k: int)
    requires
        all_digits(s),
        0 <= k <= s.len(),
    ensures
        digits_value(s.take(k)) <= digits_value(s),
    decreases s.len(),
{
    if k == s.len() {
        assert(s.take(k) == s);
    } else {
        assert(s.drop_last().take(k) == s.take(k));
        assert(is_digit(s[s.len() - 1]));
        lemma_digits_grow(s.drop_last(), k);
    }
}

/// Reads a text as a numeral.
pub fn read_numeral(text: &str) -> (number: Option<u64>)
    ensures
        number == numeral(text@),
{
    let cs = chars_of(text);
    let start: usize = if cs.len() > 0 && cs[0] == '+' {
        1
    } else {
        0
    };
    let ghost digits = digits_of(text@);
    assert(digits == cs@.skip(start as int));
    if start == cs.len() {
        return None;
    }
    let mut value: u64 = 0;
    let mut i: usize = start;
    assert(digits.take(0) == Seq::<char>::empty());
    while i < cs.len()
        invariant
            start <= i <= cs.len(),
            start < cs.len(),
            digits == digits_of(text@),
            digits == cs@.skip(start as int),
            all_digits(digits.take(i - start)),
            value == digits_value(digits.take(i - start)),
        decreases cs.len() - i,
    {
        let c = cs[i];
        let ghost upto = digits.take(i - start + 1);
        assert(upto.drop_last() == digits.take(i - start));
        assert(upto.last() == c);
        assert(digits[i - start] == c);
        if !('0' <= c && c <= '9') {
            assert(!is_digit(digits[i - start]));
            return None;
        }
        let d: u64 = (c as u32 - '0' as u32) as u64;
        assert(digits_value(upto) == value * 10 + d);
        if value > (u64::MAX - d) / 10 {
            proof {
                if all_digits(digits) {
                    lemma_digits_grow(digits, i - start + 1);
                }
            }
            return None;
        }
        value = value * 10 + d;
        assert forall|j: int| 0 <= j < upto.len() implies is_digit(#[trigger] upto[j]) by {
            if j < i - start {
                assert(digits.take(i - start)[j] == upto[j]);
            }
        }
        i += 1;
    }
    assert(digits.take(cs.len() - start) == digits);
    Some(value)
}

} // verus!
