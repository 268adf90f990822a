//! Text as sequences of characters: searching, trimming, comparing and joining.
//!
//! The functions work on Unicode scalar values. Their contracts speak of a text through its view,
//! the sequence of its characters.
use vstd::prelude::*;
use vstd::string::StrSliceExecFns;
use vstd::string::StringExecFns;

verus! {

/// `part` stands in `text`, starting at character `at`.
pub open spec fn occurs_at(text: Seq<char>, part: Seq<char>, at: int) -> bool {
    0 <= at && at + part.len() <= text.len() && text.subrange(at, at + part.len()) == part
}

/// `part` stands somewhere in `text`.
pub open spec fn occurs(text: Seq<char>, part: Seq<char>) -> bool {
    exists|at: int| occurs_at(text, part, at)
}

/// One of `parts` stands somewhere in `text`.
pub open spec fn occurs_any(text: Seq<char>, parts: Seq<Seq<char>>) -> bool {
    exists|i: int| 0 <= i < parts.len() && occurs(text, #[trigger] parts[i])
}

/// The leftmost place at which `part` stands in `text` is `at`.
pub open spec fn first_at(text: Seq<char>, part: Seq<char>, at: int) -> bool {
    occurs_at(text, part, at) && forall|i: int| i < at ==> !occurs_at(text, part, i)
}

/// The rightmost place at which `part` stands in `text` is `at`.
pub open spec fn last_at(text: Seq<char>, part: Seq<char>, at: int) -> bool {
    occurs_at(text, part, at) && forall|i: int| i > at ==> !occurs_at(text, part, i)
}

/// What stands before the leftmost `part` of `text`: all of `text` where there is none.
pub open spec fn before_first(text: Seq<char>, part: Seq<char>) -> Seq<char> {
    if occurs(text, part) {
        text.take(choose|at: int| first_at(text, part, at))
    } else {
        text
    }
}

/// The two sides of the rightmost `part` of `text`, if there is one.
pub open spec fn split_at_last(text: Seq<char>, part: Seq<char>) -> Option<(Seq<char>, Seq<char>)> {
    if occurs(text, part) {
        let at = choose|at: int| last_at(text, part, at);
        Some((text.take(at), text.skip(at + part.len())))
    } else {
        None
    }
}

/// A character with the Unicode property `White_Space`.
pub open spec fn is_space(c: char) -> bool {
    ||| '\u{9}' <= c <= '\u{d}'
    ||| c == ' '
    ||| c == '\u{85}'
    ||| c == '\u{a0}'
    ||| c == '\u{1680}'
    ||| '\u{2000}' <= c <= '\u{200a}'
    ||| c == '\u{2028}'
    ||| c == '\u{2029}'
    ||| c == '\u{202f}'
    ||| c == '\u{205f}'
    ||| c == '\u{3000}'
}

/// `text` without the white space at its start.
pub open spec fn trimmed_start(text: Seq<char>) -> Seq<char>
    decreases text.len(),
{
    if text.len() > 0 && is_space(text.first()) {
        trimmed_start(text.drop_first())
    } else {
        text
    }
}

/// `text` without the white space at its end.
pub open spec fn trimmed_end(text: Seq<char>) -> Seq<char>
    decreases text.len(),
{
    if text.len() > 0 && is_space(text.last()) {
        trimmed_end(text.drop_last())
    } else {
        text
    }
}

/// `text` without the white space at either end.
pub open spec fn trimmed(text: Seq<char>) -> Seq<char> {
    trimmed_end(trimmed_start(text))
}

/// `text` without the `last` characters that it ends in.
pub open spec fn without_trailing(text: Seq<char>, last: char) -> Seq<char>
    decreases text.len(),
{
    if text.len() > 0 && text.last() == last {
        without_trailing(text.drop_last(), last)
    } else {
        text
    }
}

/// `c` with an ASCII capital letter turned into the small one.
pub open spec fn ascii_lower(c: char) -> char {
    if 'A' <= c <= 'Z' {
        (c as u32 + 32) as char
    } else {
        c
    }
}

/// Two texts that differ in the case of ASCII letters at most.
pub open spec fn same_ignoring_ascii_case(a: Seq<char>, b: Seq<char>) -> bool {
    a.len() == b.len() && forall|i: int| 0 <= i < a.len() ==> ascii_lower(a[i]) == ascii_lower(b[i])
}

/// The decimal digit of a value below ten.
pub open spec fn digit(n: nat) -> char {
    (n + 48) as char
}

/// `n` in decimal, without leading zeros.
pub open spec fn decimal_digits(n: nat) -> Seq<char>
    decreases n,
{
    if n < 10 {
        seq![digit(n)]
    } else {
        decimal_digits(n / 10).push(digit(n % 10))
    }
}

/// The views of a list of texts.
pub open spec fn texts(list: Seq<String>) -> Seq<Seq<char>> {
    list.map_values(|text: String| text@)
}

/// The view of a borrowed text that may be absent.
pub open spec fn str_view(text: Option<&str>) -> Option<Seq<char>> {
    match text {
        Some(text) => Some(text@),
        None => None,
    }
}

/// `text` with every letter in its small form, as `str::to_lowercase` gives it.
pub uninterp spec fn lowercased(text: Seq<char>) -> Seq<char>;

/// `str::to_lowercase`: the result is a function of the text alone, and an ASCII text has its
/// capital letters `A` to `Z` turned into `a` to `z` and nothing else changed.
#[verifier::external_body]
pub(crate) fn to_lowercase(text: &str) -> (r: String)
    ensures
        r@ == lowercased(text@),
        vstd::utf8::is_ascii_chars(text@) ==> r@ == text@.map_values(|c: char| ascii_lower(c)),
{
    text.to_lowercase()
}

/// The rightmost place of a part is the only one.
pub(crate) proof fn lemma_last_at_is_unique(text: Seq<char>, part: Seq<char>, at: int)
    requires
        last_at(text, part, at),
    ensures
        occurs(text, part),
        at == (choose|i: int| last_at(text, part, i)),
{
    let chosen = choose|i: int| last_at(text, part, i);
    assert(last_at(text, part, chosen));
    if chosen < at {
        assert(!occurs_at(text, part, at));
    }
    if at < chosen {
        assert(!occurs_at(text, part, chosen));
    }
}

/// The leftmost place of a part is the only one.
pub(crate) proof fn lemma_first_at_is_unique(text: Seq<char>, part: Seq<char>, at: int)
    requires
        first_at(text, part, at),
    ensures
        occurs(text, part),
        at == (choose|i: int| first_at(text, part, i)),
{
    let chosen = choose|i: int| first_at(text, part, i);
    assert(first_at(text, part, chosen));
    if chosen < at {
        assert(!occurs_at(text, part, chosen));
    }
    if at < chosen {
        assert(!occurs_at(text, part, at));
    }
}

/// White space before and after a text is trimmed away.
pub(crate) proof fn lemma_trimmed_ignores_space(before: Seq<char>, text: Seq<char>, after: Seq<char>)
    requires
        forall|i: int| 0 <= i < before.len() ==> is_space(#[trigger] before[i]),
        forall|i: int| 0 <= i < after.len() ==> is_space(#[trigger] after[i]),
    ensures
        trimmed(before + text + after) == trimmed(text),
    decreases before.len() + after.len(),
{
    if before.len() > 0 {
        let rest = before.drop_first();
        assert forall|i: int| 0 <= i < rest.len() implies is_space(#[trigger] rest[i]) by {
            assert(rest[i] == before[i + 1]);
        }
        lemma_trimmed_ignores_space(rest, text, after);
        assert((before + text + after).first() == before[0]);
        assert((before + text + after).drop_first() =~= rest + text + after);
    } else if after.len() > 0 {
        let rest = after.drop_last();
        assert forall|i: int| 0 <= i < rest.len() implies is_space(#[trigger] rest[i]) by {
            assert(rest[i] == after[i]);
        }
        lemma_trimmed_ignores_space(before, text, rest);
        assert(before + text + rest =~= text + rest);
        assert(before + text + after =~= (text + rest).push(after.last()));
        assert(is_space(after[after.len() - 1]));
        lemma_trimmed_ignores_final_space(text + rest, after.last());
    } else {
        assert(before + text + after =~= text);
    }
}

/// A white space character at the end of a text is trimmed away.
proof fn lemma_trimmed_ignores_final_space(text: Seq<char>, last: char)
    requires
        is_space(last),
    ensures
        trimmed(text.push(last)) == trimmed(text),
    decreases text.len(),
{
    if text.len() == 0 {
        assert(text.push(last).first() == last);
        assert(text.push(last).drop_first() =~= text);
    } else if is_space(text.first()) {
        assert(text.push(last).first() == text.first());
        assert(text.push(last).drop_first() =~= text.drop_first().push(last));
        lemma_trimmed_ignores_final_space(text.drop_first(), last);
    } else {
        assert(text.push(last).first() == text.first());
        assert(text.push(last).drop_last() =~= text);
    }
}

/// A sequence with one more element contains that element and what it contained before.
pub(crate) proof fn lemma_push_contains<A>(s: Seq<A>, last: A, item: A)
    ensures
        s.push(last).contains(item) <==> s.contains(item) || item == last,
{
    if s.contains(item) {
        let i = choose|i: int| 0 <= i < s.len() && s[i] == item;
        assert(s.push(last)[i] == item);
    }
    if item == last {
        assert(s.push(last)[s.len() as int] == item);
    }
}

/// The characters of `text`.
pub(crate) fn chars_of(text: &str) -> (r: Vec<char>)
    ensures
        r@ == text@,
{
    let mut r: Vec<char> = Vec::new();
    for c in it: text.chars()
        invariant
            it.seq() == text@,
            r@ == text@.take(it.index()),
    {
        r.push(c);
    }
    r
}

/// Whether `part` stands in `text` at `at`.
fn is_at(text: &Vec<char>, part: &Vec<char>, at: usize) -> (r: bool)
    ensures
        r == occurs_at(text@, part@, at as int),
{
    if text.len() < part.len() || at > text.len() - part.len() {
        return false;
    }
    let mut i: usize = 0;
    while i < part.len()
        invariant
            at + part.len() <= text.len(),
            i <= part.len(),
            forall|k: int| 0 <= k < i ==> text@[at + k] == part@[k],
        decreases part.len() - i,
    {
        if text[at + i] != part[i] {
            assert(text@.subrange(at as int, at + part.len())[i as int] == text@[at + i]);
            return false;
        }
        i = i + 1;
    }
    assert(text@.subrange(at as int, at + part.len()) =~= part@);
    true
}

/// Whether two texts are equal.
pub fn same(a: &str, b: &str) -> (r: bool)
    ensures
        r == (a@ == b@),
{
    let x = chars_of(a);
    let y = chars_of(b);
    if x.len() != y.len() {
        return false;
    }
    let r = is_at(&x, &y, 0);
    assert(x@.subrange(0, y@.len() as int) =~= x@);
    r
}

/// Whether `text` starts with `prefix`.
pub fn starts_with(text: &str, prefix: &str) -> (r: bool)
    ensures
        r == prefix@.is_prefix_of(text@),
{
    is_at(&chars_of(text), &chars_of(prefix), 0)
}

/// Whether `text` ends with `suffix`.
pub fn ends_with(text: &str, suffix: &str) -> (r: bool)
    ensures
        r == suffix@.is_suffix_of(text@),
{
    let t = chars_of(text);
    let s = chars_of(suffix);
    if t.len() < s.len() {
        return false;
    }
    is_at(&t, &s, t.len() - s.len())
}

/// What follows `prefix` in `text`, if `text` starts with it.
pub fn strip_prefix<'a>(text: &'a str, prefix: &str) -> (r: Option<&'a str>)
    ensures
        r is Some <==> prefix@.is_prefix_of(text@),
        r matches Some(rest) ==> rest@ == text@.skip(prefix@.len() as int),
{
    if starts_with(text, prefix) {
        let skipped: usize = prefix.unicode_len();
        Some(text.substring_char(skipped, text.unicode_len()))
    } else {
        None
    }
}

/// The leftmost place at which `part` stands in `text`.
fn find(text: &Vec<char>, part: &Vec<char>) -> (r: Option<usize>)
    ensures
        r is Some <==> occurs(text@, part@),
        r matches Some(at) ==> first_at(text@, part@, at as int),
{
    if text.len() < part.len() {
        return None;
    }
    let last: usize = text.len() - part.len();
    let mut i: usize = 0;
    while i < last
        invariant
            last == text.len() - part.len(),
            i <= last,
            forall|k: int| k < i ==> !occurs_at(text@, part@, k),
        decreases last - i,
    {
        if is_at(text, part, i) {
            return Some(i);
        }
        i = i + 1;
    }
    if is_at(text, part, last) {
        Some(last)
    } else {
        assert(forall|k: int| k > last ==> !occurs_at(text@, part@, k));
        None
    }
}

/// The rightmost place at which `part` stands in `text`.
fn find_last(text: &Vec<char>, part: &Vec<char>) -> (r: Option<usize>)
    ensures
        r is Some <==> occurs(text@, part@),
        r matches Some(at) ==> last_at(text@, part@, at as int),
{
    if text.len() < part.len() {
        return None;
    }
    let mut i: usize = text.len() - part.len();
    assert(forall|k: int| k > i ==> !occurs_at(text@, part@, k));
    while i > 0
        invariant
            i <= text.len() - part.len(),
            forall|k: int| k > i ==> !occurs_at(text@, part@, k),
        decreases i,
    {
        if is_at(text, part, i) {
            return Some(i);
        }
        i = i - 1;
    }
    if is_at(text, part, 0) {
        Some(0)
    } else {
        assert(forall|k: int| k < 0 ==> !occurs_at(text@, part@, k));
        None
    }
}

/// Whether `part` stands somewhere in `text`.
pub fn contains(text: &str, part: &str) -> (r: bool)
    ensures
        r == occurs(text@, part@),
{
    find(&chars_of(text), &chars_of(part)).is_some()
}

/// Whether one of `parts` stands somewhere in `text`.
pub fn contains_any(text: &str, parts: &Vec<String>) -> (r: bool)
    ensures
        r == occurs_any(text@, texts(parts@)),
{
    let mut i: usize = 0;
    while i < parts.len()
        invariant
            i <= parts.len(),
            forall|k: int| 0 <= k < i ==> !occurs(text@, #[trigger] texts(parts@)[k]),
        decreases parts.len() - i,
    {
        assert(texts(parts@)[i as int] == parts@[i as int]@);
        if contains(text, parts[i].as_str()) {
            return true;
        }
        i = i + 1;
    }
    false
}

/// What stands before the leftmost `part` of `text`.
pub fn before<'a>(text: &'a str, part: &str) -> (r: &'a str)
    ensures
        r@ == before_first(text@, part@),
{
    match find(&chars_of(text), &chars_of(part)) {
        Some(at) => {
            proof {
                lemma_first_at_is_unique(text@, part@, at as int);
            }
            text.substring_char(0, at)
        },
        None => text,
    }
}

/// The two sides of the rightmost `part` of `text`, if there is one.
pub fn rsplit_once<'a>(text: &'a str, part: &str) -> (r: Option<(&'a str, &'a str)>)
    ensures
        match r {
            Some((left, right)) => split_at_last(text@, part@) == Some((left@, right@)),
            None => split_at_last(text@, part@) is None,
        },
{
    let t = chars_of(text);
    let p = chars_of(part);
    match find_last(&t, &p) {
        Some(at) => {
            proof {
                lemma_last_at_is_unique(text@, part@, at as int);
            }
            assert(at + p.len() <= t.len());
            let left = text.substring_char(0, at);
            let right = text.substring_char(at + p.len(), t.len());
            assert(left@ =~= text@.take(at as int));
            assert(right@ =~= text@.skip(at + part@.len()));
            Some((left, right))
        },
        None => None,
    }
}

/// Whether `c` is white space.
pub fn is_whitespace(c: char) -> (r: bool)
    ensures
        r == is_space(c),
{
    ('\u{9}' <= c && c <= '\u{d}') || c == ' ' || c == '\u{85}' || c == '\u{a0}' || c == '\u{1680}'
        || ('\u{2000}' <= c && c <= '\u{200a}') || c == '\u{2028}' || c == '\u{2029}' || c
        == '\u{202f}' || c == '\u{205f}' || c == '\u{3000}'
}

/// `text` without the white space at either end.
pub fn trim<'a>(text: &'a str) -> (r: &'a str)
    ensures
        r@ == trimmed(text@),
{
    let t = chars_of(text);
    let mut from: usize = 0;
    assert(t@.skip(0) =~= t@);
    while from < t.len() && is_whitespace(t[from])
        invariant
            from <= t.len(),
            trimmed_start(t@) == trimmed_start(t@.skip(from as int)),
        decreases t.len() - from,
    {
        assert(t@.skip(from as int).drop_first() =~= t@.skip(from + 1));
        from = from + 1;
    }
    let ghost rest = trimmed_start(t@);
    assert(rest == t@.skip(from as int));
    let mut to: usize = t.len();
    assert(t@.subrange(from as int, to as int) =~= rest);
    while to > from && is_whitespace(t[to - 1])
        invariant
            from <= to <= t.len(),
            trimmed_end(rest) == trimmed_end(t@.subrange(from as int, to as int)),
        decreases to,
    {
        assert(t@.subrange(from as int, to as int).drop_last() =~= t@.subrange(
            from as int,
            to - 1,
        ));
        to = to - 1;
    }
    text.substring_char(from, to)
}

/// `text` without the `last` characters that it ends in.
pub fn trim_end_matches<'a>(text: &'a str, last: char) -> (r: &'a str)
    ensures
        r@ == without_trailing(text@, last),
{
    let t = chars_of(text);
    let mut to: usize = t.len();
    assert(t@.take(to as int) =~= t@);
    while to > 0 && t[to - 1] == last
        invariant
            to <= t.len(),
            without_trailing(t@, last) == without_trailing(t@.take(to as int), last),
        decreases to,
    {
        assert(t@.take(to as int).drop_last() =~= t@.take(to - 1));
        to = to - 1;
    }
    text.substring_char(0, to)
}

/// `c` with an ASCII capital letter turned into the small one.
fn lower_of(c: char) -> (r: char)
    ensures
        r == ascii_lower(c),
{
    if 'A' <= c && c <= 'Z' {
        (c as u8 + 32) as char
    } else {
        c
    }
}

/// Whether two texts differ in the case of ASCII letters at most.
pub fn eq_ignore_ascii_case(a: &str, b: &str) -> (r: bool)
    ensures
        r == same_ignoring_ascii_case(a@, b@),
{
    let x = chars_of(a);
    let y = chars_of(b);
    if x.len() != y.len() {
        return false;
    }
    let mut i: usize = 0;
    while i < x.len()
        invariant
            x@ == a@,
            y@ == b@,
            x.len() == y.len(),
            i <= x.len(),
            forall|k: int| 0 <= k < i ==> ascii_lower(x@[k]) == ascii_lower(y@[k]),
        decreases x.len() - i,
    {
        if lower_of(x[i]) != lower_of(y[i]) {
            return false;
        }
        i = i + 1;
    }
    true
}

/// The text of a digit below ten.
fn digit_text(n: u64) -> (r: &'static str)
    requires
        n < 10,
    ensures
        r@ == seq![digit(n as nat)],
{
    proof {
        reveal_strlit("0");
        reveal_strlit("1");
        reveal_strlit("2");
        reveal_strlit("3");
        reveal_strlit("4");
        reveal_strlit("5");
        reveal_strlit("6");
        reveal_strlit("7");
        reveal_strlit("8");
        reveal_strlit("9");
    }
    if n == 0 {
        "0"
    } else if n == 1 {
        "1"
    } else if n == 2 {
        "2"
    } else if n == 3 {
        "3"
    } else if n == 4 {
        "4"
    } else if n == 5 {
        "5"
    } else if n == 6 {
        "6"
    } else if n == 7 {
        "7"
    } else if n == 8 {
        "8"
    } else {
        "9"
    }
}

/// `n` in decimal.
pub fn decimal(n: u64) -> (r: String)
    ensures
        r@ == decimal_digits(n as nat),
    decreases n,
{
    if n < 10 {
        digit_text(n).to_owned()
    } else {
        let mut r = decimal(n / 10);
        r.append(digit_text(n % 10));
        r
    }
}

} // verus!
