//! Laws of texts.
use vstd::prelude::*;
use crate::text;

verus! {

/// A text is another one with these two around it.
pub open spec fn is_around(whole: Seq<char>, before: Seq<char>, part: Seq<char>, after: Seq<char>) -> bool {
    whole == before + part + after
}

/// A text contains another exactly if it is that other text with something before and after it.
pub proof fn law_containing_is_being_around(given: &str, part: &str, r: bool)
    requires
        call_ensures(text::contains, (given, part), r),
    ensures
        r <==> exists|before: Seq<char>, after: Seq<char>| is_around(given@, before, part@, after),
{
    if r {
        let at = choose|at: int| text::occurs_at(given@, part@, at);
        let before = given@.take(at);
        let after = given@.skip(at + part@.len());
        assert(given@ =~= before + part@ + after);
        assert(is_around(given@, before, part@, after));
    }
    if exists|before: Seq<char>, after: Seq<char>| is_around(given@, before, part@, after) {
        let (before, after) = choose|before: Seq<char>, after: Seq<char>|
            is_around(given@, before, part@, after);
        law_a_part_occurs_where_it_stands(before, part@, after);
    }
}

/// A part occurs in every text that has it in the middle, at the place where it stands.
pub proof fn law_a_part_occurs_where_it_stands(
    before: Seq<char>,
    part: Seq<char>,
    after: Seq<char>,
)
    ensures
        text::occurs_at(before + part + after, part, before.len() as int),
        text::occurs(before + part + after, part),
{
    let whole = before + part + after;
    let at = before.len() as int;
    assert(whole.subrange(at, at + part.len()) =~= part);
    assert(text::occurs_at(whole, part, at));
}

/// A text occurs in another only if it stands there as a whole, character by character.
pub proof fn law_a_part_that_occurs_stands_there(whole: Seq<char>, part: Seq<char>, at: int)
    ensures
        text::occurs_at(whole, part, at) <==> 0 <= at && at + part.len() <= whole.len() && (forall|
            i: int,
        |
            0 <= i < part.len() ==> whole[at + i] == #[trigger] part[i]),
{
    if text::occurs_at(whole, part, at) {
        assert forall|i: int| 0 <= i < part.len() implies whole[at + i] == #[trigger] part[i] by {
            assert(whole.subrange(at, at + part.len())[i] == part[i]);
        }
    }
    if 0 <= at && at + part.len() <= whole.len() && (forall|i: int|
        0 <= i < part.len() ==> whole[at + i] == #[trigger] part[i]) {
        assert(whole.subrange(at, at + part.len()) =~= part);
    }
}

/// What stands before a part that does not occur earlier is found, and a text without the part is
/// given back whole.
pub proof fn law_the_text_before_the_first_part(
    given: &str,
    part: &str,
    r: &str,
    before: Seq<char>,
    after: Seq<char>,
)
    requires
        call_ensures(text::before, (given, part), r),
    ensures
        given@ == before + part@ + after && (forall|i: int|
            0 <= i < before.len() ==> !text::occurs_at(given@, part@, i)) ==> r@ == before,
        !text::occurs(given@, part@) ==> r@ == given@,
{
    if given@ == before + part@ + after && (forall|i: int|
        0 <= i < before.len() ==> !text::occurs_at(given@, part@, i)) {
        law_a_part_occurs_where_it_stands(before, part@, after);
        let at = before.len() as int;
        assert(text::first_at(given@, part@, at)) by {
            assert forall|i: int| i < at implies !text::occurs_at(given@, part@, i) by {
                if 0 <= i {
                    assert(!text::occurs_at(given@, part@, i));
                }
            }
        }
        text::lemma_first_at_is_unique(given@, part@, at);
        assert(given@.take(at) =~= before);
    }
}

/// A text is split at a part that does not occur later, and one without the part is not split.
pub proof fn law_a_text_is_split_at_the_last_part(
    given: &str,
    part: &str,
    r: Option<(&str, &str)>,
    left: Seq<char>,
    right: Seq<char>,
)
    requires
        call_ensures(text::rsplit_once, (given, part), r),
    ensures
        given@ == left + part@ + right && (forall|i: int|
            left.len() < i ==> !text::occurs_at(given@, part@, i)) ==> (r matches Some((a, b)) && a@ == left && b@ == right),
        r is None <==> !text::occurs(given@, part@),
{
    if given@ == left + part@ + right && (forall|i: int|
        left.len() < i ==> !text::occurs_at(given@, part@, i)) {
        lemma_split_at_last(given@, part@, left, right);
    }
}

/// The split of a text at the last part, over sequences.
pub proof fn lemma_split_at_last(
    whole: Seq<char>,
    part: Seq<char>,
    left: Seq<char>,
    right: Seq<char>,
)
    requires
        whole == left + part + right,
        forall|i: int|
            left.len() < i ==> !text::occurs_at(whole, part, i),
    ensures
        text::split_at_last(whole, part) == Some((left, right)),
{
    law_a_part_occurs_where_it_stands(left, part, right);
    let at = left.len() as int;
    assert(text::last_at(whole, part, at));
    text::lemma_last_at_is_unique(whole, part, at);
    assert(whole.take(at) =~= left);
    assert(whole.skip(at + part.len()) =~= right);
}

/// White space is what Unicode calls so: these code points and no others.
pub proof fn law_white_space(c: char, r: bool)
    requires
        call_ensures(text::is_whitespace, (c,), r),
    ensures
        r == text::is_space(c),
        r <==> {
            let code = c as int;
            ||| 9 <= code <= 13
            ||| code == 32 || code == 133 || code == 160 || code == 5760
            ||| 8192 <= code <= 8202
            ||| code == 8232 || code == 8233 || code == 8239 || code == 8287 || code == 12288
        },
{
}

/// A text that neither starts nor ends with white space is what is left of it with any white space
/// around it.
pub proof fn law_trimming_leaves_the_middle(
    given: &str,
    r: &str,
    before: Seq<char>,
    middle: Seq<char>,
    after: Seq<char>,
)
    requires
        call_ensures(text::trim, (given,), r),
        given@ == before + middle + after,
        forall|i: int| 0 <= i < before.len() ==> text::is_space(#[trigger] before[i]),
        forall|i: int| 0 <= i < after.len() ==> text::is_space(#[trigger] after[i]),
        middle.len() > 0 ==> !text::is_space(middle.first()) && !text::is_space(middle.last()),
    ensures
        r@ == middle,
{
    lemma_trimmed_middle(before, middle, after);
}

/// Trimming over sequences.
pub proof fn lemma_trimmed_middle(before: Seq<char>, middle: Seq<char>, after: Seq<char>)
    requires
        forall|i: int| 0 <= i < before.len() ==> text::is_space(#[trigger] before[i]),
        forall|i: int| 0 <= i < after.len() ==> text::is_space(#[trigger] after[i]),
        middle.len() > 0 ==> !text::is_space(middle.first()) && !text::is_space(middle.last()),
    ensures
        text::trimmed(before + middle + after) == middle,
{
    text::lemma_trimmed_ignores_space(before, middle, after);
}

/// All copies of a character at the end of a text are taken off, and nothing else.
pub proof fn law_only_the_end_is_taken_off(
    given: &str,
    last: char,
    r: &str,
    start: Seq<char>,
    end: Seq<char>,
)
    requires
        call_ensures(text::trim_end_matches, (given, last), r),
        given@ == start + end,
        forall|i: int| 0 <= i < end.len() ==> #[trigger] end[i] == last,
        start.len() > 0 ==> start.last() != last,
    ensures
        r@ == start,
{
    lemma_without_trailing(start, end, last);
}

/// Taking off the end over sequences.
pub proof fn lemma_without_trailing(start: Seq<char>, end: Seq<char>, last: char)
    requires
        forall|i: int| 0 <= i < end.len() ==> #[trigger] end[i] == last,
        start.len() > 0 ==> start.last() != last,
    ensures
        text::without_trailing(start + end, last) == start,
    decreases end.len(),
{
    if end.len() > 0 {
        let rest = end.drop_last();
        assert((start + end).last() == end[end.len() - 1]);
        assert((start + end).drop_last() =~= start + rest);
        assert forall|i: int| 0 <= i < rest.len() implies #[trigger] rest[i] == last by {
            assert(rest[i] == end[i]);
        }
        lemma_without_trailing(start, rest, last);
    } else {
        assert(start + end =~= start);
    }
}

/// Two texts are the same but for ASCII case exactly if at each place they have the same character
/// or the two forms of one of the letters A to Z.
pub proof fn law_ascii_case(a: &str, b: &str, r: bool)
    requires
        call_ensures(text::eq_ignore_ascii_case, (a, b), r),
    ensures
        r == text::same_ignoring_ascii_case(a@, b@),
        r <==> a@.len() == b@.len() && forall|i: int|
            0 <= i < a@.len() ==> {
                let x = #[trigger] a@[i] as int;
                let y = b@[i] as int;
                x == y || 65 <= x <= 90 && y == x + 32 || 65 <= y <= 90 && x == y + 32
            },
{
    lemma_ascii_case(a@, b@);
}

/// Comparing but for ASCII case over sequences.
pub proof fn lemma_ascii_case(a: Seq<char>, b: Seq<char>)
    ensures
        text::same_ignoring_ascii_case(a, b) <==> a.len() == b.len() && forall|i: int|
            0 <= i < a.len() ==> {
                let x = #[trigger] a[i] as int;
                let y = b[i] as int;
                x == y || 65 <= x <= 90 && y == x + 32 || 65 <= y <= 90 && x == y + 32
            },
{
    if text::same_ignoring_ascii_case(a, b) {
        assert forall|i: int| 0 <= i < a.len() implies {
            let x = #[trigger] a[i] as int;
            let y = b[i] as int;
            x == y || 65 <= x <= 90 && y == x + 32 || 65 <= y <= 90 && x == y + 32
        } by {
            assert(text::ascii_lower(a[i]) == text::ascii_lower(b[i]));
        }
    }
    if a.len() == b.len() && forall|i: int|
        0 <= i < a.len() ==> {
            let x = #[trigger] a[i] as int;
            let y = b[i] as int;
            x == y || 65 <= x <= 90 && y == x + 32 || 65 <= y <= 90 && x == y + 32
        } {
        assert forall|i: int| 0 <= i < a.len() implies text::ascii_lower(a[i])
            == text::ascii_lower(b[i]) by {
            let x = a[i] as int;
            let y = b[i] as int;
            assert(x == y || 65 <= x <= 90 && y == x + 32 || 65 <= y <= 90 && x == y + 32);
        }
    }
}

/// The number that decimal digits stand for.
pub open spec fn number_of(digits: Seq<char>) -> int
    decreases digits.len(),
{
    if digits.len() == 0 {
        0
    } else {
        10 * number_of(digits.drop_last()) + (digits.last() as int - 48)
    }
}

/// A number in decimal is made of digits, has no leading zero and stands for the number.
pub proof fn law_decimal(n: u64, r: String)
    requires
        call_ensures(text::decimal, (n,), r),
    ensures
        r@ == text::decimal_digits(n as nat),
        number_of(r@) == n,
        forall|i: int| 0 <= i < r@.len() ==> 48 <= #[trigger] r@[i] as int <= 57,
        r@.len() > 0,
        r@.len() > 1 ==> r@[0] as int != 48,
{
    lemma_decimal(n as nat);
}

/// Decimal digits over natural numbers.
pub proof fn lemma_decimal(n: nat)
    ensures
        number_of(text::decimal_digits(n)) == n,
        forall|i: int|
            0 <= i < text::decimal_digits(n).len() ==> 48 <= #[trigger] text::decimal_digits(n)[i]
                as int <= 57,
        text::decimal_digits(n).len() > 0,
        n > 0 ==> text::decimal_digits(n)[0] as int != 48,
        n < 10 ==> text::decimal_digits(n).len() == 1,
    decreases n,
{
    let digits = text::decimal_digits(n);
    if n < 10 {
        assert(digits.drop_last().len() == 0);
        assert(number_of(digits.drop_last()) == 0);
    } else {
        lemma_decimal(n / 10);
        assert(digits.drop_last() =~= text::decimal_digits(n / 10));
    }
}

/// A text is what it starts with and what follows.
pub proof fn lemma_prefix(prefix: Seq<char>, rest: Seq<char>)
    ensures
        prefix.is_prefix_of(prefix + rest),
        (prefix + rest).skip(prefix.len() as int) == rest,
{
    assert((prefix + rest).subrange(0, prefix.len() as int) =~= prefix);
    assert((prefix + rest).skip(prefix.len() as int) =~= rest);
}

/// What follows a text is found in every text that starts with it.
pub proof fn law_what_follows_a_prefix(
    given: &str,
    prefix: &str,
    r: Option<&str>,
    rest: Seq<char>,
)
    requires
        call_ensures(text::strip_prefix, (given, prefix), r),
    ensures
        given@ == prefix@ + rest ==> (r matches Some(found) && found@ == rest),
        r matches Some(found) ==> given@ == prefix@ + found@,
{
    if given@ == prefix@ + rest {
        lemma_prefix(prefix@, rest);
    }
    if let Some(found) = r {
        assert(given@.subrange(0, prefix@.len() as int) == prefix@);
        assert(given@ =~= prefix@ + found@);
    }
}

/// A text starts with another exactly if it is that other one and something behind it, ends with it
/// exactly if it is something and that other one, and is the same exactly if both have the same
/// characters.
pub proof fn law_starts_and_ends(
    given: &str,
    part: &str,
    starts: bool,
    ends: bool,
    same: bool,
    other: Seq<char>,
)
    requires
        call_ensures(text::starts_with, (given, part), starts),
        call_ensures(text::ends_with, (given, part), ends),
        call_ensures(text::same, (given, part), same),
    ensures
        given@ == part@ + other ==> starts,
        given@ == other + part@ ==> ends,
        starts ==> given@.len() >= part@.len() && given@ == part@ + given@.skip(
            part@.len() as int,
        ),
        ends ==> given@.len() >= part@.len() && given@ == given@.take(given@.len() - part@.len())
            + part@,
        same <==> given@ == part@,
{
    if given@ == part@ + other {
        lemma_prefix(part@, other);
    }
    if given@ == other + part@ {
        assert(given@.subrange(given@.len() - part@.len(), given@.len() as int) =~= part@);
    }
    if starts {
        assert(given@.subrange(0, part@.len() as int) == part@);
        assert(given@ =~= part@ + given@.skip(part@.len() as int));
    }
    if ends {
        assert(given@.subrange(given@.len() - part@.len(), given@.len() as int) == part@);
        assert(given@ =~= given@.take(given@.len() - part@.len()) + part@);
    }
}

/// A text contains one of several exactly if it contains one of them by itself.
pub proof fn law_containing_any(given: &str, parts: Vec<String>, r: bool)
    requires
        call_ensures(text::contains_any, (given, &parts), r),
    ensures
        r ==> exists|i: int|
            0 <= i < parts@.len() && text::occurs(given@, (#[trigger] parts@[i])@),
        forall|i: int|
            0 <= i < parts@.len() && text::occurs(given@, (#[trigger] parts@[i])@) ==> r,
{
    if r {
        let i = choose|i: int|
            0 <= i < parts@.len() && text::occurs(given@, #[trigger] text::texts(parts@)[i]);
        assert(text::texts(parts@)[i] == parts@[i]@);
        assert(text::occurs(given@, parts@[i]@));
    }
    assert forall|i: int|
        0 <= i < parts@.len() && text::occurs(given@, (#[trigger] parts@[i])@) implies r by {
        assert(text::texts(parts@)[i] == parts@[i]@);
        assert(text::occurs(given@, text::texts(parts@)[i]));
    }
}

/// The views of a list of texts are those of each, in order.
pub proof fn law_views_of_texts(list: Seq<String>, i: int)
    requires
        0 <= i < list.len(),
    ensures
        text::texts(list).len() == list.len(),
        text::texts(list)[i] == list[i]@,
{
}

/// The view of a text that may be absent is that of the text.
pub proof fn law_views_of_optional_texts(text: &str, owned: String)
    ensures
        text::str_view(Some(text)) == Some(text@),
        text::str_view(None) is None,
        crate::models::text_view(Some(owned)) == Some(owned@),
        crate::models::text_view(None) is None,
{
}

} // verus!
