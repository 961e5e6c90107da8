//! Laws on texts, numbers, order and lists.
use vstd::prelude::*;
use vstd::utf8::is_ascii_chars;

use crate::lists::{first_at, kept, lemma_first_at};
use crate::order::{arranged, sorted_stably, text_at_most, Ranked};
use crate::packets::{hex_value, law_hexadecimal_round_trip, lemma_hexadecimal_digits};
use crate::text::{
    after_last, ascii_lower, ascii_lowercase, decimal, digits_value, hexadecimal, is_ascii_alnum,
    is_white_space, lemma_decimal_value, lowercase_of, number_in, numeral,
    occurs, occurs_at, trim_end, trim_start, trimmed,
};

verus! {

/// A text occurs in another exactly where the other is made of something before it, the text, and
/// something after it.
pub proof fn law_occurring_is_being_a_part(
    haystack: Seq<char>,
    needle: Seq<char>,
    before: Seq<char>,
    after: Seq<char>,
)
    ensures
        haystack == before + needle + after ==> occurs(haystack, needle),
        occurs(haystack, needle) ==> exists|first: Seq<char>, last: Seq<char>|
            haystack == #[trigger] (first + needle + last),
{
    if haystack == before + needle + after {
        let at = before.len() as int;
        assert(haystack.subrange(at, at + needle.len()) =~= needle);
        assert(occurs_at(haystack, needle, before.len() as int));
    }
    if occurs(haystack, needle) {
        let at = choose|at: int| occurs_at(haystack, needle, at);
        let first = haystack.take(at);
        let last = haystack.skip(at + needle.len());
        assert forall|i: int| 0 <= i < needle.len() implies haystack[at + i] == needle[i] by {
            assert(haystack.subrange(at, at + needle.len())[i] == needle[i]);
        }
        assert(haystack =~= first + needle + last);
    }
}

/// White space is a space, the characters from tab to carriage return, and the code points that
/// Unicode gives the property `White_Space` beyond ASCII; nothing else is.
pub proof fn law_white_space_by_code(c: char)
    ensures
        is_white_space(c) <==> {
            let code = c as int;
            ||| code == 0x20
            ||| 9 <= code <= 13
            ||| code == 0x85
            ||| code == 0xa0
            ||| code == 0x1680
            ||| 0x2000 <= code <= 0x200a
            ||| code == 0x2028
            ||| code == 0x2029
            ||| code == 0x202f
            ||| code == 0x205f
            ||| code == 0x3000
        },
{
}

proof fn lemma_trim_start_is_a_tail(text: Seq<char>)
    ensures
        trim_start(text).len() <= text.len(),
        trim_start(text) == text.skip(text.len() - trim_start(text).len()),
        forall|i: int|
            0 <= i < text.len() - trim_start(text).len() ==> is_white_space(#[trigger] text[i]),
        trim_start(text).len() > 0 ==> !is_white_space(trim_start(text)[0]),
    decreases text.len(),
{
    if text.len() > 0 && is_white_space(text[0]) {
        let rest = text.drop_first();
        lemma_trim_start_is_a_tail(rest);
        let cut = text.len() - trim_start(text).len();
        assert(text.skip(cut) =~= rest.skip(cut - 1));
        assert forall|i: int| 0 <= i < cut implies is_white_space(#[trigger] text[i]) by {
            if i > 0 {
                assert(rest[i - 1] == text[i]);
            }
        }
    } else {
        assert(text.skip(0) =~= text);
    }
}

proof fn lemma_trim_end_is_a_head(text: Seq<char>)
    ensures
        trim_end(text).len() <= text.len(),
        trim_end(text) == text.take(trim_end(text).len() as int),
        forall|i: int|
            trim_end(text).len() <= i < text.len() ==> is_white_space(#[trigger] text[i]),
        trim_end(text).len() > 0 ==> !is_white_space(trim_end(text).last()),
    decreases text.len(),
{
    if text.len() > 0 && is_white_space(text.last()) {
        let rest = text.drop_last();
        lemma_trim_end_is_a_head(rest);
        assert(text.take(trim_end(text).len() as int) =~= rest.take(trim_end(text).len() as int));
        assert forall|i: int| trim_end(text).len() <= i < text.len() implies is_white_space(
            #[trigger] text[i],
        ) by {
            if i < text.len() - 1 {
                assert(rest[i] == text[i]);
            }
        }
    } else {
        assert(text.take(text.len() as int) =~= text);
    }
}

/// Trimming takes white space alone, from the two ends alone, and all of it that is there.
pub proof fn law_trimming_takes_white_space_at_the_ends(text: Seq<char>)
    ensures
        trimmed(text).len() > 0 ==> !is_white_space(trimmed(text)[0]) && !is_white_space(
            trimmed(text).last(),
        ),
        exists|before: int|
            0 <= before <= text.len() - trimmed(text).len() && trimmed(text) == #[trigger] text.subrange(
                before,
                before + trimmed(text).len(),
            ) && (forall|i: int| 0 <= i < before ==> is_white_space(#[trigger] text[i])) && (
            forall|i: int|
                before + trimmed(text).len() <= i < text.len() ==> is_white_space(
                    #[trigger] text[i],
                )),
{
    lemma_trim_start_is_a_tail(text);
    let tail = trim_start(text);
    lemma_trim_end_is_a_head(tail);
    let before = text.len() - tail.len();
    let inner = trimmed(text);
    assert(text.subrange(before, before + inner.len()) =~= inner);
    assert forall|i: int| before + inner.len() <= i < text.len() implies is_white_space(
        #[trigger] text[i],
    ) by {
        assert(tail[i - before] == text[i]);
    }
    if inner.len() > 0 {
        assert(inner[0] == tail[0]);
    }
}

/// Of the ASCII letters and digits, exactly the capitals change, each to the letter 32 codes on;
/// and exactly these are letters and digits.
pub proof fn law_small_letters_by_code(c: char)
    ensures
        0x41 <= c as int <= 0x5a ==> ascii_lower(c) as int == c as int + 32,
        !(0x41 <= c as int <= 0x5a) ==> ascii_lower(c) == c,
        is_ascii_alnum(c) <==> 0x30 <= c as int <= 0x39 || 0x41 <= c as int <= 0x5a || 0x61
            <= c as int <= 0x7a,
{
}

/// Writing a text small changes it character by character; of a text within ASCII nothing else
/// happens.
pub proof fn law_small_text(text: Seq<char>)
    ensures
        ascii_lowercase(text).len() == text.len(),
        forall|i: int|
            0 <= i < text.len() ==> #[trigger] ascii_lowercase(text)[i] == ascii_lower(text[i]),
        is_ascii_chars(text) ==> lowercase_of(text) == ascii_lowercase(text),
{
}

/// What follows the last mark holds no mark, and is all of the text or stands behind a mark.
pub proof fn law_tail_follows_the_last_mark(before: Seq<char>, tail: Seq<char>, mark: char)
    requires
        !tail.contains(mark),
    ensures
        after_last(tail, mark) == tail,
        after_last(before.push(mark) + tail, mark) == tail,
    decreases tail.len(),
{
    let whole = before.push(mark) + tail;
    if tail.len() == 0 {
        assert(whole.last() == mark);
        assert(after_last(whole, mark) =~= tail);
        assert(after_last(tail, mark) =~= tail);
    } else {
        assert(tail.contains(tail[tail.len() - 1]));
        assert forall|c: char| tail.drop_last().contains(c) implies tail.contains(c) by {
            let i = choose|i: int| 0 <= i < tail.drop_last().len() && tail.drop_last()[i] == c;
            assert(tail[i] == c);
        }
        law_tail_follows_the_last_mark(before, tail.drop_last(), mark);
        assert(whole.drop_last() =~= before.push(mark) + tail.drop_last());
        assert(after_last(whole, mark) =~= tail);
        assert(after_last(tail, mark) =~= tail);
    }
}

/// A decimal numeral holds the digits `0` to `9` alone, stands for its number, and starts with `0`
/// only for nought.
pub proof fn law_decimal_numerals(number: nat)
    ensures
        decimal(number).len() > 0,
        forall|i: int|
            0 <= i < decimal(number).len() ==> 0x30 <= (#[trigger] decimal(number)[i]) as int
                <= 0x39,
        digits_value(decimal(number)) == number,
        decimal(number)[0] == '0' <==> number == 0,
    decreases number,
{
    lemma_decimal_value(number);
    let text = decimal(number);
    assert forall|i: int| 0 <= i < text.len() implies 0x30 <= (#[trigger] text[i]) as int
        <= 0x39 by {
        assert(crate::text::is_digit(text[i]));
    }
    if number >= 10 {
        law_decimal_numerals(number / 10);
        assert(text[0] == decimal(number / 10)[0]);
    }
}

/// A hexadecimal numeral holds the digits `0` to `9` and `a` to `f` alone, stands for its number,
/// and starts with `0` only for nought.
pub proof fn law_hexadecimal_numerals(number: nat)
    ensures
        hexadecimal(number).len() > 0,
        forall|i: int|
            0 <= i < hexadecimal(number).len() ==> {
                let code = (#[trigger] hexadecimal(number)[i]) as int;
                0x30 <= code <= 0x39 || 0x61 <= code <= 0x66
            },
        hex_value(hexadecimal(number)) == number,
        hexadecimal(number)[0] == '0' <==> number == 0,
    decreases number,
{
    lemma_hexadecimal_digits(number);
    law_hexadecimal_round_trip(number);
    let text = hexadecimal(number);
    assert forall|i: int| 0 <= i < text.len() implies {
        let code = (#[trigger] text[i]) as int;
        0x30 <= code <= 0x39 || 0x61 <= code <= 0x66
    } by {
        assert(crate::packets::is_hex_digit(text[i]));
    }
    if number >= 16 {
        law_hexadecimal_numerals(number / 16);
        assert(text[0] == hexadecimal(number / 16)[0]);
    }
}

/// The value of a row of digits is ten times that of the row without its last digit, plus the last
/// digit.
pub proof fn law_each_digit_counts_ten_times_the_next(text: Seq<char>, c: char)
    requires
        0x30 <= c as int <= 0x39,
    ensures
        digits_value(Seq::empty()) == 0,
        digits_value(text.push(c)) == 10 * digits_value(text) + (c as int - 0x30),
{
    assert(text.push(c).drop_last() =~= text);
}

/// `text` without a `+` in front.
pub open spec fn unsigned(text: Seq<char>) -> Seq<char> {
    if text.len() > 0 && text[0] == '+' {
        text.skip(1)
    } else {
        text
    }
}

/// The digits `0` to `9` and `a` to `f` stand for nought to fifteen, and each counts sixteen times
/// the next.
pub proof fn law_each_hexadecimal_digit_counts_sixteen_times_the_next(text: Seq<char>, c: char)
    ensures
        hex_value(Seq::empty()) == 0,
        0x30 <= c as int <= 0x39 ==> hex_value(text.push(c)) == 16 * hex_value(text) + (c as int
            - 0x30),
        0x61 <= c as int <= 0x66 ==> hex_value(text.push(c)) == 16 * hex_value(text) + (c as int
            - 0x61 + 10),
{
    assert(text.push(c).drop_last() =~= text);
}

/// A number is read exactly from one or more digits, with or without one `+` in front, whose value
/// fits in 32 bits; and that value is the number.
pub proof fn law_number_is_read_from_digits(text: Seq<char>)
    ensures
        number_in(text) matches Some(number) ==> {
            &&& unsigned(text).len() > 0
            &&& forall|i: int|
                0 <= i < unsigned(text).len() ==> 0x30 <= (#[trigger] unsigned(text)[i]) as int
                    <= 0x39
            &&& digits_value(unsigned(text)) == number
        },
        text.len() > 0 && (forall|i: int|
            0 <= i < text.len() ==> 0x30 <= (#[trigger] text[i]) as int <= 0x39) && digits_value(
            text,
        ) <= 0xffff_ffff ==> number_in(text) == Some(digits_value(text) as u32) && number_in(
            seq!['+'] + text,
        ) == Some(digits_value(text) as u32),
        text.len() > 0 && (forall|i: int|
            0 <= i < text.len() ==> 0x30 <= (#[trigger] text[i]) as int <= 0x39) && digits_value(
            text,
        ) > 0xffff_ffff ==> number_in(text) is None && number_in(seq!['+'] + text) is None,
{
    assert((seq!['+'] + text).drop_first() =~= text);
    if text.len() > 0 {
        assert(text.drop_first() =~= text.skip(1));
    }
    if number_in(text) is Some {
        let digits = unsigned(text);
        assert(crate::text::all_digits(digits));
        assert forall|i: int| 0 <= i < digits.len() implies 0x30 <= (#[trigger] digits[i]) as int
            <= 0x39 by {
            assert(crate::text::is_digit(digits[i]));
        }
    }
    if text.len() > 0 && (forall|i: int|
        0 <= i < text.len() ==> 0x30 <= (#[trigger] text[i]) as int <= 0x39) {
        assert(0x30 <= text[0] as int <= 0x39);
        assert forall|i: int| 0 <= i < text.len() implies crate::text::is_digit(
            #[trigger] text[i],
        ) by {
            assert(0x30 <= text[i] as int <= 0x39);
        }
        assert(crate::text::all_digits(text));
    }
}

/// One text comes no later than another exactly where it is the start of the other, or has the
/// smaller character at the first place where they differ.
pub proof fn law_dictionary_order(a: Seq<char>, b: Seq<char>)
    ensures
        text_at_most(a, b) <==> a.is_prefix_of(b) || exists|i: int|
            0 <= i < a.len() && i < b.len() && (#[trigger] a[i] as int) < b[i] as int && a.take(i)
                == b.take(i),
    decreases a.len(),
{
    if a.len() == 0 {
        assert(a =~= b.subrange(0, 0));
    } else if b.len() == 0 {
    } else if a[0] != b[0] {
        assert(a.take(0) =~= b.take(0));
        if a.is_prefix_of(b) {
            assert(b.subrange(0, a.len() as int)[0] == b[0]);
        }
        if exists|i: int|
            0 <= i < a.len() && i < b.len() && (#[trigger] a[i] as int) < b[i] as int && a.take(i)
                == b.take(i) {
            let i = choose|i: int|
                0 <= i < a.len() && i < b.len() && (#[trigger] a[i] as int) < b[i] as int && a.take(
                    i,
                ) == b.take(i);
            if i > 0 {
                assert(a.take(i)[0] == b.take(i)[0]);
            }
        }
    } else {
        let x = a.drop_first();
        let y = b.drop_first();
        law_dictionary_order(x, y);
        if x.is_prefix_of(y) {
            assert forall|i: int| 0 <= i < a.len() implies a[i] == b[i] by {
                if i > 0 {
                    assert(x[i - 1] == y.subrange(0, x.len() as int)[i - 1]);
                }
            }
            assert(a =~= b.subrange(0, a.len() as int));
        }
        if a.is_prefix_of(b) {
            assert forall|i: int| 0 <= i < x.len() implies x[i] == y[i] by {
                assert(a[i + 1] == b.subrange(0, a.len() as int)[i + 1]);
            }
            assert(x =~= y.subrange(0, x.len() as int));
        }
        if exists|i: int|
            0 <= i < x.len() && i < y.len() && (#[trigger] x[i] as int) < y[i] as int && x.take(i)
                == y.take(i) {
            let i = choose|i: int|
                0 <= i < x.len() && i < y.len() && (#[trigger] x[i] as int) < y[i] as int && x.take(
                    i,
                ) == y.take(i);
            assert(a[i + 1] == x[i]);
            assert forall|j: int| 0 <= j < i + 1 implies a[j] == b[j] by {
                if j > 0 {
                    assert(x.take(i)[j - 1] == y.take(i)[j - 1]);
                }
            }
            assert(a.take(i + 1) =~= b.take(i + 1));
        }
        if exists|i: int|
            0 <= i < a.len() && i < b.len() && (#[trigger] a[i] as int) < b[i] as int && a.take(i)
                == b.take(i) {
            let i = choose|i: int|
                0 <= i < a.len() && i < b.len() && (#[trigger] a[i] as int) < b[i] as int && a.take(
                    i,
                ) == b.take(i);
            assert(x[i - 1] == a[i]);
            assert forall|j: int| 0 <= j < i - 1 implies x[j] == y[j] by {
                assert(a.take(i)[j + 1] == b.take(i)[j + 1]);
            }
            assert(x.take(i - 1) =~= y.take(i - 1));
        }
    }
}

/// Sorting puts every item in one place and no item in two; of two items that each rank no later
/// than the other, the one that came first stays first.
pub proof fn law_sorting_is_a_stable_rearrangement<T: Ranked>(
    input: Seq<T::V>,
    output: Seq<T::V>,
)
    requires
        sorted_stably::<T>(input, output),
    ensures
        output.len() == input.len(),
        forall|i: int, j: int|
            #![trigger output[i], output[j]]
            0 <= i < j < output.len() ==> T::ranks(output[i], output[j]),
        exists|origin: Seq<int>|
            {
                &&& #[trigger] origin.len() == output.len()
                &&& origin.no_duplicates()
                &&& forall|i: int| 0 <= i < origin.len() ==> 0 <= #[trigger] origin[i] < input.len()
                &&& forall|i: int|
                    0 <= i < origin.len() ==> #[trigger] output[i] == input[origin[i]]
                &&& forall|i: int, j: int|
                    #![trigger origin[i], origin[j]]
                    0 <= i < j < origin.len() && T::ranks(output[j], output[i]) ==> origin[i]
                        < origin[j]
            },
{
    let origin = choose|origin: Seq<int>| arranged::<T>(input, output, origin, 0);
    assert(arranged::<T>(input, output, origin, 0));
    assert forall|i: int, j: int|
        #![trigger origin[i], origin[j]]
        0 <= i < j < origin.len() && T::ranks(output[j], output[i]) implies origin[i]
        < origin[j] by {
        assert(T::ranks(output[i], output[j]));
    }
    assert(origin.no_duplicates());
}

/// What is kept of a list is the list without the items that lack the property.
pub proof fn law_keeping_filters<T>(items: Seq<T>, holds: spec_fn(T) -> bool)
    ensures
        kept(items, holds) == items.filter(holds),
    decreases items.len(),
{
    reveal(Seq::filter);
    if items.len() > 0 {
        law_keeping_filters(items.drop_last(), holds);
    }
}

/// The first item with a property has it, and none before it has; where none is found, none has
/// it.
pub proof fn law_the_first_is_found<T>(items: Seq<T>, holds: spec_fn(T) -> bool, i: int)
    requires
        0 <= i < items.len() <= usize::MAX,
        holds(items[i]),
    ensures
        first_at(items, holds) matches Some(at) && at <= i && holds(items[at as int]),
{
    lemma_first_at(items, holds);
}

} // verus!
