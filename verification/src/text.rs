//! Text as sequences of characters: searching, trimming, folding case and writing numbers.
use vstd::prelude::*;
use vstd::utf8::is_ascii_chars;

verus! {

/// `String::push` adds one character at the end of the text and changes nothing else.
pub assume_specification[ String::push ](text: &mut String, c: char)
    ensures
        final(text)@ == old(text)@.push(c),
;

/// The views of a sequence of values, one by one.
pub open spec fn views<T: View>(items: Seq<T>) -> Seq<T::V> {
    Seq::new(items.len(), |i: int| items[i]@)
}

/// Pushing a value pushes its view.
pub broadcast proof fn lemma_views_push<T: View>(items: Seq<T>, item: T)
    ensures
        #[trigger] views(items.push(item)) == views(items).push(item@),
{
    assert(views(items.push(item)) =~= views(items).push(item@));
}

/// An empty sequence has no views.
pub broadcast proof fn lemma_views_empty<T: View>(items: Seq<T>)
    requires
        items.len() == 0,
    ensures
        #[trigger] views(items) == Seq::<T::V>::empty(),
{
    assert(views(items) =~= Seq::<T::V>::empty());
}

/// The view of the value, if there is one.
pub open spec fn option_view<T: View>(value: Option<T>) -> Option<T::V> {
    match value {
        Some(inner) => Some(inner@),
        None => None,
    }
}

/// The view of a value or of the error message in its place.
pub open spec fn outcome_view<T: View>(outcome: Result<T, String>) -> Result<T::V, Seq<char>> {
    match outcome {
        Ok(value) => Ok(value@),
        Err(error) => Err(error@),
    }
}

/// The views of a list of values, or the error message in its place.
pub open spec fn outcome_views<T: View>(outcome: Result<Vec<T>, String>) -> Result<
    Seq<T::V>,
    Seq<char>,
> {
    match outcome {
        Ok(items) => Ok(views(items@)),
        Err(error) => Err(error@),
    }
}

/// The characters of `text`, in order.
pub fn letters(text: &str) -> (letters: Vec<char>)
    ensures
        letters@ == text@,
{
    let mut letters: Vec<char> = Vec::new();
    for c in it: text.chars()
        invariant
            letters@ == it.seq().take(it.index()),
            it.seq() == text@,
    {
        letters.push(c);
    }
    assert(text@.take(text@.len() as int) == text@);
    letters
}

/// The text that `letters` spell.
pub fn spell(letters: &Vec<char>) -> (text: String)
    ensures
        text@ == letters@,
{
    let mut text = String::new();
    for i in 0..letters.len()
        invariant
            text@ == letters@.take(i as int),
    {
        text.push(letters[i]);
        assert(letters@.take(i + 1) == letters@.take(i as int).push(letters@[i as int]));
    }
    assert(letters@.take(letters@.len() as int) == letters@);
    text
}

/// Whether two texts hold the same characters.
pub fn same(a: &str, b: &str) -> (equal: bool)
    ensures
        equal == (a@ == b@),
{
    a.to_owned() == b.to_owned()
}

/// `first` followed by `second`.
pub fn concat2(first: &str, second: &str) -> (text: String)
    ensures
        text@ == first@ + second@,
{
    let mut text = first.to_owned();
    text.append(second);
    text
}

/// Three texts in a row.
pub fn concat3(first: &str, second: &str, third: &str) -> (text: String)
    ensures
        text@ == first@ + second@ + third@,
{
    let mut text = concat2(first, second);
    text.append(third);
    text
}

/// Four texts in a row.
pub fn concat4(first: &str, second: &str, third: &str, fourth: &str) -> (text: String)
    ensures
        text@ == first@ + second@ + third@ + fourth@,
{
    let mut text = concat3(first, second, third);
    text.append(fourth);
    text
}

// ---------------------------------------------------------------------------------------------
// Searching
// ---------------------------------------------------------------------------------------------

/// `needle` stands in `haystack` from position `at` on.
pub open spec fn occurs_at(haystack: Seq<char>, needle: Seq<char>, at: int) -> bool {
    &&& 0 <= at
    &&& at + needle.len() <= haystack.len()
    &&& haystack.subrange(at, at + needle.len()) == needle
}

/// `needle` stands somewhere in `haystack`. The empty text stands everywhere.
pub open spec fn occurs(haystack: Seq<char>, needle: Seq<char>) -> bool {
    exists|at: int| occurs_at(haystack, needle, at)
}

/// Whether `needle` stands in `haystack` from position `at` on.
fn stands_at(haystack: &Vec<char>, needle: &Vec<char>, at: usize) -> (found: bool)
    requires
        at + needle@.len() <= haystack@.len(),
    ensures
        found == occurs_at(haystack@, needle@, at as int),
{
    for i in 0..needle.len()
        invariant
            at + needle.len() <= haystack.len(),
            forall|j: int| 0 <= j < i ==> haystack@[at + j] == needle@[j],
    {
        if haystack[at + i] != needle[i] {
            assert(haystack@.subrange(at as int, at + needle@.len())[i as int]
                != needle@[i as int]);
            return false;
        }
    }
    assert(haystack@.subrange(at as int, at + needle@.len()) =~= needle@);
    true
}

/// Whether `needle` stands somewhere in `haystack`.
pub fn contains(haystack: &str, needle: &str) -> (found: bool)
    ensures
        found == occurs(haystack@, needle@),
{
    let hay: Vec<char> = letters(haystack);
    let sought: Vec<char> = letters(needle);
    if sought.len() > hay.len() {
        return false;
    }
    let last: usize = hay.len() - sought.len();
    let mut at: usize = 0;
    loop
        invariant
            hay@ == haystack@,
            sought@ == needle@,
            last == hay@.len() - sought@.len(),
            at <= last,
            forall|i: int| 0 <= i < at ==> !occurs_at(haystack@, needle@, i),
        decreases last - at,
    {
        if stands_at(&hay, &sought, at) {
            return true;
        }
        if at == last {
            assert(forall|i: int| !occurs_at(haystack@, needle@, i));
            return false;
        }
        at = at + 1;
    }
}

/// Whatever stands before and after it, a text is found in what holds it.
pub proof fn lemma_occurs_between(before: Seq<char>, needle: Seq<char>, after: Seq<char>)
    ensures
        occurs(before + needle + after, needle),
{
    let whole = before + needle + after;
    assert(whole.subrange(before.len() as int, (before.len() + needle.len()) as int) =~= needle);
    assert(occurs_at(whole, needle, before.len() as int));
}

/// What follows the last `mark` in `text`; all of `text` where there is no `mark`.
pub open spec fn after_last(text: Seq<char>, mark: char) -> Seq<char>
    decreases text.len(),
{
    if text.len() == 0 || text.last() == mark {
        Seq::empty()
    } else {
        after_last(text.drop_last(), mark).push(text.last())
    }
}

/// What follows the last `mark` is a tail of the text without any `mark` in it, and a `mark`
/// stands right before it unless it is the whole text.
pub proof fn lemma_after_last(text: Seq<char>, mark: char)
    ensures
        after_last(text, mark).len() <= text.len(),
        text.skip(text.len() - after_last(text, mark).len()) == after_last(text, mark),
        !after_last(text, mark).contains(mark),
        after_last(text, mark).len() < text.len() ==> text[text.len() - after_last(
            text,
            mark,
        ).len() - 1] == mark,
    decreases text.len(),
{
    let tail = after_last(text, mark);
    if text.len() == 0 || text.last() == mark {
        assert(text.skip(text.len() as int) =~= Seq::<char>::empty());
    } else {
        let shorter = text.drop_last();
        lemma_after_last(shorter, mark);
        let inner = after_last(shorter, mark);
        assert(text.skip(text.len() - tail.len()) =~= shorter.skip(
            shorter.len() - inner.len(),
        ).push(text.last()));
        assert forall|i: int| 0 <= i < tail.len() implies tail[i] != mark by {
            if i < inner.len() {
                assert(inner.contains(inner[i]));
            }
        }
    }
}

/// What follows the last `mark` in `text`; all of `text` where there is no `mark`.
pub fn tail_after(text: &str, mark: char) -> (tail: String)
    ensures
        tail@ == after_last(text@, mark),
{
    let all: Vec<char> = letters(text);
    let mut tail = String::new();
    for i in 0..all.len()
        invariant
            all@ == text@,
            tail@ == after_last(text@.take(i as int), mark),
    {
        assert(text@.take(i + 1).drop_last() =~= text@.take(i as int));
        if all[i] == mark {
            tail = String::new();
        } else {
            tail.push(all[i]);
        }
    }
    assert(text@.take(text@.len() as int) =~= text@);
    tail
}

// ---------------------------------------------------------------------------------------------
// Letter case
// ---------------------------------------------------------------------------------------------

/// `c` is one of the letters `A` to `Z`.
pub open spec fn is_ascii_upper(c: char) -> bool {
    'A' <= c && c <= 'Z'
}

/// `c` is an ASCII letter or digit.
pub open spec fn is_ascii_alnum(c: char) -> bool {
    ('A' <= c && c <= 'Z') || ('a' <= c && c <= 'z') || ('0' <= c && c <= '9')
}

/// `A` to `Z` become `a` to `z`; every other character stays.
pub open spec fn ascii_lower(c: char) -> char {
    if is_ascii_upper(c) {
        ((c as u8) + 32) as char
    } else {
        c
    }
}

/// Every character of `text` with `A` to `Z` written small.
pub open spec fn ascii_lowercase(text: Seq<char>) -> Seq<char> {
    Seq::new(text.len(), |i: int| ascii_lower(text[i]))
}

/// Whether `c` is an ASCII letter or digit.
pub fn alphanumeric(c: char) -> (yes: bool)
    ensures
        yes == is_ascii_alnum(c),
{
    ('A' <= c && c <= 'Z') || ('a' <= c && c <= 'z') || ('0' <= c && c <= '9')
}

/// `c` with `A` to `Z` written small.
pub fn lower(c: char) -> (small: char)
    ensures
        small == ascii_lower(c),
{
    if 'A' <= c && c <= 'Z' {
        ((c as u8) + 32) as char
    } else {
        c
    }
}

/// Whether two texts are equal but for the case of `A` to `Z`.
pub fn equal_ignoring_case(a: &str, b: &str) -> (equal: bool)
    ensures
        equal == (ascii_lowercase(a@) == ascii_lowercase(b@)),
{
    let left: Vec<char> = letters(a);
    let right: Vec<char> = letters(b);
    if left.len() != right.len() {
        assert(ascii_lowercase(a@).len() != ascii_lowercase(b@).len());
        return false;
    }
    for i in 0..left.len()
        invariant
            left@ == a@,
            right@ == b@,
            left@.len() == right@.len(),
            forall|j: int| 0 <= j < i ==> ascii_lower(a@[j]) == ascii_lower(b@[j]),
    {
        if lower(left[i]) != lower(right[i]) {
            assert(ascii_lowercase(a@)[i as int] != ascii_lowercase(b@)[i as int]);
            return false;
        }
    }
    assert(ascii_lowercase(a@) =~= ascii_lowercase(b@));
    true
}

/// The lowercase form of a text that reaches beyond ASCII, by the Unicode rules.
pub uninterp spec fn unicode_lowercase_of(text: Seq<char>) -> Seq<char>;

/// The lowercase form of a text.
pub open spec fn lowercase_of(text: Seq<char>) -> Seq<char> {
    if is_ascii_chars(text) {
        ascii_lowercase(text)
    } else {
        unicode_lowercase_of(text)
    }
}

/// `str::to_lowercase` writes a text in lowercase by the Unicode rules. The result depends on the
/// text alone; of a text within ASCII it is the text with `A` to `Z` written small.
#[verifier::external_body]
pub(crate) fn lowercase(text: &str) -> (small: String)
    ensures
        small@ == (if is_ascii_chars(text@) {
            ascii_lowercase(text@)
        } else {
            unicode_lowercase_of(text@)
        }),
{
    text.to_lowercase()
}

// ---------------------------------------------------------------------------------------------
// White space
// ---------------------------------------------------------------------------------------------

/// `c` is white space: it has the Unicode property `White_Space`.
pub open spec fn is_white_space(c: char) -> bool {
    ||| c == ' '
    ||| '\t' <= c && c <= '\r'
    ||| c == '\u{85}'
    ||| c == '\u{a0}'
    ||| c == '\u{1680}'
    ||| '\u{2000}' <= c && c <= '\u{200a}'
    ||| c == '\u{2028}'
    ||| c == '\u{2029}'
    ||| c == '\u{202f}'
    ||| c == '\u{205f}'
    ||| c == '\u{3000}'
}

/// Whether `c` is white space.
pub fn white_space(c: char) -> (yes: bool)
    ensures
        yes == is_white_space(c),
{
    c == ' ' || ('\t' <= c && c <= '\r') || c == '\u{85}' || c == '\u{a0}' || c == '\u{1680}' || (
    '\u{2000}' <= c && c <= '\u{200a}') || c == '\u{2028}' || c == '\u{2029}' || c == '\u{202f}'
        || c == '\u{205f}' || c == '\u{3000}'
}

/// `text` without the white space it starts with.
pub open spec fn trim_start(text: Seq<char>) -> Seq<char>
    decreases text.len(),
{
    if text.len() > 0 && is_white_space(text[0]) {
        trim_start(text.drop_first())
    } else {
        text
    }
}

/// `text` without the white space it ends with.
pub open spec fn trim_end(text: Seq<char>) -> Seq<char>
    decreases text.len(),
{
    if text.len() > 0 && is_white_space(text.last()) {
        trim_end(text.drop_last())
    } else {
        text
    }
}

/// `text` without the white space at either end.
pub open spec fn trimmed(text: Seq<char>) -> Seq<char> {
    trim_end(trim_start(text))
}

/// A text that neither starts nor ends with white space stays as it is.
pub proof fn lemma_nothing_to_trim(text: Seq<char>)
    requires
        text.len() > 0,
        !is_white_space(text[0]),
        !is_white_space(text.last()),
    ensures
        trimmed(text) == text,
{
}

/// `text` holds white space alone, or nothing.
pub open spec fn is_blank(text: Seq<char>) -> bool {
    forall|i: int| 0 <= i < text.len() ==> is_white_space(#[trigger] text[i])
}

/// Nothing is left of a blank text.
pub proof fn lemma_blank_trims_to_nothing(text: Seq<char>)
    requires
        is_blank(text),
    ensures
        trimmed(text).len() == 0,
    decreases text.len(),
{
    if text.len() > 0 {
        assert(is_white_space(text[0]));
        assert forall|i: int| 0 <= i < text.drop_first().len() implies is_white_space(
            #[trigger] text.drop_first()[i],
        ) by {
            assert(text.drop_first()[i] == text[i + 1]);
        }
        lemma_blank_trims_to_nothing(text.drop_first());
    }
}

/// Trimming at the start and writing small can be done in either order.
proof fn lemma_trim_start_small(text: Seq<char>)
    ensures
        trim_start(ascii_lowercase(text)) == ascii_lowercase(trim_start(text)),
        is_ascii_chars(text) ==> is_ascii_chars(trim_start(text)),
    decreases text.len(),
{
    if text.len() > 0 && is_white_space(text[0]) {
        lemma_trim_start_small(text.drop_first());
        assert(ascii_lowercase(text).drop_first() =~= ascii_lowercase(text.drop_first()));
        assert(is_ascii_chars(text) ==> is_ascii_chars(text.drop_first()));
    }
}

/// Trimming at the end and writing small can be done in either order.
proof fn lemma_trim_end_small(text: Seq<char>)
    ensures
        trim_end(ascii_lowercase(text)) == ascii_lowercase(trim_end(text)),
        is_ascii_chars(text) ==> is_ascii_chars(trim_end(text)),
    decreases text.len(),
{
    if text.len() > 0 && is_white_space(text.last()) {
        lemma_trim_end_small(text.drop_last());
        assert(ascii_lowercase(text).drop_last() =~= ascii_lowercase(text.drop_last()));
        assert(is_ascii_chars(text) ==> is_ascii_chars(text.drop_last()));
    }
}

/// Texts within ASCII that differ in case alone have the same trimmed lowercase form.
pub proof fn lemma_case_does_not_matter(a: Seq<char>, b: Seq<char>)
    requires
        is_ascii_chars(a),
        is_ascii_chars(b),
        ascii_lowercase(a) == ascii_lowercase(b),
    ensures
        lowercase_of(trimmed(a)) == lowercase_of(trimmed(b)),
{
    lemma_trim_start_small(a);
    lemma_trim_start_small(b);
    lemma_trim_end_small(trim_start(a));
    lemma_trim_end_small(trim_start(b));
}

/// `text` without the white space at either end.
pub fn trim(text: &str) -> (inner: String)
    ensures
        inner@ == trimmed(text@),
{
    let all: Vec<char> = letters(text);
    let mut start: usize = 0;
    assert(text@.skip(0) =~= text@);
    while start < all.len() && white_space(all[start])
        invariant
            all@ == text@,
            start <= all@.len(),
            trim_start(text@) == trim_start(text@.skip(start as int)),
        ensures
            all@ == text@,
            start <= all@.len(),
            trim_start(text@) == text@.skip(start as int),
        decreases all@.len() - start,
    {
        assert(text@.skip(start as int).drop_first() =~= text@.skip(start + 1));
        start = start + 1;
    }
    let mut end: usize = all.len();
    assert(text@.subrange(start as int, end as int) =~= text@.skip(start as int));
    while start < end && white_space(all[end - 1])
        invariant
            all@ == text@,
            start <= end <= all@.len(),
            trim_end(text@.skip(start as int)) == trim_end(
                text@.subrange(start as int, end as int),
            ),
        ensures
            all@ == text@,
            start <= end <= all@.len(),
            trim_end(text@.skip(start as int)) == text@.subrange(start as int, end as int),
        decreases end,
    {
        assert(text@.subrange(start as int, end as int).drop_last() =~= text@.subrange(
            start as int,
            end - 1,
        ));
        end = end - 1;
    }
    let mut inner = String::new();
    for i in start..end
        invariant
            all@ == text@,
            start <= end <= all@.len(),
            inner@ == text@.subrange(start as int, i as int),
    {
        inner.push(all[i]);
        assert(text@.subrange(start as int, i + 1) =~= text@.subrange(
            start as int,
            i as int,
        ).push(text@[i as int]));
    }
    inner
}

// ---------------------------------------------------------------------------------------------
// Numbers
// ---------------------------------------------------------------------------------------------

/// The character for a digit: `0` to `9`, then `a` to `f`.
pub open spec fn digit(value: int) -> char {
    if value < 10 {
        (48 + value) as char
    } else {
        (87 + value) as char
    }
}

/// `number` written in base `radix` with the most significant digit first and no leading zero.
pub open spec fn numeral(number: nat, radix: nat) -> Seq<char>
    decreases number,
{
    if radix < 2 || number < radix {
        seq![digit(number as int)]
    } else {
        proof {
            vstd::arithmetic::div_mod::lemma_div_decreases(number as int, radix as int);
        }
        numeral(number / radix, radix).push(digit((number % radix) as int))
    }
}

/// `number` in decimal.
pub open spec fn decimal(number: nat) -> Seq<char> {
    numeral(number, 10)
}

/// `number` in lowercase hexadecimal.
pub open spec fn hexadecimal(number: nat) -> Seq<char> {
    numeral(number, 16)
}

/// The character for a digit below sixteen.
pub fn digit_char(value: u8) -> (c: char)
    requires
        value < 16,
    ensures
        c == digit(value as int),
{
    if value < 10 {
        (48 + value) as char
    } else {
        (87 + value) as char
    }
}

/// `number` written in base `radix`.
fn write_number(number: u64, radix: u64) -> (text: String)
    requires
        2 <= radix <= 16,
    ensures
        text@ == numeral(number as nat, radix as nat),
    decreases number,
{
    if number < radix {
        let mut text = String::new();
        text.push(digit_char(number as u8));
        text
    } else {
        proof {
            vstd::arithmetic::div_mod::lemma_div_decreases(number as int, radix as int);
        }
        let mut text = write_number(number / radix, radix);
        text.push(digit_char((number % radix) as u8));
        text
    }
}

/// `number` in decimal.
pub fn write_decimal(number: u64) -> (text: String)
    ensures
        text@ == decimal(number as nat),
{
    write_number(number, 10)
}

/// `number` in lowercase hexadecimal.
pub fn write_hexadecimal(number: u64) -> (text: String)
    ensures
        text@ == hexadecimal(number as nat),
{
    write_number(number, 16)
}

/// `c` is one of `0` to `9`.
pub open spec fn is_digit(c: char) -> bool {
    '0' <= c && c <= '9'
}

/// Every character of `text` is one of `0` to `9`.
pub open spec fn all_digits(text: Seq<char>) -> bool {
    forall|i: int| 0 <= i < text.len() ==> is_digit(#[trigger] text[i])
}

/// The number that a row of decimal digits stands for.
pub open spec fn digits_value(text: Seq<char>) -> nat
    decreases text.len(),
{
    if text.len() == 0 {
        0
    } else {
        (digits_value(text.drop_last()) * 10 + (text.last() as int - 48)) as nat
    }
}

/// `text` without one leading `+`.
pub open spec fn without_plus(text: Seq<char>) -> Seq<char> {
    if text.len() > 0 && text[0] == '+' {
        text.drop_first()
    } else {
        text
    }
}

/// The number that `text` writes: one or more decimal digits, after a `+` or not, and no more than
/// a `u32` can hold.
pub open spec fn number_in(text: Seq<char>) -> Option<u32> {
    let digits = without_plus(text);
    if digits.len() > 0 && all_digits(digits) && digits_value(digits) <= u32::MAX {
        Some(digits_value(digits) as u32)
    } else {
        None
    }
}

/// More digits never make a smaller number.
proof fn lemma_digits_value_grows(text: Seq<char>, shorter: int)
    requires
        0 <= shorter <= text.len(),
        all_digits(text),
    ensures
        digits_value(text.take(shorter)) <= digits_value(text),
    decreases text.len(),
{
    if shorter == text.len() {
        assert(text.take(shorter) =~= text);
    } else {
        assert(text.drop_last().take(shorter) =~= text.take(shorter));
        assert(is_digit(text.last()));
        assert forall|i: int| 0 <= i < text.drop_last().len() implies is_digit(
            #[trigger] text.drop_last()[i],
        ) by {
            assert(is_digit(text[i]));
        }
        lemma_digits_value_grows(text.drop_last(), shorter);
    }
}

/// One more digit makes the number ten times as large and adds the digit.
proof fn lemma_digits_value_step(digits: Seq<char>, count: int)
    requires
        0 <= count < digits.len(),
        is_digit(digits[count]),
    ensures
        digits_value(digits.take(count + 1)) == digits_value(digits.take(count)) * 10 + (
        digits[count] as int - 48),
{
    assert(digits.take(count + 1).drop_last() =~= digits.take(count));
}

/// Reads a number: one or more decimal digits, after a `+` or not, within a `u32`.
pub fn read_number(text: &str) -> (number: Option<u32>)
    ensures
        number == number_in(text@),
{
    let all: Vec<char> = letters(text);
    let start: usize = if all.len() > 0 && all[0] == '+' { 1 } else { 0 };
    let ghost digits = without_plus(text@);
    assert(digits =~= text@.skip(start as int));
    if start == all.len() {
        return None;
    }
    let mut value: u64 = 0;
    assert(digits.take(0) =~= Seq::<char>::empty());
    for i in start..all.len()
        invariant
            all@ == text@,
            start <= all@.len(),
            digits == without_plus(text@),
            digits == text@.skip(start as int),
            digits.len() > 0,
            value == digits_value(digits.take(i - start)),
            value <= u32::MAX,
            forall|j: int| 0 <= j < i - start ==> is_digit(#[trigger] digits[j]),
    {
        let c: char = all[i];
        assert(c == digits[i - start]);
        if !('0' <= c && c <= '9') {
            assert(!is_digit(digits[i - start]));
            return None;
        }
        proof {
            lemma_digits_value_step(digits, i - start);
        }
        value = value * 10 + ((c as u8) - 48) as u64;
        if value > u32::MAX as u64 {
            proof {
                if all_digits(digits) {
                    lemma_digits_value_grows(digits, i - start + 1);
                }
            }
            return None;
        }
    }
    assert(digits.take(digits.len() as int) =~= digits);
    Some(value as u32)
}

/// A decimal numeral is a row of digits that stands for the number it was made from.
pub proof fn lemma_decimal_value(number: nat)
    ensures
        decimal(number).len() > 0,
        all_digits(decimal(number)),
        digits_value(decimal(number)) == number,
    decreases number,
{
    let text = decimal(number);
    reveal_with_fuel(digits_value, 2);
    if number < 10 {
        assert(text.drop_last() =~= Seq::<char>::empty());
        assert(text.last() as int == 48 + number);
    } else {
        lemma_decimal_value(number / 10);
        assert(text.drop_last() =~= decimal(number / 10));
        assert(text.last() as int == 48 + number % 10);
    }
}

/// Reading a number back from its decimal numeral gives the number.
pub proof fn law_number_round_trip(number: u32)
    ensures
        number_in(decimal(number as nat)) == Some(number),
{
    lemma_decimal_value(number as nat);
    let text = decimal(number as nat);
    assert(is_digit(text[0]));
    assert(without_plus(text) == text);
}

} // verus!
