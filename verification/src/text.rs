//! Text primitives shared by the other modules.

use vstd::prelude::*;

verus! {

/// `String::push` of the standard library: the character is appended to the
/// text, which is otherwise unchanged.
pub assume_specification[ String::push ](s: &mut String, c: char)
    ensures
        final(s)@ == old(s)@.push(c),
;

/// The text in an option, if there is one.
pub open spec fn optional(text: Option<String>) -> Option<Seq<char>> {
    match text {
        Some(text) => Some(text@),
        None => None,
    }
}

/// Each of some texts.
pub open spec fn each(texts: Seq<String>) -> Seq<Seq<char>> {
    texts.map_values(|text: String| text@)
}

/// The characters with Unicode's `White_Space` property.
pub open spec fn is_white_space(c: char) -> bool {
    let code = c as u32;
    ||| 0x9 <= code <= 0xd
    ||| code == 0x20
    ||| code == 0x85
    ||| code == 0xa0
    ||| code == 0x1680
    ||| 0x2000 <= code <= 0x200a
    ||| code == 0x2028
    ||| code == 0x2029
    ||| code == 0x202f
    ||| code == 0x205f
    ||| code == 0x3000
}

/// Whether a character is white space.
pub fn white_space(c: char) -> (white: bool)
    ensures
        white == is_white_space(c),
{
    let code: u32 = c as u32;
    (0x9 <= code && code <= 0xd) || code == 0x20 || code == 0x85 || code == 0xa0 || code == 0x1680
        || (0x2000 <= code && code <= 0x200a) || code == 0x2028 || code == 0x2029 || code == 0x202f
        || code == 0x205f || code == 0x3000
}

/// The characters of a text, as a vector.
pub fn characters(text: &str) -> (chars: Vec<char>)
    ensures
        chars@ == text@,
{
    let mut chars: Vec<char> = Vec::new();
    for c in it: text.chars()
        invariant
            chars@ == it.seq().take(it.index() as int),
            it.seq() == text@,
    {
        chars.push(c);
    }
    chars
}

/// The text made of the characters from `from` up to `to`.
pub fn slice_text(chars: &Vec<char>, from: usize, to: usize) -> (text: String)
    requires
        from <= to <= chars@.len(),
    ensures
        text@ == chars@.subrange(from as int, to as int),
{
    let mut text = String::new();
    let mut i: usize = from;
    while i < to
        invariant
            from <= i <= to <= chars@.len(),
            text@ == chars@.subrange(from as int, i as int),
        decreases to - i,
    {
        text.push(chars[i]);
        i = i + 1;
    }
    text
}

/// Whether `needle` stands in `text` at `at`.
pub open spec fn occurs_at(text: Seq<char>, needle: Seq<char>, at: int) -> bool {
    &&& 0 <= at
    &&& at + needle.len() <= text.len()
    &&& text.subrange(at, at + needle.len()) == needle
}

/// Where `needle` first stands in `text`, at `from` or after it.
pub open spec fn find_from(text: Seq<char>, needle: Seq<char>, from: int) -> Option<int>
    decreases text.len() - from + 1,
{
    if from < 0 || from + needle.len() > text.len() {
        None
    } else if occurs_at(text, needle, from) {
        Some(from)
    } else {
        find_from(text, needle, from + 1)
    }
}

/// What [`find_from`] gives is the first occurrence, and it gives none only
/// where there is none.
pub proof fn lemma_find_from(text: Seq<char>, needle: Seq<char>, from: int)
    requires
        0 <= from,
    ensures
        match find_from(text, needle, from) {
            Some(at) => {
                &&& from <= at
                &&& occurs_at(text, needle, at)
                &&& forall|earlier: int| from <= earlier < at ==> !occurs_at(text, needle, earlier)
            },
            None => forall|at: int| from <= at ==> !occurs_at(text, needle, at),
        },
    decreases text.len() - from + 1,
{
    if from + needle.len() <= text.len() && !occurs_at(text, needle, from) {
        lemma_find_from(text, needle, from + 1);
    }
}

/// An occurrence that no earlier one precedes is the one that [`find_from`] gives.
pub proof fn lemma_find_from_is(text: Seq<char>, needle: Seq<char>, from: int, at: int)
    requires
        0 <= from <= at,
        occurs_at(text, needle, at),
        forall|earlier: int| from <= earlier < at ==> !occurs_at(text, needle, earlier),
    ensures
        find_from(text, needle, from) == Some(at),
{
    lemma_find_from(text, needle, from);
}

/// Whether `needle` stands in `text` at `at`.
pub fn stands_at(text: &Vec<char>, needle: &Vec<char>, at: usize) -> (found: bool)
    requires
        at + needle@.len() <= text@.len(),
    ensures
        found == occurs_at(text@, needle@, at as int),
{
    let length: usize = text.len();
    let mut i: usize = 0;
    while i < needle.len()
        invariant
            i <= needle@.len(),
            length == text@.len(),
            at + needle@.len() <= text@.len(),
            forall|k: int| 0 <= k < i ==> text@[at + k] == needle@[k],
        decreases needle@.len() - i,
    {
        if text[at + i] != needle[i] {
            assert(text@.subrange(at as int, at + needle@.len())[i as int] != needle@[i as int]);
            return false;
        }
        i = i + 1;
    }
    assert(text@.subrange(at as int, at + needle@.len()) =~= needle@);
    true
}

/// Where `needle` first stands in `text`.
pub fn find(text: &Vec<char>, needle: &str) -> (at: Option<usize>)
    ensures
        match at {
            Some(at) => find_from(text@, needle@, 0) == Some(at as int),
            None => find_from(text@, needle@, 0) is None,
        },
{
    let pattern = characters(needle);
    if pattern.len() > text.len() {
        return None;
    }
    let last: usize = text.len() - pattern.len();
    let mut at: usize = 0;
    loop
        invariant
            pattern@ == needle@,
            pattern@.len() + last == text@.len(),
            at <= last,
            find_from(text@, pattern@, 0) == find_from(text@, pattern@, at as int),
        decreases last - at,
    {
        if stands_at(text, &pattern, at) {
            return Some(at);
        }
        if at == last {
            return None;
        }
        at = at + 1;
    }
}

/// Whether `text` begins with `prefix`.
pub open spec fn begins_with(text: Seq<char>, prefix: Seq<char>) -> bool {
    occurs_at(text, prefix, 0)
}

/// Whether `text` begins with `prefix`.
pub fn starts_with(text: &Vec<char>, prefix: &str) -> (begins: bool)
    ensures
        begins == begins_with(text@, prefix@),
{
    let prefix = characters(prefix);
    prefix.len() <= text.len() && stands_at(text, &prefix, 0)
}

/// How many characters at the start of `text` are white space (`white`), or
/// are not (`!white`).
pub open spec fn span(text: Seq<char>, white: bool) -> nat
    decreases text.len(),
{
    if text.len() > 0 && is_white_space(text[0]) == white {
        1 + span(text.drop_first(), white)
    } else {
        0
    }
}

/// A [`span`] ends in the text, all of it is of one kind, and what follows it
/// is of the other.
pub proof fn lemma_span(text: Seq<char>, white: bool)
    ensures
        span(text, white) <= text.len(),
        forall|i: int| 0 <= i < span(text, white) ==> is_white_space(#[trigger] text[i]) == white,
        span(text, white) < text.len() ==> is_white_space(text[span(text, white) as int]) != white,
    decreases text.len(),
{
    if text.len() > 0 && is_white_space(text[0]) == white {
        let rest = text.drop_first();
        lemma_span(rest, white);
        assert forall|i: int| 0 <= i < span(text, white) implies is_white_space(#[trigger] text[i])
            == white by {
            if i > 0 {
                assert(text[i] == rest[i - 1]);
            }
        }
    }
}

/// The end of the [`span`] that begins at `from`.
fn span_end(text: &Vec<char>, from: usize, white: bool) -> (end: usize)
    requires
        from <= text@.len(),
    ensures
        end <= text@.len(),
        end == from + span(text@.skip(from as int), white),
{
    let mut end: usize = from;
    while end < text.len() && white_space(text[end]) == white
        invariant
            from <= end <= text@.len(),
            end + span(text@.skip(end as int), white) == from + span(text@.skip(from as int), white),
        decreases text@.len() - end,
    {
        assert(text@.skip(end as int).drop_first() =~= text@.skip(end + 1));
        end = end + 1;
    }
    end
}

/// The first word of a text: what stands between its leading white space and
/// the white space after that, if anything does.
pub open spec fn first_word(text: Seq<char>) -> Option<Seq<char>> {
    let rest = text.skip(span(text, true) as int);
    if rest.len() == 0 {
        None
    } else {
        Some(rest.take(span(rest, false) as int))
    }
}

/// The first word of what follows `from`.
pub fn word_after(text: &Vec<char>, from: usize) -> (word: Option<String>)
    requires
        from <= text@.len(),
    ensures
        match word {
            Some(word) => first_word(text@.skip(from as int)) == Some(word@),
            None => first_word(text@.skip(from as int)) is None,
        },
{
    let start = span_end(text, from, true);
    proof {
        lemma_span(text@.skip(from as int), true);
        assert(text@.skip(from as int).skip(start - from) =~= text@.skip(start as int));
    }
    if start == text.len() {
        return None;
    }
    let end = span_end(text, start, false);
    let word = slice_text(text, start, end);
    assert(word@ =~= text@.skip(start as int).take(end - start));
    Some(word)
}

/// Whether all of a text is white space.
pub open spec fn is_blank(text: Seq<char>) -> bool {
    forall|i: int| 0 <= i < text.len() ==> is_white_space(#[trigger] text[i])
}

/// Whether all of a text is white space.
pub fn blank(text: &str) -> (blank: bool)
    ensures
        blank == is_blank(text@),
{
    let chars = characters(text);
    let end = span_end(&chars, 0, true);
    proof {
        assert(text@.skip(0) =~= text@);
        lemma_span(text@, true);
    }
    end == chars.len()
}

/// The decimal digit of a value below ten.
pub open spec fn digit_of(value: nat) -> char {
    (0x30 + value) as char
}

/// A number in decimal notation, without leading zeros.
pub open spec fn decimal_of(number: nat) -> Seq<char>
    decreases number,
{
    if number < 10 {
        seq![digit_of(number)]
    } else {
        decimal_of(number / 10).push(digit_of(number % 10))
    }
}

/// A number in decimal notation.
pub fn decimal(number: u64) -> (text: String)
    ensures
        text@ == decimal_of(number as nat),
    decreases number,
{
    let last: u8 = (number % 10) as u8;
    let digit: char = (0x30 + last) as char;
    let mut text = if number < 10 {
        String::new()
    } else {
        decimal(number / 10)
    };
    text.push(digit);
    proof {
        if number < 10 {
            assert(text@ =~= seq![digit_of(number as nat)]);
        }
    }
    text
}

/// Two texts after one another.
pub fn joined(first: &str, second: &str) -> (text: String)
    ensures
        text@ == first@ + second@,
{
    let mut text = first.to_owned();
    text.append(second);
    text
}

/// Whether two texts are the same.
pub fn same(first: &str, second: &str) -> (equal: bool)
    ensures
        equal == (first@ == second@),
{
    first.to_owned() == second.to_owned()
}

/// What it is for a text to stand in another: character by character.
pub proof fn law_occurs_at(text: Seq<char>, needle: Seq<char>, at: int)
    ensures
        occurs_at(text, needle, at) <==> {
            &&& 0 <= at
            &&& at + needle.len() <= text.len()
            &&& forall|k: int| 0 <= k < needle.len() ==> #[trigger] needle[k] == text[at + k]
        },
{
    if 0 <= at && at + needle.len() <= text.len() {
        let part = text.subrange(at, at + needle.len());
        assert forall|k: int| 0 <= k < needle.len() implies #[trigger] part[k] == text[at + k] by {}
        if forall|k: int| 0 <= k < needle.len() ==> #[trigger] needle[k] == text[at + k] {
            assert(part =~= needle);
        }
    }
}

/// A text begins with another exactly where it is that one and something more.
pub proof fn law_begins_with(text: Seq<char>, prefix: Seq<char>, rest: Seq<char>)
    ensures
        begins_with(prefix + rest, prefix),
        begins_with(text, prefix) ==> text == prefix + text.skip(prefix.len() as int),
{
    assert((prefix + rest).subrange(0, prefix.len() as int) =~= prefix);
    if begins_with(text, prefix) {
        assert(text =~= text.subrange(0, prefix.len() as int) + text.skip(prefix.len() as int));
    }
}

/// A search tells the first place where all characters of the needle stand one
/// after another, and tells none only where there is no such place.
pub proof fn law_find(text: &Vec<char>, needle: &str, at: Option<usize>)
    requires
        call_ensures(find, (text, needle), at),
    ensures
        match at {
            Some(at) => {
                &&& at + needle@.len() <= text@.len()
                &&& text@.subrange(at as int, at + needle@.len()) == needle@
                &&& forall|earlier: int|
                    0 <= earlier < at ==> #[trigger] text@.subrange(
                        earlier,
                        earlier + needle@.len(),
                    ) != needle@
            },
            None => forall|place: int|
                0 <= place && place + needle@.len() <= text@.len() ==> #[trigger] text@.subrange(
                    place,
                    place + needle@.len(),
                ) != needle@,
        },
{
    lemma_find_from(text@, needle@, 0);
    assert forall|place: int|
        0 <= place && place + needle@.len() <= text@.len() && !occurs_at(
            text@,
            needle@,
            place,
        ) implies #[trigger] text@.subrange(place, place + needle@.len()) != needle@ by {}
}

/// A text that is found to begin with another is that one and something more, and
/// every such text is found to.
pub proof fn law_starts_with(text: &Vec<char>, prefix: &str, begins: bool)
    requires
        call_ensures(starts_with, (text, prefix), begins),
    ensures
        begins <==> prefix@.len() <= text@.len() && text@.take(prefix@.len() as int) == prefix@,
{
    if prefix@.len() <= text@.len() {
        assert(text@.take(prefix@.len() as int) =~= text@.subrange(0, prefix@.len() as int));
    }
}

/// The white space is what Unicode says it is: these code points, and no others.
pub proof fn law_white_space(c: char, white: bool)
    requires
        call_ensures(white_space, (c,), white),
    ensures
        white == is_white_space(c),
        white <==> seq![
            0x9u32, 0xa, 0xb, 0xc, 0xd, 0x20, 0x85, 0xa0, 0x1680, 0x2000, 0x2001, 0x2002, 0x2003,
            0x2004, 0x2005, 0x2006, 0x2007, 0x2008, 0x2009, 0x200a, 0x2028, 0x2029, 0x202f, 0x205f,
            0x3000,
        ].contains(c as u32),
{
    let codes = seq![
        0x9u32, 0xa, 0xb, 0xc, 0xd, 0x20, 0x85, 0xa0, 0x1680, 0x2000, 0x2001, 0x2002, 0x2003,
        0x2004, 0x2005, 0x2006, 0x2007, 0x2008, 0x2009, 0x200a, 0x2028, 0x2029, 0x202f, 0x205f,
        0x3000,
    ];
    let code = c as u32;
    if 0x9 <= code <= 0xd {
        assert(codes[code - 0x9] == code);
    } else if 0x2000 <= code <= 0x200a {
        assert(codes[code - 0x2000 + 9] == code);
    } else {
        assert(codes[5] == 0x20 && codes[6] == 0x85 && codes[7] == 0xa0 && codes[8] == 0x1680);
        assert(codes[20] == 0x2028 && codes[21] == 0x2029 && codes[22] == 0x202f);
        assert(codes[23] == 0x205f && codes[24] == 0x3000);
    }
}

/// The first word of a text is the one between its leading white space and the
/// white space after that, whatever those are and whatever follows; a text
/// without a word is all white space.
pub proof fn law_first_word(gap: Seq<char>, word: Seq<char>, after: Seq<char>)
    requires
        forall|i: int| 0 <= i < gap.len() ==> is_white_space(#[trigger] gap[i]),
        forall|i: int| 0 <= i < word.len() ==> !is_white_space(#[trigger] word[i]),
        after.len() > 0 ==> is_white_space(after[0]),
    ensures
        word.len() > 0 ==> first_word(gap + word + after) == Some(word),
        first_word(gap) is None,
{
    lemma_span(gap, true);
    assert(span(gap, true) == gap.len());
    let whole = gap + word + after;
    if word.len() > 0 {
        lemma_span(whole, true);
        let start = span(whole, true) as int;
        if start < gap.len() {
            assert(whole[start] == gap[start]);
        }
        if start > gap.len() {
            assert(whole[gap.len() as int] == word[0]);
        }
        let rest = whole.skip(start);
        assert(rest =~= word + after);
        lemma_span(rest, false);
        let end = span(rest, false) as int;
        if end < word.len() {
            assert(rest[end] == word[end]);
        }
        if end > word.len() {
            assert(rest[word.len() as int] == after[0]);
        }
        assert(rest.take(end) =~= word);
    }
}

/// The word that is told of a text is its first, from where it is asked for.
pub proof fn law_word_after(text: &Vec<char>, from: usize, word: Option<String>)
    requires
        from <= text@.len(),
        call_ensures(word_after, (text, from), word),
    ensures
        optional(word) == first_word(text@.skip(from as int)),
{
}

/// A text is blank exactly where each of its characters is white space.
pub proof fn law_blank(text: &str, white: bool)
    requires
        call_ensures(blank, (text,), white),
    ensures
        white <==> forall|i: int| 0 <= i < text@.len() ==> is_white_space(#[trigger] text@[i]),
{
}

/// The number that digits stand for.
pub open spec fn value_of(digits: Seq<char>) -> int
    decreases digits.len(),
{
    if digits.len() == 0 {
        0
    } else {
        value_of(digits.drop_last()) * 10 + (digits.last() as int - '0' as int)
    }
}

/// Decimal notation reads back: it is made of digits, the first of them is not
/// zero unless it is the only one, and they stand for the number.
pub proof fn law_decimal_reads_back(number: nat)
    ensures
        value_of(decimal_of(number)) == number,
        decimal_of(number).len() > 0,
        decimal_of(number).len() > 1 ==> decimal_of(number)[0] != '0',
        forall|i: int|
            0 <= i < decimal_of(number).len() ==> '0' <= #[trigger] decimal_of(number)[i] <= '9',
        number > 0 ==> decimal_of(number)[0] != '0',
    decreases number,
{
    if number < 10 {
        reveal_with_fuel(value_of, 2);
        assert(decimal_of(number).drop_last() =~= Seq::<char>::empty());
    } else {
        law_decimal_reads_back(number / 10);
        assert(decimal_of(number).drop_last() =~= decimal_of(number / 10));
    }
}

/// A number that is written down reads back as that number.
pub proof fn law_decimal(number: u64, text: String)
    requires
        call_ensures(decimal, (number,), text),
    ensures
        value_of(text@) == number,
        text@.len() > 0,
        text@.len() > 1 ==> text@[0] != '0',
        forall|i: int| 0 <= i < text@.len() ==> '0' <= #[trigger] text@[i] <= '9',
{
    law_decimal_reads_back(number as nat);
}

/// Texts are taken apart and put together without loss: the characters of a text
/// are all of it, a slice is what stands between its ends, two texts joined are
/// the one and then the other.
pub proof fn law_texts_are_kept(
    text: &str,
    chars: Vec<char>,
    from: usize,
    to: usize,
    slice: String,
    second: &str,
    both: String,
)
    requires
        from <= to <= text@.len(),
        call_ensures(characters, (text,), chars),
        call_ensures(slice_text, (&chars, from, to), slice),
        call_ensures(joined, (text, second), both),
    ensures
        chars@ == text@,
        slice@.len() == to - from,
        forall|i: int| 0 <= i < slice@.len() ==> #[trigger] slice@[i] == text@[from + i],
        both@.take(text@.len() as int) == text@,
        both@.skip(text@.len() as int) == second@,
{
    assert(both@.take(text@.len() as int) =~= text@);
    assert(both@.skip(text@.len() as int) =~= second@);
}

/// Two texts are told to be the same exactly where they agree in length and in
/// every character.
pub proof fn law_same(first: &str, second: &str, equal: bool)
    requires
        call_ensures(same, (first, second), equal),
    ensures
        equal <==> first@.len() == second@.len() && forall|i: int|
            0 <= i < first@.len() ==> #[trigger] first@[i] == second@[i],
{
    if first@.len() == second@.len() && forall|i: int|
        0 <= i < first@.len() ==> #[trigger] first@[i] == second@[i] {
        assert(first@ =~= second@);
    }
}

/// Whether a text stands at a place is told character by character.
pub proof fn law_stands_at(text: &Vec<char>, needle: &Vec<char>, at: usize, found: bool)
    requires
        at + needle@.len() <= text@.len(),
        call_ensures(stands_at, (text, needle, at), found),
    ensures
        found <==> forall|k: int|
            0 <= k < needle@.len() ==> #[trigger] needle@[k] == text@[at + k],
{
    law_occurs_at(text@, needle@, at as int);
}

/// A text that may be missing is that text or nothing, and each of several texts is
/// in its place.
pub proof fn law_texts_in_place(text: Option<String>, texts: Seq<String>)
    ensures
        text is None <==> optional(text) is None,
        text matches Some(text) ==> optional(Some(text)) == Some(text@),
        each(texts).len() == texts.len(),
        forall|i: int| 0 <= i < texts.len() ==> #[trigger] each(texts)[i] == texts[i]@,
{
}

} // verus!
