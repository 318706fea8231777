//! What the texts of messages, diagnostics and settings hold.

use crate::chain::{chain_text, link_text, ErrorLink, HttpError};
use crate::event::comment_text;
use crate::overload::configured_overload;
use crate::text::{
    contents, decimal, decimal_reads_back, digits_value, is_blank, is_digits, is_white_space,
    joined, parsed_u16, trimmed, trimmed_back, trimmed_front, trimmed_is_empty_iff_blank,
};
use vstd::prelude::*;

verus! {

/// The diagnostic of an error without a cause is its text.
pub proof fn diagnostic_of_one_error(link: ErrorLink)
    ensures
        chain_text(seq![link]) == link_text(link),
{
    assert(seq![link].map_values(|link: ErrorLink| link_text(link)) =~= seq![link_text(link)]);
}

/// An error shows in a diagnostic what it shows of itself; a runtime failure shows
/// its message.
pub proof fn texts_of_errors(link: ErrorLink)
    ensures
        link matches ErrorLink::QueueRejection { message, details } ==> link_text(link) == message@,
        link matches ErrorLink::Dynamo(error) ==> link_text(link) == error.message@,
        link matches ErrorLink::Http(error) ==> link_text(link) == error.text(),
        link matches ErrorLink::Untyped { message } ==> link_text(link) == message@,
{
}

/// The text of an explicit HTTP error starts with fixed words, ends with the
/// message, and its code can be read from what stands between them.
pub proof fn text_of_an_http_error(error: HttpError)
    ensures
        ({
            let text = error.text();
            let end = text.len() - error.message@.len();
            &&& 13 < end
            &&& text.take(11) == "HTTP Error "@
            &&& text.subrange(end - 2, end) == ": "@
            &&& text.skip(end) == error.message@
            &&& parsed_u16(text.subrange(11, end - 2)) == Some(error.code)
            &&& text.subrange(11, end - 2) == decimal(error.code as nat)
        }),
{
    reveal_strlit("HTTP Error ");
    reveal_strlit(": ");
    decimal_reads_back(error.code);
    let text = error.text();
    let end = text.len() - error.message@.len();
    assert(text.take(11) =~= "HTTP Error "@);
    assert(text.subrange(end - 2, end) =~= ": "@);
    assert(text.skip(end) =~= error.message@);
    assert(text.subrange(11, end - 2) =~= decimal(error.code as nat));
}

/// Nothing joined is nothing, and one text joined is that text.
pub proof fn joining_few(text: Seq<char>, separator: Seq<char>)
    ensures
        joined(Seq::empty(), separator) == Seq::<char>::empty(),
        joined(seq![text], separator) == text,
{
}

/// The strings are joined in order, by their contents.
pub proof fn contents_of_strings(strings: Seq<String>, i: int)
    requires
        0 <= i < strings.len(),
    ensures
        contents(strings).len() == strings.len(),
        contents(strings)[i] == strings[i]@,
{
}

/// A comment stands for itself, its lines joined by commas, as soon as one character
/// of it is not white space; else, and without a comment, the error is unspecified.
pub proof fn texts_of_comments(comments: Vec<String>, i: int)
    ensures
        ({
            let text = joined(contents(comments@), ", "@);
            &&& 0 <= i < text.len() && !is_white_space(text[i]) ==> comment_text(Some(comments))
                == text
            &&& (forall|j: int| 0 <= j < text.len() ==> is_white_space(#[trigger] text[j]))
                ==> comment_text(Some(comments)) == "unspecified error"@
        }),
        comment_text(None) == "unspecified error"@,
{
}

/// The numbers of the white space characters.
pub proof fn white_space_by_number(c: char)
    ensures
        is_white_space(c) <==> {
            ||| 9 <= c as int <= 13
            ||| c as int == 32
            ||| c as int == 133
            ||| c as int == 160
            ||| c as int == 5760
            ||| 8192 <= c as int <= 8202
            ||| c as int == 8232
            ||| c as int == 8233
            ||| c as int == 8239
            ||| c as int == 8287
            ||| c as int == 12288
        },
{
}

/// Trimming leaves what stands between the white space at both ends.
pub proof fn trimming(front: Seq<char>, core: Seq<char>, back: Seq<char>)
    requires
        forall|i: int| 0 <= i < front.len() ==> is_white_space(#[trigger] front[i]),
        forall|i: int| 0 <= i < back.len() ==> is_white_space(#[trigger] back[i]),
        core.len() > 0 ==> !is_white_space(core.first()) && !is_white_space(core.last()),
    ensures
        trimmed(front + core + back) == core,
{
    lemma_front(front, core + back);
    assert(front + core + back =~= front + (core + back));
    if core.len() == 0 {
        assert(is_blank(front + core + back));
        trimmed_is_empty_iff_blank(front + core + back);
        assert(trimmed(front + core + back) =~= core);
    } else {
        assert((core + back).first() == core.first());
        lemma_back(core, back);
    }
}

proof fn lemma_front(front: Seq<char>, text: Seq<char>)
    requires
        is_blank(front),
    ensures
        trimmed_front(front + text) == trimmed_front(text),
    decreases front.len(),
{
    if front.len() == 0 {
        assert(front + text =~= text);
    } else {
        assert(is_white_space(front[0]));
        assert((front + text).drop_first() =~= front.drop_first() + text);
        assert forall|i: int| 0 <= i < front.drop_first().len() implies is_white_space(
            #[trigger] front.drop_first()[i],
        ) by {
            assert(front.drop_first()[i] == front[i + 1]);
        }
        lemma_front(front.drop_first(), text);
    }
}

proof fn lemma_back(core: Seq<char>, back: Seq<char>)
    requires
        is_blank(back),
        core.len() > 0,
        !is_white_space(core.last()),
    ensures
        trimmed_back(core + back) == core,
    decreases back.len(),
{
    if back.len() == 0 {
        assert(core + back =~= core);
    } else {
        assert(is_white_space(back[back.len() - 1]));
        assert((core + back).drop_last() =~= core + back.drop_last());
        lemma_back(core, back.drop_last());
    }
}

/// A text is a number only if it is digits after at most one plus sign.
pub proof fn numbers_are_digits(text: Seq<char>, i: int)
    requires
        0 <= i < text.len(),
        !('0' <= text[i] <= '9'),
        i > 0 || text[i] != '+',
    ensures
        parsed_u16(text) is None,
{
    if text.first() == '+' {
        assert(text.drop_first()[i - 1] == text[i]);
    }
}

/// A plus sign in front of digits does not matter, nor does a zero.
pub proof fn signs_and_zeros_do_not_matter(digits: Seq<char>)
    requires
        digits.len() > 0,
        forall|i: int| 0 <= i < digits.len() ==> '0' <= #[trigger] digits[i] <= '9',
    ensures
        parsed_u16(seq!['+'] + digits) == parsed_u16(digits),
        parsed_u16(seq!['0'] + digits) == parsed_u16(digits),
{
    assert((seq!['+'] + digits).drop_first() =~= digits);
    assert('0' <= digits[0] <= '9');
    lemma_leading_zero(digits);
    let filled = seq!['0'] + digits;
    assert forall|i: int| 0 <= i < filled.len() implies '0' <= #[trigger] filled[i] <= '9' by {
        if i > 0 {
            assert(filled[i] == digits[i - 1]);
        }
    }
}

proof fn lemma_leading_zero(digits: Seq<char>)
    ensures
        digits_value(seq!['0'] + digits) == digits_value(digits),
    decreases digits.len(),
{
    let filled = seq!['0'] + digits;
    if digits.len() == 0 {
        assert(filled.drop_last() =~= Seq::empty());
        assert(digits_value(Seq::empty()) == 0);
    } else {
        assert(filled.drop_last() =~= seq!['0'] + digits.drop_last());
        lemma_leading_zero(digits.drop_last());
    }
}

/// A digit behind others counts once, and they count ten times each.
pub proof fn digits_count_by_ten(digits: Seq<char>, digit: char)
    requires
        '0' <= digit <= '9',
    ensures
        digits_value(digits.push(digit)) == 10 * digits_value(digits) + (digit as int
            - '0' as int),
        digits_value(Seq::empty()) == 0,
{
    assert(digits.push(digit).drop_last() =~= digits);
}

/// A number is written without needless zeros.
pub proof fn numbers_are_written_short(n: nat)
    ensures
        decimal(n).len() > 0,
        n > 0 ==> decimal(n).first() != '0',
        n < 10 ==> decimal(n).len() == 1,
    decreases n,
{
    if n >= 10 {
        numbers_are_written_short(n / 10);
    }
}

/// Digits are a number if their value fits in 16 bits, and then that value.
pub proof fn digits_are_numbers(digits: Seq<char>)
    requires
        digits.len() > 0,
        forall|i: int| 0 <= i < digits.len() ==> '0' <= #[trigger] digits[i] <= '9',
    ensures
        digits_value(digits) > 65535 ==> parsed_u16(digits) is None,
        digits_value(digits) <= 65535 ==> parsed_u16(digits) == Some(digits_value(digits) as u16),
{
    assert('0' <= digits[0] <= '9');
}

/// A setting that writes a number from 200 to 999 configures that number; any other
/// setting falls back to 529.
pub proof fn settings(setting: Seq<char>)
    ensures
        match parsed_u16(trimmed(setting)) {
            Some(n) => if 200 <= n <= 999 {
                configured_overload(Some(setting)) == n
            } else {
                configured_overload(Some(setting)) == 529
            },
            None => configured_overload(Some(setting)) == 529,
        },
{
}

/// Of the numbers, those from 200 to 999 configure themselves, with or without a
/// sign; every other number falls back to 529.
pub proof fn numbers_as_settings(n: u16)
    ensures
        configured_overload(Some(decimal(n as nat))) == if 200 <= n <= 999 {
            n
        } else {
            529u16
        },
        configured_overload(Some(seq!['+'] + decimal(n as nat))) == configured_overload(
            Some(decimal(n as nat)),
        ),
{
    decimal_reads_back(n);
    let text = decimal(n as nat);
    assert('0' <= text[0] <= '9');
    assert('0' <= text[text.len() - 1] <= '9');
    signs_and_zeros_do_not_matter(text);
    let signed = seq!['+'] + text;
    assert(signed.last() == text[text.len() - 1]);
    assert(signed.first() == '+');
}

/// A setting without a number falls back to 529: no setting, a blank one, and one
/// with a character that is neither a digit, a plus sign nor white space.
pub proof fn other_settings(setting: Seq<char>, i: int)
    requires
        ({
            ||| is_blank(setting)
            ||| 0 <= i < setting.len() && !('0' <= setting[i] <= '9') && setting[i] != '+'
                && !is_white_space(setting[i])
        }),
    ensures
        configured_overload(Some(setting)) == 529,
        configured_overload(None) == 529,
{
    if is_blank(setting) {
        trimmed_is_empty_iff_blank(setting);
    } else {
        lemma_front_keeps(setting, i);
        let front = trimmed_front(setting);
        let k = choose|k: int| 0 <= k < front.len() && front[k] == setting[i];
        lemma_back_keeps(front, k);
        let text = trimmed(setting);
        let m = choose|m: int| 0 <= m < text.len() && text[m] == setting[i];
        numbers_are_digits(text, m);
    }
}

proof fn lemma_front_keeps(text: Seq<char>, i: int)
    requires
        0 <= i < text.len(),
        !is_white_space(text[i]),
    ensures
        exists|k: int| 0 <= k < trimmed_front(text).len() && trimmed_front(text)[k] == text[i],
    decreases text.len(),
{
    if is_white_space(text.first()) {
        assert(text.drop_first()[i - 1] == text[i]);
        lemma_front_keeps(text.drop_first(), i - 1);
        let rest = trimmed_front(text.drop_first());
        let k = choose|k: int| 0 <= k < rest.len() && rest[k] == text[i];
        assert(trimmed_front(text)[k] == text[i]);
    } else {
        assert(trimmed_front(text)[i] == text[i]);
    }
}

proof fn lemma_back_keeps(text: Seq<char>, i: int)
    requires
        0 <= i < text.len(),
        !is_white_space(text[i]),
    ensures
        exists|k: int| 0 <= k < trimmed_back(text).len() && trimmed_back(text)[k] == text[i],
    decreases text.len(),
{
    if is_white_space(text.last()) {
        assert(text.drop_last()[i] == text[i]);
        lemma_back_keeps(text.drop_last(), i);
        let rest = trimmed_back(text.drop_last());
        let k = choose|k: int| 0 <= k < rest.len() && rest[k] == text[i];
        assert(trimmed_back(text)[k] == text[i]);
    } else {
        assert(trimmed_back(text)[i] == text[i]);
    }
}

} // verus!
