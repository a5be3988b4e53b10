//! Text as the gateway reads it: trimming, ASCII case, byte lengths, decimal numbers.
//!
//! The mathematical side of each operation is a function on `Seq<char>`, so that
//! contracts elsewhere speak of characters and never of a particular buffer.

use vstd::prelude::*;

verus! {

// ---------------------------------------------------------------------------
// Models
// ---------------------------------------------------------------------------

/// The Unicode `White_Space` property.
pub open spec fn is_white_space(c: char) -> bool {
    let code = c as u32;
    ||| 0x09 <= code <= 0x0d
    ||| code == 0x20
    ||| code == 0x85
    ||| code == 0xa0
    ||| code == 0x1680
    ||| 0x2000 <= code <= 0x200a
    ||| code == 0x2028
    ||| code == 0x2029
    ||| code == 0x202f
    ||| code == 0x205f
    ||| code == 0x3000
}

/// `s` without its leading white space.
pub open spec fn trim_start(s: Seq<char>) -> Seq<char>
    decreases s.len(),
{
    if s.len() > 0 && is_white_space(s[0]) {
        trim_start(s.drop_first())
    } else {
        s
    }
}

/// `s` without its trailing white space.
pub open spec fn trim_end(s: Seq<char>) -> Seq<char>
    decreases s.len(),
{
    if s.len() > 0 && is_white_space(s.last()) {
        trim_end(s.drop_last())
    } else {
        s
    }
}

/// `s` without its leading and trailing white space.
pub open spec fn trimmed(s: Seq<char>) -> Seq<char> {
    trim_end(trim_start(s))
}

/// Nothing but white space.
pub open spec fn is_blank(s: Seq<char>) -> bool {
    trimmed(s).len() == 0
}

/// The ASCII lower-case form of one character; every other character is its own.
pub open spec fn lower_char(c: char) -> char {
    if 'A' <= c <= 'Z' {
        ((c as u32) + 32) as char
    } else {
        c
    }
}

/// `s` with every ASCII capital in lower case.
pub open spec fn lower(s: Seq<char>) -> Seq<char> {
    s.map_values(|c: char| lower_char(c))
}

/// What a keyword is compared by: surrounding white space and ASCII case do not count.
pub open spec fn keyword(s: Seq<char>) -> Seq<char> {
    lower(trimmed(s))
}

/// The number of bytes that `s` takes in UTF-8.
pub open spec fn utf8_len(s: Seq<char>) -> nat {
    vstd::utf8::encode_utf8(s).len()
}

/// The characters of an optional text.
pub open spec fn opt_text(value: Option<String>) -> Option<Seq<char>> {
    match value {
        Some(text) => Some(text@),
        None => None,
    }
}

/// The characters of an optional borrowed text.
pub open spec fn opt_str(value: Option<&str>) -> Option<Seq<char>> {
    match value {
        Some(text) => Some(text@),
        None => None,
    }
}

/// An optional text without surrounding white space, none where nothing is left.
pub open spec fn cleaned(value: Option<Seq<char>>) -> Option<Seq<char>> {
    match value {
        Some(text) => if is_blank(text) {
            None
        } else {
            Some(trimmed(text))
        },
        None => None,
    }
}

/// The first of two, where there is one, and else the second.
pub open spec fn first_of<T>(first: Option<T>, second: Option<T>) -> Option<T> {
    match first {
        Some(_) => first,
        None => second,
    }
}

/// The characters of each text of a list.
pub open spec fn texts(list: Seq<String>) -> Seq<Seq<char>> {
    list.map_values(|text: String| text@)
}

/// The number that a row of decimal digits stands for.
pub open spec fn digits_value(digits: Seq<char>) -> nat
    decreases digits.len(),
{
    if digits.len() == 0 {
        0
    } else {
        digits_value(digits.drop_last()) * 10 + (digits.last() as u32 - '0' as u32) as nat
    }
}

/// Nothing but decimal digits.
pub open spec fn all_digits(s: Seq<char>) -> bool {
    forall|i: int| 0 <= i < s.len() ==> '0' <= #[trigger] s[i] <= '9'
}

/// The number that a text stands for: decimal digits, at least one, with an optional
/// plus sign before them, and nothing else.
pub open spec fn unsigned_value(s: Seq<char>) -> Option<nat> {
    let digits = if s.len() > 0 && s[0] == '+' {
        s.drop_first()
    } else {
        s
    };
    if digits.len() > 0 && all_digits(digits) {
        Some(digits_value(digits))
    } else {
        None
    }
}

/// A text stands for a number from `min` to `max`.
pub open spec fn stands_for_number(s: Seq<char>, min: nat, max: nat) -> bool {
    match unsigned_value(s) {
        Some(number) => min <= number <= max,
        None => false,
    }
}

/// What std says of a text that is no `u64`.
pub uninterp spec fn u64_refusal(s: Seq<char>) -> Seq<char>;

/// What std says of a text that is no `u32`.
pub uninterp spec fn u32_refusal(s: Seq<char>) -> Seq<char>;

/// What std says of a text that is no nonzero `usize`.
pub uninterp spec fn nonzero_usize_refusal(s: Seq<char>) -> Seq<char>;

/// A result with its error as text.
pub open spec fn parsed<T>(r: Result<T, String>) -> Result<T, Seq<char>> {
    match r {
        Ok(value) => Ok(value),
        Err(message) => Err(message@),
    }
}

/// Reading a text as a `u64`.
pub open spec fn u64_parse(s: Seq<char>) -> Result<u64, Seq<char>> {
    if stands_for_number(s, 0, u64::MAX as nat) {
        Ok(unsigned_value(s)->Some_0 as u64)
    } else {
        Err(u64_refusal(s))
    }
}

/// Reading a text as a `u32`.
pub open spec fn u32_parse(s: Seq<char>) -> Result<u32, Seq<char>> {
    if stands_for_number(s, 0, u32::MAX as nat) {
        Ok(unsigned_value(s)->Some_0 as u32)
    } else {
        Err(u32_refusal(s))
    }
}

/// Reading a text as a `usize` other than zero.
pub open spec fn nonzero_usize_parse(s: Seq<char>) -> Result<usize, Seq<char>> {
    if stands_for_number(s, 1, usize::MAX as nat) {
        Ok(unsigned_value(s)->Some_0 as usize)
    } else {
        Err(nonzero_usize_refusal(s))
    }
}

// ---------------------------------------------------------------------------
// std functions
// ---------------------------------------------------------------------------

/// `str::parse::<u64>`: an optional plus sign and decimal digits, no larger than the
/// type holds. The error is handed on as the text that it displays, which depends on
/// the input alone; its wording is left to std.
#[verifier::external_body]
pub(crate) fn parse_u64(s: &str) -> (r: Result<u64, String>)
    ensures
        r is Ok <==> stands_for_number(s@, 0, u64::MAX as nat),
        r matches Ok(number) ==> unsigned_value(s@) == Some(number as nat),
        r matches Err(message) ==> message@ == u64_refusal(s@),
{
    s.parse::<u64>().map_err(|error| error.to_string())
}

/// `str::parse::<u32>`: an optional plus sign and decimal digits, no larger than the
/// type holds. The error is handed on as the text that it displays, which depends on
/// the input alone; its wording is left to std.
#[verifier::external_body]
pub(crate) fn parse_u32(s: &str) -> (r: Result<u32, String>)
    ensures
        r is Ok <==> stands_for_number(s@, 0, u32::MAX as nat),
        r matches Ok(number) ==> unsigned_value(s@) == Some(number as nat),
        r matches Err(message) ==> message@ == u32_refusal(s@),
{
    s.parse::<u32>().map_err(|error| error.to_string())
}

/// `str::parse::<NonZeroUsize>`: an optional plus sign and decimal digits, no larger
/// than the type holds and not zero. The error is handed on as the text that it
/// displays, which depends on the input alone; its wording is left to std.
#[verifier::external_body]
pub(crate) fn parse_nonzero_usize(s: &str) -> (r: Result<usize, String>)
    ensures
        r is Ok <==> stands_for_number(s@, 1, usize::MAX as nat),
        r matches Ok(number) ==> unsigned_value(s@) == Some(number as nat),
        r matches Err(message) ==> message@ == nonzero_usize_refusal(s@),
{
    s.parse::<std::num::NonZeroUsize>().map(|number| number.get()).map_err(|error| error.to_string())
}

/// `str::trim` removes leading and trailing white space, by the Unicode
/// `White_Space` property, and nothing else.
pub assume_specification[ str::trim ](s: &str) -> (r: &str)
    ensures
        r@ == trimmed(s@),
;

/// `str::to_ascii_lowercase` maps the letters `A` to `Z` to `a` to `z` and leaves
/// every other character as it is.
pub assume_specification[ str::to_ascii_lowercase ](s: &str) -> (r: String)
    ensures
        r@ == lower(s@),
;

// ---------------------------------------------------------------------------
// Operations
// ---------------------------------------------------------------------------

/// Two texts with the same UTF-8 bytes have the same characters.
pub proof fn lemma_utf8_injective(a: Seq<char>, b: Seq<char>)
    ensures
        vstd::utf8::encode_utf8(a) == vstd::utf8::encode_utf8(b) <==> a == b,
{
    vstd::utf8::encode_utf8_decode_utf8(a);
    vstd::utf8::encode_utf8_decode_utf8(b);
}

/// The length of `s` in UTF-8 bytes.
pub fn byte_len(s: &str) -> (n: usize)
    ensures
        n == utf8_len(s@),
{
    s.as_bytes().len()
}

/// Whether two texts are the same, character for character.
pub fn same_text(a: &str, b: &str) -> (r: bool)
    ensures
        r == (a@ == b@),
{
    let left: &[u8] = a.as_bytes();
    let right: &[u8] = b.as_bytes();
    proof {
        lemma_utf8_injective(a@, b@);
    }
    if left.len() != right.len() {
        return false;
    }
    let mut i: usize = 0;
    while i < left.len()
        invariant
            i <= left.len(),
            left@.len() == right@.len(),
            left@ == vstd::utf8::encode_utf8(a@),
            right@ == vstd::utf8::encode_utf8(b@),
            vstd::utf8::encode_utf8(a@) == vstd::utf8::encode_utf8(b@) <==> a@ == b@,
            forall|j: int| 0 <= j < i ==> left@[j] == right@[j],
        decreases left.len() - i,
    {
        if left[i] != right[i] {
            return false;
        }
        i = i + 1;
    }
    assert(left@ =~= right@);
    true
}

/// Whether `s` is `word` once surrounding white space and ASCII case are set aside.
pub fn is_keyword(s: &str, word: &str) -> (r: bool)
    ensures
        r == (keyword(s@) == word@),
{
    let folded: String = s.trim().to_ascii_lowercase();
    same_text(folded.as_str(), word)
}

/// A trimmed copy of an optional text, none where nothing is left of it.
pub fn cleaned_copy(value: Option<String>) -> (r: Option<String>)
    ensures
        opt_text(r) == cleaned(opt_text(value)),
{
    match value {
        Some(text) => {
            let kept: &str = text.as_str().trim();
            if kept.is_empty() {
                None
            } else {
                Some(kept.to_owned())
            }
        },
        None => None,
    }
}

/// A copy of a list of texts.
pub fn copied_texts(list: &Vec<String>) -> (copy: Vec<String>)
    ensures
        texts(copy@) == texts(list@),
{
    let mut copy: Vec<String> = Vec::new();
    let mut i: usize = 0;
    while i < list.len()
        invariant
            i <= list.len(),
            copy.len() == i,
            forall|j: int| 0 <= j < i ==> (#[trigger] copy@[j])@ == list@[j]@,
        decreases list.len() - i,
    {
        copy.push(list[i].clone());
        i = i + 1;
    }
    assert(texts(copy@) =~= texts(list@));
    copy
}

/// An optional text, borrowed.
pub fn borrowed(value: &Option<String>) -> (r: Option<&str>)
    ensures
        opt_str(r) == opt_text(*value),
{
    match value {
        Some(text) => Some(text.as_str()),
        None => None,
    }
}

// ---------------------------------------------------------------------------
// Laws
// ---------------------------------------------------------------------------

proof fn lemma_trim_start(s: Seq<char>)
    ensures
        trim_start(s).len() <= s.len(),
        trim_start(s) == s.skip(s.len() - trim_start(s).len()),
        trim_start(s).len() > 0 ==> !is_white_space(trim_start(s)[0]),
        forall|i: int| 0 <= i < s.len() - trim_start(s).len() ==> is_white_space(#[trigger] s[i]),
    decreases s.len(),
{
    if s.len() > 0 && is_white_space(s[0]) {
        let rest = s.drop_first();
        lemma_trim_start(rest);
        assert(rest.skip(rest.len() - trim_start(rest).len()) =~= s.skip(s.len() - trim_start(s).len()));
        assert forall|i: int| 0 <= i < s.len() - trim_start(s).len() implies is_white_space(#[trigger] s[i]) by {
            if i > 0 {
                assert(rest[i - 1] == s[i]);
            }
        }
    } else {
        assert(s.skip(0) =~= s);
    }
}

proof fn lemma_trim_end(s: Seq<char>)
    ensures
        trim_end(s).len() <= s.len(),
        trim_end(s) == s.take(trim_end(s).len() as int),
        trim_end(s).len() > 0 ==> !is_white_space(trim_end(s).last()),
        forall|i: int| trim_end(s).len() <= i < s.len() ==> is_white_space(#[trigger] s[i]),
    decreases s.len(),
{
    if s.len() > 0 && is_white_space(s.last()) {
        let rest = s.drop_last();
        lemma_trim_end(rest);
        assert(rest.take(trim_end(rest).len() as int) =~= s.take(trim_end(s).len() as int));
        assert forall|i: int| trim_end(s).len() <= i < s.len() implies is_white_space(#[trigger] s[i]) by {
            if i < s.len() - 1 {
                assert(rest[i] == s[i]);
            }
        }
    } else {
        assert(s.take(s.len() as int) =~= s);
    }
}

/// Trimmed text neither begins nor ends with white space, and is the part of the
/// text from its first to its last other character.
pub proof fn law_trimmed_text(s: Seq<char>)
    ensures
        trimmed(s).len() > 0 ==> !is_white_space(trimmed(s)[0]) && !is_white_space(trimmed(s).last()),
        exists|from: int, to: int|
            {
                &&& 0 <= from <= to <= s.len()
                &&& trimmed(s) == #[trigger] s.subrange(from, to)
                &&& forall|i: int| 0 <= i < from ==> is_white_space(#[trigger] s[i])
                &&& forall|i: int| to <= i < s.len() ==> is_white_space(#[trigger] s[i])
            },
{
    let start = trim_start(s);
    lemma_trim_start(s);
    lemma_trim_end(start);
    let from = s.len() - start.len();
    let to = from + trimmed(s).len();
    assert(trimmed(s) =~= s.subrange(from, to));
    assert forall|i: int| to <= i < s.len() implies is_white_space(#[trigger] s[i]) by {
        assert(start[i - from] == s[i]);
    }
}

/// Trimming text that is trimmed already changes nothing.
pub proof fn law_trimming_is_idempotent(s: Seq<char>)
    ensures
        trimmed(trimmed(s)) == trimmed(s),
{
    law_trimmed_text(s);
}

/// Lowering ASCII case twice is lowering it once.
pub proof fn law_lowering_is_idempotent(s: Seq<char>)
    ensures
        lower(lower(s)) == lower(s),
{
    assert(lower(lower(s)) =~= lower(s));
}

/// Cleaning a value that is clean already changes nothing.
pub proof fn law_cleaning_is_idempotent(value: Option<Seq<char>>)
    ensures
        cleaned(cleaned(value)) == cleaned(value),
{
    if let Some(text) = value {
        law_trimming_is_idempotent(text);
    }
}

/// A keyword is the trimmed text in lower case, a cleaned text is the trimmed text or
/// nothing, and an optional or listed text is read character for character.
pub proof fn law_texts_are_read_as_they_stand(text: String, list: Seq<String>, longer: Seq<String>)
    requires
        longer == list.push(text),
    ensures
        keyword(text@) == lower(trimmed(text@)),
        trimmed(text@).len() > 0 ==> cleaned(Some(text@)) == Some(trimmed(text@)),
        trimmed(text@).len() == 0 ==> cleaned(Some(text@)) is None,
        cleaned(None) is None,
        opt_text(Some(text)) == Some(text@),
        opt_text(None) is None,
        texts(Seq::empty()) == Seq::<Seq<char>>::empty(),
        texts(longer) == texts(list).push(text@),
{
    assert(texts(Seq::empty()) =~= Seq::<Seq<char>>::empty());
    assert(texts(longer) =~= texts(list).push(text@));
}

/// A row of digits is read in base ten, from the left; a plus sign before it changes
/// nothing, and anything else in the text or an empty row makes it no number.
pub proof fn law_numbers_are_decimal(digits: Seq<char>, digit: char, other: char)
    requires
        all_digits(digits),
        '0' <= digit <= '9',
    ensures
        unsigned_value(Seq::empty()) is None,
        unsigned_value(seq![digit]) == Some((digit as u32 - '0' as u32) as nat),
        digits.len() > 0 ==> (unsigned_value(digits) matches Some(number) && unsigned_value(digits.push(digit)) == Some(
            number * 10 + (digit as u32 - '0' as u32) as nat,
        )),
        digits.len() > 0 ==> unsigned_value(seq!['+'] + digits) == unsigned_value(digits),
        !('0' <= other <= '9') ==> unsigned_value(digits.push(other)) is None,
{
    let longer = digits.push(digit);
    assert(longer.drop_last() =~= digits);
    assert(seq![digit].drop_last() =~= Seq::<char>::empty());
    assert(digits_value(Seq::<char>::empty()) == 0);
    assert(all_digits(longer)) by {
        assert forall|i: int| 0 <= i < longer.len() implies '0' <= #[trigger] longer[i] <= '9' by {
            if i < digits.len() {
                assert(longer[i] == digits[i]);
            }
        }
    }
    assert((seq!['+'] + digits).drop_first() =~= digits);
    if digits.len() > 0 {
        assert(longer[0] == digits[0]);
        assert('0' <= digits[0] <= '9');
    }
    let spoiled = digits.push(other);
    if !('0' <= other <= '9') {
        assert(spoiled[digits.len() as int] == other);
        if spoiled[0] == '+' {
            let rest = spoiled.drop_first();
            if rest.len() > 0 {
                assert(rest[rest.len() - 1] == other);
            }
        }
    }
}

/// Lowering goes character by character and touches the ASCII capitals alone.
pub proof fn law_lowering_touches_capitals_alone(s: Seq<char>, at: int)
    ensures
        lower(s).len() == s.len(),
        0 <= at < s.len() && !('A' <= s[at] <= 'Z') ==> lower(s)[at] == s[at],
        0 <= at < s.len() && 'A' <= s[at] <= 'Z' ==> lower(s)[at] as u32 == s[at] as u32 + 32 && 'a' <= lower(s)[at]
            <= 'z',
{
}

/// What the operations on single texts return: the number of UTF-8 bytes, whether two
/// texts agree, whether a text is a keyword, the trimmed copy, and the borrowed text.
pub proof fn law_text_operations_read_their_text(
    one: &str,
    other: &str,
    value: Option<String>,
    bytes: usize,
    same: bool,
    meant: bool,
    copy: Option<String>,
    lent: Option<&str>,
)
    requires
        call_ensures(byte_len, (one,), bytes),
        call_ensures(same_text, (one, other), same),
        call_ensures(is_keyword, (one, other), meant),
        call_ensures(cleaned_copy, (value,), copy),
        call_ensures(borrowed, (&value,), lent),
    ensures
        bytes == vstd::utf8::encode_utf8(one@).len(),
        same <==> one@ == other@,
        meant <==> lower(trimmed(one@)) == other@,
        match value {
            Some(text) => if trimmed(text@).len() > 0 {
                copy matches Some(kept) && kept@ == trimmed(text@)
            } else {
                copy is None
            },
            None => copy is None,
        },
        match value {
            Some(text) => lent matches Some(shown) && shown@ == text@,
            None => lent is None,
        },
{
}

/// A copy of a list of texts has as many, each the same and in its place.
pub proof fn law_copied_lists_are_the_same(list: Vec<String>, copy: Vec<String>, at: int)
    requires
        call_ensures(copied_texts, (&list,), copy),
    ensures
        copy@.len() == list@.len(),
        0 <= at < list@.len() ==> copy@[at]@ == list@[at]@,
{
    assert(texts(copy@).len() == texts(list@).len());
    if 0 <= at < list@.len() {
        assert(texts(copy@)[at] == texts(list@)[at]);
    }
}

} // verus!
