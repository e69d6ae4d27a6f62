//! The address parser: splits a one-line address into its number, number suffix, directional,
//! street name, post type and subaddress.
//!
//! Words are maximal runs of ASCII letters and digits, separated by spaces or tabs. The street
//! name runs until the word that follows it is a post type; a run of several post type words
//! keeps only the last as the post type, and the earlier ones join the street name.
use vstd::prelude::*;
use crate::address::{same_partial, PartialAddress};
use crate::directional::{recognize_directional, StreetNamePreDirectional};
use crate::post_type::{post_type_of_chars, recognize_post_type, StreetNamePostType};
use crate::subaddress::{recognize_subaddress_type, subaddress_type_of_chars, SubaddressType};
use crate::text::{chars_of, copy_chars, lemma_views_push, join, join_words, opt_view, string_of, views};

verus! {

/// Why an address could not be parsed.
#[derive(Clone, Copy, Debug, PartialEq, Eq, Structural)]
pub enum ParseError {
    /// The text does not begin with a digit.
    MissingNumber,
    /// The address number does not fit in an `i64`.
    NumberTooLarge,
    /// No street name followed by a post type could be read.
    MissingStreetName,
}

/// A space or a tab.
pub open spec fn is_space(c: char) -> bool {
    c == ' ' || c == '\t'
}

/// An ASCII digit.
pub open spec fn is_digit(c: char) -> bool {
    '0' <= c && c <= '9'
}

/// An ASCII letter or digit.
pub open spec fn is_alnum(c: char) -> bool {
    is_digit(c) || ('A' <= c && c <= 'Z') || ('a' <= c && c <= 'z')
}

/// The first position at or after `i` that does not hold a space.
pub open spec fn skip_spaces(s: Seq<char>, i: int) -> int
    decreases s.len() - i,
{
    if 0 <= i < s.len() && is_space(s[i]) {
        skip_spaces(s, i + 1)
    } else {
        i
    }
}

/// The end of the run of letters and digits that starts at `i`.
pub open spec fn alnum_end(s: Seq<char>, i: int) -> int
    decreases s.len() - i,
{
    if 0 <= i < s.len() && is_alnum(s[i]) {
        alnum_end(s, i + 1)
    } else {
        i
    }
}

/// The end of the run of characters other than spaces that starts at `i`.
pub open spec fn token_end(s: Seq<char>, i: int) -> int
    decreases s.len() - i,
{
    if 0 <= i < s.len() && !is_space(s[i]) {
        token_end(s, i + 1)
    } else {
        i
    }
}

/// The end of the run of digits that starts at `i`.
pub open spec fn digit_end(s: Seq<char>, i: int) -> int
    decreases s.len() - i,
{
    if 0 <= i < s.len() && is_digit(s[i]) {
        digit_end(s, i + 1)
    } else {
        i
    }
}

/// The position of the first comma at or after `i`, or the length of `s` if there is none.
pub open spec fn comma_at(s: Seq<char>, i: int) -> int
    decreases s.len() - i,
{
    if 0 <= i < s.len() && s[i] != ',' {
        comma_at(s, i + 1)
    } else if i < s.len() {
        i
    } else {
        s.len() as int
    }
}

/// Where the word after position `i` starts.
pub open spec fn word_start(s: Seq<char>, i: int) -> int {
    skip_spaces(s, i)
}

/// Where the word after position `i` ends; it is empty when there is no word there.
pub open spec fn word_end(s: Seq<char>, i: int) -> int {
    alnum_end(s, skip_spaces(s, i))
}

/// Whether a word follows position `i`.
pub open spec fn has_word(s: Seq<char>, i: int) -> bool {
    0 <= i <= word_start(s, i) < word_end(s, i) <= s.len()
}

/// The word after position `i`.
pub open spec fn word_after(s: Seq<char>, i: int) -> Seq<char> {
    s.subrange(word_start(s, i), word_end(s, i))
}

/// Whether the word after position `i` is a post type.
pub open spec fn post_type_ahead(s: Seq<char>, i: int) -> bool {
    has_word(s, i) && recognize_post_type(word_after(s, i)) is Some
}

/// The street name words from position `i` on, and the position after them: words are taken
/// until the next word is a post type. `None` when the words run out first.
pub open spec fn name_words(s: Seq<char>, i: int) -> Option<(Seq<Seq<char>>, int)>
    decreases s.len() - i,
{
    if !has_word(s, i) {
        None
    } else if post_type_ahead(s, word_end(s, i)) {
        Some((seq![word_after(s, i)], word_end(s, i)))
    } else {
        match name_words(s, word_end(s, i)) {
            Some((ws, end)) => Some((seq![word_after(s, i)] + ws, end)),
            None => None,
        }
    }
}

/// The run of post type words from position `i` on, and the position after it.
pub open spec fn post_type_words(s: Seq<char>, i: int) -> (Seq<Seq<char>>, int)
    decreases s.len() - i,
{
    if post_type_ahead(s, i) {
        let (ws, end) = post_type_words(s, word_end(s, i));
        (seq![word_after(s, i)] + ws, end)
    } else {
        (Seq::empty(), i)
    }
}

/// The directional at position `i`, if the word there is one.
pub open spec fn directional_at(s: Seq<char>, i: int) -> Option<StreetNamePreDirectional> {
    if has_word(s, i) {
        recognize_directional(word_after(s, i))
    } else {
        None
    }
}

/// The parts of a complete street name.
pub struct StreetParts {
    pub directional: Option<StreetNamePreDirectional>,
    pub name: Seq<Seq<char>>,
    pub post_type: StreetNamePostType,
    pub end: int,
}

/// The complete street name from position `i` on: an optional directional, the name words, and
/// the post type words, of which all but the last join the name.
pub open spec fn street_at(s: Seq<char>, i: int) -> Option<StreetParts> {
    let directional = directional_at(s, i);
    let start = if directional is Some {
        word_end(s, i)
    } else {
        i
    };
    match name_words(s, start) {
        None => None,
        Some((name, k)) => {
            let (posts, end) = post_type_words(s, k);
            if posts.len() == 0 {
                None
            } else {
                Some(
                    StreetParts {
                        directional,
                        name: name + posts.drop_last(),
                        post_type: recognize_post_type(posts.last())->0,
                        end,
                    },
                )
            }
        },
    }
}

/// The number suffix at position `i` and the position after it: the next run of characters
/// other than spaces, when its second character is neither a letter nor a digit (as in `1/2`).
/// This follows the fraction convention of the source data; it is no general suffix grammar.
pub open spec fn suffix_at(s: Seq<char>, i: int) -> (Option<Seq<char>>, int) {
    let b = skip_spaces(s, i);
    let e = token_end(s, b);
    if 0 <= i <= b && b + 1 < e <= s.len() && !is_alnum(s[b + 1]) {
        (Some(s.subrange(b, e)), e)
    } else {
        (None, i)
    }
}

/// The subaddress type at position `i` and the position after it.
pub open spec fn subaddress_type_at(s: Seq<char>, i: int) -> (Option<SubaddressType>, int) {
    if has_word(s, i) && recognize_subaddress_type(word_after(s, i)) is Some {
        (recognize_subaddress_type(word_after(s, i)), word_end(s, i))
    } else {
        (None, i)
    }
}

/// A subaddress element without its leading `#` or `&` marker.
pub open spec fn strip_marker(t: Seq<char>) -> Seq<char> {
    if t.len() > 0 && (t[0] == '#' || t[0] == '&') {
        t.subrange(1, t.len() as int)
    } else {
        t
    }
}

/// The non-empty subaddress elements of `t` from position `i` on.
pub open spec fn elements(t: Seq<char>, i: int) -> Seq<Seq<char>>
    decreases t.len() - i,
{
    let b = skip_spaces(t, i);
    let e = token_end(t, b);
    if !(0 <= i <= b < e <= t.len()) {
        Seq::empty()
    } else {
        let el = strip_marker(t.subrange(b, e));
        (if el.len() > 0 {
            seq![el]
        } else {
            Seq::empty()
        }) + elements(t, e)
    }
}

/// The subaddress identifier from position `i` on: the elements before the first comma,
/// joined by spaces, or `None` when there are none.
pub open spec fn subaddress_identifier_at(s: Seq<char>, i: int) -> Option<Seq<char>> {
    let els = elements(s.subrange(i, comma_at(s, i)), 0);
    if els.len() == 0 {
        None
    } else {
        Some(join_words(els))
    }
}

/// The value of a run of decimal digits.
pub open spec fn digits_value(t: Seq<char>) -> int
    decreases t.len(),
{
    if t.len() == 0 {
        0
    } else {
        digits_value(t.drop_last()) * 10 + (t.last() as int - '0' as int)
    }
}

/// What the parser reads from an address.
pub struct ParsedAddress {
    pub number: i64,
    pub suffix: Option<Seq<char>>,
    pub directional: Option<StreetNamePreDirectional>,
    pub street_name: Seq<char>,
    pub post_type: StreetNamePostType,
    pub subaddress_type: Option<SubaddressType>,
    pub subaddress_identifier: Option<Seq<char>>,
}

/// The parse of `s`: the address number, which must start the text, then the number suffix, the
/// complete street name, the subaddress type and the subaddress identifier.
pub open spec fn parse_spec(s: Seq<char>) -> Result<ParsedAddress, ParseError> {
    let d = digit_end(s, 0);
    if d == 0 {
        Err(ParseError::MissingNumber)
    } else if digits_value(s.subrange(0, d)) > i64::MAX {
        Err(ParseError::NumberTooLarge)
    } else {
        let (suffix, i) = suffix_at(s, d);
        match street_at(s, i) {
            None => Err(ParseError::MissingStreetName),
            Some(street) => {
                let (subaddress_type, j) = subaddress_type_at(s, street.end);
                Ok(
                    ParsedAddress {
                        number: digits_value(s.subrange(0, d)) as i64,
                        suffix,
                        directional: street.directional,
                        street_name: join_words(street.name),
                        post_type: street.post_type,
                        subaddress_type,
                        subaddress_identifier: subaddress_identifier_at(s, j),
                    },
                )
            },
        }
    }
}

/// Whether the partial address `a` holds exactly the parsed components `m`, and nothing else.
pub open spec fn holds_parse(a: PartialAddress, m: ParsedAddress) -> bool {
    &&& a.address_number == Some(m.number)
    &&& opt_view(a.address_number_suffix) == m.suffix
    &&& a.street_name_pre_directional == m.directional
    &&& opt_view(a.street_name) == Some(m.street_name)
    &&& a.street_name_post_type == Some(m.post_type)
    &&& a.subaddress_type == m.subaddress_type
    &&& opt_view(a.subaddress_identifier) == m.subaddress_identifier
    &&& a.pre_modifier is None
    &&& a.pre_type is None
    &&& a.separator is None
    &&& a.floor is None
    &&& a.building is None
    &&& a.zip_code is None
    &&& a.postal_community is None
    &&& a.state_name is None
    &&& a.status is None
}

/// Whether `r` is what parsing `s` gives.
pub open spec fn parse_outcome(s: Seq<char>, r: Result<PartialAddress, ParseError>) -> bool {
    match (r, parse_spec(s)) {
        (Ok(a), Ok(m)) => holds_parse(a, m),
        (Err(e), Err(f)) => e == f,
        _ => false,
    }
}

fn is_space_char(c: char) -> (r: bool)
    ensures
        r == is_space(c),
{
    c == ' ' || c == '\t'
}

fn is_digit_char(c: char) -> (r: bool)
    ensures
        r == is_digit(c),
{
    '0' <= c && c <= '9'
}

fn is_alnum_char(c: char) -> (r: bool)
    ensures
        r == is_alnum(c),
{
    is_digit_char(c) || ('A' <= c && c <= 'Z') || ('a' <= c && c <= 'z')
}

/// See [`skip_spaces`].
pub fn skip_spaces_from(s: &[char], i: usize) -> (r: usize)
    requires
        i <= s@.len(),
    ensures
        r == skip_spaces(s@, i as int),
        i <= r <= s@.len(),
{
    let mut j = i;
    while j < s.len() && is_space_char(s[j])
        invariant
            i <= j <= s@.len(),
            skip_spaces(s@, j as int) == skip_spaces(s@, i as int),
        decreases s@.len() - j,
    {
        j += 1;
    }
    j
}

/// See [`alnum_end`].
fn alnum_end_from(s: &[char], i: usize) -> (r: usize)
    requires
        i <= s@.len(),
    ensures
        r == alnum_end(s@, i as int),
        i <= r <= s@.len(),
{
    let mut j = i;
    while j < s.len() && is_alnum_char(s[j])
        invariant
            i <= j <= s@.len(),
            alnum_end(s@, j as int) == alnum_end(s@, i as int),
        decreases s@.len() - j,
    {
        j += 1;
    }
    j
}

/// See [`token_end`].
fn token_end_from(s: &[char], i: usize) -> (r: usize)
    requires
        i <= s@.len(),
    ensures
        r == token_end(s@, i as int),
        i <= r <= s@.len(),
{
    let mut j = i;
    while j < s.len() && !is_space_char(s[j])
        invariant
            i <= j <= s@.len(),
            token_end(s@, j as int) == token_end(s@, i as int),
        decreases s@.len() - j,
    {
        j += 1;
    }
    j
}

/// See [`digit_end`].
fn digit_end_from(s: &[char], i: usize) -> (r: usize)
    requires
        i <= s@.len(),
    ensures
        r == digit_end(s@, i as int),
        i <= r <= s@.len(),
{
    let mut j = i;
    while j < s.len() && is_digit_char(s[j])
        invariant
            i <= j <= s@.len(),
            digit_end(s@, j as int) == digit_end(s@, i as int),
        decreases s@.len() - j,
    {
        j += 1;
    }
    j
}

/// See [`comma_at`].
fn comma_from(s: &[char], i: usize) -> (r: usize)
    requires
        i <= s@.len(),
    ensures
        r == comma_at(s@, i as int),
        i <= r <= s@.len(),
{
    let mut j = i;
    while j < s.len() && s[j] != ','
        invariant
            i <= j <= s@.len(),
            comma_at(s@, j as int) == comma_at(s@, i as int),
        decreases s@.len() - j,
    {
        j += 1;
    }
    j
}

/// The characters of `s` from `b` up to `e`.
pub fn copy_range(s: &[char], b: usize, e: usize) -> (r: Vec<char>)
    requires
        b <= e <= s@.len(),
    ensures
        r@ == s@.subrange(b as int, e as int),
{
    let mut r: Vec<char> = Vec::new();
    let mut j = b;
    while j < e
        invariant
            b <= j <= e <= s@.len(),
            r@ == s@.subrange(b as int, j as int),
        decreases e - j,
    {
        r.push(s[j]);
        j += 1;
        assert(r@ =~= s@.subrange(b as int, j as int));
    }
    r
}

/// The bounds of the word after position `i`.
pub fn word_bounds(s: &[char], i: usize) -> (r: (usize, usize))
    requires
        i <= s@.len(),
    ensures
        r.0 == word_start(s@, i as int),
        r.1 == word_end(s@, i as int),
        i <= r.0 <= r.1 <= s@.len(),
{
    let b = skip_spaces_from(s, i);
    let e = alnum_end_from(s, b);
    (b, e)
}

/// See [`post_type_ahead`].
pub fn is_post_type(s: &[char], i: usize) -> (r: bool)
    requires
        i <= s@.len(),
    ensures
        r == post_type_ahead(s@, i as int),
{
    let (b, e) = word_bounds(s, i);
    if b == e {
        return false;
    }
    let w = copy_range(s, b, e);
    post_type_of_chars(w.as_slice()).is_some()
}

/// The street name words from position `start` on; see [`name_words`].
pub fn multi_word(s: &[char], start: usize) -> (r: Option<(Vec<Vec<char>>, usize)>)
    requires
        start <= s@.len(),
    ensures
        match (r, name_words(s@, start as int)) {
            (Some((ws, k)), Some((sws, sk))) => views(ws@) == sws && k == sk && k <= s@.len(),
            (None, None) => true,
            _ => false,
        },
{
    let mut words: Vec<Vec<char>> = Vec::new();
    let mut pos = start;
    loop
        invariant
            start <= pos <= s@.len(),
            name_words(s@, start as int) == match name_words(s@, pos as int) {
                Some((ws, k)) => Some((views(words@) + ws, k)),
                None => None,
            },
        decreases s@.len() - pos,
    {
        let (b, e) = word_bounds(s, pos);
        if b == e {
            return None;
        }
        let w = copy_range(s, b, e);
        let ghost before = views(words@);
        words.push(w);
        assert(views(words@) =~= before.push(w@));
        if is_post_type(s, e) {
            assert(before + seq![w@] =~= views(words@));
            return Some((words, e));
        }
        proof {
            match name_words(s@, e as int) {
                Some((ws, k)) => {
                    assert(before + (seq![w@] + ws) =~= views(words@) + ws);
                },
                None => {},
            }
        }
        pos = e;
    }
}

/// The run of post type words from position `start` on; see [`post_type_words`].
pub fn recursive_post_type(s: &[char], start: usize) -> (r: (Vec<Vec<char>>, usize))
    requires
        start <= s@.len(),
    ensures
        views(r.0@) == post_type_words(s@, start as int).0,
        r.1 == post_type_words(s@, start as int).1,
        r.1 <= s@.len(),
{
    let mut words: Vec<Vec<char>> = Vec::new();
    let mut pos = start;
    while is_post_type(s, pos)
        invariant
            start <= pos <= s@.len(),
            post_type_words(s@, start as int).0 == views(words@) + post_type_words(
                s@,
                pos as int,
            ).0,
            post_type_words(s@, start as int).1 == post_type_words(s@, pos as int).1,
        decreases s@.len() - pos,
    {
        let (b, e) = word_bounds(s, pos);
        let w = copy_range(s, b, e);
        let ghost before = views(words@);
        words.push(w);
        assert(views(words@) =~= before.push(w@));
        assert(before + (seq![w@] + post_type_words(s@, e as int).0) =~= views(words@)
            + post_type_words(s@, e as int).0);
        pos = e;
    }
    assert(views(words@) + Seq::<Seq<char>>::empty() =~= views(words@));
    (words, pos)
}

/// Every word of a run of post type words is a post type.
proof fn lemma_post_type_words_recognized(s: Seq<char>, i: int)
    ensures
        forall|k: int|
            0 <= k < post_type_words(s, i).0.len() ==> recognize_post_type(
                #[trigger] post_type_words(s, i).0[k],
            ) is Some,
    decreases s.len() - i,
{
    if post_type_ahead(s, i) {
        lemma_post_type_words_recognized(s, word_end(s, i));
        let ws = post_type_words(s, word_end(s, i)).0;
        assert(post_type_words(s, i).0 == seq![word_after(s, i)] + ws);
        assert forall|k: int| 0 <= k < post_type_words(s, i).0.len() implies recognize_post_type(
            #[trigger] post_type_words(s, i).0[k],
        ) is Some by {
            if k > 0 {
                assert(post_type_words(s, i).0[k] == ws[k - 1]);
            }
        }
    }
}

/// The directional at position `i`, and the position after it; the position is left as it is
/// when the next word is no directional.
pub fn parse_pre_directional(s: &[char], i: usize) -> (r: (Option<StreetNamePreDirectional>, usize))
    requires
        i <= s@.len(),
    ensures
        r.0 == directional_at(s@, i as int),
        r.1 == if r.0 is Some {
            word_end(s@, i as int)
        } else {
            i as int
        },
        r.1 <= s@.len(),
{
    let (b, e) = word_bounds(s, i);
    if b == e {
        return (None, i);
    }
    let w = copy_range(s, b, e);
    match StreetNamePreDirectional::match_chars(w.as_slice()) {
        Some(d) => (Some(d), e),
        None => (None, i),
    }
}

/// The complete street name from position `i` on; see [`street_at`].
pub fn parse_complete_street_name(s: &[char], i: usize) -> (r: Option<
    (Option<StreetNamePreDirectional>, Vec<Vec<char>>, StreetNamePostType, usize),
>)
    requires
        i <= s@.len(),
    ensures
        match (r, street_at(s@, i as int)) {
            (Some((d, name, p, end)), Some(parts)) => d == parts.directional && views(name@)
                == parts.name && p == parts.post_type && end == parts.end && end <= s@.len(),
            (None, None) => true,
            _ => false,
        },
{
    let (directional, start) = parse_pre_directional(s, i);
    match multi_word(s, start) {
        None => None,
        Some((mut name, k)) => {
            let (posts, end) = recursive_post_type(s, k);
            let n = posts.len();
            if n == 0 {
                return None;
            }
            let post = post_type_of_chars(posts[n - 1].as_slice());
            proof {
                lemma_post_type_words_recognized(s@, k as int);
                assert(views(posts@)[n - 1] == posts@[n - 1]@);
            }
            let ghost name0 = views(name@);
            let mut j: usize = 0;
            while j + 1 < n
                invariant
                    n == posts@.len(),
                    j + 1 <= n,
                    views(name@) == name0 + views(posts@).subrange(0, j as int),
                decreases n - j,
            {
                let w = copy_chars(&posts[j]);
                let ghost before = name@;
                name.push(w);
                proof {
                    lemma_views_push(before, w);
                }
                assert(views(posts@)[j as int] == w@);
                j += 1;
                assert(views(name@) =~= name0 + views(posts@).subrange(0, j as int));
            }
            assert(views(posts@).subrange(0, j as int) =~= views(posts@).drop_last());
            match post {
                Some(p) => Some((directional, name, p, end)),
                None => None,
            }
        },
    }
}

/// The number suffix at position `i`; see [`suffix_at`].
pub fn parse_address_number_suffix(s: &[char], i: usize) -> (r: (Option<Vec<char>>, usize))
    requires
        i <= s@.len(),
    ensures
        match r.0 {
            Some(v) => suffix_at(s@, i as int) == (Some(v@), r.1 as int),
            None => suffix_at(s@, i as int) == (None::<Seq<char>>, r.1 as int),
        },
        r.1 <= s@.len(),
{
    let b = skip_spaces_from(s, i);
    let e = token_end_from(s, b);
    if b < e && b + 1 < e && !is_alnum_char(s[b + 1]) {
        (Some(copy_range(s, b, e)), e)
    } else {
        (None, i)
    }
}

/// The subaddress type at position `i`; see [`subaddress_type_at`].
pub fn parse_subaddress_type(s: &[char], i: usize) -> (r: (Option<SubaddressType>, usize))
    requires
        i <= s@.len(),
    ensures
        r == (subaddress_type_at(s@, i as int).0, subaddress_type_at(s@, i as int).1 as usize),
        r.1 <= s@.len(),
{
    let (b, e) = word_bounds(s, i);
    if b == e {
        return (None, i);
    }
    let w = copy_range(s, b, e);
    match subaddress_type_of_chars(w.as_slice()) {
        Some(t) => (Some(t), e),
        None => (None, i),
    }
}

/// The non-empty subaddress elements of `t`; see [`elements`].
pub fn parse_subaddress_elements(t: &[char]) -> (r: Vec<Vec<char>>)
    ensures
        views(r@) == elements(t@, 0),
{
    let mut out: Vec<Vec<char>> = Vec::new();
    let mut pos: usize = 0;
    loop
        invariant
            pos <= t@.len(),
            elements(t@, 0) == views(out@) + elements(t@, pos as int),
        decreases t@.len() - pos,
    {
        let b = skip_spaces_from(t, pos);
        let e = token_end_from(t, b);
        if b == e {
            assert(views(out@) + elements(t@, pos as int) =~= views(out@));
            return out;
        }
        let mut start = b;
        if t[b] == '#' || t[b] == '&' {
            start = b + 1;
        }
        let el = copy_range(t, start, e);
        let ghost before = views(out@);
        assert(el@ == strip_marker(t@.subrange(b as int, e as int)));
        if start < e {
            out.push(el);
            assert(views(out@) =~= before.push(el@));
            assert(before + (seq![el@] + elements(t@, e as int)) =~= views(out@) + elements(
                t@,
                e as int,
            ));
        } else {
            assert(Seq::<Seq<char>>::empty() + elements(t@, e as int) =~= elements(t@, e as int));
        }
        pos = e;
    }
}

/// The subaddress identifier from position `i` on; see [`subaddress_identifier_at`].
pub fn parse_subaddress_identifiers(s: &[char], i: usize) -> (r: Option<Vec<char>>)
    requires
        i <= s@.len(),
    ensures
        match r {
            Some(v) => subaddress_identifier_at(s@, i as int) == Some(v@),
            None => subaddress_identifier_at(s@, i as int) is None,
        },
{
    let c = comma_from(s, i);
    let t = copy_range(s, i, c);
    let els = parse_subaddress_elements(t.as_slice());
    if els.len() == 0 {
        None
    } else {
        Some(join(&els))
    }
}

/// The address number at the start of `s`: `Ok` with its value, or the reason it is missing.
pub fn parse_address_number(s: &[char]) -> (r: Result<(i64, usize), ParseError>)
    ensures
        match r {
            Ok((n, d)) => d == digit_end(s@, 0) && 0 < d <= s@.len() && digits_value(s@.subrange(0, d as int))
                <= i64::MAX && n == digits_value(s@.subrange(0, d as int)),
            Err(e) => (e == ParseError::MissingNumber && digit_end(s@, 0) == 0) || (e
                == ParseError::NumberTooLarge && digit_end(s@, 0) > 0 && digits_value(
                s@.subrange(0, digit_end(s@, 0)),
            ) > i64::MAX),
        },
{
    let d = digit_end_from(s, 0);
    if d == 0 {
        return Err(ParseError::MissingNumber);
    }
    proof {
        digit_end_digits(s@, 0);
    }
    let cap: u128 = 9223372036854775808;
    let mut acc: u128 = 0;
    let mut j: usize = 0;
    while j < d
        invariant
            j <= d <= s@.len(),
            d == digit_end(s@, 0),
            forall|k: int| 0 <= k < d ==> is_digit(#[trigger] s@[k]),
            cap == 9223372036854775808,
            acc <= cap,
            acc == if digits_value(s@.subrange(0, j as int)) < cap {
                digits_value(s@.subrange(0, j as int))
            } else {
                cap as int
            },
            digits_value(s@.subrange(0, j as int)) >= 0,
        decreases d - j,
    {
        let ghost v = digits_value(s@.subrange(0, j as int));
        assert(is_digit(s@[j as int]));
        let digit = ((s[j] as u32) - ('0' as u32)) as u128;
        assert(digit <= 9);
        assert(s@.subrange(0, j as int + 1).drop_last() =~= s@.subrange(0, j as int));
        let ghost v2 = digits_value(s@.subrange(0, j as int + 1));
        assert(v2 == v * 10 + digit);
        assert(v2 >= v) by (nonlinear_arith)
            requires
                v2 == v * 10 + digit,
                v >= 0,
                digit >= 0,
        ;
        if acc < cap {
            assert(acc * 10 + digit <= cap * 10 + 9) by (nonlinear_arith)
                requires
                    acc < cap,
                    digit <= 9,
            ;
            assert(acc * 10 <= cap * 10) by (nonlinear_arith)
                requires
                    acc < cap,
            ;
            acc = acc * 10 + digit;
            if acc > cap {
                acc = cap;
            }
        }
        j += 1;
    }
    proof {
        digit_end_digits(s@, 0);
    }
    if acc == cap {
        Err(ParseError::NumberTooLarge)
    } else {
        Ok((acc as i64, d))
    }
}

/// Every position before [`digit_end`] holds a digit.
proof fn digit_end_digits(s: Seq<char>, i: int)
    requires
        0 <= i <= s.len(),
    ensures
        i <= digit_end(s, i) <= s.len(),
        forall|k: int| i <= k < digit_end(s, i) ==> is_digit(#[trigger] s[k]),
    decreases s.len() - i,
{
    if i < s.len() && is_digit(s[i]) {
        digit_end_digits(s, i + 1);
    }
}

/// Parses a one-line address. It succeeds for any text that begins with a digit, has an
/// address number that fits in an `i64`, and has a street name followed by a post type.
pub fn parse_address(input: &str) -> (r: Result<PartialAddress, ParseError>)
    ensures
        parse_outcome(input@, r),
{
    let chars = chars_of(input);
    let s = chars.as_slice();
    let (number, d) = match parse_address_number(s) {
        Ok(v) => v,
        Err(e) => return Err(e),
    };
    let (suffix, i) = parse_address_number_suffix(s, d);
    let (directional, name, post_type, end) = match parse_complete_street_name(s, i) {
        Some(v) => v,
        None => return Err(ParseError::MissingStreetName),
    };
    let (subaddress_type, j) = parse_subaddress_type(s, end);
    let identifier = parse_subaddress_identifiers(s, j);
    let suffix_text = match suffix {
        Some(v) => Some(string_of(v.as_slice())),
        None => None,
    };
    let identifier_text = match identifier {
        Some(v) => Some(string_of(v.as_slice())),
        None => None,
    };
    let street_name = string_of(join(&name).as_slice());
    let address = PartialAddress {
        address_number: Some(number),
        address_number_suffix: suffix_text,
        street_name_pre_directional: directional,
        pre_modifier: None,
        pre_type: None,
        separator: None,
        street_name: Some(street_name),
        street_name_post_type: Some(post_type),
        subaddress_type,
        subaddress_identifier: identifier_text,
        floor: None,
        building: None,
        zip_code: None,
        postal_community: None,
        state_name: None,
        status: None,
    };
    proof {
        let m = parse_spec(input@)->Ok_0;
        assert(parse_spec(input@) is Ok);
        assert(opt_view(address.address_number_suffix) == m.suffix);
        assert(opt_view(address.subaddress_identifier) == m.subaddress_identifier);
        assert(holds_parse(address, m));
    }
    Ok(address)
}

/// Whether two parse outcomes agree: the same error, or partial addresses with the same
/// components.
pub open spec fn same_outcome(
    r1: Result<PartialAddress, ParseError>,
    r2: Result<PartialAddress, ParseError>,
) -> bool {
    match (r1, r2) {
        (Ok(a), Ok(b)) => same_partial(a, b),
        (Err(e), Err(f)) => e == f,
        _ => false,
    }
}

/// Parsing is deterministic: two parses of texts with the same characters agree.
pub proof fn lemma_parse_deterministic(
    s1: Seq<char>,
    s2: Seq<char>,
    r1: Result<PartialAddress, ParseError>,
    r2: Result<PartialAddress, ParseError>,
)
    requires
        s1 == s2,
        parse_outcome(s1, r1),
        parse_outcome(s2, r2),
    ensures
        same_outcome(r1, r2),
{
}

} // verus!
