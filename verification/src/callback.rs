//! Reading the redirect that ends the authorization page.
//!
//! The browser comes back with a request whose target carries the
//! authorization code and the state that was sent out. The code counts
//! only where the state is the one that was sent.

use crate::text::str_eq;
use vstd::prelude::*;
use vstd::string::StringExecFns;

verus! {

/// Why a redirect gives no authorization code.
#[derive(Debug, Clone, Copy, PartialEq, Eq, Structural)]
pub enum CallbackError {
    /// The request line names no target.
    NoTarget,
    /// The target does not make a URL.
    NotAUrl,
    /// The query holds no `code`.
    NoCode,
    /// The query holds no `state`.
    NoState,
    /// The state is not the one that was sent out.
    StateMismatch,
}

/// Whether a character is white space: the characters that Unicode marks
/// with the property `White_Space`.
pub open spec fn is_blank(c: char) -> bool {
    let code = c as u32;
    ||| 0x09 <= code <= 0x0d
    ||| code == 0x20
    ||| code == 0x85
    ||| code == 0xa0
    ||| code == 0x1680
    ||| 0x2000 <= code <= 0x200a
    ||| code == 0x2028
    ||| code == 0x2029
    ||| code == 0x202f
    ||| code == 0x205f
    ||| code == 0x3000
}

/// Whether a character is white space.
pub fn is_whitespace(c: char) -> (blank: bool)
    ensures
        blank == is_blank(c),
{
    let code = c as u32;
    (0x09 <= code && code <= 0x0d) || code == 0x20 || code == 0x85 || code == 0xa0 || code
        == 0x1680 || (0x2000 <= code && code <= 0x200a) || code == 0x2028 || code == 0x2029
        || code == 0x202f || code == 0x205f || code == 0x3000
}

/// The first place at or behind `from` that holds no white space, or the
/// end of the text.
pub open spec fn skip_blanks(text: Seq<char>, from: int) -> int
    decreases text.len() - from,
{
    if 0 <= from < text.len() && is_blank(text[from]) {
        skip_blanks(text, from + 1)
    } else {
        from
    }
}

/// The first place at or behind `from` that holds white space, or the end
/// of the text.
pub open spec fn skip_word(text: Seq<char>, from: int) -> int
    decreases text.len() - from,
{
    if 0 <= from < text.len() && !is_blank(text[from]) {
        skip_word(text, from + 1)
    } else {
        from
    }
}

/// The second of the words that white space parts a text into.
pub open spec fn second_word(text: Seq<char>) -> Option<Seq<char>> {
    let first_end = skip_word(text, skip_blanks(text, 0));
    let start = skip_blanks(text, first_end);
    if start < text.len() {
        Some(text.subrange(start, skip_word(text, start)))
    } else {
        None
    }
}

/// Walks over white space, from `from` on.
fn scan_blanks(line: &str, length: usize, from: usize) -> (end: usize)
    requires
        length == line@.len(),
        from <= length,
    ensures
        from <= end <= length,
        end == skip_blanks(line@, from as int),
{
    let mut at = from;
    while at < length && is_whitespace(line.get_char(at))
        invariant
            length == line@.len(),
            from <= at <= length,
            skip_blanks(line@, at as int) == skip_blanks(line@, from as int),
        decreases length - at,
    {
        at += 1;
    }
    at
}

/// Walks over a word, from `from` on.
fn scan_word(line: &str, length: usize, from: usize) -> (end: usize)
    requires
        length == line@.len(),
        from <= length,
    ensures
        from <= end <= length,
        end == skip_word(line@, from as int),
{
    let mut at = from;
    while at < length && !is_whitespace(line.get_char(at))
        invariant
            length == line@.len(),
            from <= at <= length,
            skip_word(line@, at as int) == skip_word(line@, from as int),
        decreases length - at,
    {
        at += 1;
    }
    at
}

/// The target of a request line: its second word, where white space
/// parts the words. A line of fewer words has no target.
pub fn request_target(request_line: &str) -> (target: Option<String>)
    ensures
        match target {
            Some(text) => second_word(request_line@) == Some(text@),
            None => second_word(request_line@) is None,
        },
{
    let length = request_line.unicode_len();
    let first = scan_blanks(request_line, length, 0);
    let first_end = scan_word(request_line, length, first);
    let start = scan_blanks(request_line, length, first_end);
    if start < length {
        let end = scan_word(request_line, length, start);
        Some(request_line.substring_char(start, end).to_owned())
    } else {
        None
    }
}

/// The pairs of a URL's query, as the `url` crate reads them: the query
/// is taken apart as a form, and keys and values are decoded. `None`
/// stands for a text that is no URL.
pub uninterp spec fn query_pairs_of(url: Seq<char>) -> Option<Seq<(Seq<char>, Seq<char>)>>;

/// The texts of a list of pairs.
pub open spec fn pair_texts(pairs: Seq<(String, String)>) -> Seq<(Seq<char>, Seq<char>)> {
    pairs.map_values(|pair: (String, String)| (pair.0@, pair.1@))
}

/// The texts of an optional list of pairs.
pub open spec fn optional_pair_texts(pairs: Option<Vec<(String, String)>>) -> Option<
    Seq<(Seq<char>, Seq<char>)>,
> {
    match pairs {
        Some(list) => Some(pair_texts(list@)),
        None => None,
    }
}

/// Trusted: `url::Url::parse` followed by `Url::query_pairs`. The text is
/// parsed as a URL and the pairs of its query are handed out in their
/// order, decoded. The contract only names the result: it is a function
/// of the text alone. A text that does not parse gives `None`.
#[verifier::external_body]
fn url_query_pairs(url: &str) -> (pairs: Option<Vec<(String, String)>>)
    ensures
        optional_pair_texts(pairs) == query_pairs_of(url@),
{
    match url::Url::parse(url) {
        Ok(parsed) => Some(
            parsed.query_pairs().map(|(key, value)| (key.into_owned(), value.into_owned())).collect(),
        ),
        Err(_) => None,
    }
}

/// The value of the first pair with the given key.
pub open spec fn first_value(pairs: Seq<(Seq<char>, Seq<char>)>, key: Seq<char>) -> Option<
    Seq<char>,
>
    decreases pairs.len(),
{
    if pairs.len() == 0 {
        None
    } else if pairs[0].0 == key {
        Some(pairs[0].1)
    } else {
        first_value(pairs.drop_first(), key)
    }
}

/// Looks a key up in a list of pairs: the value of the first pair that
/// has the key.
pub fn find_param(pairs: &Vec<(String, String)>, key: &str) -> (value: Option<String>)
    ensures
        match value {
            Some(text) => first_value(pair_texts(pairs@), key@) == Some(text@),
            None => first_value(pair_texts(pairs@), key@) is None,
        },
{
    let ghost all = pair_texts(pairs@);
    let mut i: usize = 0;
    assert(all.skip(0) =~= all);
    while i < pairs.len()
        invariant
            all == pair_texts(pairs@),
            i <= pairs@.len(),
            first_value(all, key@) == first_value(all.skip(i as int), key@),
        decreases pairs@.len() - i,
    {
        let ghost rest = all.skip(i as int);
        assert(rest.drop_first() =~= all.skip(i as int + 1));
        if str_eq(pairs[i].0.as_str(), key) {
            return Some(pairs[i].1.clone());
        }
        i += 1;
    }
    None
}

/// The address that a request's target makes on the listening host.
pub open spec fn redirect_url(target: Seq<char>) -> Seq<char> {
    "http://localhost"@ + target
}

/// What a redirect's query gives: the authorization code, where the
/// query holds a code and the state that was sent out.
pub open spec fn code_of(
    pairs: Option<Seq<(Seq<char>, Seq<char>)>>,
    expected_state: Seq<char>,
) -> Result<Seq<char>, CallbackError> {
    match pairs {
        None => Err(CallbackError::NotAUrl),
        Some(list) => match (first_value(list, "code"@), first_value(list, "state"@)) {
            (None, _) => Err(CallbackError::NoCode),
            (Some(_), None) => Err(CallbackError::NoState),
            (Some(code), Some(state)) => if state == expected_state {
                Ok(code)
            } else {
                Err(CallbackError::StateMismatch)
            },
        },
    }
}

/// What a request line gives.
pub open spec fn callback_of(request_line: Seq<char>, expected_state: Seq<char>) -> Result<
    Seq<char>,
    CallbackError,
> {
    match second_word(request_line) {
        None => Err(CallbackError::NoTarget),
        Some(target) => code_of(query_pairs_of(redirect_url(target)), expected_state),
    }
}

/// Decides on the pairs of a redirect's query. The authorization code is
/// the value of the first `code`; it counts only where the first `state`
/// is the state that was sent out.
pub fn authorization_code(pairs: Option<Vec<(String, String)>>, expected_state: &str) -> (code:
    Result<String, CallbackError>)
    ensures
        match code {
            Ok(text) => code_of(optional_pair_texts(pairs), expected_state@) == Ok::<
                Seq<char>,
                CallbackError,
            >(text@),
            Err(error) => code_of(optional_pair_texts(pairs), expected_state@) == Err::<
                Seq<char>,
                CallbackError,
            >(error),
        },
{
    let list = match pairs {
        Some(list) => list,
        None => {
            return Err(CallbackError::NotAUrl);
        },
    };
    let code = match find_param(&list, "code") {
        Some(code) => code,
        None => {
            return Err(CallbackError::NoCode);
        },
    };
    let state = match find_param(&list, "state") {
        Some(state) => state,
        None => {
            return Err(CallbackError::NoState);
        },
    };
    if str_eq(state.as_str(), expected_state) {
        Ok(code)
    } else {
        Err(CallbackError::StateMismatch)
    }
}

/// Reads the request line of a redirect and gives the authorization code
/// that it carries, or the reason why it carries none.
pub fn read_callback(request_line: &str, expected_state: &str) -> (code: Result<
    String,
    CallbackError,
>)
    ensures
        match code {
            Ok(text) => callback_of(request_line@, expected_state@) == Ok::<
                Seq<char>,
                CallbackError,
            >(text@),
            Err(error) => callback_of(request_line@, expected_state@) == Err::<
                Seq<char>,
                CallbackError,
            >(error),
        },
{
    match request_target(request_line) {
        Some(target) => {
            let mut url = "http://localhost".to_owned();
            url.append(target.as_str());
            authorization_code(url_query_pairs(url.as_str()), expected_state)
        },
        None => Err(CallbackError::NoTarget),
    }
}

} // verus!
