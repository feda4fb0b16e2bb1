//! The authorization callback: the one-time token comes back in the query of
//! a URL, handed over by the platform or fetched from a loopback listener.

use vstd::prelude::*;
use vstd::slice::{slice_subrange, slice_to_vec};
use vstd::string::StringExecFns;
use crate::bytes::{ascii, bytes_eq, find_byte, index_of, skip_run, text_bytes};
use crate::endpoint::{request_line, second_word};
use crate::signer::{text_pairs, Pairs};

verus! {

/// `url::ParseError`, the error of `url::Url::parse`: carried, never looked
/// into.
#[verifier::external_type_specification]
#[verifier::external_body]
pub struct ExParseError(url::ParseError);

/// The address of the loopback listener that takes the callback.
pub const DEV_CALLBACK_URL: &'static str = "http://127.0.0.1:35729/callback";

/// The address to which the platform delivers the callback.
pub const SCHEME_CALLBACK_URL: &'static str = "mscd://lastfm-callback";

/// Why a callback brought no token.
#[derive(Clone, Copy, Debug, PartialEq, Eq, Structural)]
pub enum CallbackError {
    /// The text is no absolute URL.
    InvalidUrl,
    /// The query of the URL names no token.
    MissingToken,
}

/// The key-value pairs in the query of the absolute URL that `input`
/// writes, decoded; nothing where `input` writes no absolute URL.
pub uninterp spec fn parsed_query(input: Seq<char>) -> Option<Pairs>;

/// The value of the first pair, from index `from` on, whose key is `token`.
pub open spec fn first_token_from(pairs: Pairs, from: int) -> Option<Seq<char>>
    decreases pairs.len() - from,
{
    if from < 0 || from >= pairs.len() {
        None
    } else if pairs[from].0 == "token"@ {
        Some(pairs[from].1)
    } else {
        first_token_from(pairs, from + 1)
    }
}

/// The value of the first pair whose key is `token`.
pub open spec fn first_token(pairs: Pairs) -> Option<Seq<char>> {
    first_token_from(pairs, 0)
}

/// The token in a query of pieces between `&`, from index `from` on: the
/// value of the first piece that is `token`, an equals sign and a value.
pub open spec fn query_token_from(query: Seq<u8>, from: int) -> Option<Seq<u8>>
    decreases query.len() - from,
{
    if from < 0 || from > query.len() {
        None
    } else {
        let end = index_of(query, 38, from);
        let piece = query.subrange(from, end);
        let eq = index_of(piece, 61, 0);
        if 0 <= eq < piece.len() && piece.subrange(0, eq) == ascii("token"@) {
            Some(piece.subrange(eq + 1, piece.len() as int))
        } else if end < from || end >= query.len() {
            None
        } else {
            query_token_from(query, end + 1)
        }
    }
}

/// The token that a request brings: the second word of its first line is
/// the path, and the query is what follows the first question mark in it.
pub open spec fn request_token(req: Seq<u8>) -> Option<Seq<u8>> {
    let path = second_word(request_line(req));
    let mark = index_of(path, 63, 0);
    if 0 <= mark < path.len() {
        query_token_from(path.subrange(mark + 1, path.len() as int), 0)
    } else {
        None
    }
}

/// The address of the loopback listener with `token` as its query.
pub open spec fn callback_url(token: Seq<char>) -> Seq<char> {
    DEV_CALLBACK_URL@ + "?token="@ + token
}

/// The page that the loopback listener answers with.
pub open spec fn callback_page(found: bool) -> Seq<char> {
    if found {
        "HTTP/1.1 200 OK\r\nContent-Type: text/plain\r\n\r\nYou can close this tab.\r\n"@
    } else {
        "HTTP/1.1 400 Bad Request\r\nContent-Type: text/plain\r\n\r\nMissing token.\r\n"@
    }
}

/// `url::Url::parse`, then `url::Url::query_pairs` on the URL that it gives:
/// the decoded key-value pairs of the query, in the order in which they
/// stand, or the error of `parse`. They depend on the text alone.
#[verifier::external_body]
fn url_query_pairs(input: &str) -> (pairs: Result<Vec<(String, String)>, url::ParseError>)
    ensures
        match pairs {
            Ok(v) => parsed_query(input@) == Some(text_pairs(v@)),
            Err(_) => parsed_query(input@) is None,
        },
{
    match url::Url::parse(input) {
        Ok(u) => Ok(u.query_pairs().map(|(k, v)| (k.into_owned(), v.into_owned())).collect()),
        Err(e) => Err(e),
    }
}

/// The value of the first pair whose key is `token`.
pub fn find_token(pairs: &Vec<(String, String)>) -> (token: Option<String>)
    ensures
        match token {
            Some(t) => first_token(text_pairs(pairs@)) == Some(t@),
            None => first_token(text_pairs(pairs@)) is None,
        },
{
    let key = String::from_str("token");
    let mut i: usize = 0;
    while i < pairs.len()
        invariant
            i <= pairs@.len(),
            key@ == "token"@,
            first_token(text_pairs(pairs@)) == first_token_from(text_pairs(pairs@), i as int),
        decreases pairs@.len() - i,
    {
        if pairs[i].0 == key {
            return Some(pairs[i].1.clone());
        }
        i += 1;
    }
    None
}

/// The token that the callback URL `url` brings.
///
/// A text that is no absolute URL is refused as such; a URL whose query has
/// no pair with the key `token` is refused as missing its token; any other
/// brings the value of the first such pair.
pub fn callback_token(url: &str) -> (token: Result<String, CallbackError>)
    ensures
        match parsed_query(url@) {
            None => token == Err::<String, CallbackError>(CallbackError::InvalidUrl),
            Some(pairs) => match first_token(pairs) {
                Some(t) => token matches Ok(found) && found@ == t,
                None => token == Err::<String, CallbackError>(CallbackError::MissingToken),
            },
        },
{
    match url_query_pairs(url) {
        Err(_) => Err(CallbackError::InvalidUrl),
        Ok(pairs) => match find_token(&pairs) {
            Some(t) => Ok(t),
            None => Err(CallbackError::MissingToken),
        },
    }
}

fn query_token(query: &[u8]) -> (token: Option<Vec<u8>>)
    ensures
        match token {
            Some(t) => query_token_from(query@, 0) == Some(t@),
            None => query_token_from(query@, 0) is None,
        },
{
    proof {
        reveal_strlit("token");
    }
    let name = text_bytes("token");
    let mut from: usize = 0;
    loop
        invariant
            from <= query@.len(),
            name@ == ascii("token"@),
            query_token_from(query@, 0) == query_token_from(query@, from as int),
        decreases query@.len() - from,
    {
        let end = find_byte(query, 38, from);
        let piece = slice_subrange(query, from, end);
        let eq = find_byte(piece, 61, 0);
        if eq < piece.len() && bytes_eq(slice_subrange(piece, 0, eq), name) {
            return Some(slice_to_vec(slice_subrange(piece, eq + 1, piece.len())));
        }
        if end >= query.len() {
            return None;
        }
        from = end + 1;
    }
}

/// The token that a request to the loopback listener brings: see
/// `request_token`.
pub fn token_from_request(req: &[u8]) -> (token: Option<Vec<u8>>)
    ensures
        match token {
            Some(t) => request_token(req@) == Some(t@),
            None => request_token(req@) is None,
        },
{
    let line = slice_subrange(req, 0, find_byte(req, 10, 0));
    let a = skip_run(line, 0, true);
    let b = skip_run(line, a, false);
    let c = skip_run(line, b, true);
    let d = skip_run(line, c, false);
    let path = slice_subrange(line, c, d);
    let mark = find_byte(path, 63, 0);
    if mark < path.len() {
        query_token(slice_subrange(path, mark + 1, path.len()))
    } else {
        None
    }
}

/// The callback URL that stands for a token fetched by the loopback
/// listener.
pub fn dev_callback_url(token: &str) -> (url: String)
    ensures
        url@ == callback_url(token@),
{
    let mut url = String::from_str(DEV_CALLBACK_URL);
    url.append("?token=");
    url.append(token);
    url
}

/// The page that the loopback listener answers with: a confirmation where
/// the request brought a token, a refusal where it did not.
pub fn callback_reply(found: bool) -> (page: &'static str)
    ensures
        page@ == callback_page(found),
{
    if found {
        "HTTP/1.1 200 OK\r\nContent-Type: text/plain\r\n\r\nYou can close this tab.\r\n"
    } else {
        "HTTP/1.1 400 Bad Request\r\nContent-Type: text/plain\r\n\r\nMissing token.\r\n"
    }
}

} // verus!
