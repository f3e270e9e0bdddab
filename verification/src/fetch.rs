//! The option-chain fetch, as far as it decides anything.
//!
//! A fetch asks for the quote page of a symbol, finds the session token (the
//! "crumb") in the page, and asks the quote endpoint for the chain with that
//! crumb. The caller sends the requests; the functions here say where to send
//! them, find the crumb, and name the failure when a step goes wrong.

use vstd::prelude::*;
use vstd::string::*;

verus! {

/// Why a fetch failed. The producer skips the cycle on any of them.
#[derive(Clone, Copy, Debug, PartialEq, Eq, Structural)]
pub enum FetchError {
    /// The session with the quote service could not be set up or carried on:
    /// a request got no response.
    SessionBootstrap,
    /// The page held no crumb.
    TokenExtraction,
    /// The quote endpoint answered with this client or server error status.
    HttpStatus(u16),
    /// The body of the answer was not the expected document.
    Deserialization,
}

/// The pattern that finds the crumb in the quote page.
pub const CRUMB_PATTERN: &'static str = "CrumbStore\":\\{\"crumb\":\"(?P<crumb>[^\"]+)\"";

/// The name of the group of `CRUMB_PATTERN` that holds the crumb.
pub const CRUMB_GROUP: &'static str = "crumb";

/// regex's `Error`, which says why a pattern did not compile. Nothing inside
/// it is visible to the proofs.
#[verifier::external_type_specification]
#[verifier::external_body]
pub struct ExRegexError(regex::Error);

/// What the regex crate finds: `None` when `pattern` does not compile; else
/// `Some(None)` when `haystack` has no match, or the pattern has no group
/// named `group`, or that group took no part in the leftmost match; else the
/// text of that group in the leftmost match.
pub uninterp spec fn regex_named_capture(
    pattern: Seq<char>,
    group: Seq<char>,
    haystack: Seq<char>,
) -> Option<Option<Seq<char>>>;

/// Compiles `pattern` with regex's `Regex::new`, searches `haystack` with
/// `Regex::captures`, and copies out the text of the group that
/// `Captures::name` finds under `group`. The result is a function of the three
/// texts alone; the contract gives it its name and claims no more.
#[verifier::external_body]
fn capture_named(pattern: &str, group: &str, haystack: &str) -> (found: Result<
    Option<String>,
    regex::Error,
>)
    ensures
        match found {
            Ok(Some(text)) => regex_named_capture(pattern@, group@, haystack@) == Some(
                Some(text@),
            ),
            Ok(None) => regex_named_capture(pattern@, group@, haystack@) == Some(
                None::<Seq<char>>,
            ),
            Err(_) => regex_named_capture(pattern@, group@, haystack@) is None,
        },
{
    let re = regex::Regex::new(pattern)?;
    Ok(re.captures(haystack).and_then(|caps| caps.name(group)).map(|m| m.as_str().to_string()))
}

/// The address of the quote page of `symbol`.
pub open spec fn page_url_of(symbol: Seq<char>) -> Seq<char> {
    "https://finance.yahoo.com/quote/"@ + symbol + "/options?p="@ + symbol
}

/// The address of the quote endpoint for `symbol`.
pub open spec fn quote_url_of(symbol: Seq<char>) -> Seq<char> {
    "https://query1.finance.yahoo.com/v7/finance/options/"@ + symbol
}

/// `text` with every escaped quote (a backslash and a quote) replaced by a
/// plain quote, reading from the left.
pub open spec fn unescape_quotes(text: Seq<char>) -> Seq<char>
    decreases text.len(),
{
    if text.len() == 0 {
        text
    } else if text.len() >= 2 && text[0] == '\\' && text[1] == '"' {
        seq!['"'] + unescape_quotes(text.skip(2))
    } else {
        seq![text[0]] + unescape_quotes(text.skip(1))
    }
}

/// The crumb in what the pattern captured, or the failure to find one.
pub open spec fn crumb_of(captured: Option<Seq<char>>) -> Result<Seq<char>, FetchError> {
    match captured {
        Some(text) => Ok(unescape_quotes(text)),
        None => Err(FetchError::TokenExtraction),
    }
}

/// The crumb of a quote page, or the failure to find one.
pub open spec fn crumb_in(html: Seq<char>) -> Result<Seq<char>, FetchError> {
    match regex_named_capture(CRUMB_PATTERN@, CRUMB_GROUP@, html) {
        Some(captured) => crumb_of(captured),
        None => Err(FetchError::TokenExtraction),
    }
}

/// A result that holds a string, with the string taken as its characters.
pub open spec fn text_of(outcome: Result<String, FetchError>) -> Result<Seq<char>, FetchError> {
    match outcome {
        Ok(text) => Ok(text@),
        Err(error) => Err(error),
    }
}

/// Whether a status code is a client or a server error.
pub open spec fn is_error_status(code: u16) -> bool {
    400 <= code < 600
}

/// The address of the quote page of `symbol`.
pub fn page_url(symbol: &str) -> (url: String)
    ensures
        url@ == page_url_of(symbol@),
{
    let mut url = String::from_str("https://finance.yahoo.com/quote/");
    url.append(symbol);
    url.append("/options?p=");
    url.append(symbol);
    url
}

/// The address of the quote endpoint for `symbol`.
pub fn quote_url(symbol: &str) -> (url: String)
    ensures
        url@ == quote_url_of(symbol@),
{
    let mut url = String::from_str("https://query1.finance.yahoo.com/v7/finance/options/");
    url.append(symbol);
    url
}

/// Replaces every escaped quote in `text` by a plain quote.
pub fn unescape(text: &str) -> (plain: String)
    ensures
        plain@ == unescape_quotes(text@),
{
    let n = text.unicode_len();
    let mut plain = String::new();
    let mut i: usize = 0;
    assert(text@.skip(0) == text@);
    while i < n
        invariant
            i <= n,
            n == text@.len(),
            plain@ + unescape_quotes(text@.skip(i as int)) == unescape_quotes(text@),
        decreases n - i,
    {
        let ghost rest = text@.skip(i as int);
        let ghost before = plain@;
        let c = text.get_char(i);
        if c == '\\' && i + 1 < n && text.get_char(i + 1) == '"' {
            plain.append("\"");
            proof {
                reveal_strlit("\"");
                assert(rest.skip(2) == text@.skip(i + 2));
                assert(plain@ + unescape_quotes(rest.skip(2)) == before + unescape_quotes(rest));
            }
            i = i + 2;
        } else {
            let piece = text.substring_char(i, i + 1);
            plain.append(piece);
            proof {
                assert(rest.skip(1) == text@.skip(i + 1));
                assert(piece@ == seq![rest[0]]);
                assert(plain@ + unescape_quotes(rest.skip(1)) == before + unescape_quotes(rest));
            }
            i = i + 1;
        }
    }
    assert(text@.skip(n as int) == Seq::<char>::empty());
    plain
}

/// The crumb in what the pattern captured: the captured text with its escaped
/// quotes made plain. No capture is a failure to extract the token.
pub fn crumb_from_capture(captured: Option<String>) -> (crumb: Result<String, FetchError>)
    ensures
        text_of(crumb) == crumb_of(
            match captured {
                Some(text) => Some(text@),
                None => None,
            },
        ),
{
    match captured {
        Some(text) => Ok(unescape(text.as_str())),
        None => Err(FetchError::TokenExtraction),
    }
}

/// Finds the crumb in a quote page.
pub fn extract_crumb(html: &str) -> (crumb: Result<String, FetchError>)
    ensures
        text_of(crumb) == crumb_in(html@),
{
    match capture_named(CRUMB_PATTERN, CRUMB_GROUP, html) {
        Ok(captured) => crumb_from_capture(captured),
        Err(_) => Err(FetchError::TokenExtraction),
    }
}

/// Passes a status code that is no error, and names the one that is.
pub fn check_status(code: u16) -> (checked: Result<(), FetchError>)
    ensures
        checked == if is_error_status(code) {
            Err::<(), FetchError>(FetchError::HttpStatus(code))
        } else {
            Ok::<(), FetchError>(())
        },
{
    if 400 <= code && code < 600 {
        Err(FetchError::HttpStatus(code))
    } else {
        Ok(())
    }
}

/// The second request of a fetch.
pub struct QuoteRequest {
    /// The address of the quote endpoint.
    pub url: String,
    /// The crumb to send along as the query parameter `crumb`.
    pub crumb: String,
}

/// The quote request that follows a page, or the failure that ends the fetch
/// here.
pub open spec fn quote_request_of(symbol: Seq<char>, page: Option<Seq<char>>) -> Result<
    (Seq<char>, Seq<char>),
    FetchError,
> {
    match page {
        None => Err(FetchError::SessionBootstrap),
        Some(html) => match crumb_in(html) {
            Ok(crumb) => Ok((quote_url_of(symbol), crumb)),
            Err(error) => Err(error),
        },
    }
}

/// What the answer to the quote request means for the fetch.
pub open spec fn response_check_of(status: Option<u16>) -> Result<(), FetchError> {
    match status {
        None => Err(FetchError::SessionBootstrap),
        Some(code) => if is_error_status(code) {
            Err(FetchError::HttpStatus(code))
        } else {
            Ok(())
        },
    }
}

/// The step after the page request. `page` is the body of the quote page, or
/// `None` when the page could not be had. With a page that holds a crumb the
/// fetch goes on with the quote request.
pub fn after_page(symbol: &str, page: Option<&str>) -> (next: Result<QuoteRequest, FetchError>)
    ensures
        match next {
            Ok(request) => quote_request_of(
                symbol@,
                match page {
                    Some(html) => Some(html@),
                    None => None,
                },
            ) == Ok::<(Seq<char>, Seq<char>), FetchError>((request.url@, request.crumb@)),
            Err(error) => quote_request_of(
                symbol@,
                match page {
                    Some(html) => Some(html@),
                    None => None,
                },
            ) == Err::<(Seq<char>, Seq<char>), FetchError>(error),
        },
{
    match page {
        None => Err(FetchError::SessionBootstrap),
        Some(html) => match extract_crumb(html) {
            Ok(crumb) => Ok(QuoteRequest { url: quote_url(symbol), crumb }),
            Err(error) => Err(error),
        },
    }
}

/// The step after the quote request. `status` is the status code of the
/// answer, or `None` when no answer came. An answer that is no client or
/// server error goes on to be decoded.
pub fn after_quotes(status: Option<u16>) -> (next: Result<(), FetchError>)
    ensures
        next == response_check_of(status),
{
    match status {
        None => Err(FetchError::SessionBootstrap),
        Some(code) => check_status(code),
    }
}

/// The last step. `decoded` is the document read from the body of the answer,
/// or `None` when the body was not such a document.
pub fn after_decode<T>(decoded: Option<T>) -> (chain: Result<T, FetchError>)
    ensures
        chain == match decoded {
            Some(document) => Ok::<T, FetchError>(document),
            None => Err::<T, FetchError>(FetchError::Deserialization),
        },
{
    match decoded {
        Some(document) => Ok(document),
        None => Err(FetchError::Deserialization),
    }
}

} // verus!
