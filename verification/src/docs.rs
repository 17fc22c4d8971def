//! Searching the S1API documentation: argument checks, the retry policy with
//! exponential backoff, and what each outcome of a request is answered with.

use vstd::prelude::*;
use crate::text::{decimal, decimal_string, push_decimal, push_str, string_from_chars, trim_chars, trimmed};

verus! {

/// How many requests a search makes at most.
pub const MAX_RETRY_ATTEMPTS: u32 = 3;

/// The wait before the first retry, in milliseconds.
pub const BASE_BACKOFF_MS: u64 = 300;

/// The longest wait between retries, in milliseconds.
pub const MAX_BACKOFF_MS: u64 = 2000;

/// 2 to the power `e`, for the exponents the backoff uses.
pub open spec fn pow2_upto5(e: u32) -> u64 {
    if e == 0 { 1 } else if e == 1 { 2 } else if e == 2 { 4 } else if e == 3 { 8 } else if e == 4 { 16 } else { 32 }
}

/// The wait, in milliseconds, after failed attempt number `attempt` (counted
/// from 1): 300 ms doubled for each earlier attempt (at most five doublings),
/// never more than 2000 ms.
pub open spec fn backoff_ms(attempt: u32) -> u64 {
    let e: u32 = if attempt <= 1 { 0 } else if attempt - 1 > 5 { 5 } else { (attempt - 1) as u32 };
    let d = BASE_BACKOFF_MS * pow2_upto5(e);
    if d > MAX_BACKOFF_MS { MAX_BACKOFF_MS } else { d as u64 }
}

/// The wait, in milliseconds, before retrying after failed attempt number `attempt`.
pub fn retry_backoff(attempt: u32) -> (r: u64)
    ensures
        r == backoff_ms(attempt),
{
    let exponent: u32 = if attempt <= 1 { 0 } else if attempt - 1 > 5 { 5 } else { attempt - 1 };
    let factor: u64 = if exponent == 0 { 1 } else if exponent == 1 { 2 } else if exponent == 2 { 4 }
        else if exponent == 3 { 8 } else if exponent == 4 { 16 } else { 32 };
    let delay = BASE_BACKOFF_MS * factor;
    if delay > MAX_BACKOFF_MS { MAX_BACKOFF_MS } else { delay }
}

/// The backoff never shrinks from one attempt to the next and never exceeds
/// 2000 ms; from the fourth attempt on it is 2000 ms.
pub proof fn lemma_backoff_grows_and_caps(a: u32, b: u32)
    requires
        a <= b,
    ensures
        backoff_ms(a) <= backoff_ms(b),
        backoff_ms(b) <= MAX_BACKOFF_MS,
        b >= 4 ==> backoff_ms(b) == MAX_BACKOFF_MS,
{
}

/// Whether an HTTP status is a server error (500 to 599): such answers are retried.
pub fn should_retry_status(status: u16) -> (r: bool)
    ensures
        r == (500 <= status && status <= 599),
{
    500 <= status && status <= 599
}

/// Whether an HTTP status is a success (200 to 299).
pub fn is_success_status(status: u16) -> (r: bool)
    ensures
        r == (200 <= status && status <= 299),
{
    200 <= status && status <= 299
}

/// Checks the search arguments: the topic, trimmed, must not be blank, and at
/// least one token must be asked for. Gives the trimmed topic.
pub fn validate_docs_query(topic: &str, tokens: u32) -> (r: Result<String, String>)
    ensures
        trimmed(topic@).len() == 0 ==> (r matches Err(m) && m@ == "Error: topic parameter is required"@),
        trimmed(topic@).len() > 0 && tokens == 0 ==> (r matches Err(m) && m@ == "Error: tokens must be a positive integer"@),
        trimmed(topic@).len() > 0 && tokens > 0 ==> (r matches Ok(t) && t@ == trimmed(topic@)),
{
    let t = trim_chars(topic);
    if t.len() == 0 {
        return Err(String::from_str("Error: topic parameter is required"));
    }
    if tokens == 0 {
        return Err(String::from_str("Error: tokens must be a positive integer"));
    }
    Ok(string_from_chars(&t))
}

/// What `Url::parse_with_params` gives for the URL `base` with the query pairs
/// `topic` and `tokens`: the URL's text, or the parse error's text.
pub uninterp spec fn docs_search_url(base: Seq<char>, topic: Seq<char>, tokens: Seq<char>) -> Result<Seq<char>, Seq<char>>;

/// The documentation index that searches query.
pub const DOCS_INDEX_URL: &'static str = "https://context7.com/ifbars/s1api/llms.txt";

/// Builds a URL with two query pairs (`reqwest::Url::parse_with_params` on
/// `base`, with `topic` and `tokens`). The text is a function of the three
/// values; its exact form (normalisation, percent-encoding) is left to the url
/// crate and not stated here.
#[verifier::external_body]
fn parse_url_with_params(base: &str, topic: &str, tokens: &str) -> (r: Result<String, String>)
    ensures
        match (r, docs_search_url(base@, topic@, tokens@)) {
            (Ok(u), Ok(v)) => u@ == v,
            (Err(e), Err(f)) => e@ == f,
            _ => false,
        },
{
    match reqwest::Url::parse_with_params(base, &[("topic", topic), ("tokens", tokens)]) {
        Ok(url) => Ok(url.to_string()),
        Err(error) => Err(error.to_string()),
    }
}

/// The URL a search requests: the arguments are checked first (see
/// `validate_docs_query`); then the trimmed topic and the token count in
/// decimal become the query. Gives the trimmed topic with the URL.
pub fn docs_request_url(topic: &str, tokens: u32) -> (r: Result<(String, String), String>)
    ensures
        trimmed(topic@).len() == 0 ==> (r matches Err(m) && m@ == "Error: topic parameter is required"@),
        trimmed(topic@).len() > 0 && tokens == 0 ==> (r matches Err(m) && m@ == "Error: tokens must be a positive integer"@),
        trimmed(topic@).len() > 0 && tokens > 0 ==> match docs_search_url(DOCS_INDEX_URL@, trimmed(topic@), decimal(tokens as nat)) {
            Ok(u) => r matches Ok((t, url)) && t@ == trimmed(topic@) && url@ == u,
            Err(e) => r matches Err(m) && m@ == "Error: Failed to build docs search URL - "@ + e,
        },
{
    let t = validate_docs_query(topic, tokens)?;
    let tokens_text = decimal_string(tokens as u64);
    match parse_url_with_params(DOCS_INDEX_URL, t.as_str(), tokens_text.as_str()) {
        Ok(url) => Ok((t, url)),
        Err(e) => {
            let mut m: Vec<char> = Vec::new();
            push_str(&mut m, "Error: Failed to build docs search URL - ");
            push_str(&mut m, e.as_str());
            Err(string_from_chars(&m))
        },
    }
}

/// What a search does after one request.
#[derive(Debug)]
pub enum DocsStep {
    /// Wait this many milliseconds, then try again.
    Retry { backoff_ms: u64 },
    /// Stop with this answer.
    Finish(Result<String, String>),
}

/// The error when the request timed out for good.
pub open spec fn timeout_text(topic: Seq<char>, attempt: u32) -> Seq<char> {
    "Error: Request timed out while fetching documentation for topic '"@ + topic + "' after "@
        + decimal(attempt as nat) + " attempt(s). Please retry shortly."@
}

/// The error when the request failed for good.
pub open spec fn network_error_text(attempt: u32, detail: Seq<char>) -> Seq<char> {
    "Error: Network error while fetching documentation after "@ + decimal(attempt as nat) + " attempt(s): "@ + detail
        + ". Please check your internet connection and retry."@
}

/// The error when the server answered with an unsuccessful status.
pub open spec fn http_error_text(topic: Seq<char>, status: u16) -> Seq<char> {
    "Error: HTTP "@ + decimal(status as nat) + " while fetching documentation for topic '"@ + topic
        + "'. Please verify the query and try again later."@
}

/// After a request that failed to get any answer: retry a transient failure
/// while attempts remain; otherwise report a timeout or the network error.
pub fn after_send_error(topic: &str, attempt: u32, retryable: bool, timed_out: bool, detail: &str) -> (r: DocsStep)
    ensures
        retryable && attempt < MAX_RETRY_ATTEMPTS ==> r == (DocsStep::Retry { backoff_ms: backoff_ms(attempt) }),
        !(retryable && attempt < MAX_RETRY_ATTEMPTS) && timed_out ==>
            (r matches DocsStep::Finish(Err(m)) && m@ == timeout_text(topic@, attempt)),
        !(retryable && attempt < MAX_RETRY_ATTEMPTS) && !timed_out ==>
            (r matches DocsStep::Finish(Err(m)) && m@ == network_error_text(attempt, detail@)),
{
    if retryable && attempt < MAX_RETRY_ATTEMPTS {
        return DocsStep::Retry { backoff_ms: retry_backoff(attempt) };
    }
    let mut m: Vec<char> = Vec::new();
    if timed_out {
        push_str(&mut m, "Error: Request timed out while fetching documentation for topic '");
        push_str(&mut m, topic);
        push_str(&mut m, "' after ");
        push_decimal(&mut m, attempt as u64);
        push_str(&mut m, " attempt(s). Please retry shortly.");
        assert(m@ =~= timeout_text(topic@, attempt));
    } else {
        push_str(&mut m, "Error: Network error while fetching documentation after ");
        push_decimal(&mut m, attempt as u64);
        push_str(&mut m, " attempt(s): ");
        push_str(&mut m, detail);
        push_str(&mut m, ". Please check your internet connection and retry.");
        assert(m@ =~= network_error_text(attempt, detail@));
    }
    DocsStep::Finish(Err(string_from_chars(&m)))
}

/// After the server answered with `status`: retry a server error while attempts
/// remain; stop on any other unsuccessful status; `None` means read the body.
pub fn after_status(topic: &str, attempt: u32, status: u16) -> (r: Option<DocsStep>)
    ensures
        500 <= status <= 599 && attempt < MAX_RETRY_ATTEMPTS ==> r == Some(DocsStep::Retry { backoff_ms: backoff_ms(attempt) }),
        !(500 <= status <= 599 && attempt < MAX_RETRY_ATTEMPTS) && !(200 <= status <= 299) ==>
            (r matches Some(DocsStep::Finish(Err(m))) && m@ == http_error_text(topic@, status)),
        !(500 <= status <= 599 && attempt < MAX_RETRY_ATTEMPTS) && 200 <= status <= 299 ==> r is None,
{
    if should_retry_status(status) && attempt < MAX_RETRY_ATTEMPTS {
        return Some(DocsStep::Retry { backoff_ms: retry_backoff(attempt) });
    }
    if !is_success_status(status) {
        let mut m: Vec<char> = Vec::new();
        push_str(&mut m, "Error: HTTP ");
        push_decimal(&mut m, status as u64);
        push_str(&mut m, " while fetching documentation for topic '");
        push_str(&mut m, topic);
        push_str(&mut m, "'. Please verify the query and try again later.");
        assert(m@ =~= http_error_text(topic@, status));
        return Some(DocsStep::Finish(Err(string_from_chars(&m))));
    }
    None
}

/// The answer for a blank documentation body.
pub open spec fn no_docs_text(topic: Seq<char>) -> Seq<char> {
    "No documentation found for topic: '"@ + topic + "'. Try a different search term."@
}

/// The answer once the body was read: its text, a note when it is blank, or the
/// read error.
pub fn after_body(topic: &str, body: Result<String, String>) -> (r: Result<String, String>)
    ensures
        match body {
            Err(e) => r matches Err(m) && m@ == "Error: Failed to read documentation response - "@ + e@,
            Ok(c) => if trimmed(c@).len() == 0 {
                r matches Ok(m) && m@ == no_docs_text(topic@)
            } else {
                r matches Ok(m) && m@ == c@
            },
        },
{
    match body {
        Err(e) => {
            let mut m: Vec<char> = Vec::new();
            push_str(&mut m, "Error: Failed to read documentation response - ");
            push_str(&mut m, e.as_str());
            Err(string_from_chars(&m))
        },
        Ok(content) => {
            let t = trim_chars(content.as_str());
            if t.len() == 0 {
                let mut m: Vec<char> = Vec::new();
                push_str(&mut m, "No documentation found for topic: '");
                push_str(&mut m, topic);
                push_str(&mut m, "'. Try a different search term.");
                assert(m@ =~= no_docs_text(topic@));
                Ok(string_from_chars(&m))
            } else {
                Ok(content)
            }
        },
    }
}

/// The error when every attempt failed transiently.
pub fn attempts_exhausted_message(topic: &str, last_network_error: Option<String>) -> (r: String)
    ensures
        r@ == "Error: Unable to fetch documentation for topic '"@ + topic@ + "' after "@ + decimal(MAX_RETRY_ATTEMPTS as nat)
            + " attempts due to transient failures: "@
            + match last_network_error { Some(e) => e@, None => "unknown transient failure"@ } + "."@,
{
    let mut m: Vec<char> = Vec::new();
    push_str(&mut m, "Error: Unable to fetch documentation for topic '");
    push_str(&mut m, topic);
    push_str(&mut m, "' after ");
    push_decimal(&mut m, MAX_RETRY_ATTEMPTS as u64);
    push_str(&mut m, " attempts due to transient failures: ");
    match &last_network_error {
        Some(e) => push_str(&mut m, e.as_str()),
        None => push_str(&mut m, "unknown transient failure"),
    }
    push_str(&mut m, ".");
    string_from_chars(&m)
}

} // verus!
