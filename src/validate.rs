//! Deciding whether a URL is likely to name a podcast feed: its syntax and
//! scheme first, then the content type that a HEAD request reports, and last
//! the first bytes of the body.

use vstd::prelude::*;
use crate::errors::{DownloaderError, PipelineError};
use crate::podcast::opt_view;
use crate::text::{
    chars_of, lemma_starts_with_concat, lowercase, lower_of, prefix_eq, seq_contains, starts_with,
    str_contains,
};

verus! {

/// What a URL consists of, as far as the pipeline reads it.
#[derive(Debug)]
pub struct UrlParts {
    pub scheme: String,
    pub host: Option<String>,
}

#[verifier::external_type_specification]
#[verifier::external_body]
pub struct ExUrlParseError(url::ParseError);

/// What `url::Url::parse` makes of a string: `None` where it refuses the
/// string, else the scheme and the host.
pub uninterp spec fn url_parts_of(s: Seq<char>) -> Option<(Seq<char>, Option<Seq<char>>)>;

/// Relies on `url::Url::parse`, read through `Url::scheme` and
/// `Url::host_str`: the outcome depends on the string alone.
#[verifier::external_body]
pub(crate) fn parse_url(s: &str) -> (r: Result<UrlParts, url::ParseError>)
    ensures
        match r {
            Ok(p) => url_parts_of(s@) == Some((p.scheme@, opt_view(p.host))),
            Err(_) => url_parts_of(s@).is_none(),
        },
{
    url::Url::parse(s).map(
        |u| UrlParts { scheme: u.scheme().to_string(), host: u.host_str().map(|h| h.to_string()) },
    )
}

/// Whether two strings hold the same characters.
pub fn str_eq(a: &str, b: &str) -> (r: bool)
    ensures
        r == (a@ == b@),
{
    let x = chars_of(a);
    let y = chars_of(b);
    if x.len() != y.len() {
        return false;
    }
    let r = prefix_eq(&x, &y, x.len());
    proof {
        assert(x@.subrange(0, x@.len() as int) =~= x@);
        assert(y@.subrange(0, y@.len() as int) =~= y@);
    }
    r
}

/// A scheme that the pipeline fetches from.
pub open spec fn is_web_scheme(scheme: Seq<char>) -> bool {
    scheme == "http"@ || scheme == "https"@
}

/// `s` parses as a URL whose scheme is http or https.
pub open spec fn syntax_and_scheme_ok(s: Seq<char>) -> bool {
    url_parts_of(s) matches Some(p) && is_web_scheme(p.0)
}

/// The message of a refused URL: it names the URL, and, where the URL
/// parsed, the scheme that was refused.
pub open spec fn rejection_message(m: Seq<char>, url: Seq<char>) -> bool {
    match url_parts_of(url) {
        None => starts_with(m, "Invalid URL format for '"@ + url + "': "@),
        Some(p) => m == "Invalid URL scheme for '"@ + url + "': '"@ + p.0
            + "'. Only http/https supported."@,
    }
}

/// First stage: the string must parse as a URL, with scheme http or https.
/// No network call is made.
pub fn validate_url_syntax_and_scheme(url_str: &str) -> (r: Result<UrlParts, PipelineError>)
    ensures
        r is Ok <==> syntax_and_scheme_ok(url_str@),
        match r {
            Ok(p) => url_parts_of(url_str@) == Some((p.scheme@, opt_view(p.host))),
            Err(e) => e matches PipelineError::EvaluationFailed(m) && rejection_message(
                m@,
                url_str@,
            ),
        },
{
    match parse_url(url_str) {
        Err(e) => {
            let head = String::from_str("Invalid URL format for '").concat(url_str).concat("': ");
            let msg = head.concat(e.to_string().as_str());
            proof {
                lemma_starts_with_concat(head@, msg@.subrange(head@.len() as int, msg@.len() as int));
                assert(head@ + msg@.subrange(head@.len() as int, msg@.len() as int) =~= msg@);
            }
            Err(PipelineError::EvaluationFailed(msg))
        },
        Ok(parts) => {
            if str_eq(parts.scheme.as_str(), "http") || str_eq(parts.scheme.as_str(), "https") {
                Ok(parts)
            } else {
                let msg = String::from_str("Invalid URL scheme for '").concat(url_str).concat(
                    "': '",
                ).concat(parts.scheme.as_str()).concat("'. Only http/https supported.");
                Err(PipelineError::EvaluationFailed(msg))
            }
        },
    }
}

/// The outcome of one validation stage.
#[derive(Debug, PartialEq, Eq, Structural)]
pub enum ValidationStepResult {
    Validated,
    Inconclusive,
}

/// The value of the first header named `name`, names being compared exactly.
pub open spec fn header_value(headers: Seq<(String, String)>, name: Seq<char>) -> Option<Seq<char>>
    decreases headers.len(),
{
    if headers.len() == 0 {
        None
    } else if headers[0].0@ == name {
        Some(headers[0].1@)
    } else {
        header_value(headers.drop_first(), name)
    }
}

/// Finds the value of the first header named `name`.
pub fn find_header<'a>(headers: &'a Vec<(String, String)>, name: &str) -> (r: Option<&'a String>)
    ensures
        match r {
            Some(v) => header_value(headers@, name@) == Some(v@),
            None => header_value(headers@, name@).is_none(),
        },
{
    let mut i: usize = 0;
    assert(headers@.subrange(0, headers@.len() as int) =~= headers@);
    while i < headers.len()
        invariant
            i <= headers@.len(),
            header_value(headers@, name@) == header_value(headers@.subrange(i as int, headers@.len() as int), name@),
        decreases headers@.len() - i,
    {
        proof {
            assert(headers@.subrange(i as int, headers@.len() as int).drop_first()
                =~= headers@.subrange(i + 1, headers@.len() as int));
        }
        if str_eq(headers[i].0.as_str(), name) {
            return Some(&headers[i].1);
        }
        i = i + 1;
    }
    None
}

/// A content type, already lower-cased, that declares an RSS, Atom or XML document.
pub open spec fn is_feed_content_type(ct: Seq<char>) -> bool {
    seq_contains(ct, "application/rss+xml"@) || seq_contains(ct, "application/atom+xml"@)
        || seq_contains(ct, "application/xml"@) || seq_contains(ct, "text/xml"@)
}

/// Whether a HEAD answer with these headers validates the URL.
pub open spec fn head_validates(headers: Seq<(String, String)>) -> bool {
    header_value(headers, "content-type"@) matches Some(ct) && is_feed_content_type(lower_of(ct))
}

/// Second stage: the content type that a HEAD request reported. A failed
/// request is handed back as it came.
pub fn try_validate_via_head(head: Result<Vec<(String, String)>, DownloaderError>) -> (r: Result<
    ValidationStepResult,
    DownloaderError,
>)
    ensures
        match head {
            Err(e) => r == Err::<ValidationStepResult, DownloaderError>(e),
            Ok(h) => r == Ok::<ValidationStepResult, DownloaderError>(
                if head_validates(h@) {
                    ValidationStepResult::Validated
                } else {
                    ValidationStepResult::Inconclusive
                },
            ),
        },
{
    match head {
        Err(e) => Err(e),
        Ok(headers) => {
            match find_header(&headers, "content-type") {
                Some(ct) => {
                    let low = lowercase(ct.as_str());
                    if str_contains(low.as_str(), "application/rss+xml") || str_contains(
                        low.as_str(),
                        "application/atom+xml",
                    ) || str_contains(low.as_str(), "application/xml") || str_contains(
                        low.as_str(),
                        "text/xml",
                    ) {
                        Ok(ValidationStepResult::Validated)
                    } else {
                        Ok(ValidationStepResult::Inconclusive)
                    }
                },
                None => Ok(ValidationStepResult::Inconclusive),
            }
        },
    }
}

/// The start of a body, lower-cased, shows an RSS or Atom root element.
pub open spec fn is_feed_prefix(body: Seq<char>) -> bool {
    seq_contains(lower_of(body), "<rss"@) || seq_contains(lower_of(body), "<feed"@)
}

/// Third stage: the first bytes of the body. A failed request is handed back
/// as it came.
pub fn try_validate_via_partial_get(partial: Result<String, DownloaderError>) -> (r: Result<
    ValidationStepResult,
    DownloaderError,
>)
    ensures
        match partial {
            Err(e) => r == Err::<ValidationStepResult, DownloaderError>(e),
            Ok(b) => r == Ok::<ValidationStepResult, DownloaderError>(
                if is_feed_prefix(b@) {
                    ValidationStepResult::Validated
                } else {
                    ValidationStepResult::Inconclusive
                },
            ),
        },
{
    match partial {
        Err(e) => Err(e),
        Ok(body) => {
            let low = lowercase(body.as_str());
            if str_contains(low.as_str(), "<rss") || str_contains(low.as_str(), "<feed") {
                Ok(ValidationStepResult::Validated)
            } else {
                Ok(ValidationStepResult::Inconclusive)
            }
        },
    }
}

} // verus!
