//! Error kinds of feed handling and of the command pipeline.

use vstd::prelude::*;

verus! {

/// Errors of the feed model.
#[derive(Debug)]
pub enum PodcastError {
    ParseError(String),
    MissingField(String),
    InvalidUrl(String),
    FeedTooLarge { size: usize },
    SaveFailed(String),
}

#[verifier::external_type_specification]
#[verifier::external_body]
pub struct ExRssError(rss::Error);

/// Errors of fetching a feed and of reading it as RSS.
#[derive(Debug)]
pub enum DownloaderError {
    /// The transport failed; the message describes how.
    NetworkError(String),
    /// The body is not a well-formed RSS document.
    RssError(rss::Error),
    /// The request was answered, but not with success.
    Failed(String),
}

/// Errors of the command pipeline.
#[derive(Debug)]
pub enum PipelineError {
    DownloadFailed(DownloaderError),
    SaveFailedWithMessage(String),
    SaveFailedWithSource { message: String, source: String },
    EvaluationFailed(String),
    EvaluationFailedWithSource { message: String, source: DownloaderError },
    InvalidState(String),
    UpstreamError(Box<PipelineError>),
}

} // verus!
