//! Turning a fetched feed body into a podcast, and a fetcher that answers
//! from a canned body.

use vstd::prelude::*;
use crate::errors::DownloaderError;
use crate::podcast::{Podcast, PodcastURL, now_timestamp};
use crate::podcast_factory::{
    FeedChannel, ParsedFeed, PodcastFactory, PodcastFactoryView, EpisodeSortOrder,
    podcast_from_channel, read_channel, rss_channel_of,
};
use crate::text::{seq_contains, str_contains};
use vstd::string::StringSliceAdditionalSpecFns;

verus! {

/// A fetched feed body and when it was fetched, in seconds since the Unix
/// epoch.
#[derive(Debug, Clone)]
pub struct RawFeedData {
    pub content: String,
    pub fetch_date: i64,
}

impl RawFeedData {
    /// The body, fetched now.
    pub fn from_string(content: String) -> (r: RawFeedData)
        ensures
            r.content == content,
    {
        RawFeedData { content, fetch_date: now_timestamp() }
    }
}

/// The settings of `PodcastFactory::new()`.
pub open spec fn default_factory() -> PodcastFactoryView {
    PodcastFactoryView { episode_limit: None, sort_order: EpisodeSortOrder::NewestFirst }
}

/// What downloading a feed from `url` gives, once the fetch gave `fetched`:
/// the fetch error, the RSS error, or the podcast of the channel, dated at
/// its own `last_updated`.
pub open spec fn download_outcome(
    url: Seq<char>,
    fetched: Result<String, DownloaderError>,
    r: Result<Podcast, DownloaderError>,
) -> bool {
    match fetched {
        Err(e) => r is Err && r->Err_0 == e,
        Ok(body) => match rss_channel_of(body@) {
            None => r matches Err(DownloaderError::RssError(_)),
            Some(c) => r is Ok && r->Ok_0@ == podcast_from_channel(
                default_factory(),
                c,
                url,
                r->Ok_0@.last_updated,
            ),
        },
    }
}

/// Reads the fetched body of `url` as an RSS feed and builds its podcast.
pub fn download_and_create_podcast(url: &PodcastURL, fetched: Result<String, DownloaderError>) -> (r:
    Result<Podcast, DownloaderError>)
    ensures
        download_outcome(url@, fetched, r),
{
    let content = match fetched {
        Ok(c) => c,
        Err(e) => {
            return Err(e);
        },
    };
    let channel: FeedChannel = match read_channel(content.as_str()) {
        Ok(c) => c,
        Err(e) => {
            return Err(DownloaderError::RssError(e));
        },
    };
    let parsed = ParsedFeed { channel };
    PodcastFactory::new().create_podcast(parsed, url.as_str().to_string())
}

/// The content type that the canned fetcher reports for its body.
pub open spec fn fake_content_type(body: Seq<char>) -> Seq<char> {
    if seq_contains(body, "<rss"@) || seq_contains(body, "<feed"@) {
        "application/xml"@
    } else {
        "text/html"@
    }
}

/// The UTF-8 bytes of a text.
pub open spec fn utf8_bytes(s: Seq<char>) -> Seq<u8> {
    vstd::utf8::encode_utf8(s)
}

/// The end, exclusive, of the byte range through `last`, cut at `len`.
pub open spec fn range_end(len: int, last: u64) -> int {
    if (last as int) + 1 < len {
        (last as int) + 1
    } else {
        len
    }
}

/// What the canned fetcher answers for the bytes `start` through `last`
/// of `body`: nothing from a start past the end; else the bytes up to the
/// end of the range or of the body, where both ends fall on character
/// boundaries; `None` (a request that cannot be answered) where one does
/// not, or where the range ends before it starts.
pub open spec fn fake_range(body: Seq<char>, start: u64, last: u64) -> Option<Seq<u8>> {
    let b = utf8_bytes(body);
    let e = range_end(b.len() as int, last);
    if (start as int) >= b.len() {
        Some(Seq::empty())
    } else if e < start || !vstd::utf8::is_char_boundary(b, start as int)
        || !vstd::utf8::is_char_boundary(b, e) {
        None
    } else {
        Some(b.subrange(start as int, e))
    }
}

/// A fetcher that answers every request from one canned body.
pub struct FakeFetcher {
    pub response: String,
}

impl FakeFetcher {
    /// The whole body.
    pub fn fetch(&self, _url: &str) -> (r: Result<String, DownloaderError>)
        ensures
            r is Ok && r->Ok_0@ == self.response@,
    {
        Ok(self.response.clone())
    }

    /// One `content-type` header: an XML type where the body holds `<rss`
    /// or `<feed`, else HTML.
    pub fn fetch_headers(&self, _url: &str) -> (r: Result<Vec<(String, String)>, DownloaderError>)
        ensures
            r is Ok,
            r->Ok_0@.len() == 1,
            r->Ok_0@[0].0@ == "content-type"@,
            r->Ok_0@[0].1@ == fake_content_type(self.response@),
    {
        let ct = if str_contains(self.response.as_str(), "<rss") || str_contains(
            self.response.as_str(),
            "<feed",
        ) {
            "application/xml".to_string()
        } else {
            "text/html".to_string()
        };
        let mut headers: Vec<(String, String)> = Vec::new();
        headers.push(("content-type".to_string(), ct));
        Ok(headers)
    }

    /// The bytes of the body from `byte_range.0` through `byte_range.1`,
    /// both included, cut at the body's end. A range whose ends split a
    /// character, or that ends before it starts, is refused.
    pub fn fetch_partial_content(&self, _url: &str, byte_range: (u64, u64)) -> (r: Result<
        String,
        DownloaderError,
    >)
        ensures
            match fake_range(self.response@, byte_range.0, byte_range.1) {
                Some(bytes) => r is Ok && utf8_bytes(r->Ok_0@) == bytes,
                None => r matches Err(DownloaderError::Failed(_)),
            },
    {
        broadcast use vstd::utf8::group_utf8_lib;

        let s: &str = self.response.as_str();
        let n: usize = s.as_bytes().len();
        proof {
            assert(s.spec_bytes() == utf8_bytes(self.response@));
            vstd::utf8::encode_utf8_valid_utf8(self.response@);
        }
        if byte_range.0 as u128 >= n as u128 {
            let empty = String::new();
            proof {
                assert(utf8_bytes(empty@) =~= Seq::<u8>::empty()) by {
                    reveal_with_fuel(vstd::utf8::encode_utf8, 1);
                }
            }
            return Ok(empty);
        }
        let start: usize = byte_range.0 as usize;
        let end: usize = if (byte_range.1 as u128) + 1 < n as u128 {
            (byte_range.1 + 1) as usize
        } else {
            n
        };
        if end < start || !s.is_char_boundary(start) || !s.is_char_boundary(end) {
            return Err(
                DownloaderError::Failed("Requested byte range splits a character".to_string()),
            );
        }
        let (_, tail) = s.split_at(start);
        let ghost b = s.spec_bytes();
        let ghost t = tail.spec_bytes();
        proof {
            assert(t == b.subrange(start as int, b.len() as int));
            assert(t == utf8_bytes(tail@));
            vstd::utf8::encode_utf8_valid_utf8(tail@);
            if end < n {
                vstd::utf8::is_char_boundary_iff_not_is_continuation_byte(b, end as int);
                vstd::utf8::is_char_boundary_iff_not_is_continuation_byte(t, end - start);
                assert(t[end - start] == b[end as int]);
            } else {
                vstd::utf8::is_char_boundary_start_end_of_seq(t);
            }
        }
        let (part, _) = tail.split_at(end - start);
        let out = part.to_string();
        proof {
            assert(out@ == part@);
            assert(part.spec_bytes() =~= b.subrange(start as int, end as int));
        }
        Ok(out)
    }
}

} // verus!
