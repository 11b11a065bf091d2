//! The podcast and episode model.

use vstd::prelude::*;
use crate::text::{chars_of, prefix_eq, trim_trailing_slashes, trimmed_len};

verus! {

/// The view of an optional string.
pub open spec fn opt_view(o: Option<String>) -> Option<Seq<char>> {
    match o {
        Some(s) => Some(s@),
        None => None,
    }
}

/// The feed URL of a podcast. Two URLs are equal when they agree once
/// trailing slashes are dropped.
#[derive(Debug, Clone)]
pub struct PodcastURL(String);

impl View for PodcastURL {
    type V = Seq<char>;

    closed spec fn view(&self) -> Seq<char> {
        self.0@
    }
}

impl PodcastURL {
    pub fn new(s: &str) -> (r: PodcastURL)
        ensures
            r@ == s@,
    {
        PodcastURL(s.to_string())
    }

    pub fn as_str(&self) -> (r: &str)
        ensures
            r@ == self@,
    {
        self.0.as_str()
    }

    /// A copy of this URL.
    pub fn duplicate(&self) -> (r: PodcastURL)
        ensures
            r@ == self@,
    {
        PodcastURL::new(self.0.as_str())
    }
}

impl PartialEq for PodcastURL {
    fn eq(&self, other: &PodcastURL) -> (r: bool)
        ensures
            r == (trim_trailing_slashes(self@) == trim_trailing_slashes(other@)),
    {
        let a = chars_of(self.0.as_str());
        let b = chars_of(other.0.as_str());
        let na = trimmed_len(&a);
        let nb = trimmed_len(&b);
        if na != nb {
            proof {
                assert(trim_trailing_slashes(self@).len() != trim_trailing_slashes(other@).len());
            }
            return false;
        }
        prefix_eq(&a, &b, na)
    }
}

impl vstd::std_specs::cmp::PartialEqSpecImpl for PodcastURL {
    open spec fn obeys_eq_spec() -> bool {
        true
    }

    open spec fn eq_spec(&self, other: &PodcastURL) -> bool {
        trim_trailing_slashes(self@) == trim_trailing_slashes(other@)
    }
}

impl Eq for PodcastURL {}

/// The identifier of an episode.
#[derive(Debug, Clone)]
pub struct EpisodeID(String);

impl View for EpisodeID {
    type V = Seq<char>;

    closed spec fn view(&self) -> Seq<char> {
        self.0@
    }
}

impl EpisodeID {
    pub fn new(s: &str) -> (r: EpisodeID)
        ensures
            r@ == s@,
    {
        EpisodeID(s.to_string())
    }

    pub fn as_str(&self) -> (r: &str)
        ensures
            r@ == self@,
    {
        self.0.as_str()
    }
}

/// The mathematical content of an episode. Times are seconds since the Unix epoch.
pub struct EpisodeView {
    pub id: Seq<char>,
    pub title: Seq<char>,
    pub description: Option<Seq<char>>,
    pub published_date: int,
    pub duration: Option<Seq<char>>,
    pub audio_url: Seq<char>,
    pub size_in_bytes: Option<u64>,
}

/// One episode of a podcast.
#[derive(Debug, Clone)]
pub struct Episode {
    id: EpisodeID,
    title: String,
    description: Option<String>,
    published_date: i64,
    duration: Option<String>,
    audio_url: String,
    size_in_bytes: Option<u64>,
}

impl View for Episode {
    type V = EpisodeView;

    closed spec fn view(&self) -> EpisodeView {
        EpisodeView {
            id: self.id@,
            title: self.title@,
            description: opt_view(self.description),
            published_date: self.published_date as int,
            duration: opt_view(self.duration),
            audio_url: self.audio_url@,
            size_in_bytes: self.size_in_bytes,
        }
    }
}

/// The view of a sequence of episodes.
pub open spec fn episodes_view(s: Seq<Episode>) -> Seq<EpisodeView> {
    s.map_values(|e: Episode| e@)
}

fn opt_str(o: &Option<String>) -> (r: Option<&str>)
    ensures
        match r {
            Some(s) => opt_view(*o) == Some(s@),
            None => o.is_none(),
        },
{
    match o {
        Some(s) => Some(s.as_str()),
        None => None,
    }
}

impl Episode {
    pub fn new(
        id: EpisodeID,
        title: String,
        description: Option<String>,
        published_date: i64,
        duration: Option<String>,
        audio_url: String,
        size_in_bytes: Option<u64>,
    ) -> (r: Episode)
        ensures
            r@ == (EpisodeView {
                id: id@,
                title: title@,
                description: opt_view(description),
                published_date: published_date as int,
                duration: opt_view(duration),
                audio_url: audio_url@,
                size_in_bytes,
            }),
    {
        Episode { id, title, description, published_date, duration, audio_url, size_in_bytes }
    }

    pub fn id(&self) -> (r: &EpisodeID)
        ensures
            r@ == self@.id,
    {
        &self.id
    }

    pub fn title(&self) -> (r: &str)
        ensures
            r@ == self@.title,
    {
        self.title.as_str()
    }

    pub fn description(&self) -> (r: Option<&str>)
        ensures
            match r {
                Some(s) => self@.description == Some(s@),
                None => self@.description.is_none(),
            },
    {
        opt_str(&self.description)
    }

    pub fn published_date(&self) -> (r: i64)
        ensures
            r as int == self@.published_date,
    {
        self.published_date
    }

    pub fn duration(&self) -> (r: Option<&str>)
        ensures
            match r {
                Some(s) => self@.duration == Some(s@),
                None => self@.duration.is_none(),
            },
    {
        opt_str(&self.duration)
    }

    pub fn audio_url(&self) -> (r: &str)
        ensures
            r@ == self@.audio_url,
    {
        self.audio_url.as_str()
    }

    pub fn size_in_bytes(&self) -> (r: Option<u64>)
        ensures
            r == self@.size_in_bytes,
    {
        self.size_in_bytes
    }
}

/// The mathematical content of a podcast. Times are seconds since the Unix epoch.
pub struct PodcastView {
    pub url: Seq<char>,
    pub title: Seq<char>,
    pub description: Option<Seq<char>>,
    pub image_url: Option<Seq<char>>,
    pub website_url: Option<Seq<char>>,
    pub episodes: Seq<EpisodeView>,
    pub last_updated: int,
}

/// A podcast with its episodes, in feed order.
#[derive(Debug, Clone)]
pub struct Podcast {
    url: PodcastURL,
    title: String,
    description: Option<String>,
    image_url: Option<String>,
    website_url: Option<String>,
    episodes: Vec<Episode>,
    last_updated: i64,
}

impl View for Podcast {
    type V = PodcastView;

    closed spec fn view(&self) -> PodcastView {
        PodcastView {
            url: self.url@,
            title: self.title@,
            description: opt_view(self.description),
            image_url: opt_view(self.image_url),
            website_url: opt_view(self.website_url),
            episodes: episodes_view(self.episodes@),
            last_updated: self.last_updated as int,
        }
    }
}

/// Relies on `chrono::Utc::now`: the current time, in seconds since the
/// Unix epoch. Nothing is known of the value.
#[verifier::external_body]
pub(crate) fn now_timestamp() -> (r: i64) {
    chrono::Utc::now().timestamp()
}

impl Podcast {
    /// A podcast last updated now.
    pub fn new(
        url: PodcastURL,
        title: String,
        description: Option<String>,
        image_url: Option<String>,
        website_url: Option<String>,
        episodes: Vec<Episode>,
    ) -> (r: Podcast)
        ensures
            r@.url == url@,
            r@.title == title@,
            r@.description == opt_view(description),
            r@.image_url == opt_view(image_url),
            r@.website_url == opt_view(website_url),
            r@.episodes == episodes_view(episodes@),
    {
        let last_updated = now_timestamp();
        Podcast { url, title, description, image_url, website_url, episodes, last_updated }
    }

    /// A podcast with a given last-updated time, as stored on disk.
    pub fn with_last_updated(
        url: PodcastURL,
        title: String,
        description: Option<String>,
        image_url: Option<String>,
        website_url: Option<String>,
        episodes: Vec<Episode>,
        last_updated: i64,
    ) -> (r: Podcast)
        ensures
            r@ == (PodcastView {
                url: url@,
                title: title@,
                description: opt_view(description),
                image_url: opt_view(image_url),
                website_url: opt_view(website_url),
                episodes: episodes_view(episodes@),
                last_updated: last_updated as int,
            }),
    {
        Podcast { url, title, description, image_url, website_url, episodes, last_updated }
    }

    pub fn url(&self) -> (r: &PodcastURL)
        ensures
            r@ == self@.url,
    {
        &self.url
    }

    pub fn title(&self) -> (r: &str)
        ensures
            r@ == self@.title,
    {
        self.title.as_str()
    }

    pub fn description(&self) -> (r: Option<&str>)
        ensures
            match r {
                Some(s) => self@.description == Some(s@),
                None => self@.description.is_none(),
            },
    {
        opt_str(&self.description)
    }

    pub fn image_url(&self) -> (r: Option<&str>)
        ensures
            match r {
                Some(s) => self@.image_url == Some(s@),
                None => self@.image_url.is_none(),
            },
    {
        opt_str(&self.image_url)
    }

    pub fn website_url(&self) -> (r: Option<&str>)
        ensures
            match r {
                Some(s) => self@.website_url == Some(s@),
                None => self@.website_url.is_none(),
            },
    {
        opt_str(&self.website_url)
    }

    pub fn episodes(&self) -> (r: &[Episode])
        ensures
            episodes_view(r@) == self@.episodes,
    {
        self.episodes.as_slice()
    }

    pub fn last_updated(&self) -> (r: i64)
        ensures
            r as int == self@.last_updated,
    {
        self.last_updated
    }

    pub fn add_episode(&mut self, episode: Episode)
        ensures
            final(self)@ == (PodcastView {
                episodes: old(self)@.episodes.push(episode@),
                ..old(self)@
            }),
    {
        self.episodes.push(episode);
        proof {
            assert(episodes_view(self.episodes@) =~= episodes_view(old(self).episodes@).push(episode@));
        }
    }
}

} // verus!
