//! Building a podcast from the channel of a parsed feed.

use vstd::prelude::*;
use crate::errors::DownloaderError;
use crate::podcast::{
    Episode, EpisodeID, EpisodeView, Podcast, PodcastURL, PodcastView, now_timestamp, opt_view,
};
use crate::text::{chars_of, clone_opt};
use crate::podcast::episodes_view;

verus! {

#[verifier::external_type_specification]
#[verifier::external_body]
pub struct ExRssChannel(rss::Channel);

#[verifier::external_type_specification]
#[verifier::external_body]
pub struct ExRssItem(rss::Item);

/// The enclosure of a feed item: the media URL and its declared length.
#[derive(Debug, Clone)]
pub struct FeedEnclosure {
    pub url: String,
    pub length: String,
}

/// A feed item, with the fields that an episode is made of.
#[derive(Debug, Clone)]
pub struct FeedItem {
    pub guid: Option<String>,
    pub link: Option<String>,
    pub title: Option<String>,
    pub description: Option<String>,
    pub enclosure: Option<FeedEnclosure>,
    pub duration: Option<String>,
    pub pub_date: Option<String>,
}

/// The channel of a feed, with the fields that a podcast is made of.
#[derive(Debug, Clone)]
pub struct FeedChannel {
    pub title: String,
    pub link: String,
    pub description: String,
    pub image_url: Option<String>,
    pub items: Vec<FeedItem>,
}

/// A feed that was read successfully.
#[derive(Debug)]
pub struct ParsedFeed {
    pub channel: FeedChannel,
}

/// What `rss::Channel::read_from` makes of a text: `None` where it refuses
/// the text, else the channel's fields that a podcast is made of.
pub uninterp spec fn rss_channel_of(s: Seq<char>) -> Option<FeedChannel>;

/// Converts an item of the `rss` crate; the conversion step of `read_channel`.
#[verifier::external_body]
fn feed_item_from_rss(i: &rss::Item) -> FeedItem {
    FeedItem {
        guid: i.guid().map(|g| g.value().to_string()),
        link: i.link().map(String::from),
        title: i.title().map(String::from),
        description: i.description().map(String::from),
        enclosure: i.enclosure().map(
            |e| FeedEnclosure { url: e.url().to_string(), length: e.length().to_string() },
        ),
        duration: i.itunes_ext().and_then(|x| x.duration().map(String::from)),
        pub_date: i.pub_date().map(String::from),
    }
}

/// Converts a channel of the `rss` crate; the conversion step of `read_channel`.
#[verifier::external_body]
fn feed_channel_from_rss(c: &rss::Channel) -> FeedChannel {
    FeedChannel {
        title: c.title().to_string(),
        link: c.link().to_string(),
        description: c.description().to_string(),
        image_url: c.image().map(|img| img.url().to_string()),
        items: c.items().iter().map(feed_item_from_rss).collect(),
    }
}

/// Relies on `rss::Channel::read_from`: the channel that the text holds, or
/// the crate's error; the outcome depends on the text alone.
#[verifier::external_body]
pub(crate) fn read_channel(body: &str) -> (r: Result<FeedChannel, rss::Error>)
    ensures
        match r {
            Ok(c) => rss_channel_of(body@) == Some(c),
            Err(_) => rss_channel_of(body@).is_none(),
        },
{
    rss::Channel::read_from(body.as_bytes()).map(|c| feed_channel_from_rss(&c))
}

/// What `chrono::DateTime::parse_from_rfc2822` makes of a date: `None` where
/// it refuses it, else the instant in seconds since the Unix epoch.
pub uninterp spec fn rfc2822_seconds_of(s: Seq<char>) -> Option<i64>;

/// Relies on `chrono::DateTime::parse_from_rfc2822`, read with
/// `DateTime::timestamp`: the outcome depends on the text alone.
#[verifier::external_body]
fn parse_rfc2822(s: &str) -> (r: Option<i64>)
    ensures
        r == rfc2822_seconds_of(s@),
{
    chrono::DateTime::parse_from_rfc2822(s).ok().map(|d| d.timestamp())
}

/// The value of a string of ASCII digits.
pub open spec fn digits_value(s: Seq<char>) -> int
    decreases s.len(),
{
    if s.len() == 0 {
        0
    } else {
        digits_value(s.drop_last()) * 10 + ((s.last() as u32) - ('0' as u32))
    }
}

/// Every character is an ASCII digit.
pub open spec fn all_digits(s: Seq<char>) -> bool {
    forall|i: int| 0 <= i < s.len() ==> '0' <= #[trigger] s[i] && s[i] <= '9'
}

/// The `u64` that a decimal text denotes, as `str::parse::<u64>` reads it:
/// an optional '+', then at least one digit, and a value that fits.
pub open spec fn decimal_u64(s: Seq<char>) -> Option<u64> {
    let d = if s.len() > 0 && s[0] == '+' {
        s.drop_first()
    } else {
        s
    };
    if d.len() > 0 && all_digits(d) && digits_value(d) <= u64::MAX {
        Some(digits_value(d) as u64)
    } else {
        None
    }
}

proof fn lemma_digits_value_nonneg(s: Seq<char>)
    requires
        all_digits(s),
    ensures
        digits_value(s) >= 0,
    decreases s.len(),
{
    if s.len() > 0 {
        assert(all_digits(s.drop_last()));
        lemma_digits_value_nonneg(s.drop_last());
    }
}

/// Reads a decimal `u64`, as `str::parse::<u64>` does.
pub fn parse_decimal_u64(s: &str) -> (r: Option<u64>)
    ensures
        r == decimal_u64(s@),
{
    let c = chars_of(s);
    let start: usize = if c.len() > 0 && c[0] == '+' {
        1
    } else {
        0
    };
    let ghost d = c@.subrange(start as int, c@.len() as int);
    proof {
        if c@.len() > 0 && c@[0] == '+' {
            assert(d =~= s@.drop_first());
        } else {
            assert(d =~= s@);
        }
    }
    if start >= c.len() {
        return None;
    }
    let mut value: u64 = 0;
    let mut i: usize = start;
    while i < c.len()
        invariant
            start <= i <= c@.len(),
            c@ == s@,
            d == c@.subrange(start as int, c@.len() as int),
            d == (if s@.len() > 0 && s@[0] == '+' {
                s@.drop_first()
            } else {
                s@
            }),
            all_digits(c@.subrange(start as int, i as int)),
            value as int == digits_value(c@.subrange(start as int, i as int)),
        decreases c@.len() - i,
    {
        let ch = c[i];
        let ghost pre = c@.subrange(start as int, i as int);
        let ghost next = c@.subrange(start as int, i + 1);
        proof {
            assert(next.drop_last() =~= pre);
            assert(next.last() == ch);
        }
        if ch < '0' || ch > '9' {
            proof {
                assert(d[i - start] == ch);
                assert(!all_digits(d));
            }
            return None;
        }
        let digit: u64 = (ch as u32 - '0' as u32) as u64;
        if value > (u64::MAX - digit) / 10 {
            proof {
                assert(all_digits(next));
                lemma_digits_value_nonneg(next);
                assert(digits_value(next) == value * 10 + digit);
                assert(digits_value(next) > u64::MAX) by (nonlinear_arith)
                    requires
                        value > (u64::MAX - digit) / 10,
                        digits_value(next) == value * 10 + digit,
                        0 <= digit <= 9,
                ;
                assert(d.subrange(0, i + 1 - start) =~= next);
                lemma_prefix_value_bound(d, (i + 1 - start) as int);
            }
            return None;
        }
        value = value * 10 + digit;
        proof {
            assert(all_digits(next));
        }
        i = i + 1;
    }
    proof {
        assert(c@.subrange(start as int, i as int) =~= d);
    }
    Some(value)
}

proof fn lemma_prefix_value_bound(d: Seq<char>, k: int)
    requires
        0 <= k <= d.len(),
        all_digits(d.subrange(0, k)) ==> digits_value(d.subrange(0, k)) > u64::MAX,
        all_digits(d.subrange(0, k)),
    ensures
        !(all_digits(d) && digits_value(d) <= u64::MAX),
    decreases d.len() - k,
{
    if k < d.len() && all_digits(d) {
        let a = d.subrange(0, k);
        let b = d.subrange(0, k + 1);
        assert(b.drop_last() =~= a);
        assert(all_digits(b));
        lemma_digits_value_nonneg(b);
        assert(digits_value(b) > u64::MAX);
        lemma_prefix_value_bound(d, k + 1);
    } else if k == d.len() {
        assert(d.subrange(0, k) =~= d);
    }
}

/// The episode that a feed item gives, if it has an identifier (its guid,
/// else its link), a title and an enclosure. An item without a readable
/// publication date is dated `now`.
pub open spec fn item_episode(item: FeedItem, now: int) -> Option<EpisodeView> {
    let id: Option<Seq<char>> = match item.guid {
        Some(g) => Some(g@),
        None => opt_view(item.link),
    };
    if id is None || item.title is None || item.enclosure is None {
        None
    } else {
        Some(
            EpisodeView {
                id: id->0,
                title: item.title->0@,
                description: opt_view(item.description),
                published_date: match item.pub_date {
                    Some(d) => match rfc2822_seconds_of(d@) {
                        Some(t) => t as int,
                        None => now,
                    },
                    None => now,
                },
                duration: opt_view(item.duration),
                audio_url: item.enclosure->0.url@,
                size_in_bytes: decimal_u64(item.enclosure->0.length@),
            },
        )
    }
}

/// The episodes of the items that give one, in feed order.
pub open spec fn items_episodes(items: Seq<FeedItem>, now: int) -> Seq<EpisodeView>
    decreases items.len(),
{
    if items.len() == 0 {
        Seq::empty()
    } else {
        let rest = items_episodes(items.drop_last(), now);
        match item_episode(items.last(), now) {
            Some(e) => rest.push(e),
            None => rest,
        }
    }
}

/// Which episodes a factory keeps, and in which order.
#[derive(Debug, Clone, Copy, PartialEq, Eq, Structural)]
pub enum EpisodeSortOrder {
    /// Feed order.
    NewestFirst,
    /// Reversed feed order.
    OldestFirst,
}

/// The first `limit` episodes, or all where there are fewer.
pub open spec fn limit_episodes(s: Seq<EpisodeView>, limit: Option<usize>) -> Seq<EpisodeView> {
    match limit {
        Some(n) => if n < s.len() {
            s.subrange(0, n as int)
        } else {
            s
        },
        None => s,
    }
}

/// The episodes in the order asked for.
pub open spec fn order_episodes(s: Seq<EpisodeView>, order: EpisodeSortOrder) -> Seq<EpisodeView> {
    match order {
        EpisodeSortOrder::NewestFirst => s,
        EpisodeSortOrder::OldestFirst => s.reverse(),
    }
}

/// Builds podcasts out of feed channels.
pub struct PodcastFactory {
    episode_limit: Option<usize>,
    sort_order: EpisodeSortOrder,
}

/// The settings of a factory.
pub struct PodcastFactoryView {
    pub episode_limit: Option<usize>,
    pub sort_order: EpisodeSortOrder,
}

impl View for PodcastFactory {
    type V = PodcastFactoryView;

    closed spec fn view(&self) -> PodcastFactoryView {
        PodcastFactoryView { episode_limit: self.episode_limit, sort_order: self.sort_order }
    }
}

/// The podcast that a factory with settings `f` builds out of `channel`,
/// read from `feed_url`, at time `now`.
pub open spec fn podcast_from_channel(
    f: PodcastFactoryView,
    channel: FeedChannel,
    feed_url: Seq<char>,
    now: int,
) -> PodcastView {
    PodcastView {
        url: feed_url,
        title: channel.title@,
        description: Some(channel.description@),
        image_url: opt_view(channel.image_url),
        website_url: Some(channel.link@),
        episodes: order_episodes(
            limit_episodes(items_episodes(channel.items@, now), f.episode_limit),
            f.sort_order,
        ),
        last_updated: now,
    }
}

impl Default for PodcastFactory {
    fn default() -> (r: PodcastFactory)
        ensures
            r@ == (PodcastFactoryView {
                episode_limit: None,
                sort_order: EpisodeSortOrder::NewestFirst,
            }),
    {
        PodcastFactory { episode_limit: None, sort_order: EpisodeSortOrder::NewestFirst }
    }
}

/// The episode of a feed item, as `item_episode` describes it.
fn episode_from_item(item: &FeedItem, now: i64) -> (r: Option<Episode>)
    ensures
        match item_episode(*item, now as int) {
            Some(v) => r is Some && r->0@ == v,
            None => r is None,
        },
{
    let id: String = match &item.guid {
        Some(g) => g.clone(),
        None => match &item.link {
            Some(l) => l.clone(),
            None => {
                return None;
            },
        },
    };
    let title: String = match &item.title {
        Some(t) => t.clone(),
        None => {
            return None;
        },
    };
    let enclosure: &FeedEnclosure = match &item.enclosure {
        Some(e) => e,
        None => {
            return None;
        },
    };
    let published: i64 = match &item.pub_date {
        Some(d) => match parse_rfc2822(d.as_str()) {
            Some(t) => t,
            None => now,
        },
        None => now,
    };
    Some(
        Episode::new(
            EpisodeID::new(id.as_str()),
            title,
            clone_opt(&item.description),
            published,
            clone_opt(&item.duration),
            enclosure.url.clone(),
            parse_decimal_u64(enclosure.length.as_str()),
        ),
    )
}

impl PodcastFactory {
    pub fn new() -> (r: PodcastFactory)
        ensures
            r@ == (PodcastFactoryView {
                episode_limit: None,
                sort_order: EpisodeSortOrder::NewestFirst,
            }),
    {
        PodcastFactory::default()
    }

    pub fn with_episode_limit(self, limit: usize) -> (r: PodcastFactory)
        ensures
            r@ == (PodcastFactoryView { episode_limit: Some(limit), ..self@ }),
    {
        PodcastFactory { episode_limit: Some(limit), sort_order: self.sort_order }
    }

    pub fn with_sort_order(self, order: EpisodeSortOrder) -> (r: PodcastFactory)
        ensures
            r@ == (PodcastFactoryView { sort_order: order, ..self@ }),
    {
        PodcastFactory { episode_limit: self.episode_limit, sort_order: order }
    }

    /// Builds the podcast of `parsed`, read from `feed_url`, at time `now`.
    pub fn create_podcast_at(&self, parsed: ParsedFeed, feed_url: String, now: i64) -> (r: Result<
        Podcast,
        DownloaderError,
    >)
        ensures
            r is Ok,
            r->Ok_0@ == podcast_from_channel(self@, parsed.channel, feed_url@, now as int),
    {
        let channel = parsed.channel;
        let items = &channel.items;
        let mut episodes: Vec<Episode> = Vec::new();
        let mut i: usize = 0;
        proof {
            assert(items@.subrange(0, 0) =~= Seq::<FeedItem>::empty());
            assert(episodes_view(episodes@) =~= Seq::<EpisodeView>::empty());
        }
        while i < items.len()
            invariant
                i <= items@.len(),
                items == &channel.items,
                episodes_view(episodes@) == items_episodes(items@.subrange(0, i as int), now as int),
            decreases items@.len() - i,
        {
            let ghost pre = items@.subrange(0, i as int);
            proof {
                let next = items@.subrange(0, i + 1);
                assert(next.drop_last() =~= pre);
                assert(next.last() == items@[i as int]);
            }
            match episode_from_item(&items[i], now) {
                Some(e) => {
                    episodes.push(e);
                    proof {
                        assert(episodes_view(episodes@) =~= items_episodes(pre, now as int).push(
                            items_episodes(items@.subrange(0, i + 1), now as int).last(),
                        ));
                    }
                },
                None => {},
            }
            i = i + 1;
        }
        proof {
            assert(items@.subrange(0, items@.len() as int) =~= items@);
        }
        let ghost all = episodes_view(episodes@);
        match self.episode_limit {
            Some(limit) => {
                episodes.truncate(limit);
                proof {
                    if (limit as int) < all.len() {
                        assert(episodes_view(episodes@) =~= all.subrange(0, limit as int));
                    } else {
                        assert(episodes_view(episodes@) =~= all);
                    }
                }
            },
            None => {},
        }
        let ghost limited = episodes_view(episodes@);
        let episodes = match self.sort_order {
            EpisodeSortOrder::NewestFirst => episodes,
            EpisodeSortOrder::OldestFirst => reversed(episodes),
        };
        proof {
            assert(limited == limit_episodes(all, self@.episode_limit));
            assert(episodes_view(episodes@) == order_episodes(limited, self@.sort_order));
        }
        Ok(
            Podcast::with_last_updated(
                PodcastURL::new(feed_url.as_str()),
                channel.title.clone(),
                Some(channel.description.clone()),
                clone_opt(&channel.image_url),
                Some(channel.link.clone()),
                episodes,
                now,
            ),
        )
    }

    /// Builds the podcast of `parsed`, read from `feed_url`, dated now.
    pub fn create_podcast(&self, parsed: ParsedFeed, feed_url: String) -> (r: Result<
        Podcast,
        DownloaderError,
    >)
        ensures
            r is Ok,
            r->Ok_0@ == podcast_from_channel(self@, parsed.channel, feed_url@, r->Ok_0@.last_updated),
    {
        let now = now_timestamp();
        self.create_podcast_at(parsed, feed_url, now)
    }
}

/// The episodes in reverse order.
fn reversed(v: Vec<Episode>) -> (r: Vec<Episode>)
    ensures
        episodes_view(r@) == episodes_view(v@).reverse(),
{
    let mut v = v;
    let ghost orig = v@;
    let mut out: Vec<Episode> = Vec::new();
    while v.len() > 0
        invariant
            v@.len() + out@.len() == orig.len(),
            v@ == orig.subrange(0, v@.len() as int),
            forall|k: int| 0 <= k < out@.len() ==> #[trigger] out@[k] == orig[orig.len() - 1 - k],
        decreases v@.len(),
    {
        let e = v.pop().unwrap();
        out.push(e);
    }
    proof {
        assert(episodes_view(out@) =~= episodes_view(orig).reverse());
    }
    out
}

} // verus!

