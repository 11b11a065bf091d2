use castero_link::errors::DownloaderError;
use castero_link::podcast::{Podcast, PodcastURL};
use castero_link::podcast_download::{download_and_create_podcast, FakeFetcher};

const TWO_EPISODES: &str = r#"<?xml version="1.0" encoding="UTF-8"?>
<rss version="2.0">
    <channel>
        <title>Test Podcast</title>
        <link>http://example.com/feed</link>
        <description>Test Description</description>
        <item>
            <guid>ep-1</guid>
            <title>Episode One</title>
            <description>First</description>
            <pubDate>Tue, 10 Jun 2003 04:00:00 GMT</pubDate>
            <enclosure url="http://example.com/1.mp3" length="1234" type="audio/mpeg"/>
        </item>
        <item>
            <link>http://example.com/2</link>
            <title>Episode Two</title>
            <enclosure url="http://example.com/2.mp3" length="+77" type="audio/mpeg"/>
        </item>
        <item>
            <title>No enclosure, skipped</title>
            <guid>ep-3</guid>
        </item>
    </channel>
</rss>"#;

#[test]
fn test_download_and_create_podcast() {
    let dummy_feed: String = r#"
            <?xml version="1.0" encoding="UTF-8"?>
            <rss version="2.0">
                <channel>
                    <title>Test Podcast</title>
                    <link>http://example.com/feed</link>
                    <description>Test Description</description>
                    <image>
                        <url>http://example.com/image.jpg</url>
                    </image>
                </channel>
            </rss>
        "#
    .to_string();

    let fetcher = FakeFetcher { response: dummy_feed };

    let url: PodcastURL = PodcastURL::new("http://example.com/feed");
    let podcast: Podcast =
        download_and_create_podcast(&url, fetcher.fetch(url.as_str())).unwrap();

    assert_eq!(podcast.title(), "Test Podcast");
    assert_eq!(podcast.url().as_str(), url.as_str());
    assert_eq!(podcast.description(), Some("Test Description"));
    assert_eq!(podcast.website_url(), Some(url.as_str()));
}

#[test]
fn test_malformed_feed() {
    let malformed_xml: &str = r#"<?xml version="1.0"?><rss><channel>"#;
    let fetcher = FakeFetcher { response: malformed_xml.to_string() };

    let url = PodcastURL::new("http://example.com");
    let result: Result<Podcast, DownloaderError> =
        download_and_create_podcast(&url, fetcher.fetch(url.as_str()));
    assert!(matches!(result, Err(DownloaderError::RssError(_))));
}

#[test]
fn fetch_error_is_handed_back() {
    let url = PodcastURL::new("http://example.com");
    let result = download_and_create_podcast(&url, Err(DownloaderError::Failed("503".to_string())));
    assert!(matches!(result, Err(DownloaderError::Failed(m)) if m == "503"));
}

#[test]
fn items_become_episodes() {
    let fetcher = FakeFetcher { response: TWO_EPISODES.to_string() };
    let url = PodcastURL::new("http://example.com/feed");
    let podcast = download_and_create_podcast(&url, fetcher.fetch(url.as_str())).unwrap();
    let eps = podcast.episodes();
    assert_eq!(eps.len(), 2);
    assert_eq!(eps[0].id().as_str(), "ep-1");
    assert_eq!(eps[0].title(), "Episode One");
    assert_eq!(eps[0].description(), Some("First"));
    assert_eq!(eps[0].published_date(), 1055217600);
    assert_eq!(eps[0].audio_url(), "http://example.com/1.mp3");
    assert_eq!(eps[0].size_in_bytes(), Some(1234));
    assert_eq!(eps[1].id().as_str(), "http://example.com/2");
    assert_eq!(eps[1].size_in_bytes(), Some(77));
    assert_eq!(eps[1].published_date(), podcast.last_updated());
    assert_eq!(eps[1].duration(), None);
}

#[test]
fn fake_headers_follow_the_body() {
    let rss = FakeFetcher { response: "<rss></rss>".to_string() };
    let html = FakeFetcher { response: "<html></html>".to_string() };
    let h = rss.fetch_headers("x").unwrap();
    assert_eq!(h, vec![("content-type".to_string(), "application/xml".to_string())]);
    let h = html.fetch_headers("x").unwrap();
    assert_eq!(h, vec![("content-type".to_string(), "text/html".to_string())]);
}

#[test]
fn fake_partial_content_slices_inclusive_range() {
    let f = FakeFetcher { response: "abcdefgh".to_string() };
    assert_eq!(f.fetch_partial_content("x", (0, 3)).unwrap(), "abcd");
    assert_eq!(f.fetch_partial_content("x", (2, 100)).unwrap(), "cdefgh");
    assert_eq!(f.fetch_partial_content("x", (8, 10)).unwrap(), "");
    assert_eq!(f.fetch_partial_content("x", (0, u64::MAX)).unwrap(), "abcdefgh");
}

#[test]
fn fake_partial_content_counts_bytes() {
    let f = FakeFetcher { response: "\u{e9}a".to_string() };
    assert_eq!(f.fetch_partial_content("x", (2, 2)).unwrap(), "a");
    assert_eq!(f.fetch_partial_content("x", (0, 1)).unwrap(), "\u{e9}");
    assert_eq!(f.fetch_partial_content("x", (3, 9)).unwrap(), "");
    assert!(matches!(f.fetch_partial_content("x", (1, 2)), Err(DownloaderError::Failed(_))));
    assert!(matches!(f.fetch_partial_content("x", (0, 0)), Err(DownloaderError::Failed(_))));
    let g = FakeFetcher { response: "abcdef".to_string() };
    assert!(matches!(g.fetch_partial_content("x", (4, 1)), Err(DownloaderError::Failed(_))));
    assert_eq!(g.fetch_partial_content("x", (4, 3)).unwrap(), "");
}
