use castero_link::podcast::PodcastURL;
use castero_link::podcast_factory::{
    parse_decimal_u64, EpisodeSortOrder, FeedChannel, FeedEnclosure, FeedItem, ParsedFeed,
    PodcastFactory,
};

fn item(id: &str, title: &str) -> FeedItem {
    FeedItem {
        guid: Some(id.to_string()),
        link: None,
        title: Some(title.to_string()),
        description: None,
        enclosure: Some(FeedEnclosure { url: format!("http://example.com/{}.mp3", id), length: "10".to_string() }),
        duration: Some("00:10:00".to_string()),
        pub_date: Some("Tue, 10 Jun 2003 04:00:00 GMT".to_string()),
    }
}

fn channel(items: Vec<FeedItem>) -> FeedChannel {
    FeedChannel {
        title: "Test Podcast".to_string(),
        link: "http://example.com/feed".to_string(),
        description: "Test Description".to_string(),
        image_url: Some("http://example.com/image.jpg".to_string()),
        items,
    }
}

#[test]
fn test_create_podcast_from_parsed_feed() {
    let factory = PodcastFactory::new()
        .with_episode_limit(10)
        .with_sort_order(EpisodeSortOrder::NewestFirst);

    let url = "http://example.com/feed".to_string();
    let parsed = ParsedFeed { channel: channel(Vec::new()) };
    let podcast = factory.create_podcast(parsed, url).unwrap();

    assert_eq!(podcast.title(), "Test Podcast");
    assert!(podcast.url() == &PodcastURL::new("http://example.com/feed"));
    assert_eq!(podcast.description(), Some("Test Description"));
    assert_eq!(podcast.image_url(), Some("http://example.com/image.jpg"));
    assert_eq!(podcast.website_url(), Some("http://example.com/feed"));
    assert!(podcast.episodes().is_empty());
}

#[test]
fn limit_keeps_the_first_episodes() {
    let items = vec![item("a", "A"), item("b", "B"), item("c", "C")];
    let factory = PodcastFactory::new().with_episode_limit(2);
    let p = factory.create_podcast_at(ParsedFeed { channel: channel(items) }, "u".to_string(), 5).unwrap();
    let titles: Vec<&str> = p.episodes().iter().map(|e| e.title()).collect();
    assert_eq!(titles, vec!["A", "B"]);
    assert_eq!(p.last_updated(), 5);
    assert_eq!(p.episodes()[0].duration(), Some("00:10:00"));
}

#[test]
fn oldest_first_reverses_after_the_limit() {
    let items = vec![item("a", "A"), item("b", "B"), item("c", "C")];
    let factory = PodcastFactory::new().with_sort_order(EpisodeSortOrder::OldestFirst).with_episode_limit(2);
    let p = factory.create_podcast_at(ParsedFeed { channel: channel(items) }, "u".to_string(), 0).unwrap();
    let titles: Vec<&str> = p.episodes().iter().map(|e| e.title()).collect();
    assert_eq!(titles, vec!["B", "A"]);
}

#[test]
fn items_without_id_title_or_enclosure_are_dropped() {
    let mut no_id = item("x", "X");
    no_id.guid = None;
    let mut link_id = item("y", "Y");
    link_id.guid = None;
    link_id.link = Some("http://example.com/y".to_string());
    let mut no_title = item("z", "Z");
    no_title.title = None;
    let mut no_enclosure = item("w", "W");
    no_enclosure.enclosure = None;
    let mut bad_date = item("v", "V");
    bad_date.pub_date = Some("yesterday".to_string());
    let items = vec![no_id, link_id, no_title, no_enclosure, bad_date];
    let p = PodcastFactory::new()
        .create_podcast_at(ParsedFeed { channel: channel(items) }, "u".to_string(), 42)
        .unwrap();
    assert_eq!(p.episodes().len(), 2);
    assert_eq!(p.episodes()[0].id().as_str(), "http://example.com/y");
    assert_eq!(p.episodes()[0].published_date(), 1055217600);
    assert_eq!(p.episodes()[1].published_date(), 42);
}

#[test]
fn decimal_lengths_parse_as_u64_does() {
    for s in ["0", "1234", "+7", "18446744073709551615", "", "+", "-1", "12a", "18446744073709551616", " 1"] {
        assert_eq!(parse_decimal_u64(s), s.parse::<u64>().ok(), "{:?}", s);
    }
}
