use castero_link::app::{App, FocusedPanel, KeyInput};
use castero_link::podcast::{Episode, EpisodeID, Podcast, PodcastURL};

fn episode(title: &str, description: Option<&str>) -> Episode {
    Episode::new(
        EpisodeID::new(title),
        title.to_string(),
        description.map(String::from),
        0,
        None,
        "http://example.com/a.mp3".to_string(),
        None,
    )
}

fn podcast(url: &str, title: &str, episodes: Vec<Episode>) -> Podcast {
    Podcast::new(PodcastURL::new(url), title.to_string(), None, None, None, episodes)
}

#[test]
fn podcast_urls_compare_without_trailing_slashes() {
    assert!(PodcastURL::new("http://a.example/feed/") == PodcastURL::new("http://a.example/feed"));
    assert!(PodcastURL::new("http://a.example/feed//") == PodcastURL::new("http://a.example/feed/"));
    assert!(PodcastURL::new("http://a.example/feed") != PodcastURL::new("http://a.example/feeds"));
}

#[test]
fn new_app_selects_nothing() {
    let app = App::new();
    assert!(app.selected_podcast_index.is_none());
    assert_eq!(app.focused_panel, FocusedPanel::Podcasts);
    assert_eq!(app.show_notes_state.content, "Select a podcast and then an episode to see show notes.");
}

#[test]
fn first_podcast_added_is_selected_and_duplicates_skipped() {
    let mut app = App::new();
    app.add_podcast(podcast("http://a.example/feed", "A", vec![episode("e1", Some("notes one"))]));
    assert_eq!(app.selected_podcast_index, Some(0));
    assert_eq!(app.selected_episode_index, Some(0));
    assert_eq!(app.show_notes_state.content, "notes one");
    app.add_podcast(podcast("http://a.example/feed/", "A again", vec![]));
    assert_eq!(app.podcasts.len(), 1);
    app.add_podcast(podcast("http://b.example/feed", "B", vec![]));
    assert_eq!(app.podcasts.len(), 2);
    assert_eq!(app.selected_podcast_index, Some(0));
}

#[test]
fn navigation_moves_within_bounds() {
    let mut app = App::new();
    app.add_podcast(podcast("http://a.example/feed", "A", vec![episode("e1", None), episode("e2", Some("two"))]));
    app.add_podcast(podcast("http://b.example/feed", "B", vec![]));
    app.on_key(KeyInput::Down);
    assert_eq!(app.selected_podcast_index, Some(1));
    assert_eq!(app.selected_episode_index, None);
    assert_eq!(app.show_notes_state.content, "Select an episode to see its show notes.");
    app.on_key(KeyInput::Down);
    assert_eq!(app.selected_podcast_index, Some(1));
    app.on_key(KeyInput::Up);
    assert_eq!(app.selected_podcast_index, Some(0));
    assert_eq!(app.selected_episode_index, Some(0));
    app.on_key(KeyInput::Tab);
    assert_eq!(app.focused_panel, FocusedPanel::Episodes);
    app.on_key(KeyInput::Down);
    app.on_key(KeyInput::Down);
    assert_eq!(app.selected_episode_index, Some(1));
    assert_eq!(app.selected_episode().unwrap().title(), "e2");
    assert_eq!(app.show_notes_state.content, "two");
    app.on_key(KeyInput::Left);
    app.on_key(KeyInput::Left);
    assert_eq!(app.focused_panel, FocusedPanel::ShowNotes);
    app.on_key(KeyInput::Char('q'));
    assert!(app.should_quit);
}

#[test]
fn test_podcast_can_be_loaded() {
    let mut app = App::new();
    app.load_test_podcast();
    assert_eq!(app.selected_podcast().unwrap().title(), "Test Podcast");
}

#[test]
fn add_episode_appends() {
    let mut p = podcast("http://a.example/feed", "A", vec![]);
    p.add_episode(episode("e1", None));
    assert_eq!(p.episodes().len(), 1);
}
