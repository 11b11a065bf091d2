use castero_link::errors::{DownloaderError, PipelineError};
use castero_link::opml_parser::OpmlFeedEntry;
use castero_link::podcast::PodcastURL;
use castero_link::podcast_commands::PodcastCmd;
use castero_link::podcast_download::FakeFetcher;
use castero_link::podcast_pipeline_interpreter::{
    calculate_url_hash, generate_podcast_filename, hex_string, interpret_download_begin,
    interpret_download_finish, interpret_end, interpret_eval_url_after_head,
    interpret_eval_url_after_partial_get, interpret_eval_url_begin,
    interpret_load_opml_file_begin, interpret_load_opml_file_finish,
    interpret_process_opml_entries_begin, interpret_process_opml_entries_finish,
    interpret_save_begin, interpret_save_finish, sanitize_host_name, CommandAccumulator,
    DownloadStep, EvalUrlStep, LoadOpmlStep, PipelineData, ProcessOpmlStep, SaveFailure,
    SaveStep, PARTIAL_GET_LAST_BYTE,
};

const TWO_EPISODES: &str = r#"<?xml version="1.0" encoding="UTF-8"?>
<rss version="2.0">
    <channel>
        <title>Test Podcast</title>
        <link>http://example.com/feed</link>
        <description>Test Description</description>
        <item>
            <guid>ep-1</guid>
            <title>Episode One</title>
            <enclosure url="http://example.com/1.mp3" length="1234" type="audio/mpeg"/>
        </item>
        <item>
            <guid>ep-2</guid>
            <title>Episode Two</title>
            <enclosure url="http://example.com/2.mp3" length="99" type="audio/mpeg"/>
        </item>
    </channel>
</rss>"#;

/// What a test run did besides computing.
#[derive(Default)]
struct Log {
    heads: usize,
    partial_gets: usize,
    gets: usize,
    written: Vec<String>,
}

/// Runs a chain against one canned body, failing every request for `broken`.
fn run_chain(
    cmd: &PodcastCmd,
    acc: CommandAccumulator,
    fetcher: &FakeFetcher,
    broken: &[&str],
    log: &mut Log,
) -> CommandAccumulator {
    let mut acc = acc;
    let mut node = cmd;
    loop {
        acc = match node {
            PodcastCmd::EvalUrl(url, _) => match interpret_eval_url_begin(url, acc) {
                EvalUrlStep::NeedHead(d) => {
                    log.heads += 1;
                    let head = if broken.contains(&url.as_str()) {
                        Err(DownloaderError::NetworkError("down".to_string()))
                    } else {
                        fetcher.fetch_headers(url.as_str())
                    };
                    match interpret_eval_url_after_head(url, d, head) {
                        EvalUrlStep::NeedPartialGet(d) => {
                            log.partial_gets += 1;
                            let body = if broken.contains(&url.as_str()) {
                                Err(DownloaderError::NetworkError("down".to_string()))
                            } else {
                                fetcher.fetch_partial_content(url.as_str(), (0, PARTIAL_GET_LAST_BYTE))
                            };
                            interpret_eval_url_after_partial_get(url, d, body)
                        }
                        EvalUrlStep::Finished(a) => a,
                        EvalUrlStep::NeedHead(_) => panic!("HEAD asked twice"),
                    }
                }
                EvalUrlStep::Finished(a) => a,
                EvalUrlStep::NeedPartialGet(_) => panic!("partial GET before HEAD"),
            },
            PodcastCmd::Download(url, _) => match interpret_download_begin(url, acc) {
                DownloadStep::NeedFetch(d, u) => {
                    log.gets += 1;
                    interpret_download_finish(d, &u, fetcher.fetch(u.as_str()))
                }
                DownloadStep::Finished(a) => a,
            },
            PodcastCmd::Save(_) => match interpret_save_begin(acc) {
                SaveStep::NeedWrite(d, name) => {
                    log.written.push(name);
                    interpret_save_finish(d, Ok(()))
                }
                SaveStep::Finished(a) => a,
            },
            PodcastCmd::LoadOpmlFile(_, _) => acc,
            PodcastCmd::ProcessOpmlEntries(es, _) => {
                match interpret_process_opml_entries_begin(es, acc) {
                    ProcessOpmlStep::RunAll(d, _, cmds) => {
                        let mut ok = Vec::new();
                        for c in cmds.iter() {
                            let r = run_chain(c, Ok(PipelineData::default()), fetcher, broken, log);
                            ok.push(r.is_ok());
                        }
                        interpret_process_opml_entries_finish(d, &ok).0
                    }
                    ProcessOpmlStep::Finished(a) => a,
                }
            }
            PodcastCmd::End => return interpret_end(acc),
        };
        node = node.next().unwrap();
    }
}

fn import(url: &str) -> PodcastCmd {
    PodcastCmd::import_chain(&PodcastURL::new(url))
}

fn entry(title: &str, url: &str) -> OpmlFeedEntry {
    OpmlFeedEntry { title: title.to_string(), xml_url: url.to_string(), html_url: None }
}

#[test]
fn end_to_end_two_episode_feed() {
    let fetcher = FakeFetcher { response: TWO_EPISODES.to_string() };
    let mut log = Log::default();
    let cmd = import("http://example.com/feed");
    let acc = run_chain(&cmd, Ok(PipelineData::default()), &fetcher, &[], &mut log);
    let data = acc.unwrap();
    let podcast = data.current_podcast.as_ref().unwrap();
    assert_eq!(podcast.title(), "Test Podcast");
    assert_eq!(podcast.episodes().len(), 2);
    assert!(data.last_evaluated_url.is_none());
    assert_eq!(log.partial_gets, 0);
    assert_eq!(log.written.len(), 1);

    let mut again = Log::default();
    run_chain(&cmd, Ok(PipelineData::default()), &fetcher, &[], &mut again).unwrap();
    assert_eq!(log.written, again.written);
    let expected = format!("example.com-{}.json", calculate_url_hash("http://example.com/feed"));
    assert_eq!(log.written[0], expected);
}

#[test]
fn malformed_body_fails_download_and_reaches_end_in_error() {
    let fetcher = FakeFetcher { response: r#"<?xml version="1.0"?><rss><channel>"#.to_string() };
    let mut log = Log::default();
    let acc = run_chain(&import("http://example.com/feed"), Ok(PipelineData::default()), &fetcher, &[], &mut log);
    assert!(matches!(acc, Err(PipelineError::DownloadFailed(DownloaderError::RssError(_)))));
    assert!(log.written.is_empty());
}

#[test]
fn xml_content_type_validates_without_partial_get() {
    let url = PodcastURL::new("https://example.com/feed");
    let step = interpret_eval_url_begin(&url, Ok(PipelineData::default()));
    let data = match step {
        EvalUrlStep::NeedHead(d) => d,
        _ => panic!("expected a HEAD request"),
    };
    let headers = vec![(
        "content-type".to_string(),
        "Application/RSS+XML; charset=UTF-8".to_string(),
    )];
    match interpret_eval_url_after_head(&url, data, Ok(headers)) {
        EvalUrlStep::Finished(Ok(d)) => {
            assert_eq!(d.last_evaluated_url.unwrap().as_str(), "https://example.com/feed");
            assert!(d.current_podcast.is_none());
        }
        _ => panic!("expected validation by HEAD"),
    }
}

#[test]
fn inconclusive_head_falls_back_to_partial_get() {
    let fetcher = FakeFetcher { response: "<?xml version=\"1.0\"?><RSS version=\"2.0\"></RSS>".to_string() };
    let url = PodcastURL::new("http://example.com/feed");
    let data = match interpret_eval_url_begin(&url, Ok(PipelineData::default())) {
        EvalUrlStep::NeedHead(d) => d,
        _ => panic!("expected a HEAD request"),
    };
    let data = match interpret_eval_url_after_head(&url, data, fetcher.fetch_headers("x")) {
        EvalUrlStep::NeedPartialGet(d) => d,
        _ => panic!("expected a partial GET"),
    };
    let acc = interpret_eval_url_after_partial_get(
        &url,
        data,
        fetcher.fetch_partial_content("x", (0, PARTIAL_GET_LAST_BYTE)),
    );
    assert_eq!(acc.unwrap().last_evaluated_url.unwrap().as_str(), "http://example.com/feed");
}

#[test]
fn failed_head_falls_back_to_partial_get() {
    let url = PodcastURL::new("http://example.com/feed");
    let step = interpret_eval_url_after_head(
        &url,
        PipelineData::default(),
        Err(DownloaderError::Failed("HEAD request failed with status: 405".to_string())),
    );
    let data = match step {
        EvalUrlStep::NeedPartialGet(d) => d,
        _ => panic!("expected a partial GET"),
    };
    let acc = interpret_eval_url_after_partial_get(&url, data, Ok("<feed xmlns=\"x\">".to_string()));
    assert!(acc.is_ok());
}

#[test]
fn partial_get_without_feed_markers_fails() {
    let url = PodcastURL::new("http://example.com/page");
    let acc = interpret_eval_url_after_partial_get(&url, PipelineData::default(), Ok("<html></html>".to_string()));
    assert!(matches!(acc, Err(PipelineError::EvaluationFailed(m)) if m.contains("http://example.com/page")));
}

#[test]
fn failed_partial_get_wraps_the_transport_error() {
    let url = PodcastURL::new("http://example.com/page");
    let acc = interpret_eval_url_after_partial_get(
        &url,
        PipelineData::default(),
        Err(DownloaderError::NetworkError("timeout".to_string())),
    );
    assert!(matches!(
        acc,
        Err(PipelineError::EvaluationFailedWithSource { source: DownloaderError::NetworkError(m), .. }) if m == "timeout"
    ));
}

#[test]
fn other_schemes_fail_before_any_request() {
    let fetcher = FakeFetcher { response: TWO_EPISODES.to_string() };
    for url in ["ftp://example.com/feed", "file:///tmp/feed.xml", "not a url"] {
        let mut log = Log::default();
        let acc = run_chain(&import(url), Ok(PipelineData::default()), &fetcher, &[], &mut log);
        assert!(matches!(acc, Err(PipelineError::EvaluationFailed(_))), "{}", url);
        assert_eq!(log.heads + log.partial_gets + log.gets, 0);
    }
}

#[test]
fn download_prefers_the_evaluated_url_and_consumes_it() {
    let data = PipelineData {
        last_evaluated_url: Some(PodcastURL::new("http://evaluated.example/feed")),
        current_podcast: None,
        opml_entries: None,
    };
    let (data, url) = match interpret_download_begin(&PodcastURL::new("http://explicit.example/feed"), Ok(data)) {
        DownloadStep::NeedFetch(d, u) => (d, u),
        _ => panic!("expected a fetch"),
    };
    assert_eq!(url.as_str(), "http://evaluated.example/feed");
    let acc = interpret_download_finish(data, &url, Ok(TWO_EPISODES.to_string()));
    let d = acc.unwrap();
    assert!(d.last_evaluated_url.is_none());
    assert_eq!(d.current_podcast.unwrap().url().as_str(), "http://evaluated.example/feed");
}

#[test]
fn download_falls_back_to_the_command_url() {
    match interpret_download_begin(&PodcastURL::new("http://explicit.example/feed"), Ok(PipelineData::default())) {
        DownloadStep::NeedFetch(_, u) => assert_eq!(u.as_str(), "http://explicit.example/feed"),
        _ => panic!("expected a fetch"),
    }
}

#[test]
fn download_fetch_error_is_a_download_failure() {
    let acc = interpret_download_finish(
        PipelineData::default(),
        &PodcastURL::new("http://example.com/feed"),
        Err(DownloaderError::NetworkError("refused".to_string())),
    );
    assert!(matches!(acc, Err(PipelineError::DownloadFailed(DownloaderError::NetworkError(_)))));
}

#[test]
fn save_without_podcast_is_invalid_state() {
    assert!(matches!(
        interpret_save_begin(Ok(PipelineData::default())),
        SaveStep::Finished(Err(PipelineError::InvalidState(_)))
    ));
}

#[test]
fn save_with_podcast_asks_for_a_write() {
    let fetcher = FakeFetcher { response: TWO_EPISODES.to_string() };
    let data = match interpret_download_finish(
        PipelineData::default(),
        &PodcastURL::new("http://example.com/feed"),
        fetcher.fetch("x"),
    ) {
        Ok(d) => d,
        Err(e) => panic!("{:?}", e),
    };
    match interpret_save_begin(Ok(data)) {
        SaveStep::NeedWrite(d, name) => {
            assert!(name.starts_with("example.com-"));
            assert!(name.ends_with(".json"));
            let failed = interpret_save_finish(
                d,
                Err(SaveFailure { message: "write".to_string(), source: "disk full".to_string() }),
            );
            assert!(matches!(
                failed,
                Err(PipelineError::SaveFailedWithSource { source, .. }) if source == "disk full"
            ));
        }
        _ => panic!("expected a write"),
    }
}

#[test]
fn errors_pass_through_every_step() {
    let err = || -> CommandAccumulator { Err(PipelineError::InvalidState("earlier".to_string())) };
    let url = PodcastURL::new("http://example.com/feed");
    assert!(matches!(interpret_eval_url_begin(&url, err()), EvalUrlStep::Finished(Err(PipelineError::InvalidState(_)))));
    assert!(matches!(interpret_download_begin(&url, err()), DownloadStep::Finished(Err(PipelineError::InvalidState(_)))));
    assert!(matches!(interpret_save_begin(err()), SaveStep::Finished(Err(PipelineError::InvalidState(_)))));
    assert!(matches!(interpret_load_opml_file_begin(err()), LoadOpmlStep::Finished(Err(PipelineError::InvalidState(_)))));
    assert!(matches!(
        interpret_process_opml_entries_begin(&vec![entry("a", "http://a.example/rss")], err()),
        ProcessOpmlStep::Finished(Err(PipelineError::InvalidState(_)))
    ));
    assert!(matches!(interpret_end(err()), Err(PipelineError::InvalidState(_))));
}

#[test]
fn empty_opml_batch_succeeds_without_requests() {
    let fetcher = FakeFetcher { response: TWO_EPISODES.to_string() };
    let mut log = Log::default();
    let cmd = PodcastCmd::process_opml_entries(Vec::new(), PodcastCmd::end());
    let acc = run_chain(&cmd, Ok(PipelineData::default()), &fetcher, &[], &mut log);
    assert!(acc.is_ok());
    assert_eq!(log.heads + log.partial_gets + log.gets, 0);
    assert!(log.written.is_empty());
}

#[test]
fn opml_batch_succeeds_and_counts_failed_entries() {
    let fetcher = FakeFetcher { response: TWO_EPISODES.to_string() };
    let entries = vec![
        entry("one", "http://one.example/rss"),
        entry("two", "http://two.example/rss"),
        entry("three", "http://three.example/rss"),
        entry("four", "ftp://four.example/rss"),
    ];
    let broken = ["http://two.example/rss"];
    let (data, cmds) = match interpret_process_opml_entries_begin(&entries, Ok(PipelineData::default())) {
        ProcessOpmlStep::RunAll(d, _, c) => (d, c),
        _ => panic!("expected a batch"),
    };
    assert_eq!(cmds.len(), 4);
    let mut log = Log::default();
    let ok: Vec<bool> = cmds
        .iter()
        .map(|c| run_chain(c, Ok(PipelineData::default()), &fetcher, &broken, &mut log).is_ok())
        .collect();
    assert_eq!(ok, vec![true, false, true, false]);
    let (acc, failures) = interpret_process_opml_entries_finish(data, &ok);
    assert!(acc.is_ok());
    assert_eq!(failures, 2);
    assert_eq!(log.written.len(), 2);
}

#[test]
fn batch_prefers_loaded_entries_and_takes_them() {
    let data = PipelineData {
        last_evaluated_url: None,
        current_podcast: None,
        opml_entries: Some(vec![entry("loaded", "http://loaded.example/rss")]),
    };
    let explicit = vec![entry("a", "http://a.example/rss"), entry("b", "http://b.example/rss")];
    match interpret_process_opml_entries_begin(&explicit, Ok(data)) {
        ProcessOpmlStep::RunAll(d, _, cmds) => {
            assert!(d.opml_entries.is_none());
            assert_eq!(cmds.len(), 1);
            match &cmds[0] {
                PodcastCmd::EvalUrl(u, _) => assert_eq!(u.as_str(), "http://loaded.example/rss"),
                other => panic!("{:?}", other),
            }
        }
        _ => panic!("expected a batch"),
    }
}

#[test]
fn loading_opml_stores_entries_or_fails() {
    let text = r#"<?xml version="1.0"?><opml version="2.0"><head/><body>
        <outline text="A" xmlUrl="http://a.example/rss"/></body></opml>"#;
    let d = match interpret_load_opml_file_begin(Ok(PipelineData::default())) {
        LoadOpmlStep::NeedRead(d) => d,
        _ => panic!("expected a read"),
    };
    let acc = interpret_load_opml_file_finish(d, "subs.opml", Ok(text.to_string()));
    let entries = acc.unwrap().opml_entries.unwrap();
    assert_eq!(entries.len(), 1);
    assert_eq!(entries[0].xml_url, "http://a.example/rss");

    let acc = interpret_load_opml_file_finish(PipelineData::default(), "missing.opml", Err("not found".to_string()));
    assert!(matches!(acc, Err(PipelineError::EvaluationFailedWithSource { .. })));
}

#[test]
fn filenames_are_stable_and_keyed_on_host_and_url() {
    let a = generate_podcast_filename(&PodcastURL::new("http://example.com/feed")).unwrap();
    let b = generate_podcast_filename(&PodcastURL::new("http://example.com/feed")).unwrap();
    let c = generate_podcast_filename(&PodcastURL::new("http://example.com/other")).unwrap();
    let d = generate_podcast_filename(&PodcastURL::new("http://other.org/feed")).unwrap();
    assert_eq!(a, b);
    assert_ne!(a, c);
    assert!(c.starts_with("example.com-"));
    assert!(d.starts_with("other.org-"));
    let ip6 = generate_podcast_filename(&PodcastURL::new("http://[::1]/feed")).unwrap();
    assert!(ip6.starts_with("___1_-"), "{}", ip6);
    assert!(matches!(
        generate_podcast_filename(&PodcastURL::new("::nonsense")),
        Err(PipelineError::SaveFailedWithMessage(_))
    ));
}

#[test]
fn url_hash_is_hex_of_default_hasher() {
    let mut h = std::collections::hash_map::DefaultHasher::new();
    std::hash::Hash::hash("http://example.com/feed", &mut h);
    let expected = format!("{:x}", std::hash::Hasher::finish(&h));
    assert_eq!(calculate_url_hash("http://example.com/feed"), expected);
    assert_eq!(hex_string(0), "0");
    assert_eq!(hex_string(255), "ff");
    assert_eq!(hex_string(0x1a2b3c), "1a2b3c");
    assert_eq!(hex_string(u64::MAX), "ffffffffffffffff");
}

#[test]
fn host_sanitizing_keeps_alphanumerics_dots_and_dashes() {
    assert_eq!(sanitize_host_name("my-host.example"), "my-host.example");
    assert_eq!(sanitize_host_name("a:b@c"), "a_b_c");
    assert_eq!(sanitize_host_name("bücher.de"), "bücher.de");
}

#[test]
fn evaluation_errors_name_the_url() {
    let url = PodcastURL::new("ftp://example.com/feed");
    match interpret_eval_url_begin(&url, Ok(PipelineData::default())) {
        EvalUrlStep::Finished(Err(PipelineError::EvaluationFailed(m))) => {
            assert_eq!(m, "Invalid URL scheme for 'ftp://example.com/feed': 'ftp'. Only http/https supported.");
        }
        _ => panic!("expected a scheme error"),
    }
    let bad = PodcastURL::new("not a url");
    match interpret_eval_url_begin(&bad, Ok(PipelineData::default())) {
        EvalUrlStep::Finished(Err(PipelineError::EvaluationFailed(m))) => {
            assert!(m.starts_with("Invalid URL format for 'not a url': "), "{}", m);
        }
        _ => panic!("expected a syntax error"),
    }
    let acc = interpret_eval_url_after_partial_get(
        &PodcastURL::new("http://example.com/x"),
        PipelineData::default(),
        Err(DownloaderError::NetworkError("timeout".to_string())),
    );
    match acc {
        Err(PipelineError::EvaluationFailedWithSource { message, .. }) => {
            assert_eq!(message, "Failed to fetch partial content for URL evaluation of 'http://example.com/x'");
        }
        _ => panic!("expected a wrapped transport error"),
    }
}

#[test]
fn filename_error_names_the_url() {
    match generate_podcast_filename(&PodcastURL::new("::nonsense")) {
        Err(PipelineError::SaveFailedWithMessage(m)) => {
            assert!(m.starts_with("Invalid URL format for filename generation ('::nonsense'): "), "{}", m)
        }
        _ => panic!("expected a save failure"),
    }
}

#[test]
fn opml_load_failures_wrap_the_error_text() {
    let acc = interpret_load_opml_file_finish(PipelineData::default(), "subs.opml", Err("no such file".to_string()));
    match acc {
        Err(PipelineError::EvaluationFailedWithSource { message, source: DownloaderError::Failed(m) }) => {
            assert_eq!(m, "Failed to read OPML file: no such file");
            assert_eq!(message, "Failed to parse OPML file 'subs.opml': Failed to read OPML file: no such file");
        }
        other => panic!("{:?}", other),
    }
    let text = r#"<?xml version="1.0"?><opml version="2.0"><head/><body>
        <outline text="A" type="rss"/></body></opml>"#;
    let acc = interpret_load_opml_file_finish(PipelineData::default(), "subs.opml", Ok(text.to_string()));
    match acc {
        Err(PipelineError::EvaluationFailedWithSource { source: DownloaderError::Failed(m), message }) => {
            assert_eq!(m, "Outline item is missing required 'xmlUrl' attribute for a feed");
            assert!(message.contains("subs.opml"));
        }
        other => panic!("{:?}", other),
    }
    let acc = interpret_load_opml_file_finish(PipelineData::default(), "subs.opml", Ok("garbage".to_string()));
    match acc {
        Err(PipelineError::EvaluationFailedWithSource { source: DownloaderError::Failed(m), .. }) => {
            assert!(m.starts_with("Failed to parse OPML data: "), "{}", m);
        }
        other => panic!("{:?}", other),
    }
}

#[test]
fn batch_hands_out_entries_with_their_chains() {
    let entries = vec![entry("one", "http://one.example/rss"), entry("two", "http://two.example/rss")];
    match interpret_process_opml_entries_begin(&entries, Ok(PipelineData::default())) {
        ProcessOpmlStep::RunAll(_, es, cmds) => {
            assert_eq!(es.len(), 2);
            assert_eq!(es[1].title, "two");
            assert_eq!(cmds.len(), 2);
        }
        _ => panic!("expected a batch"),
    }
}
