//! The pipeline's steps. Each command is interpreted over the accumulator in
//! stages: a stage either finishes the step or names the outside work (a
//! request, a file, a batch of sub-pipelines) whose outcome the next stage
//! takes. An accumulator in the error state passes through every step as it is.

use vstd::prelude::*;
use crate::errors::{DownloaderError, PipelineError};
use crate::opml_parser::{
    OpmlFeedEntry, OpmlFeedEntryView, OpmlParseError, entries_view, opml_parse_outcome,
    parse_opml_from_string,
};
use crate::podcast_commands::{PodcastCmd, is_import_chain};
use crate::podcast::{Podcast, PodcastURL, PodcastView};
use crate::podcast_download::{default_factory, download_and_create_podcast};
use crate::podcast_factory::{podcast_from_channel, rss_channel_of};
use crate::text::{chars_of, lemma_starts_with_concat, starts_with, string_of_chars};
use crate::validate::{
    parse_url, url_parts_of,
    ValidationStepResult, head_validates, rejection_message, is_feed_prefix, syntax_and_scheme_ok,
    try_validate_via_head, try_validate_via_partial_get, validate_url_syntax_and_scheme,
};

verus! {

/// What the steps of one pipeline hand on to each other.
#[derive(Debug, Clone)]
pub struct PipelineData {
    /// The URL that the last evaluation validated, until a download takes it.
    pub last_evaluated_url: Option<PodcastURL>,
    /// The podcast of the last download.
    pub current_podcast: Option<Podcast>,
    /// The entries of the last OPML file loaded, until they are processed.
    pub opml_entries: Option<Vec<OpmlFeedEntry>>,
}

/// The mathematical content of the pipeline data.
pub struct PipelineDataView {
    pub last_evaluated_url: Option<Seq<char>>,
    pub current_podcast: Option<PodcastView>,
    pub opml_entries: Option<Seq<OpmlFeedEntryView>>,
}

impl View for PipelineData {
    type V = PipelineDataView;

    open spec fn view(&self) -> PipelineDataView {
        PipelineDataView {
            last_evaluated_url: match self.last_evaluated_url {
                Some(u) => Some(u@),
                None => None,
            },
            current_podcast: match self.current_podcast {
                Some(p) => Some(p@),
                None => None,
            },
            opml_entries: match self.opml_entries {
                Some(es) => Some(entries_view(es@)),
                None => None,
            },
        }
    }
}

impl Default for PipelineData {
    fn default() -> (r: PipelineData)
        ensures
            r.last_evaluated_url is None,
            r.current_podcast is None,
            r.opml_entries is None,
    {
        PipelineData { last_evaluated_url: None, current_podcast: None, opml_entries: None }
    }
}

/// The value threaded through the steps of a pipeline.
pub type CommandAccumulator = Result<PipelineData, PipelineError>;

/// The data once `url` was validated: the URL is recorded and any podcast
/// downloaded before is dropped.
pub open spec fn evaluated(v: PipelineDataView, url: Seq<char>) -> PipelineDataView {
    PipelineDataView { last_evaluated_url: Some(url), current_podcast: None, ..v }
}

fn record_evaluated(data: PipelineData, url: &PodcastURL) -> (r: PipelineData)
    ensures
        r@ == evaluated(data@, url@),
{
    PipelineData {
        last_evaluated_url: Some(url.duplicate()),
        current_podcast: None,
        opml_entries: data.opml_entries,
    }
}

/// Where an evaluation stands.
#[derive(Debug)]
pub enum EvalUrlStep {
    /// The step is over, with this accumulator.
    Finished(CommandAccumulator),
    /// A HEAD request for the URL decides next.
    NeedHead(PipelineData),
    /// The first 4096 bytes of the body (positions 0 through 4095) decide.
    NeedPartialGet(PipelineData),
}

/// The last position of the body that an evaluation reads.
pub const PARTIAL_GET_LAST_BYTE: u64 = 4095;

/// Starts evaluating `url_to_eval`: the syntax and scheme are checked, and
/// no request is made before they pass.
pub fn interpret_eval_url_begin(url_to_eval: &PodcastURL, current_acc: CommandAccumulator) -> (r:
    EvalUrlStep)
    ensures
        current_acc is Err ==> r == EvalUrlStep::Finished(current_acc),
        current_acc is Ok && syntax_and_scheme_ok(url_to_eval@) ==> r == EvalUrlStep::NeedHead(
            current_acc->Ok_0,
        ),
        current_acc is Ok && !syntax_and_scheme_ok(url_to_eval@) ==> (r matches EvalUrlStep::Finished(
            Err(PipelineError::EvaluationFailed(m)),
        ) && rejection_message(m@, url_to_eval@)),
{
    let data = match current_acc {
        Ok(d) => d,
        Err(e) => {
            return EvalUrlStep::Finished(Err(e));
        },
    };
    match validate_url_syntax_and_scheme(url_to_eval.as_str()) {
        Ok(_) => EvalUrlStep::NeedHead(data),
        Err(e) => EvalUrlStep::Finished(Err(e)),
    }
}

/// Goes on from the answer to the HEAD request. A feed content type
/// finishes the evaluation with success; anything else, a failed request
/// included, asks for the partial GET.
pub fn interpret_eval_url_after_head(
    url_to_eval: &PodcastURL,
    data: PipelineData,
    head: Result<Vec<(String, String)>, DownloaderError>,
) -> (r: EvalUrlStep)
    ensures
        head is Ok && head_validates(head->Ok_0@) ==> (r matches EvalUrlStep::Finished(Ok(d))
            && d@ == evaluated(data@, url_to_eval@)),
        !(head is Ok && head_validates(head->Ok_0@)) ==> r == EvalUrlStep::NeedPartialGet(data),
{
    match try_validate_via_head(head) {
        Ok(ValidationStepResult::Validated) => EvalUrlStep::Finished(
            Ok(record_evaluated(data, url_to_eval)),
        ),
        Ok(ValidationStepResult::Inconclusive) => EvalUrlStep::NeedPartialGet(data),
        Err(_) => EvalUrlStep::NeedPartialGet(data),
    }
}

/// Ends the evaluation from the answer to the partial GET: a body that
/// starts like a feed validates the URL; any other body, and a failed
/// request, fail the evaluation.
pub fn interpret_eval_url_after_partial_get(
    url_to_eval: &PodcastURL,
    data: PipelineData,
    partial: Result<String, DownloaderError>,
) -> (r: CommandAccumulator)
    ensures
        match partial {
            Ok(b) => if is_feed_prefix(b@) {
                r matches Ok(d) && d@ == evaluated(data@, url_to_eval@)
            } else {
                r matches Err(PipelineError::EvaluationFailed(m)) && m@ == "URL content (first 4KB) of '"@
                    + url_to_eval@ + "' does not appear to be a valid RSS/Atom feed."@
            },
            Err(e) => r matches Err(PipelineError::EvaluationFailedWithSource { message, source })
                && source == e && message@
                == "Failed to fetch partial content for URL evaluation of '"@ + url_to_eval@
                + "'"@,
        },
{
    match try_validate_via_partial_get(partial) {
        Ok(ValidationStepResult::Validated) => Ok(record_evaluated(data, url_to_eval)),
        Ok(ValidationStepResult::Inconclusive) => Err(
            PipelineError::EvaluationFailed(
                String::from_str("URL content (first 4KB) of '").concat(url_to_eval.as_str()).concat(
                    "' does not appear to be a valid RSS/Atom feed.",
                ),
            ),
        ),
        Err(e) => Err(
            PipelineError::EvaluationFailedWithSource {
                message: String::from_str(
                    "Failed to fetch partial content for URL evaluation of '",
                ).concat(url_to_eval.as_str()).concat("'"),
                source: e,
            },
        ),
    }
}

/// The URL that a download fetches: the evaluated one, else the one that
/// the command carries.
pub open spec fn download_url(v: PipelineDataView, explicit: Seq<char>) -> Seq<char> {
    match v.last_evaluated_url {
        Some(u) => u,
        None => explicit,
    }
}

/// Where a download stands.
#[derive(Debug)]
pub enum DownloadStep {
    Finished(CommandAccumulator),
    /// The body at this URL is needed.
    NeedFetch(PipelineData, PodcastURL),
}

/// Starts a download: picks the URL to fetch.
pub fn interpret_download_begin(
    explicit_url_from_command: &PodcastURL,
    current_acc: CommandAccumulator,
) -> (r: DownloadStep)
    ensures
        current_acc is Err ==> r == DownloadStep::Finished(current_acc),
        current_acc is Ok ==> (r matches DownloadStep::NeedFetch(d, u) && d == current_acc->Ok_0
            && u@ == download_url(d@, explicit_url_from_command@)),
{
    let data = match current_acc {
        Ok(d) => d,
        Err(e) => {
            return DownloadStep::Finished(Err(e));
        },
    };
    let url = match &data.last_evaluated_url {
        Some(u) => u.duplicate(),
        None => explicit_url_from_command.duplicate(),
    };
    DownloadStep::NeedFetch(data, url)
}

/// The data after a successful download of `p`: the podcast is current and
/// the evaluated URL is used up.
pub open spec fn downloaded(v: PipelineDataView, p: PodcastView) -> PipelineDataView {
    PipelineDataView { current_podcast: Some(p), last_evaluated_url: None, ..v }
}

/// Ends a download from the fetched body of `url`.
pub fn interpret_download_finish(
    data: PipelineData,
    url: &PodcastURL,
    fetched: Result<String, DownloaderError>,
) -> (r: CommandAccumulator)
    ensures
        match fetched {
            Err(e) => r matches Err(PipelineError::DownloadFailed(x)) && x == e,
            Ok(body) => match rss_channel_of(body@) {
                None => r matches Err(PipelineError::DownloadFailed(DownloaderError::RssError(_))),
                Some(c) => r matches Ok(d) && d@.current_podcast matches Some(p) && d@ == downloaded(
                    data@,
                    podcast_from_channel(default_factory(), c, url@, p.last_updated),
                ),
            },
        },
{
    match download_and_create_podcast(url, fetched) {
        Ok(p) => Ok(
            PipelineData {
                last_evaluated_url: None,
                current_podcast: Some(p),
                opml_entries: data.opml_entries,
            },
        ),
        Err(e) => Err(PipelineError::DownloadFailed(e)),
    }
}

/// The last step of a chain: the accumulator as it came.
pub fn interpret_end(final_acc: CommandAccumulator) -> (r: CommandAccumulator)
    ensures
        r == final_acc,
{
    final_acc
}

/// The directory that podcasts are saved in.
pub const PODCAST_DATA_DIR: &'static str = "podcast_data";

/// What `char::is_alphanumeric` says of a character.
pub uninterp spec fn alphanumeric(c: char) -> bool;

/// Relies on `char::is_alphanumeric`: a property of the character alone,
/// which holds of every ASCII letter and digit.
#[verifier::external_body]
fn is_alphanumeric(c: char) -> (r: bool)
    ensures
        r == alphanumeric(c),
        ('a' <= c && c <= 'z') || ('A' <= c && c <= 'Z') || ('0' <= c && c <= '9') ==> r,
{
    c.is_alphanumeric()
}

/// What hashing a string with a fresh `DefaultHasher` gives.
pub uninterp spec fn url_hash_of(s: Seq<char>) -> u64;

/// Relies on `std::hash::DefaultHasher::new`, `str::hash` and `finish`:
/// every hasher made by `new` starts the same, so the result depends on the
/// string alone.
#[verifier::external_body]
fn hash_str(s: &str) -> (r: u64)
    ensures
        r == url_hash_of(s@),
{
    let mut h = std::collections::hash_map::DefaultHasher::new();
    std::hash::Hash::hash(s, &mut h);
    std::hash::Hasher::finish(&h)
}

/// The lower-case hexadecimal digit of `d`.
pub open spec fn hex_char(d: nat) -> char {
    if d < 10 {
        ((48 + d) as u8) as char
    } else {
        ((87 + d) as u8) as char
    }
}

/// `n` in lower-case hexadecimal, without leading zeros.
pub open spec fn hex_digits(n: nat) -> Seq<char>
    decreases n,
{
    if n < 16 {
        seq![hex_char(n)]
    } else {
        hex_digits(n / 16).push(hex_char(n % 16))
    }
}

fn hex_digit(d: u64) -> (r: char)
    requires
        d < 16,
    ensures
        r == hex_char(d as nat),
{
    if d < 10 {
        (48u8 + d as u8) as char
    } else {
        (87u8 + d as u8) as char
    }
}

/// `n` in lower-case hexadecimal, without leading zeros.
pub fn hex_string(n: u64) -> (r: String)
    ensures
        r@ == hex_digits(n as nat),
    decreases n,
{
    if n < 16 {
        let mut v: Vec<char> = Vec::new();
        v.push(hex_digit(n));
        proof {
            assert(v@ =~= seq![hex_char(n as nat)]);
        }
        string_of_chars(&v)
    } else {
        let front = hex_string(n / 16);
        let mut v = chars_of(front.as_str());
        v.push(hex_digit(n % 16));
        string_of_chars(&v)
    }
}

/// The hash of a URL string, in lower-case hexadecimal.
pub fn calculate_url_hash(url_str: &str) -> (r: String)
    ensures
        r@ == hex_digits(url_hash_of(url_str@) as nat),
{
    hex_string(hash_str(url_str))
}

/// A character kept in a file name: alphanumeric, '.' or '-'.
pub open spec fn file_name_char(c: char) -> bool {
    alphanumeric(c) || c == '.' || c == '-'
}

/// A host with every character that is not kept in a file name replaced by '_'.
pub open spec fn sanitize_host(h: Seq<char>) -> Seq<char> {
    h.map_values(|c: char| if file_name_char(c) { c } else { '_' })
}

/// Replaces each character of `host` that is not kept in file names by '_'.
pub fn sanitize_host_name(host: &str) -> (r: String)
    ensures
        r@ == sanitize_host(host@),
{
    let c = chars_of(host);
    let mut out: Vec<char> = Vec::new();
    let mut i: usize = 0;
    while i < c.len()
        invariant
            i <= c@.len(),
            c@ == host@,
            out@ == sanitize_host(c@.subrange(0, i as int)),
        decreases c@.len() - i,
    {
        let ch = c[i];
        let keep = is_alphanumeric(ch) || ch == '.' || ch == '-';
        out.push(if keep { ch } else { '_' });
        proof {
            assert(sanitize_host(c@.subrange(0, i + 1)) =~= sanitize_host(c@.subrange(0, i as int)).push(
                if file_name_char(ch) { ch } else { '_' },
            ));
        }
        i = i + 1;
    }
    proof {
        assert(c@.subrange(0, i as int) =~= c@);
    }
    string_of_chars(&out)
}

/// The file name that a podcast read from `url` is saved under:
/// `{sanitized host}-{hash of the URL}.json`, with "unknown_host" for a URL
/// without a host; `None` where the URL does not parse.
pub open spec fn podcast_filename(url: Seq<char>) -> Option<Seq<char>> {
    match url_parts_of(url) {
        None => None,
        Some(parts) => {
            let host = match parts.1 {
                Some(h) => h,
                None => "unknown_host"@,
            };
            Some(sanitize_host(host) + "-"@ + hex_digits(url_hash_of(url) as nat) + ".json"@)
        },
    }
}

/// The message when a URL gives no file name: it names the URL.
pub open spec fn unnamed_file_message(m: Seq<char>, url: Seq<char>) -> bool {
    starts_with(m, "Invalid URL format for filename generation ('"@ + url + "'): "@)
}

/// The file name that `podcast_url` is saved under.
pub fn generate_podcast_filename(podcast_url: &PodcastURL) -> (r: Result<String, PipelineError>)
    ensures
        match podcast_filename(podcast_url@) {
            Some(f) => r is Ok && r->Ok_0@ == f,
            None => r matches Err(PipelineError::SaveFailedWithMessage(m)) && unnamed_file_message(
                m@,
                podcast_url@,
            ),
        },
{
    let url_str = podcast_url.as_str();
    let parts = match parse_url(url_str) {
        Ok(p) => p,
        Err(e) => {
            let head = String::from_str("Invalid URL format for filename generation ('").concat(
                url_str,
            ).concat("'): ");
            let msg = head.concat(e.to_string().as_str());
            proof {
                lemma_starts_with_concat(head@, msg@.subrange(head@.len() as int, msg@.len() as int));
                assert(head@ + msg@.subrange(head@.len() as int, msg@.len() as int) =~= msg@);
            }
            return Err(PipelineError::SaveFailedWithMessage(msg));
        },
    };
    let host: String = match parts.host {
        Some(h) => h,
        None => "unknown_host".to_string(),
    };
    let sanitized = sanitize_host_name(host.as_str());
    let hash = calculate_url_hash(url_str);
    Ok(sanitized.concat("-").concat(hash.as_str()).concat(".json"))
}

/// Where a save stands.
#[derive(Debug)]
pub enum SaveStep {
    Finished(CommandAccumulator),
    /// The current podcast is to be written, under this file name, into
    /// the data directory, and announced once written.
    NeedWrite(PipelineData, String),
}

/// Why writing a podcast failed: what was being done, and the cause.
#[derive(Debug)]
pub struct SaveFailure {
    pub message: String,
    pub source: String,
}

/// Starts saving the current podcast: there must be one, and its URL must
/// give a file name.
pub fn interpret_save_begin(current_acc: CommandAccumulator) -> (r: SaveStep)
    ensures
        current_acc is Err ==> r == SaveStep::Finished(current_acc),
        current_acc matches Ok(d) ==> match d.current_podcast {
            None => r matches SaveStep::Finished(Err(PipelineError::InvalidState(_))),
            Some(p) => match podcast_filename(p@.url) {
                Some(f) => r matches SaveStep::NeedWrite(d2, name) && d2 == d && name@ == f,
                None => r matches SaveStep::Finished(Err(PipelineError::SaveFailedWithMessage(m)))
                    && unnamed_file_message(m@, p@.url),
            },
        },
{
    let data = match current_acc {
        Ok(d) => d,
        Err(e) => {
            return SaveStep::Finished(Err(e));
        },
    };
    let filename = match &data.current_podcast {
        None => {
            return SaveStep::Finished(
                Err(
                    PipelineError::InvalidState(
                        "Save called without a podcast in accumulator".to_string(),
                    ),
                ),
            );
        },
        Some(p) => generate_podcast_filename(p.url()),
    };
    match filename {
        Ok(name) => SaveStep::NeedWrite(data, name),
        Err(e) => SaveStep::Finished(Err(e)),
    }
}

/// Ends a save from the outcome of the write: the data passes on
/// unchanged, or the failure is reported with its cause.
pub fn interpret_save_finish(data: PipelineData, written: Result<(), SaveFailure>) -> (r:
    CommandAccumulator)
    ensures
        match written {
            Ok(()) => r == Ok::<PipelineData, PipelineError>(data),
            Err(f) => r matches Err(PipelineError::SaveFailedWithSource { message, source })
                && message == f.message && source == f.source,
        },
{
    match written {
        Ok(()) => Ok(data),
        Err(f) => Err(PipelineError::SaveFailedWithSource { message: f.message, source: f.source }),
    }
}

/// Where loading an OPML file stands.
#[derive(Debug)]
pub enum LoadOpmlStep {
    Finished(CommandAccumulator),
    /// The text of the file is needed.
    NeedRead(PipelineData),
}

/// Starts loading an OPML file.
pub fn interpret_load_opml_file_begin(current_acc: CommandAccumulator) -> (r: LoadOpmlStep)
    ensures
        current_acc is Err ==> r == LoadOpmlStep::Finished(current_acc),
        current_acc is Ok ==> r == LoadOpmlStep::NeedRead(current_acc->Ok_0),
{
    match current_acc {
        Ok(d) => LoadOpmlStep::NeedRead(d),
        Err(e) => LoadOpmlStep::Finished(Err(e)),
    }
}

/// The text that describes an OPML error: a fixed sentence for each kind,
/// followed by the read error's message, or by the `opml` crate's own
/// description of a format error.
pub open spec fn opml_error_text(e: OpmlParseError, m: Seq<char>) -> bool {
    match e {
        OpmlParseError::FileReadError(x) => m == "Failed to read OPML file: "@ + x@,
        OpmlParseError::OpmlFormatError(x) => exists|t: String|
            vstd::string::to_string_from_display_ensures::<opml::Error>(&x, t) && m
                == "Failed to parse OPML data: "@ + t@,
        OpmlParseError::NoBody => m == "OPML document has no body"@,
        OpmlParseError::MissingXmlUrl => m
            == "Outline item is missing required 'xmlUrl' attribute for a feed"@,
        OpmlParseError::MissingTitle => m == "Outline item is missing 'text' or 'title' attribute"@,
    }
}

/// The failure of loading the OPML file at `path`, whose error reads `m`:
/// an evaluation failure whose message names the path and the error, and
/// whose source carries the error's text.
pub open spec fn opml_load_failure(r: CommandAccumulator, path: Seq<char>, m: Seq<char>) -> bool {
    r matches Err(
        PipelineError::EvaluationFailedWithSource { message, source: DownloaderError::Failed(s) },
    ) && s@ == m && message@ == "Failed to parse OPML file '"@ + path + "': "@ + m
}

/// Ends loading the OPML file at `file_path` from its text, or from the
/// message of the read error: the entries are stored, or the failure is
/// reported as an evaluation failure that wraps the error.
pub fn interpret_load_opml_file_finish(
    data: PipelineData,
    file_path: &str,
    file_text: Result<String, String>,
) -> (r: CommandAccumulator)
    ensures
        match file_text {
            Err(x) => opml_load_failure(r, file_path@, "Failed to read OPML file: "@ + x@),
            Ok(t) => forall|parsed: Result<Vec<OpmlFeedEntry>, OpmlParseError>| #[trigger]
                opml_parse_outcome(t@, parsed) ==> match parsed {
                    Ok(es) => r matches Ok(d) && d@ == PipelineDataView {
                        opml_entries: Some(entries_view(es@)),
                        ..data@
                    },
                    Err(_) => exists|e: OpmlParseError, m: Seq<char>|
                        opml_parse_outcome(t@, Err(e)) && opml_error_text(e, m)
                            && opml_load_failure(r, file_path@, m),
                },
        },
{
    let parsed = match file_text {
        Ok(t) => parse_opml_from_string(t.as_str()),
        Err(m) => Err(OpmlParseError::FileReadError(m)),
    };
    match parsed {
        Ok(entries) => Ok(
            PipelineData {
                last_evaluated_url: data.last_evaluated_url,
                current_podcast: data.current_podcast,
                opml_entries: Some(entries),
            },
        ),
        Err(e) => {
            let text = opml_error_message(&e);
            let message = String::from_str("Failed to parse OPML file '").concat(file_path).concat(
                "': ",
            ).concat(text.as_str());
            let r: CommandAccumulator = Err(
                PipelineError::EvaluationFailedWithSource {
                    message,
                    source: DownloaderError::Failed(text),
                },
            );
            proof {
                assert(opml_error_text(e, text@));
                assert(opml_load_failure(r, file_path@, text@));
            }
            r
        },
    }
}

/// A description of an OPML error.
fn opml_error_message(e: &OpmlParseError) -> (r: String)
    ensures
        opml_error_text(*e, r@),
{
    match e {
        OpmlParseError::FileReadError(m) => String::from_str("Failed to read OPML file: ").concat(
            m.as_str(),
        ),
        OpmlParseError::OpmlFormatError(x) => {
            let t = x.to_string();
            let r = String::from_str("Failed to parse OPML data: ").concat(t.as_str());
            proof {
                assert(vstd::string::to_string_from_display_ensures::<opml::Error>(x, t));
            }
            r
        },
        OpmlParseError::NoBody => "OPML document has no body".to_string(),
        OpmlParseError::MissingXmlUrl => "Outline item is missing required 'xmlUrl' attribute for a feed".to_string(),
        OpmlParseError::MissingTitle => "Outline item is missing 'text' or 'title' attribute".to_string(),
    }
}

/// The entries that a batch step processes: those of the accumulator, else
/// those that the command carries.
pub open spec fn entries_to_process(
    v: PipelineDataView,
    explicit: Seq<OpmlFeedEntryView>,
) -> Seq<OpmlFeedEntryView> {
    match v.opml_entries {
        Some(es) => es,
        None => explicit,
    }
}

/// The data once the batch step has taken the accumulator's entries.
pub open spec fn entries_taken(v: PipelineDataView) -> PipelineDataView {
    PipelineDataView { opml_entries: None, ..v }
}

/// Where a batch step stands.
#[derive(Debug)]
pub enum ProcessOpmlStep {
    Finished(CommandAccumulator),
    /// Each chain is to be run, concurrently, against fresh pipeline data;
    /// the step goes on once all have ended. The entries come with their
    /// chains, one for one, so that each outcome can be reported with its
    /// entry's title and URL.
    RunAll(PipelineData, Vec<OpmlFeedEntry>, Vec<PodcastCmd>),
}

fn copy_entries(es: &Vec<OpmlFeedEntry>) -> (r: Vec<OpmlFeedEntry>)
    ensures
        entries_view(r@) == entries_view(es@),
{
    let mut out: Vec<OpmlFeedEntry> = Vec::new();
    let mut i: usize = 0;
    while i < es.len()
        invariant
            i <= es@.len(),
            out@.len() == i,
            entries_view(out@) == entries_view(es@.subrange(0, i as int)),
        decreases es@.len() - i,
    {
        let e = &es[i];
        let ghost before = out@;
        out.push(
            OpmlFeedEntry {
                title: e.title.clone(),
                xml_url: e.xml_url.clone(),
                html_url: crate::text::clone_opt(&e.html_url),
            },
        );
        proof {
            assert(out@[i as int]@ == es@[i as int]@);
            assert forall|k: int| 0 <= k < i implies out@[k]@ == es@[k]@ by {
                assert(out@[k] == before[k]);
                assert(entries_view(before)[k] == entries_view(es@.subrange(0, i as int))[k]);
            }
            assert(entries_view(out@) =~= entries_view(es@.subrange(0, i + 1)));
        }
        i = i + 1;
    }
    proof {
        assert(es@.subrange(0, i as int) =~= es@);
    }
    out
}

/// Starts a batch step: takes the entries, and gives one import chain per
/// entry, for its feed URL. With no entries the step is over at once, and
/// nothing is fetched.
pub fn interpret_process_opml_entries_begin(
    feed_entries_to_process: &Vec<OpmlFeedEntry>,
    current_acc: CommandAccumulator,
) -> (r: ProcessOpmlStep)
    ensures
        current_acc is Err ==> r == ProcessOpmlStep::Finished(current_acc),
        current_acc matches Ok(d) ==> ({
            let es = entries_to_process(d@, entries_view(feed_entries_to_process@));
            if es.len() == 0 {
                r matches ProcessOpmlStep::Finished(Ok(d2)) && d2@ == entries_taken(d@)
            } else {
                r matches ProcessOpmlStep::RunAll(d2, ents, cmds) && d2@ == entries_taken(d@)
                    && entries_view(ents@) == es && cmds@.len() == es.len() && forall|i: int|
                    0 <= i < es.len() ==> is_import_chain(#[trigger] cmds@[i], es[i].xml_url)
            }
        }),
{
    let data = match current_acc {
        Ok(d) => d,
        Err(e) => {
            return ProcessOpmlStep::Finished(Err(e));
        },
    };
    let PipelineData { last_evaluated_url, current_podcast, opml_entries } = data;
    let entries: Vec<OpmlFeedEntry> = match opml_entries {
        Some(es) => es,
        None => copy_entries(feed_entries_to_process),
    };
    let rest = PipelineData { last_evaluated_url, current_podcast, opml_entries: None };
    if entries.len() == 0 {
        return ProcessOpmlStep::Finished(Ok(rest));
    }
    let mut cmds: Vec<PodcastCmd> = Vec::new();
    let mut i: usize = 0;
    while i < entries.len()
        invariant
            i <= entries@.len(),
            cmds@.len() == i,
            forall|k: int| 0 <= k < i ==> is_import_chain(#[trigger] cmds@[k], entries@[k].xml_url@),
        decreases entries@.len() - i,
    {
        let url = PodcastURL::new(entries[i].xml_url.as_str());
        cmds.push(PodcastCmd::import_chain(&url));
        i = i + 1;
    }
    proof {
        let es = entries_view(entries@);
        assert forall|k: int| 0 <= k < es.len() implies is_import_chain(
            #[trigger] cmds@[k],
            es[k].xml_url,
        ) by {
            assert(es[k] == entries@[k]@);
        }
    }
    ProcessOpmlStep::RunAll(rest, entries, cmds)
}

/// The number of `false` in `s`.
pub open spec fn count_failures(s: Seq<bool>) -> nat
    decreases s.len(),
{
    if s.len() == 0 {
        0
    } else {
        count_failures(s.drop_last()) + if s.last() {
            0nat
        } else {
            1nat
        }
    }
}

/// Ends a batch step once every chain has run, given whether each
/// succeeded: the step succeeds whatever they did, with the data as it
/// was, and reports how many failed.
pub fn interpret_process_opml_entries_finish(data: PipelineData, succeeded: &Vec<bool>) -> (r: (
    CommandAccumulator,
    usize,
))
    ensures
        r.0 == Ok::<PipelineData, PipelineError>(data),
        r.1 == count_failures(succeeded@),
{
    let mut failures: usize = 0;
    let mut i: usize = 0;
    while i < succeeded.len()
        invariant
            i <= succeeded@.len(),
            failures == count_failures(succeeded@.subrange(0, i as int)),
            failures <= i,
        decreases succeeded@.len() - i,
    {
        proof {
            assert(succeeded@.subrange(0, i + 1).drop_last() =~= succeeded@.subrange(0, i as int));
        }
        if !succeeded[i] {
            failures = failures + 1;
        }
        i = i + 1;
    }
    proof {
        assert(succeeded@.subrange(0, i as int) =~= succeeded@);
    }
    (Ok(data), failures)
}

/// File names are deterministic: the same URL always gets the same name.
pub proof fn lemma_filename_deterministic(u1: Seq<char>, u2: Seq<char>)
    requires
        u1 == u2,
    ensures
        podcast_filename(u1) == podcast_filename(u2),
{
}

/// Two different hosts whose characters are all kept in file names give
/// different sanitized prefixes.
pub proof fn lemma_distinct_hosts_distinct_prefixes(h1: Seq<char>, h2: Seq<char>)
    requires
        h1 != h2,
        forall|i: int| 0 <= i < h1.len() ==> file_name_char(#[trigger] h1[i]),
        forall|i: int| 0 <= i < h2.len() ==> file_name_char(#[trigger] h2[i]),
    ensures
        sanitize_host(h1) != sanitize_host(h2),
{
    assert(sanitize_host(h1) =~= h1);
    assert(sanitize_host(h2) =~= h2);
}

/// The hash part of a file name changes only where the URL string changes.
pub proof fn lemma_hash_changes_only_with_url(u1: Seq<char>, u2: Seq<char>)
    requires
        hex_digits(url_hash_of(u1) as nat) != hex_digits(url_hash_of(u2) as nat),
    ensures
        u1 != u2,
{
}

/// A download fetches the evaluated URL whenever there is one, whatever URL
/// the command carries, and a successful download leaves no evaluated URL.
pub proof fn lemma_download_prefers_evaluated(
    v: PipelineDataView,
    explicit: Seq<char>,
    p: PodcastView,
)
    requires
        v.last_evaluated_url is Some,
    ensures
        download_url(v, explicit) == v.last_evaluated_url->0,
        downloaded(v, p).last_evaluated_url is None,
{
}

} // verus!




