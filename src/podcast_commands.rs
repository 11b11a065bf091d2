//! The command chain: each step names what to do and owns the step after it.

use vstd::prelude::*;
use crate::opml_parser::{OpmlFeedEntry, OpmlFeedEntryView, entries_view};
use crate::podcast::PodcastURL;

verus! {

/// One step of a pipeline, owning the rest of the chain; `End` closes it.
#[derive(Debug)]
pub enum PodcastCmd {
    EvalUrl(PodcastURL, Box<PodcastCmd>),
    Download(PodcastURL, Box<PodcastCmd>),
    Save(Box<PodcastCmd>),
    LoadOpmlFile(String, Box<PodcastCmd>),
    ProcessOpmlEntries(Vec<OpmlFeedEntry>, Box<PodcastCmd>),
    End,
}

/// The step after `c`, if `c` is not `End`.
pub open spec fn successor(c: PodcastCmd) -> Option<PodcastCmd> {
    match c {
        PodcastCmd::EvalUrl(_, n) => Some(*n),
        PodcastCmd::Download(_, n) => Some(*n),
        PodcastCmd::Save(n) => Some(*n),
        PodcastCmd::LoadOpmlFile(_, n) => Some(*n),
        PodcastCmd::ProcessOpmlEntries(_, n) => Some(*n),
        PodcastCmd::End => None,
    }
}

/// The number of steps of a chain, `End` included.
pub open spec fn chain_len(c: PodcastCmd) -> nat
    decreases c,
{
    match c {
        PodcastCmd::EvalUrl(_, n) => 1 + chain_len(*n),
        PodcastCmd::Download(_, n) => 1 + chain_len(*n),
        PodcastCmd::Save(n) => 1 + chain_len(*n),
        PodcastCmd::LoadOpmlFile(_, n) => 1 + chain_len(*n),
        PodcastCmd::ProcessOpmlEntries(_, n) => 1 + chain_len(*n),
        PodcastCmd::End => 1,
    }
}

/// The chain that imports one feed: evaluate `url`, download from it
/// (with `url` as the fallback), save, end.
pub open spec fn is_import_chain(c: PodcastCmd, url: Seq<char>) -> bool {
    match c {
        PodcastCmd::EvalUrl(u, n1) => u@ == url && match *n1 {
            PodcastCmd::Download(v, n2) => v@ == url && match *n2 {
                PodcastCmd::Save(n3) => *n3 is End,
                _ => false,
            },
            _ => false,
        },
        _ => false,
    }
}

impl PodcastCmd {
    pub fn eval_url(url: PodcastURL, next: PodcastCmd) -> (r: PodcastCmd)
        ensures
            r matches PodcastCmd::EvalUrl(u, n) && u@ == url@ && *n == next,
    {
        PodcastCmd::EvalUrl(url, Box::new(next))
    }

    pub fn eval_url_from_str(url_str: &str, next: PodcastCmd) -> (r: PodcastCmd)
        ensures
            r matches PodcastCmd::EvalUrl(u, n) && u@ == url_str@ && *n == next,
    {
        PodcastCmd::EvalUrl(PodcastURL::new(url_str), Box::new(next))
    }

    pub fn download(url: PodcastURL, next: PodcastCmd) -> (r: PodcastCmd)
        ensures
            r matches PodcastCmd::Download(u, n) && u@ == url@ && *n == next,
    {
        PodcastCmd::Download(url, Box::new(next))
    }

    pub fn save(next: PodcastCmd) -> (r: PodcastCmd)
        ensures
            r matches PodcastCmd::Save(n) && *n == next,
    {
        PodcastCmd::Save(Box::new(next))
    }

    pub fn load_opml_file(path: String, next: PodcastCmd) -> (r: PodcastCmd)
        ensures
            r matches PodcastCmd::LoadOpmlFile(p, n) && p@ == path@ && *n == next,
    {
        PodcastCmd::LoadOpmlFile(path, Box::new(next))
    }

    pub fn process_opml_entries(entries: Vec<OpmlFeedEntry>, next: PodcastCmd) -> (r: PodcastCmd)
        ensures
            r matches PodcastCmd::ProcessOpmlEntries(es, n) && entries_view(es@) == entries_view(
                entries@,
            ) && *n == next,
    {
        PodcastCmd::ProcessOpmlEntries(entries, Box::new(next))
    }

    pub fn end() -> (r: PodcastCmd)
        ensures
            r is End,
    {
        PodcastCmd::End
    }

    /// The step after this one; `None` exactly at `End`. Each step is
    /// shorter than the last, so a walk that follows it reaches `End`.
    pub fn next(&self) -> (r: Option<&PodcastCmd>)
        ensures
            r is None <==> self is End,
            match r {
                Some(n) => successor(*self) == Some(*n) && chain_len(*n) < chain_len(*self),
                None => successor(*self) is None,
            },
    {
        match self {
            PodcastCmd::EvalUrl(_, n) => Some(&**n),
            PodcastCmd::Download(_, n) => Some(&**n),
            PodcastCmd::Save(n) => Some(&**n),
            PodcastCmd::LoadOpmlFile(_, n) => Some(&**n),
            PodcastCmd::ProcessOpmlEntries(_, n) => Some(&**n),
            PodcastCmd::End => None,
        }
    }

    /// The chain that imports the feed at `url`.
    pub fn import_chain(url: &PodcastURL) -> (r: PodcastCmd)
        ensures
            is_import_chain(r, url@),
    {
        PodcastCmd::eval_url(
            url.duplicate(),
            PodcastCmd::download(url.duplicate(), PodcastCmd::save(PodcastCmd::end())),
        )
    }
}

} // verus!
