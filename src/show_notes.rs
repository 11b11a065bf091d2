//! Turning an episode description into show-notes text.

use vstd::prelude::*;
use crate::scrollable_paragraph::{is_whitespace, pieces, trim_text, trimmed, whitespace};
use crate::text::{chars_of, seq_contains, str_contains, string_of_chars};

verus! {

/// What `html2text::from_read` renders of an HTML text at 80 columns:
/// `None` where it fails.
pub uninterp spec fn html_render_of(s: Seq<char>) -> Option<Seq<char>>;

/// Relies on `html2text::from_read` at a width of 80 columns: the outcome
/// depends on the text alone.
#[verifier::external_body]
fn render_html(s: &str) -> (r: Option<String>)
    ensures
        match r {
            Some(t) => html_render_of(s@) == Some(t@),
            None => html_render_of(s@).is_none(),
        },
{
    html2text::from_read(s.as_bytes(), 80).ok()
}

/// A line without its trailing whitespace.
pub open spec fn trim_end_ws(l: Seq<char>) -> Seq<char>
    decreases l.len(),
{
    if l.len() > 0 && whitespace(l.last()) {
        trim_end_ws(l.drop_last())
    } else {
        l
    }
}

/// The lines, each without trailing whitespace, the empty ones left out,
/// joined by line feeds.
pub open spec fn tidy_lines(ls: Seq<Seq<char>>) -> Seq<char>
    decreases ls.len(),
{
    if ls.len() == 0 {
        Seq::empty()
    } else {
        let prev = tidy_lines(ls.drop_last());
        let t = trim_end_ws(ls.last());
        if t.len() == 0 {
            prev
        } else if prev.len() == 0 {
            t
        } else {
            prev + seq!['\n'] + t
        }
    }
}

/// A description that looks like HTML: it holds '<', '>' and "</".
pub open spec fn looks_like_html(s: Seq<char>) -> bool {
    seq_contains(s, "<"@) && seq_contains(s, ">"@) && seq_contains(s, "</"@)
}

/// The show notes of an episode with this description.
pub open spec fn show_notes_of(description: Option<Seq<char>>) -> Seq<char> {
    match description {
        None => trimmed("No show notes available for this episode."@),
        Some(d) => if looks_like_html(d) {
            match html_render_of(d) {
                Some(t) => trimmed(tidy_lines(pieces(t))),
                None => trimmed(d),
            }
        } else {
            trimmed(d)
        },
    }
}

fn trim_end_chars(l: &Vec<char>) -> (r: usize)
    ensures
        r <= l@.len(),
        trim_end_ws(l@) == l@.subrange(0, r as int),
{
    let mut n: usize = l.len();
    assert(l@.subrange(0, n as int) =~= l@);
    while n > 0 && is_whitespace(l[n - 1])
        invariant
            n <= l@.len(),
            trim_end_ws(l@) == trim_end_ws(l@.subrange(0, n as int)),
        decreases n,
    {
        assert(l@.subrange(0, n as int).drop_last() =~= l@.subrange(0, n - 1));
        n = n - 1;
    }
    n
}

/// Appends `piece`, trimmed at its end, to `out` as `tidy_lines` does.
fn push_line(out: &mut Vec<char>, piece: &Vec<char>)
    ensures
        ({
            let t = trim_end_ws(piece@);
            final(out)@ == if t.len() == 0 {
                old(out)@
            } else if old(out)@.len() == 0 {
                t
            } else {
                old(out)@ + seq!['\n'] + t
            }
        }),
{
    let n = trim_end_chars(piece);
    if n == 0 {
        return;
    }
    let ghost start = out@;
    if out.len() > 0 {
        out.push('\n');
    }
    let ghost mid = out@;
    let mut i: usize = 0;
    while i < n
        invariant
            i <= n <= piece@.len(),
            out@ == mid + piece@.subrange(0, i as int),
        decreases n - i,
    {
        out.push(piece[i]);
        proof {
            assert(piece@.subrange(0, i + 1) =~= piece@.subrange(0, i as int).push(piece@[i as int]));
            assert(mid + piece@.subrange(0, i + 1) =~= (mid + piece@.subrange(0, i as int)).push(
                piece@[i as int],
            ));
        }
        i = i + 1;
    }
    proof {
        if start.len() == 0 {
            assert(out@ =~= piece@.subrange(0, n as int));
        } else {
            assert(out@ =~= start + seq!['\n'] + piece@.subrange(0, n as int));
        }
    }
}

/// The lines of `text`, each without trailing whitespace, the empty ones
/// left out, joined by line feeds.
pub fn tidy_text(text: &str) -> (r: String)
    ensures
        r@ == tidy_lines(pieces(text@)),
{
    let c = chars_of(text);
    let ghost s = c@;
    let mut out: Vec<char> = Vec::new();
    let mut piece: Vec<char> = Vec::new();
    let mut i: usize = 0;
    proof {
        assert(s.subrange(0, 0) =~= Seq::<char>::empty());
        assert(pieces(Seq::<char>::empty()).drop_last() =~= Seq::<Seq<char>>::empty());
    }
    while i < c.len()
        invariant
            i <= s.len(),
            c@ == s,
            pieces(s.subrange(0, i as int)).len() >= 1,
            out@ == tidy_lines(pieces(s.subrange(0, i as int)).drop_last()),
            piece@ == pieces(s.subrange(0, i as int)).last(),
        decreases s.len() - i,
    {
        let ch = c[i];
        let ghost pre = s.subrange(0, i as int);
        let ghost p = pieces(pre);
        proof {
            let next = s.subrange(0, i + 1);
            assert(next.drop_last() =~= pre);
            assert(next.last() == ch);
        }
        if ch == '\n' {
            push_line(&mut out, &piece);
            piece = Vec::new();
            proof {
                let np = pieces(s.subrange(0, i + 1));
                assert(np == p.push(Seq::<char>::empty()));
                assert(np.drop_last() =~= p);
                assert(p.drop_last() =~= p.subrange(0, p.len() - 1));
                assert(np.last() =~= piece@);
            }
        } else {
            piece.push(ch);
            proof {
                let np = pieces(s.subrange(0, i + 1));
                assert(np == p.update(p.len() - 1, p.last().push(ch)));
                assert(np.drop_last() =~= p.drop_last());
            }
        }
        i = i + 1;
    }
    proof {
        assert(s.subrange(0, i as int) =~= s);
    }
    push_line(&mut out, &piece);
    string_of_chars(&out)
}

/// The show-notes text of a description: HTML rendered as text, blank
/// lines dropped; other text as it is; a placeholder without one; trimmed
/// in every case.
pub fn format_episode_description(description: Option<&str>) -> (r: String)
    ensures
        r@ == show_notes_of(
            match description {
                Some(d) => Some(d@),
                None => None,
            },
        ),
{
    match description {
        None => trim_text("No show notes available for this episode."),
        Some(d) => {
            if str_contains(d, "<") && str_contains(d, ">") && str_contains(d, "</") {
                match render_html(d) {
                    Some(t) => {
                        let tidy = tidy_text(t.as_str());
                        trim_text(tidy.as_str())
                    },
                    None => trim_text(d),
                }
            } else {
                trim_text(d)
            }
        },
    }
}

} // verus!
