//! Reading the feed entries out of an OPML subscription list.

use vstd::prelude::*;
use crate::podcast::opt_view;
use crate::text::{chars_of, clone_opt};

verus! {

#[verifier::external_type_specification]
#[verifier::external_body]
pub struct ExOpmlError(opml::Error);

#[verifier::external_type_specification]
#[verifier::external_body]
pub struct ExOpmlOutline(opml::Outline);

/// Why an OPML document yields no feed list.
#[derive(Debug)]
pub enum OpmlParseError {
    /// The file could not be read; the message says why.
    FileReadError(String),
    /// The text is not a well-formed OPML document.
    OpmlFormatError(opml::Error),
    NoBody,
    /// An outline marked as a feed has no `xmlUrl`.
    MissingXmlUrl,
    /// An outline marked as a feed has neither a `title` nor a `text`.
    MissingTitle,
}

/// One subscription of an OPML list.
#[derive(Debug, Clone)]
pub struct OpmlFeedEntry {
    pub title: String,
    pub xml_url: String,
    pub html_url: Option<String>,
}

/// The mathematical content of a feed entry.
pub struct OpmlFeedEntryView {
    pub title: Seq<char>,
    pub xml_url: Seq<char>,
    pub html_url: Option<Seq<char>>,
}

impl View for OpmlFeedEntry {
    type V = OpmlFeedEntryView;

    open spec fn view(&self) -> OpmlFeedEntryView {
        OpmlFeedEntryView { title: self.title@, xml_url: self.xml_url@, html_url: opt_view(self.html_url) }
    }
}

/// The views of a sequence of entries.
pub open spec fn entries_view(s: Seq<OpmlFeedEntry>) -> Seq<OpmlFeedEntryView> {
    s.map_values(|e: OpmlFeedEntry| e@)
}

/// An outline element of an OPML body, with the attributes that feed
/// discovery reads.
#[derive(Debug)]
pub struct FeedOutline {
    pub text: String,
    pub outline_type: Option<String>,
    pub xml_url: Option<String>,
    pub html_url: Option<String>,
    pub title: Option<String>,
    pub outlines: Vec<FeedOutline>,
}

/// What `opml::OPML::from_str` makes of a text: `None` where it refuses
/// the text, else the outlines of the document's body.
pub uninterp spec fn opml_outlines_of(s: Seq<char>) -> Option<Seq<FeedOutline>>;

/// Converts an outline of the `opml` crate, with its children; the
/// conversion step of `read_opml_outlines`. The `type` attribute is read
/// through the outline's serde form, where it is named "type".
#[verifier::external_body]
fn outline_from_opml(o: opml::Outline) -> FeedOutline {
    let ty = serde_json::to_value(&o).ok().and_then(
        |v| v.get("type").and_then(|t| t.as_str().map(String::from)),
    );
    FeedOutline {
        text: o.text,
        outline_type: ty,
        xml_url: o.xml_url,
        html_url: o.html_url,
        title: o.title,
        outlines: o.outlines.into_iter().map(outline_from_opml).collect(),
    }
}

/// Relies on `opml::OPML::from_str`: the body's outlines, or the crate's
/// error; the outcome depends on the text alone.
#[verifier::external_body]
fn read_opml_outlines(s: &str) -> (r: Result<Vec<FeedOutline>, opml::Error>)
    ensures
        match r {
            Ok(v) => opml_outlines_of(s@) == Some(v@),
            Err(_) => opml_outlines_of(s@).is_none(),
        },
{
    opml::OPML::from_str(s).map(|d| d.body.outlines.into_iter().map(outline_from_opml).collect())
}

/// The type attribute says "rss", in any mix of ASCII case.
pub open spec fn is_rss_type(t: Option<Seq<char>>) -> bool {
    t matches Some(s) && s.len() == 3 && (s[0] == 'r' || s[0] == 'R') && (s[1] == 's' || s[1]
        == 'S') && (s[2] == 's' || s[2] == 'S')
}

/// The outline stands for a feed: its type is "rss" or it has an `xmlUrl`.
pub open spec fn outline_is_feed(o: FeedOutline) -> bool {
    is_rss_type(opt_view(o.outline_type)) || o.xml_url is Some
}

/// The title of a feed outline: a non-empty `title`, else a non-empty `text`.
pub open spec fn outline_title(o: FeedOutline) -> Option<Seq<char>> {
    if o.title matches Some(t) && t@.len() > 0 {
        Some(o.title->0@)
    } else if o.text@.len() > 0 {
        Some(o.text@)
    } else {
        None
    }
}

/// The entry that a feed outline gives, by itself.
pub open spec fn outline_own_entry(o: FeedOutline) -> Result<OpmlFeedEntryView, OpmlParseError> {
    match outline_title(o) {
        None => Err(OpmlParseError::MissingTitle),
        Some(t) => if o.xml_url matches Some(u) && u@.len() > 0 {
            Ok(OpmlFeedEntryView { title: t, xml_url: o.xml_url->0@, html_url: opt_view(o.html_url) })
        } else {
            Err(OpmlParseError::MissingXmlUrl)
        },
    }
}

/// `a` in front of the entries of `r`; an error stays as it is.
pub open spec fn prepend_entries(
    a: Seq<OpmlFeedEntryView>,
    r: Result<Seq<OpmlFeedEntryView>, OpmlParseError>,
) -> Result<Seq<OpmlFeedEntryView>, OpmlParseError> {
    match r {
        Ok(b) => Ok(a + b),
        Err(e) => Err(e),
    }
}

/// The entries of a list of outlines, each outline before its children,
/// in document order; the first malformed feed outline ends the walk.
pub open spec fn forest_entries(s: Seq<FeedOutline>) -> Result<Seq<OpmlFeedEntryView>, OpmlParseError>
    decreases s,
{
    if s.len() == 0 {
        Ok(Seq::empty())
    } else {
        let o = s[0];
        let own: Result<Seq<OpmlFeedEntryView>, OpmlParseError> = if outline_is_feed(o) {
            match outline_own_entry(o) {
                Ok(x) => Ok(seq![x]),
                Err(e) => Err(e),
            }
        } else {
            Ok(Seq::empty())
        };
        match own {
            Err(e) => Err(e),
            Ok(a) => {
                proof {
                    assert(decreases_to!(s => s[0]));
                    assert(decreases_to!(o.outlines => o.outlines@));
                }
                match forest_entries(o.outlines@) {
                    Err(e) => Err(e),
                    Ok(b) => prepend_entries(a + b, forest_entries(s.drop_first())),
                }
            },
        }
    }
}

/// The entries of one outline: its own, if it is a feed, then those of its
/// children.
pub open spec fn outline_entries(o: FeedOutline) -> Result<Seq<OpmlFeedEntryView>, OpmlParseError> {
    let own: Result<Seq<OpmlFeedEntryView>, OpmlParseError> = if outline_is_feed(o) {
        match outline_own_entry(o) {
            Ok(x) => Ok(seq![x]),
            Err(e) => Err(e),
        }
    } else {
        Ok(Seq::empty())
    };
    match own {
        Err(e) => Err(e),
        Ok(a) => prepend_entries(a, forest_entries(o.outlines@)),
    }
}

proof fn lemma_forest_cons(t: Seq<FeedOutline>)
    requires
        t.len() > 0,
    ensures
        forest_entries(t) == match outline_entries(t[0]) {
            Err(e) => Err(e),
            Ok(c) => prepend_entries(c, forest_entries(t.drop_first())),
        },
{
    let o = t[0];
    if outline_is_feed(o) {
        match outline_own_entry(o) {
            Ok(x) => {
                match forest_entries(o.outlines@) {
                    Ok(b) => {
                        match forest_entries(t.drop_first()) {
                            Ok(c) => {
                                assert(seq![x] + b + c =~= seq![x] + (b + c));
                            },
                            Err(_) => {},
                        }
                    },
                    Err(_) => {},
                }
            },
            Err(_) => {},
        }
    } else {
        match forest_entries(o.outlines@) {
            Ok(b) => {
                assert(Seq::<OpmlFeedEntryView>::empty() + b =~= b);
                match forest_entries(t.drop_first()) {
                    Ok(c) => {
                        assert(Seq::<OpmlFeedEntryView>::empty() + b + c =~= b + c);
                    },
                    Err(_) => {},
                }
            },
            Err(_) => {},
        }
    }
}

fn is_rss(t: &Option<String>) -> (r: bool)
    ensures
        r == is_rss_type(opt_view(*t)),
{
    match t {
        None => false,
        Some(s) => {
            let c = chars_of(s.as_str());
            c.len() == 3 && (c[0] == 'r' || c[0] == 'R') && (c[1] == 's' || c[1] == 'S') && (c[2]
                == 's' || c[2] == 'S')
        },
    }
}

fn own_entry(o: &FeedOutline) -> (r: Result<OpmlFeedEntry, OpmlParseError>)
    ensures
        match outline_own_entry(*o) {
            Ok(x) => r is Ok && r->Ok_0@ == x,
            Err(e) => r is Err && r->Err_0 == e,
        },
{
    let title: String = match &o.title {
        Some(t) if t.unicode_len() > 0 => t.clone(),
        _ => {
            if o.text.unicode_len() > 0 {
                o.text.clone()
            } else {
                return Err(OpmlParseError::MissingTitle);
            }
        },
    };
    match &o.xml_url {
        Some(u) if u.unicode_len() > 0 => Ok(
            OpmlFeedEntry { title, xml_url: u.clone(), html_url: clone_opt(&o.html_url) },
        ),
        _ => Err(OpmlParseError::MissingXmlUrl),
    }
}

/// Appends the entries of `outline` and of its children to `feed_entries`,
/// in document order. A feed outline without a title or an `xmlUrl` ends the
/// walk with an error.
fn process_outline_recursive(outline: &FeedOutline, feed_entries: &mut Vec<OpmlFeedEntry>) -> (r:
    Result<(), OpmlParseError>)
    ensures
        match outline_entries(*outline) {
            Ok(xs) => r is Ok && entries_view(final(feed_entries)@) == entries_view(
                old(feed_entries)@,
            ) + xs,
            Err(e) => r is Err && r->Err_0 == e,
        },
    decreases outline,
{
    let ghost own: Seq<OpmlFeedEntryView> = Seq::empty();
    if is_rss(&outline.outline_type) || outline.xml_url.is_some() {
        match own_entry(outline) {
            Err(e) => {
                return Err(e);
            },
            Ok(x) => {
                feed_entries.push(x);
                proof {
                    own = seq![x@];
                    assert(entries_view(feed_entries@) =~= entries_view(old(feed_entries)@) + own);
                }
            },
        }
    } else {
        proof {
            assert(entries_view(feed_entries@) =~= entries_view(old(feed_entries)@) + own);
        }
    }
    let children = &outline.outlines;
    let ghost added: Seq<OpmlFeedEntryView> = Seq::empty();
    let mut i: usize = 0;
    proof {
        assert(children@.subrange(0, children@.len() as int) =~= children@);
        assert(own + added =~= own);
    }
    while i < children.len()
        invariant
            i <= children@.len(),
            children == &outline.outlines,
            entries_view(feed_entries@) == entries_view(old(feed_entries)@) + own + added,
            outline_entries(*outline) == match forest_entries(outline.outlines@) {
                Ok(b) => Ok(own + b),
                Err(e) => Err::<Seq<OpmlFeedEntryView>, OpmlParseError>(e),
            },
            forest_entries(children@) == prepend_entries(
                added,
                forest_entries(children@.subrange(i as int, children@.len() as int)),
            ),
        decreases children@.len() - i,
    {
        let ghost rest = children@.subrange(i as int, children@.len() as int);
        proof {
            lemma_forest_cons(rest);
            assert(rest[0] == children@[i as int]);
            assert(rest.drop_first() =~= children@.subrange(i + 1, children@.len() as int));
        }
        let ghost before = entries_view(feed_entries@);
        let res = process_outline_recursive(&children[i], feed_entries);
        match res {
            Err(e) => {
                return Err(e);
            },
            Ok(()) => {},
        }
        proof {
            let c = outline_entries(children@[i as int])->Ok_0;
            assert(entries_view(feed_entries@) == before + c);
            match forest_entries(children@.subrange(i + 1, children@.len() as int)) {
                Ok(z) => {
                    assert(added + (c + z) =~= (added + c) + z);
                },
                Err(_) => {},
            }
            assert(entries_view(old(feed_entries)@) + own + added + c =~= entries_view(
                old(feed_entries)@,
            ) + own + (added + c));
            added = added + c;
        }
        i = i + 1;
    }
    proof {
        assert(children@.subrange(i as int, children@.len() as int) =~= Seq::<FeedOutline>::empty());
        assert(added + Seq::<OpmlFeedEntryView>::empty() =~= added);
        assert(entries_view(old(feed_entries)@) + own + added =~= entries_view(old(feed_entries)@) + (
        own + added));
    }
    Ok(())
}

/// What parsing an OPML text yields: the format error of the `opml` crate,
/// or the outcome of walking the body's outlines.
pub open spec fn opml_parse_outcome(s: Seq<char>, r: Result<Vec<OpmlFeedEntry>, OpmlParseError>) -> bool {
    match opml_outlines_of(s) {
        None => r matches Err(OpmlParseError::OpmlFormatError(_)),
        Some(os) => match forest_entries(os) {
            Ok(xs) => r is Ok && entries_view(r->Ok_0@) == xs,
            Err(e) => r is Err && r->Err_0 == e,
        },
    }
}

/// Parses an OPML text into its feed entries: every outline whose type is
/// "rss" or that has an `xmlUrl`, nested ones included, in document order.
pub fn parse_opml_from_string(opml_content: &str) -> (r: Result<Vec<OpmlFeedEntry>, OpmlParseError>)
    ensures
        opml_parse_outcome(opml_content@, r),
{
    let outlines = match read_opml_outlines(opml_content) {
        Ok(v) => v,
        Err(e) => {
            return Err(OpmlParseError::OpmlFormatError(e));
        },
    };
    let mut feed_entries: Vec<OpmlFeedEntry> = Vec::new();
    let ghost added: Seq<OpmlFeedEntryView> = Seq::empty();
    let mut i: usize = 0;
    proof {
        assert(outlines@.subrange(0, outlines@.len() as int) =~= outlines@);
        assert(entries_view(feed_entries@) =~= added);
    }
    while i < outlines.len()
        invariant
            i <= outlines@.len(),
            opml_outlines_of(opml_content@) == Some(outlines@),
            entries_view(feed_entries@) == added,
            forest_entries(outlines@) == prepend_entries(
                added,
                forest_entries(outlines@.subrange(i as int, outlines@.len() as int)),
            ),
        decreases outlines@.len() - i,
    {
        let ghost rest = outlines@.subrange(i as int, outlines@.len() as int);
        proof {
            lemma_forest_cons(rest);
            assert(rest[0] == outlines@[i as int]);
            assert(rest.drop_first() =~= outlines@.subrange(i + 1, outlines@.len() as int));
        }
        let res = process_outline_recursive(&outlines[i], &mut feed_entries);
        match res {
            Err(e) => {
                return Err(e);
            },
            Ok(()) => {},
        }
        proof {
            let c = outline_entries(outlines@[i as int])->Ok_0;
            match forest_entries(outlines@.subrange(i + 1, outlines@.len() as int)) {
                Ok(z) => {
                    assert(added + (c + z) =~= (added + c) + z);
                },
                Err(_) => {},
            }
            added = added + c;
        }
        i = i + 1;
    }
    proof {
        assert(outlines@.subrange(i as int, outlines@.len() as int) =~= Seq::<FeedOutline>::empty());
        assert(added + Seq::<OpmlFeedEntryView>::empty() =~= added);
    }
    Ok(feed_entries)
}

} // verus!


