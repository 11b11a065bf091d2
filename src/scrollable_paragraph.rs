//! Scroll state of a wrapped text panel: how many rows the text takes at
//! the panel's width, and how far it may scroll.

use vstd::prelude::*;
use crate::text::{chars_of, string_of_chars};

verus! {

/// What `UnicodeWidthChar::width` says of a character: its width in
/// columns, or `None` for a control character.
pub uninterp spec fn unicode_width_of(c: char) -> Option<usize>;

/// Relies on `unicode_width::UnicodeWidthChar::width`: a property of the
/// character alone, `None` for the control characters below U+0020.
#[verifier::external_body]
fn char_width(c: char) -> (r: Option<usize>)
    ensures
        r == unicode_width_of(c),
        (c as u32) < 0x20 ==> r is None,
{
    unicode_width::UnicodeWidthChar::width(c)
}

/// The columns that a character takes; a control character takes none.
pub open spec fn columns(c: char) -> int {
    match unicode_width_of(c) {
        Some(w) => w as int,
        None => 0,
    }
}

/// A character with the Unicode White_Space property, as
/// `char::is_whitespace` decides it.
pub open spec fn whitespace(c: char) -> bool {
    let u = c as u32;
    (0x09 <= u && u <= 0x0D) || u == 0x20 || u == 0x85 || u == 0xA0 || u == 0x1680 || (0x2000 <= u
        && u <= 0x200A) || u == 0x2028 || u == 0x2029 || u == 0x202F || u == 0x205F || u == 0x3000
}

/// Whether `c` is white space.
pub fn is_whitespace(c: char) -> (r: bool)
    ensures
        r == whitespace(c),
{
    let u = c as u32;
    (0x09 <= u && u <= 0x0D) || u == 0x20 || u == 0x85 || u == 0xA0 || u == 0x1680 || (0x2000 <= u
        && u <= 0x200A) || u == 0x2028 || u == 0x2029 || u == 0x202F || u == 0x205F || u == 0x3000
}

/// The text between line feeds: one piece more than there are line feeds.
pub open spec fn pieces(s: Seq<char>) -> Seq<Seq<char>>
    decreases s.len(),
{
    if s.len() == 0 {
        seq![Seq::empty()]
    } else {
        let p = pieces(s.drop_last());
        if s.last() == '\n' {
            p.push(Seq::empty())
        } else {
            p.update(p.len() - 1, p.last().push(s.last()))
        }
    }
}

proof fn lemma_pieces_nonempty(s: Seq<char>)
    ensures
        pieces(s).len() >= 1,
    decreases s.len(),
{
    if s.len() > 0 {
        lemma_pieces_nonempty(s.drop_last());
    }
}

/// The lines of a text, as `str::lines` gives them: a final empty piece,
/// after a last line feed or in an empty text, is no line. (A carriage
/// return before a line feed takes no columns, so it is left in.)
pub open spec fn text_lines(s: Seq<char>) -> Seq<Seq<char>> {
    let p = pieces(s);
    if p.last().len() == 0 {
        p.drop_last()
    } else {
        p
    }
}

/// The columns of a line, capped at `usize::MAX`.
pub open spec fn line_columns(l: Seq<char>) -> int
    decreases l.len(),
{
    if l.len() == 0 {
        0
    } else {
        let w = line_columns(l.drop_last()) + columns(l.last());
        if w > usize::MAX {
            usize::MAX as int
        } else {
            w
        }
    }
}

/// The rows that a line of `w` columns takes at `avail` columns: one for
/// an empty line, else `w / avail` rounded up, kept to 16 bits.
pub open spec fn line_rows(w: int, avail: int) -> int {
    if w == 0 {
        1
    } else {
        ((w + avail - 1) / avail) % 0x10000
    }
}

/// The rows of a sequence of lines, added up with saturation at `u16::MAX`.
pub open spec fn total_rows(ls: Seq<Seq<char>>, avail: int) -> int
    decreases ls.len(),
{
    if ls.len() == 0 {
        0
    } else {
        let t = total_rows(ls.drop_last(), avail) + line_rows(line_columns(ls.last()), avail);
        if t > u16::MAX {
            u16::MAX as int
        } else {
            t
        }
    }
}

/// The columns left for text: the width less the horizontal offset, or none.
pub open spec fn available_columns(width: u16, h_offset: u16) -> int {
    if width > h_offset {
        width - h_offset
    } else {
        0
    }
}

/// The rows that `content` takes in a panel of `width` columns scrolled
/// `h_offset` columns to the right; none where no column is left.
pub open spec fn content_rows(content: Seq<char>, width: u16, h_offset: u16) -> int {
    let a = available_columns(width, h_offset);
    if a == 0 {
        0
    } else {
        total_rows(text_lines(content), a)
    }
}

/// How far the content may scroll down: the rows beyond the panel's height.
pub open spec fn max_scroll(content: Seq<char>, width: u16, h_offset: u16, height: u16) -> int {
    let t = content_rows(content, width, h_offset);
    if t > height {
        t - height
    } else {
        0
    }
}

/// `s` without leading and trailing whitespace.
pub open spec fn trimmed(s: Seq<char>) -> Seq<char> {
    if exists|i: int| 0 <= i < s.len() && !whitespace(#[trigger] s[i]) {
        let first = choose|i: int|
            0 <= i < s.len() && !whitespace(s[i]) && forall|j: int| 0 <= j < i ==> whitespace(#[trigger] s[j]);
        let last = choose|i: int|
            0 <= i < s.len() && !whitespace(s[i]) && forall|j: int| i < j < s.len() ==> whitespace(#[trigger] s[j]);
        s.subrange(first, last + 1)
    } else {
        Seq::empty()
    }
}

fn rows_of_line(w: usize, avail: usize) -> (r: u16)
    requires
        avail > 0,
    ensures
        r as int == line_rows(w as int, avail as int),
{
    if w == 0 {
        1
    } else {
        let d: usize = w / avail;
        if w % avail != 0 {
            proof {
                assert(avail >= 2);
                let wi = w as int;
                let ai = avail as int;
                assert(wi / ai <= wi / 2) by (nonlinear_arith)
                    requires
                        ai >= 2,
                        wi >= 0,
                ;
            }
        }
        let q: usize = d + if w % avail != 0 {
            1usize
        } else {
            0usize
        };
        proof {
            let wi = w as int;
            let ai = avail as int;
            assert(q as int == (wi + ai - 1) / ai) by (nonlinear_arith)
                requires
                    ai > 0,
                    wi >= 0,
                    q as int == wi / ai + if wi % ai != 0 {
                        1int
                    } else {
                        0int
                    },
            ;
        }
        (q % 0x10000) as u16
    }
}

/// The vertical offset after scrolling `st` down by `amount` rows: at most
/// the furthest offset, and at most `u16::MAX`.
pub open spec fn offset_after_scroll_down(st: ScrollableParagraphState, amount: u16) -> int {
    let m = max_scroll(
        st.content@,
        st.panel_width,
        st.scroll_offset_horizontal,
        st.panel_height,
    );
    let s = st.scroll_offset_vertical + amount;
    let s = if s > u16::MAX {
        u16::MAX as int
    } else {
        s
    };
    if s < m {
        s
    } else {
        m
    }
}

/// Scroll state of a text panel.
#[derive(Debug, Default, Clone)]
pub struct ScrollableParagraphState {
    pub content: String,
    pub scroll_offset_vertical: u16,
    pub scroll_offset_horizontal: u16,
    pub panel_height: u16,
    pub panel_width: u16,
}

impl ScrollableParagraphState {
    pub fn new(content: String) -> (r: ScrollableParagraphState)
        ensures
            r.content == content,
            r.scroll_offset_vertical == 0,
            r.scroll_offset_horizontal == 0,
            r.panel_height == 0,
            r.panel_width == 0,
    {
        ScrollableParagraphState {
            content,
            scroll_offset_vertical: 0,
            scroll_offset_horizontal: 0,
            panel_height: 0,
            panel_width: 0,
        }
    }

    /// The rows that the content takes at the panel's width.
    fn calculate_content_height_lines(&self) -> (r: u16)
        ensures
            r as int == content_rows(self.content@, self.panel_width, self.scroll_offset_horizontal),
    {
        let available: u16 = if self.panel_width > self.scroll_offset_horizontal {
            self.panel_width - self.scroll_offset_horizontal
        } else {
            0
        };
        if available == 0 {
            return 0;
        }
        let a: usize = available as usize;
        let c = chars_of(self.content.as_str());
        let ghost s = c@;
        let mut total: u16 = 0;
        let mut cur_w: usize = 0;
        let mut i: usize = 0;
        proof {
            assert(s.subrange(0, 0) =~= Seq::<char>::empty());
            assert(pieces(Seq::<char>::empty()).drop_last() =~= Seq::<Seq<char>>::empty());
        }
        while i < c.len()
            invariant
                i <= s.len(),
                c@ == s,
                a > 0,
                pieces(s.subrange(0, i as int)).len() >= 1,
                total as int == total_rows(pieces(s.subrange(0, i as int)).drop_last(), a as int),
                cur_w as int == line_columns(pieces(s.subrange(0, i as int)).last()),
            decreases s.len() - i,
        {
            let ch = c[i];
            let ghost pre = s.subrange(0, i as int);
            let ghost p = pieces(pre);
            proof {
                let next = s.subrange(0, i + 1);
                assert(next.drop_last() =~= pre);
                assert(next.last() == ch);
                lemma_pieces_nonempty(pre);
            }
            if ch == '\n' {
                let r = rows_of_line(cur_w, a);
                total = if (total as u32) + (r as u32) > 0xffff {
                    0xffff
                } else {
                    total + r
                };
                cur_w = 0;
                proof {
                    let np = pieces(s.subrange(0, i + 1));
                    assert(np == p.push(Seq::<char>::empty()));
                    assert(np.drop_last() =~= p);
                    assert(p.drop_last() =~= p.subrange(0, p.len() - 1));
                }
            } else {
                let w: usize = match char_width(ch) {
                    Some(x) => x,
                    None => 0,
                };
                cur_w = if cur_w > usize::MAX - w {
                    usize::MAX
                } else {
                    cur_w + w
                };
                proof {
                    let np = pieces(s.subrange(0, i + 1));
                    assert(np == p.update(p.len() - 1, p.last().push(ch)));
                    assert(np.drop_last() =~= p.drop_last());
                    assert(np.last() == p.last().push(ch));
                    assert(np.last().drop_last() =~= p.last());
                }
            }
            i = i + 1;
        }
        proof {
            assert(s.subrange(0, i as int) =~= s);
            assert(s == self.content@);
        }
        let ghost p = pieces(s);
        // Whether the last piece holds any character: it is a line then.
        let last_nonempty = c.len() > 0 && c[c.len() - 1] != '\n';
        proof {
            lemma_pieces_nonempty(s);
            if s.len() > 0 {
                lemma_pieces_nonempty(s.drop_last());
                if s.last() != '\n' {
                    assert(p.last() == pieces(s.drop_last()).last().push(s.last()));
                }
            }
            assert(last_nonempty == (p.last().len() > 0));
        }
        if last_nonempty {
            let r = rows_of_line(cur_w, a);
            let t: u16 = if (total as u32) + (r as u32) > 0xffff {
                0xffff
            } else {
                total + r
            };
            proof {
                assert(text_lines(s) == p);
            }
            t
        } else {
            total
        }
    }

    /// How far the content may scroll down.
    pub fn max_scroll_vertical(&self) -> (r: u16)
        ensures
            r as int == max_scroll(
                self.content@,
                self.panel_width,
                self.scroll_offset_horizontal,
                self.panel_height,
            ),
    {
        let total = self.calculate_content_height_lines();
        if total > self.panel_height {
            total - self.panel_height
        } else {
            0
        }
    }

    /// Takes new content, trimmed, and scrolls back to the top left.
    pub fn set_content(&mut self, content: String)
        ensures
            final(self).content@ == trimmed(content@),
            final(self).scroll_offset_vertical == 0,
            final(self).scroll_offset_horizontal == 0,
            final(self).panel_height == old(self).panel_height,
            final(self).panel_width == old(self).panel_width,
    {
        self.content = trim_text(content.as_str());
        self.scroll_offset_vertical = 0;
        self.scroll_offset_horizontal = 0;
    }

    /// Takes the panel's size; where it changed, the vertical offset is
    /// kept within the new scroll range.
    pub fn set_dimensions(&mut self, width: u16, height: u16)
        ensures
            final(self).panel_width == width,
            final(self).panel_height == height,
            final(self).content == old(self).content,
            final(self).scroll_offset_horizontal == old(self).scroll_offset_horizontal,
            final(self).scroll_offset_vertical == if old(self).panel_width == width
                && old(self).panel_height == height {
                old(self).scroll_offset_vertical as int
            } else {
                let m = max_scroll(
                    old(self).content@,
                    width,
                    old(self).scroll_offset_horizontal,
                    height,
                );
                if (old(self).scroll_offset_vertical as int) < m {
                    old(self).scroll_offset_vertical as int
                } else {
                    m
                }
            },
    {
        let mut needs_scroll_recalc = false;
        if self.panel_width != width {
            self.panel_width = width;
            needs_scroll_recalc = true;
        }
        if self.panel_height != height {
            self.panel_height = height;
            needs_scroll_recalc = true;
        }
        if needs_scroll_recalc {
            let max_s = self.max_scroll_vertical();
            if max_s < self.scroll_offset_vertical {
                self.scroll_offset_vertical = max_s;
            }
        }
    }

    /// Scrolls up by `amount` rows, stopping at the top.
    pub fn scroll_up(&mut self, amount: u16)
        ensures
            final(self).scroll_offset_vertical == if old(self).scroll_offset_vertical > amount {
                old(self).scroll_offset_vertical - amount
            } else {
                0
            },
            final(self).content == old(self).content,
            final(self).scroll_offset_horizontal == old(self).scroll_offset_horizontal,
            final(self).panel_height == old(self).panel_height,
            final(self).panel_width == old(self).panel_width,
    {
        self.scroll_offset_vertical = if self.scroll_offset_vertical > amount {
            self.scroll_offset_vertical - amount
        } else {
            0
        };
    }

    /// Scrolls down by `amount` rows, stopping at the furthest offset.
    pub fn scroll_down(&mut self, amount: u16)
        ensures
            final(self).scroll_offset_vertical == offset_after_scroll_down(*old(self), amount),
            final(self).content == old(self).content,
            final(self).scroll_offset_horizontal == old(self).scroll_offset_horizontal,
            final(self).panel_height == old(self).panel_height,
            final(self).panel_width == old(self).panel_width,
    {
        let max_scroll = self.max_scroll_vertical();
        let s: u16 = if (self.scroll_offset_vertical as u32) + (amount as u32) > 0xffff {
            0xffff
        } else {
            self.scroll_offset_vertical + amount
        };
        self.scroll_offset_vertical = if s < max_scroll {
            s
        } else {
            max_scroll
        };
    }
}

/// `s` without leading and trailing whitespace.
pub fn trim_text(s: &str) -> (r: String)
    ensures
        r@ == trimmed(s@),
{
    let c = chars_of(s);
    let n = c.len();
    let mut first: usize = 0;
    while first < n && is_whitespace(c[first])
        invariant
            n == c@.len(),
            c@ == s@,
            first <= n,
            forall|j: int| 0 <= j < first ==> whitespace(#[trigger] c@[j]),
        decreases n - first,
    {
        first = first + 1;
    }
    if first == n {
        proof {
            assert(!exists|i: int| 0 <= i < s@.len() && !whitespace(#[trigger] s@[i]));
        }
        return String::new();
    }
    let mut last: usize = n - 1;
    while is_whitespace(c[last])
        invariant
            n == c@.len(),
            c@ == s@,
            first <= last < n,
            !whitespace(c@[first as int]),
            forall|j: int| last < j < n ==> whitespace(#[trigger] c@[j]),
        decreases last,
    {
        last = last - 1;
    }
    let mut out: Vec<char> = Vec::new();
    let mut i: usize = first;
    while i <= last
        invariant
            first <= i <= last + 1,
            last < n,
            n == c@.len(),
            out@ == c@.subrange(first as int, i as int),
        decreases last + 1 - i,
    {
        out.push(c[i]);
        i = i + 1;
    }
    proof {
        let t = s@;
        assert(exists|i: int| 0 <= i < t.len() && !whitespace(#[trigger] t[i])) by {
            assert(!whitespace(t[first as int]));
        }
        let f = choose|i: int|
            0 <= i < t.len() && !whitespace(t[i]) && forall|j: int| 0 <= j < i ==> whitespace(#[trigger] t[j]);
        let l = choose|i: int|
            0 <= i < t.len() && !whitespace(t[i]) && forall|j: int| i < j < t.len() ==> whitespace(#[trigger] t[j]);
        assert(0 <= first < t.len() && !whitespace(t[first as int]) && forall|j: int|
            0 <= j < first ==> whitespace(#[trigger] t[j]));
        assert(0 <= last < t.len() && !whitespace(t[last as int]) && forall|j: int|
            last < j < t.len() ==> whitespace(#[trigger] t[j]));
        if f < first {
            assert(whitespace(t[f]));
        }
        if f > first {
            assert(whitespace(t[first as int]));
        }
        if l < last {
            assert(whitespace(t[last as int]));
        }
        if l > last {
            assert(whitespace(t[l]));
        }
        assert(trimmed(t) == t.subrange(first as int, last + 1));
    }
    string_of_chars(&out)
}

} // verus!
