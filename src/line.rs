use unicode_segmentation::UnicodeSegmentation;
use unicode_width::UnicodeWidthStr;
use vstd::prelude::*;

verus! {

/// How many terminal cells a grapheme cluster takes.
#[derive(Clone, Copy, Debug, PartialEq, Eq, Structural)]
pub enum GraphemeWidth {
    Half,
    Full,
}

impl GraphemeWidth {
    pub open spec fn cols(self) -> nat {
        match self {
            GraphemeWidth::Half => 1,
            GraphemeWidth::Full => 2,
        }
    }
}

/// `width + column`: the column right after a grapheme that starts at `column`.
impl core::ops::Add<usize> for GraphemeWidth {
    type Output = usize;

    fn add(self, other: usize) -> (r: usize) {
        match self {
            GraphemeWidth::Half => other + 1,
            GraphemeWidth::Full => other + 2,
        }
    }
}

impl vstd::std_specs::ops::AddSpecImpl<usize> for GraphemeWidth {
    open spec fn obeys_add_spec() -> bool {
        true
    }

    open spec fn add_req(self, rhs: usize) -> bool {
        rhs + self.cols() <= usize::MAX
    }

    open spec fn add_spec(self, rhs: usize) -> usize {
        (rhs + self.cols()) as usize
    }
}

/// The abstract content of one grapheme cluster of a line: its text, the cells
/// it takes, and the glyph drawn in its place, if any.
pub struct Glyph {
    pub text: Seq<char>,
    pub width: GraphemeWidth,
    pub replacement: Option<char>,
}

/// The extended grapheme clusters of a text, in order.
pub uninterp spec fn grapheme_clusters(s: Seq<char>) -> Seq<Seq<char>>;

/// The display width of a text, in terminal columns.
pub uninterp spec fn text_width(s: Seq<char>) -> usize;

/// Relies on `UnicodeSegmentation::graphemes(s, true)`: it yields consecutive,
/// non-empty slices of `s`, split at extended grapheme cluster boundaries, that
/// together cover `s`.
#[verifier::external_body]
fn split_graphemes(s: &str) -> (r: Vec<String>)
    ensures
        r@.map_values(|g: String| g@) == grapheme_clusters(s@),
        r@.map_values(|g: String| g@).flatten() == s@,
        forall|i: int| 0 <= i < r@.len() ==> #[trigger] r@[i]@.len() > 0,
{
    s.graphemes(true).map(|g| g.to_string()).collect()
}

/// Relies on `UnicodeWidthStr::width`: the number of columns a text takes.
#[verifier::external_body]
fn display_width(s: &str) -> (r: usize)
    ensures
        r == text_width(s@),
{
    s.width()
}

/// Relies on `String::push`: appends one character.
#[verifier::external_body]
pub(crate) fn push_char(s: &mut String, c: char)
    ensures
        final(s)@ == old(s)@.push(c),
{
    s.push(c)
}

/// Unicode's `White_Space` property.
pub open spec fn is_whitespace_char(c: char) -> bool {
    let u = c as u32;
    (0x09 <= u <= 0x0d) || u == 0x20 || u == 0x85 || u == 0xa0 || u == 0x1680 || (0x2000 <= u
        <= 0x200a) || u == 0x2028 || u == 0x2029 || u == 0x202f || u == 0x205f || u == 0x3000
}

/// Unicode's general category `Cc` (control codes).
pub open spec fn is_control_char(c: char) -> bool {
    let u = c as u32;
    u <= 0x1f || (0x7f <= u <= 0x9f)
}

fn is_whitespace(c: char) -> (r: bool)
    ensures
        r == is_whitespace_char(c),
{
    let u = c as u32;
    (0x09 <= u && u <= 0x0d) || u == 0x20 || u == 0x85 || u == 0xa0 || u == 0x1680 || (0x2000
        <= u && u <= 0x200a) || u == 0x2028 || u == 0x2029 || u == 0x202f || u == 0x205f || u
        == 0x3000
}

fn is_control(c: char) -> (r: bool)
    ensures
        r == is_control_char(c),
{
    let u = c as u32;
    u <= 0x1f || (0x7f <= u && u <= 0x9f)
}

pub open spec fn all_whitespace(g: Seq<char>) -> bool {
    forall|i: int| 0 <= i < g.len() ==> is_whitespace_char(#[trigger] g[i])
}

/// The glyph drawn in place of a grapheme cluster `g` of display width `w`, if
/// it is not drawn as it is: a tab as a space, other whitespace as an open box,
/// a lone control character of no width as a box, anything else of no width as
/// a middle dot.
pub open spec fn replacement_for(g: Seq<char>, w: usize) -> Option<char> {
    if g == seq![' '] {
        None
    } else if g == seq!['\t'] {
        Some(' ')
    } else if w > 0 && all_whitespace(g) {
        Some('␣')
    } else if w == 0 {
        if g.len() == 1 && is_control_char(g[0]) {
            Some('▯')
        } else {
            Some('·')
        }
    } else {
        None
    }
}

/// Cells taken by a grapheme of display width `w`: one when it is substituted
/// or at most one wide, else two.
pub open spec fn width_for(replacement: Option<char>, w: usize) -> GraphemeWidth {
    if replacement is Some || w <= 1 {
        GraphemeWidth::Half
    } else {
        GraphemeWidth::Full
    }
}

/// How a grapheme cluster is shown.
pub open spec fn glyph_of(g: Seq<char>) -> Glyph {
    Glyph {
        text: g,
        width: width_for(replacement_for(g, text_width(g)), text_width(g)),
        replacement: replacement_for(g, text_width(g)),
    }
}

/// The glyphs of a line built from `s`.
pub open spec fn glyphs_of(s: Seq<char>) -> Seq<Glyph> {
    grapheme_clusters(s).map_values(|g: Seq<char>| glyph_of(g))
}

/// Total cells taken by a sequence of glyphs.
pub open spec fn cols(gs: Seq<Glyph>) -> nat
    decreases gs.len(),
{
    if gs.len() == 0 {
        0
    } else {
        cols(gs.drop_last()) + gs.last().width.cols()
    }
}

/// The column at which glyph `i` starts.
pub open spec fn col_of(gs: Seq<Glyph>, i: int) -> nat {
    cols(gs.take(i))
}

/// What glyph `i` looks like when shown whole.
pub open spec fn shown(g: Glyph) -> Seq<char> {
    match g.replacement {
        Some(r) => seq![r],
        None => g.text,
    }
}

/// Everything shown of a sequence of glyphs.
pub open spec fn shown_text(gs: Seq<Glyph>) -> Seq<char>
    decreases gs.len(),
{
    if gs.len() == 0 {
        seq![]
    } else {
        shown_text(gs.drop_last()) + shown(gs.last())
    }
}

/// The part of the columns `[start, end)` that glyph `i` contributes: nothing if
/// its cells lie outside, a clip mark if only some of them lie inside, else the
/// glyph as shown.
pub open spec fn piece(gs: Seq<Glyph>, i: int, start: int, end: int) -> Seq<char> {
    let c = col_of(gs, i);
    let e = c + gs[i].width.cols();
    if start < end && c < end && e > start {
        if e > end || c < start {
            seq!['·']
        } else {
            shown(gs[i])
        }
    } else {
        seq![]
    }
}

/// The pieces of the first `k` glyphs, in order.
pub open spec fn render_prefix(gs: Seq<Glyph>, k: int, start: int, end: int) -> Seq<char>
    decreases k,
{
    if k <= 0 {
        seq![]
    } else {
        render_prefix(gs, k - 1, start, end) + piece(gs, k - 1, start, end)
    }
}

/// The text drawn for the columns `[start, end)` of a line.
pub open spec fn render_range(gs: Seq<Glyph>, start: int, end: int) -> Seq<char> {
    render_prefix(gs, gs.len() as int, start, end)
}

struct GraphemeFragment {
    grapheme: String,
    grapheme_width: GraphemeWidth,
    replacement: Option<char>,
}

impl View for GraphemeFragment {
    type V = Glyph;

    closed spec fn view(&self) -> Glyph {
        Glyph { text: self.grapheme@, width: self.grapheme_width, replacement: self.replacement }
    }
}

/// One row of text, as a sequence of grapheme clusters.
pub struct Line {
    fragments: Vec<GraphemeFragment>,
}

impl View for Line {
    type V = Seq<Glyph>;

    closed spec fn view(&self) -> Seq<Glyph> {
        self.fragments@.map_values(|f: GraphemeFragment| f@)
    }
}

/// A part of a text is never longer than the text.
proof fn lemma_parts_count(parts: Seq<Seq<char>>)
    requires
        forall|i: int| 0 <= i < parts.len() ==> #[trigger] parts[i].len() > 0,
    ensures
        parts.len() <= parts.flatten().len(),
    decreases parts.len(),
{
    if parts.len() > 0 {
        let rest = parts.drop_first();
        assert forall|i: int| 0 <= i < rest.len() implies #[trigger] rest[i].len() > 0 by {
            assert(rest[i] == parts[i + 1]);
        }
        lemma_parts_count(rest);
        assert(parts[0].len() > 0);
    }
}

/// Non-empty parts that make up a single character are that character alone.
proof fn lemma_one_char_parts(parts: Seq<Seq<char>>, c: char)
    requires
        parts.flatten() == seq![c],
        forall|i: int| 0 <= i < parts.len() ==> #[trigger] parts[i].len() > 0,
    ensures
        parts == seq![seq![c]],
{
    lemma_parts_count(parts);
    assert(parts.len() != 0) by {
        if parts.len() == 0 {
            assert(parts.flatten() == Seq::<char>::empty());
        }
    }
    assert(parts.len() == 1);
    parts.lemma_flatten_one_element();
    assert(parts =~= seq![seq![c]]);
}

pub proof fn lemma_cols_step(gs: Seq<Glyph>, i: int)
    requires
        0 <= i < gs.len(),
    ensures
        col_of(gs, i + 1) == col_of(gs, i) + gs[i].width.cols(),
{
    assert(gs.take(i + 1).drop_last() =~= gs.take(i));
}

pub proof fn lemma_cols_bound(gs: Seq<Glyph>)
    ensures
        cols(gs) <= 2 * gs.len(),
    decreases gs.len(),
{
    if gs.len() > 0 {
        lemma_cols_bound(gs.drop_last());
    }
}

pub proof fn lemma_col_mono(gs: Seq<Glyph>, i: int, j: int)
    requires
        0 <= i <= j <= gs.len(),
    ensures
        col_of(gs, i) <= col_of(gs, j),
    decreases j - i,
{
    if i < j {
        lemma_col_mono(gs, i, j - 1);
        lemma_cols_step(gs, j - 1);
    }
}

pub proof fn lemma_col_of_len(gs: Seq<Glyph>)
    ensures
        col_of(gs, gs.len() as int) == cols(gs),
        col_of(gs, 0) == 0,
{
    assert(gs.take(gs.len() as int) =~= gs);
    assert(gs.take(0).len() == 0);
}

/// Once a glyph starts at or after `end`, nothing more is drawn.
proof fn lemma_render_stops(gs: Seq<Glyph>, i: int, k: int, start: int, end: int)
    requires
        0 <= i <= k <= gs.len(),
        col_of(gs, i) >= end,
    ensures
        render_prefix(gs, k, start, end) == render_prefix(gs, i, start, end),
    decreases k - i,
{
    if i < k {
        lemma_render_stops(gs, i, k - 1, start, end);
        lemma_col_mono(gs, i, k - 1);
    }
}

impl Line {
    /// A line keeps few enough graphemes for its columns to be counted in `usize`.
    pub open spec fn wf(&self) -> bool {
        self@.len() <= isize::MAX
    }

    /// The glyph drawn in place of `grapheme`, whose display width is `width`,
    /// if any.
    pub fn replacement_character(grapheme: &str, width: usize) -> (r: Option<char>)
        ensures
            r == replacement_for(grapheme@, width),
    {
        let n = grapheme.unicode_len();
        if n == 1 && grapheme.get_char(0) == ' ' {
            assert(grapheme@ =~= seq![' ']);
            return None;
        }
        assert(grapheme@ != seq![' ']);
        if n == 1 && grapheme.get_char(0) == '\t' {
            assert(grapheme@ =~= seq!['\t']);
            return Some(' ');
        }
        assert(grapheme@ != seq!['\t']);
        if width > 0 {
            let mut i: usize = 0;
            while i < n
                invariant
                    n == grapheme@.len(),
                    i <= n,
                    width > 0,
                    grapheme@ != seq![' '],
                    grapheme@ != seq!['\t'],
                    forall|j: int| 0 <= j < i ==> is_whitespace_char(#[trigger] grapheme@[j]),
                decreases n - i,
            {
                if !is_whitespace(grapheme.get_char(i)) {
                    return None;
                }
                i += 1;
            }
            return Some('␣');
        }
        if n == 1 && is_control(grapheme.get_char(0)) {
            return Some('▯');
        }
        Some('·')
    }

    /// Splits `s` into grapheme clusters and classifies each.
    pub fn from(s: &str) -> (r: Line)
        requires
            s@.len() <= isize::MAX,
        ensures
            r@ == glyphs_of(s@),
            r@.map_values(|g: Glyph| g.text).flatten() == s@,
            forall|i: int| 0 <= i < r@.len() ==> #[trigger] r@[i].text.len() > 0,
            r.wf(),
    {
        let clusters = split_graphemes(s);
        proof {
            let parts = clusters@.map_values(|g: String| g@);
            assert forall|i: int| 0 <= i < parts.len() implies #[trigger] parts[i].len() > 0 by {
                assert(clusters@[i]@.len() > 0);
            }
            lemma_parts_count(parts);
        }
        let mut fragments: Vec<GraphemeFragment> = Vec::new();
        let mut i: usize = 0;
        while i < clusters.len()
            invariant
                i <= clusters@.len(),
                fragments@.len() == i,
                forall|j: int|
                    0 <= j < i ==> #[trigger] fragments@[j]@ == glyph_of(clusters@[j]@),
            decreases clusters@.len() - i,
        {
            let grapheme = clusters[i].clone();
            let width = display_width(grapheme.as_str());
            let replacement = Self::replacement_character(grapheme.as_str(), width);
            let grapheme_width = match replacement {
                Some(_) => GraphemeWidth::Half,
                None => if width <= 1 {
                    GraphemeWidth::Half
                } else {
                    GraphemeWidth::Full
                },
            };
            fragments.push(GraphemeFragment { grapheme, grapheme_width, replacement });
            i += 1;
        }
        let r = Line { fragments };
        assert(r@ =~= glyphs_of(s@)) by {
            assert forall|j: int| 0 <= j < r@.len() implies #[trigger] r@[j] == glyphs_of(s@)[j] by {
                assert(fragments@[j]@ == glyph_of(clusters@[j]@));
            }
        }
        assert(r@.map_values(|g: Glyph| g.text) =~= clusters@.map_values(|g: String| g@));
        r
    }

    /// The line that holds `c` alone: a single character is a single grapheme.
    pub fn from_char(c: char) -> (r: Line)
        ensures
            r@ == seq![glyph_of(seq![c])],
            r.wf(),
    {
        let mut text = String::new();
        push_char(&mut text, c);
        assert(text@ =~= seq![c]);
        let r = Self::from(text.as_str());
        proof {
            let parts = r@.map_values(|g: Glyph| g.text);
            lemma_one_char_parts(parts, c);
            assert(parts[0] == r@[0].text);
        }
        assert(r@ =~= seq![glyph_of(seq![c])]);
        r
    }

    /// Number of grapheme clusters.
    pub fn grapheme_len(&self) -> (r: usize)
        ensures
            r == self@.len(),
    {
        self.fragments.len()
    }

    /// Columns taken by the first `grapheme_index` graphemes (all of them, if
    /// there are fewer).
    pub fn width_until(&self, grapheme_index: usize) -> (r: usize)
        requires
            self.wf(),
        ensures
            grapheme_index <= self@.len() ==> r == col_of(self@, grapheme_index as int),
            grapheme_index == 0 ==> r == 0,
            grapheme_index >= self@.len() ==> r == cols(self@),
            r < usize::MAX,
    {
        let n = self.fragments.len();
        let stop = if grapheme_index < n {
            grapheme_index
        } else {
            n
        };
        proof {
            lemma_cols_bound(self@);
            lemma_col_of_len(self@);
        }
        let mut sum: usize = 0;
        let mut i: usize = 0;
        while i < stop
            invariant
                stop <= n == self@.len() <= isize::MAX,
                i <= stop,
                sum == col_of(self@, i as int),
                cols(self@) <= 2 * self@.len(),
                col_of(self@, n as int) == cols(self@),
            decreases stop - i,
        {
            proof {
                lemma_cols_step(self@, i as int);
                lemma_col_mono(self@, i as int + 1, n as int);
            }
            let w: usize = match self.fragments[i].grapheme_width {
                GraphemeWidth::Half => 1,
                GraphemeWidth::Full => 2,
            };
            assert(w == self@[i as int].width.cols());
            sum = sum + w;
            i += 1;
        }
        proof {
            lemma_col_mono(self@, i as int, n as int);
        }
        sum
    }

    /// The text drawn for the columns `range.start..range.end` of this line.
    pub fn get_graphems(&self, range: core::ops::Range<usize>) -> (r: String)
        requires
            self.wf(),
        ensures
            r@ == render_range(self@, range.start as int, range.end as int),
    {
        let mut ret = String::new();
        let ghost gs = self@;
        let ghost start = range.start as int;
        let ghost end = range.end as int;
        if range.start >= range.end {
            proof {
                lemma_render_empty_range(gs, gs.len() as int, start, end);
            }
            return ret;
        }
        proof {
            lemma_cols_bound(gs);
            lemma_col_of_len(gs);
        }
        let n = self.fragments.len();
        let mut pos: usize = 0;
        let mut i: usize = 0;
        while i < n && pos < range.end
            invariant
                n == gs.len() <= isize::MAX,
                gs == self@,
                start == range.start,
                end == range.end,
                start < end,
                i <= n,
                pos == col_of(gs, i as int),
                cols(gs) <= 2 * gs.len(),
                col_of(gs, n as int) == cols(gs),
                ret@ == render_prefix(gs, i as int, start, end),
            decreases n - i,
        {
            proof {
                lemma_cols_step(gs, i as int);
                lemma_col_mono(gs, i as int + 1, n as int);
            }
            let fragment = &self.fragments[i];
            assert(fragment@ == gs[i as int]);
            let next = fragment.grapheme_width + pos;
            assert(next == col_of(gs, i as int + 1));
            assert(piece(gs, i as int, start, end) == if next > range.start {
                if next > range.end || pos < range.start {
                    seq!['·']
                } else {
                    shown(gs[i as int])
                }
            } else {
                Seq::<char>::empty()
            });
            if next > range.start {
                if next > range.end || pos < range.start {
                    push_char(&mut ret, '·');
                } else {
                    match fragment.replacement {
                        Some(c) => push_char(&mut ret, c),
                        None => ret.append(fragment.grapheme.as_str()),
                    }
                }
            }
            assert(ret@ =~= render_prefix(gs, i as int + 1, start, end));
            pos = next;
            i += 1;
        }
        proof {
            if i < n {
                lemma_render_stops(gs, i as int, n as int, start, end);
            }
        }
        ret
    }

    /// Inserts the grapheme made of `c` before grapheme `grapheme_index`.
    pub fn insert_at(&mut self, grapheme_index: usize, c: char)
        requires
            old(self).wf(),
            grapheme_index <= old(self)@.len(),
            old(self)@.len() < isize::MAX,
        ensures
            final(self)@ == old(self)@.insert(grapheme_index as int, glyph_of(seq![c])),
            final(self).wf(),
    {
        let mut new_line = Self::from_char(c);
        assert(new_line.fragments@.len() == 1);
        assert(new_line.fragments@[0]@ == new_line@[0]);
        let fragment = new_line.fragments.pop();
        match fragment {
            Some(f) => {
                assert(f@ == glyph_of(seq![c]));
                self.fragments.insert(grapheme_index, f);
            },
            None => {},
        }
        assert(self@ =~= old(self)@.insert(grapheme_index as int, glyph_of(seq![c])));
    }
}

/// With an empty column range nothing is drawn.
proof fn lemma_render_empty_range(gs: Seq<Glyph>, k: int, start: int, end: int)
    requires
        start >= end,
    ensures
        render_prefix(gs, k, start, end) == Seq::<char>::empty(),
    decreases k,
{
    if k > 0 {
        lemma_render_empty_range(gs, k - 1, start, end);
    }
}

/// The text shown of two sequences of glyphs side by side is the one shown of
/// each, joined.
pub proof fn lemma_shown_text_concat(a: Seq<Glyph>, b: Seq<Glyph>)
    ensures
        shown_text(a + b) == shown_text(a) + shown_text(b),
    decreases b.len(),
{
    if b.len() == 0 {
        assert(a + b =~= a);
    } else {
        assert((a + b).drop_last() =~= a + b.drop_last());
        lemma_shown_text_concat(a, b.drop_last());
        assert(shown_text(a) + shown_text(b.drop_last()) + shown(b.last()) =~= shown_text(a) + (
        shown_text(b.drop_last()) + shown(b.last())));
    }
}

/// A line whose glyphs all take one cell takes as many cells as it has glyphs.
pub proof fn lemma_cols_all_half(gs: Seq<Glyph>)
    requires
        forall|j: int| 0 <= j < gs.len() ==> #[trigger] gs[j].width == GraphemeWidth::Half,
    ensures
        cols(gs) == gs.len(),
    decreases gs.len(),
{
    if gs.len() > 0 {
        let p = gs.drop_last();
        assert forall|j: int| 0 <= j < p.len() implies #[trigger] p[j].width
            == GraphemeWidth::Half by {
            assert(p[j] == gs[j]);
        }
        lemma_cols_all_half(p);
        assert(gs.last() == gs[gs.len() - 1]);
    }
}

/// Drawing the first `k` glyphs over columns that reach past all of them shows
/// each of them whole.
proof fn lemma_render_prefix_whole(gs: Seq<Glyph>, k: int, end: int)
    requires
        0 <= k <= gs.len(),
        end >= cols(gs),
    ensures
        render_prefix(gs, k, 0, end) == shown_text(gs.take(k)),
    decreases k,
{
    if k == 0 {
        assert(gs.take(0) =~= Seq::<Glyph>::empty());
    } else {
        lemma_render_prefix_whole(gs, k - 1, end);
        lemma_cols_step(gs, k - 1);
        lemma_col_mono(gs, k, gs.len() as int);
        lemma_col_of_len(gs);
        assert(gs.take(k).drop_last() =~= gs.take(k - 1));
        assert(gs.take(k).last() == gs[k - 1]);
        assert(piece(gs, k - 1, 0, end) == shown(gs[k - 1]));
    }
}

/// A column range that starts at 0 and reaches past every glyph draws all of
/// them, exactly as shown whole.
pub proof fn lemma_render_whole(gs: Seq<Glyph>, end: int)
    requires
        end >= cols(gs),
    ensures
        render_range(gs, 0, end) == shown_text(gs),
{
    lemma_render_prefix_whole(gs, gs.len() as int, end);
    assert(gs.take(gs.len() as int) =~= gs);
}

/// A column range that lies wholly right of a line, or is empty, draws nothing.
pub proof fn lemma_render_outside(gs: Seq<Glyph>, start: int, end: int)
    requires
        start >= cols(gs) || end <= 0 || start >= end,
    ensures
        render_range(gs, start, end) == Seq::<char>::empty(),
{
    lemma_render_nothing(gs, gs.len() as int, start, end);
}

proof fn lemma_render_nothing(gs: Seq<Glyph>, k: int, start: int, end: int)
    requires
        0 <= k <= gs.len(),
        start >= cols(gs) || end <= 0 || start >= end,
    ensures
        render_prefix(gs, k, start, end) == Seq::<char>::empty(),
    decreases k,
{
    if k > 0 {
        lemma_render_nothing(gs, k - 1, start, end);
        lemma_cols_step(gs, k - 1);
        lemma_col_mono(gs, k, gs.len() as int);
        lemma_col_of_len(gs);
        assert(piece(gs, k - 1, start, end) =~= Seq::<char>::empty());
    }
}

/// Inserting a character into a line of one-cell glyphs adds one grapheme, and
/// drawing the columns `[0, grapheme_len)` afterwards shows the old content with
/// the new glyph at the insertion index.
pub proof fn lemma_insert_then_render(gs: Seq<Glyph>, i: int, c: char)
    requires
        0 <= i <= gs.len(),
        forall|j: int| 0 <= j < gs.len() ==> #[trigger] gs[j].width == GraphemeWidth::Half,
        glyph_of(seq![c]).width == GraphemeWidth::Half,
    ensures
        gs.insert(i, glyph_of(seq![c])).len() == gs.len() + 1,
        render_range(gs.insert(i, glyph_of(seq![c])), 0, gs.len() + 1 as int) == shown_text(gs.take(i))
            + shown(glyph_of(seq![c])) + shown_text(gs.skip(i)),
{
    let g = glyph_of(seq![c]);
    let ns = gs.insert(i, g);
    assert forall|j: int| 0 <= j < ns.len() implies #[trigger] ns[j].width
        == GraphemeWidth::Half by {
        if j < i {
            assert(ns[j] == gs[j]);
        } else if j > i {
            assert(ns[j] == gs[j - 1]);
        }
    }
    lemma_cols_all_half(ns);
    lemma_render_whole(ns, gs.len() + 1 as int);
    assert(ns =~= gs.take(i) + seq![g] + gs.skip(i));
    lemma_shown_text_concat(gs.take(i) + seq![g], gs.skip(i));
    lemma_shown_text_concat(gs.take(i), seq![g]);
    assert(seq![g].drop_last() =~= Seq::<Glyph>::empty());
    assert(seq![g].last() == g);
    assert(shown_text(seq![g].drop_last()) =~= Seq::<char>::empty());
    assert(shown_text(seq![g]) =~= shown(g));
}

/// Any two column ranges from the same start that both reach past every glyph
/// draw the same.
pub proof fn lemma_render_far_end(gs: Seq<Glyph>, start: int, e1: int, e2: int)
    requires
        e1 >= cols(gs),
        e2 >= cols(gs),
    ensures
        render_range(gs, start, e1) == render_range(gs, start, e2),
{
    lemma_render_far_end_prefix(gs, gs.len() as int, start, e1, e2);
}

proof fn lemma_render_far_end_prefix(gs: Seq<Glyph>, k: int, start: int, e1: int, e2: int)
    requires
        0 <= k <= gs.len(),
        e1 >= cols(gs),
        e2 >= cols(gs),
    ensures
        render_prefix(gs, k, start, e1) == render_prefix(gs, k, start, e2),
    decreases k,
{
    if k > 0 {
        lemma_render_far_end_prefix(gs, k - 1, start, e1, e2);
        lemma_cols_step(gs, k - 1);
        lemma_col_mono(gs, k, gs.len() as int);
        lemma_col_of_len(gs);
        assert(piece(gs, k - 1, start, e1) == piece(gs, k - 1, start, e2));
    }
}

} // verus!
