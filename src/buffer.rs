use crate::geometry::Location;
use crate::line::{glyph_of, glyphs_of, Glyph, Line};
use vstd::prelude::*;
use vstd::std_specs::iter::IteratorSpec;

verus! {

/// Drops one carriage return that ends a record.
pub open spec fn strip_cr(r: Seq<char>) -> Seq<char> {
    if r.len() > 0 && r.last() == '\r' {
        r.drop_last()
    } else {
        r
    }
}

/// The records finished so far and the one still open, after reading `s`:
/// a `'\n'` closes the open record, less one `'\r'` just before it.
pub open spec fn split_state(s: Seq<char>) -> (Seq<Seq<char>>, Seq<char>)
    decreases s.len(),
{
    if s.len() == 0 {
        (seq![], seq![])
    } else {
        let (done, open) = split_state(s.drop_last());
        if s.last() == '\n' {
            (done.push(strip_cr(open)), seq![])
        } else {
            (done, open.push(s.last()))
        }
    }
}

/// The newline-delimited records of a file's text; a final line ending adds no
/// empty record.
pub open spec fn file_records(s: Seq<char>) -> Seq<Seq<char>> {
    let (done, open) = split_state(s);
    if open.len() == 0 {
        done
    } else {
        done.push(open)
    }
}

/// The ordered lines of a document.
pub struct Buffer {
    pub lines: Vec<Line>,
}

impl View for Buffer {
    type V = Seq<Seq<Glyph>>;

    open spec fn view(&self) -> Seq<Seq<Glyph>> {
        self.lines@.map_values(|l: Line| l@)
    }
}

proof fn lemma_split_state_len(s: Seq<char>)
    ensures
        split_state(s).0.len() + split_state(s).1.len() <= s.len(),
    decreases s.len(),
{
    if s.len() > 0 {
        lemma_split_state_len(s.drop_last());
    }
}

impl Buffer {
    pub open spec fn wf(&self) -> bool {
        &&& self.lines@.len() <= isize::MAX
        &&& forall|i: int| 0 <= i < self.lines@.len() ==> (#[trigger] self.lines@[i]).wf()
    }

    /// Whether a character can go in at `location`: on an existing line, at a
    /// grapheme index no further than its end; past the last line, as a new line.
    pub open spec fn can_insert_at(&self, location: Location) -> bool {
        if location.line_index < self@.len() {
            &&& location.grapheme_index <= self@[location.line_index as int].len()
            &&& self@[location.line_index as int].len() < isize::MAX
        } else {
            self@.len() < isize::MAX
        }
    }

    /// An empty document.
    pub fn new() -> (r: Buffer)
        ensures
            r@ == Seq::<Seq<Glyph>>::empty(),
            r.wf(),
    {
        let r = Buffer { lines: Vec::new() };
        assert(r@ =~= Seq::<Seq<Glyph>>::empty());
        r
    }

    /// Appends one line per record of a file's text.
    pub fn load_file(&mut self, contents: &str)
        requires
            old(self).wf(),
            old(self)@.len() + contents@.len() <= isize::MAX,
        ensures
            final(self)@ == old(self)@ + file_records(contents@).map_values(
                |r: Seq<char>| glyphs_of(r),
            ),
            final(self).wf(),
    {
        let ghost s = contents@;
        let ghost start = self@;
        let mut chars = contents.chars();
        let mut record = String::new();
        let mut pending_cr = false;
        let ghost mut k: int = 0;
        loop
            invariant
                0 <= k <= s.len(),
                chars.obeys_prophetic_iter_laws(),
                chars.remaining() == s.skip(k),
                self@ == start + split_state(s.take(k)).0.map_values(|r: Seq<char>| glyphs_of(r)),
                split_state(s.take(k)).1 == if pending_cr {
                    record@.push('\r')
                } else {
                    record@
                },
                !pending_cr ==> record@.len() == 0 || record@.last() != '\r',
                start.len() + s.len() <= isize::MAX,
                self.wf(),
                s == contents@,
            ensures
                k == s.len(),
                self@ == start + split_state(s).0.map_values(|r: Seq<char>| glyphs_of(r)),
                split_state(s).1 == if pending_cr {
                    record@.push('\r')
                } else {
                    record@
                },
                self.wf(),
            decreases s.len() - k,
        {
            let ghost prefix = s.take(k);
            let ghost done = split_state(prefix).0;
            let ghost open = split_state(prefix).1;
            proof {
                lemma_split_state_len(prefix);
            }
            let next = chars.next();
            match next {
                None => {
                    assert(s.take(k) =~= s);
                    break;
                },
                Some(c) => {
                    let ghost grown = s.take(k + 1);
                    assert(grown.drop_last() =~= prefix);
                    assert(s.skip(k)[0] == s[k]);
                    assert(grown.last() == c);
                    assert(s.skip(k).drop_first() =~= s.skip(k + 1));
                    if c == '\n' {
                        assert(strip_cr(open) =~= record@);
                        let line = Line::from(record.as_str());
                        let ghost before = self@;
                        self.lines.push(line);
                        assert(self@ =~= before.push(glyphs_of(record@)));
                        assert(self@ =~= start + done.push(record@).map_values(
                            |r: Seq<char>| glyphs_of(r),
                        ));
                        record = String::new();
                        pending_cr = false;
                    } else {
                        if pending_cr {
                            crate::line::push_char(&mut record, '\r');
                        }
                        if c == '\r' {
                            pending_cr = true;
                        } else {
                            crate::line::push_char(&mut record, c);
                            pending_cr = false;
                        }
                        assert(split_state(grown).1 =~= if pending_cr {
                            record@.push('\r')
                        } else {
                            record@
                        });
                    }
                    proof {
                        k = k + 1;
                    }
                },
            }
        }
        proof {
            lemma_split_state_len(s);
        }
        if pending_cr {
            crate::line::push_char(&mut record, '\r');
        }
        if record.unicode_len() > 0 {
            let line = Line::from(record.as_str());
            let ghost before = self@;
            self.lines.push(line);
            assert(self@ =~= before.push(glyphs_of(record@)));
            assert(self@ =~= start + file_records(s).map_values(|r: Seq<char>| glyphs_of(r)));
        } else {
            assert(file_records(s) == split_state(s).0);
        }
    }

    pub fn is_empty(&self) -> (r: bool)
        ensures
            r == (self@.len() == 0),
    {
        self.lines.len() == 0
    }

    pub fn total_lines(&self) -> (r: usize)
        ensures
            r == self@.len(),
    {
        self.lines.len()
    }

    /// Inserts `c` at `location`; past the last line it becomes a new line. A
    /// grapheme index past the end of its line is the caller's error, ruled out
    /// by the precondition rather than clamped.
    pub fn insert_at(&mut self, location: Location, c: char)
        requires
            old(self).wf(),
            old(self).can_insert_at(location),
        ensures
            final(self).wf(),
            location.line_index >= old(self)@.len() ==> final(self)@ == old(self)@.push(
                seq![glyph_of(seq![c])],
            ),
            location.line_index < old(self)@.len() ==> final(self)@ == old(self)@.update(
                location.line_index as int,
                old(self)@[location.line_index as int].insert(
                    location.grapheme_index as int,
                    glyph_of(seq![c]),
                ),
            ),
    {
        let Location { line_index, grapheme_index } = location;
        if line_index >= self.lines.len() {
            self.lines.push(Line::from_char(c));
        } else {
            self.lines[line_index].insert_at(grapheme_index, c);
        }
    }
}

} // verus!
