//! The document store: the lines of a text, each under its sequential id,
//! built once and read-only afterwards.

use vstd::prelude::*;

use crate::lines::{lines_of, split_lines, views};

verus! {

/// One line of the store.
#[derive(Debug)]
pub struct Line {
    /// The line's exact text, without its line ending.
    pub data: String,
}

/// A lookup for an id that the store does not hold.
#[derive(Debug, PartialEq, Eq, Structural)]
pub struct NotFound;

/// The lines of a text; the line with id `i` (from 1) is at position `i - 1`.
/// There is no operation that changes a store once it is built, so any number
/// of readers may share one.
pub struct Store {
    lines: Vec<String>,
}

impl View for Store {
    type V = Seq<Seq<char>>;

    /// The text of each line, in id order.
    closed spec fn view(&self) -> Seq<Seq<char>> {
        views(self.lines@)
    }
}

/// Whether `id` names a line of a store holding `lines`.
pub open spec fn holds_id(lines: Seq<Seq<char>>, id: int) -> bool {
    1 <= id <= lines.len()
}

/// The text of the line with id `id`.
pub open spec fn line_text(lines: Seq<Seq<char>>, id: int) -> Seq<char> {
    lines[id - 1]
}

impl Store {
    /// The number of lines held.
    pub fn len(&self) -> (r: usize)
        ensures
            r == self@.len(),
    {
        self.lines.len()
    }

    /// The text of the line with id `id`, if the store holds one.
    pub fn text_of(&self, id: i64) -> (r: Option<&String>)
        ensures
            match r {
                Some(t) => holds_id(self@, id as int) && t@ == line_text(self@, id as int),
                None => !holds_id(self@, id as int),
            },
    {
        if id >= 1 && (id as u64) <= (self.lines.len() as u64) {
            let t = &self.lines[(id - 1) as usize];
            assert(t@ == views(self.lines@)[id - 1]);
            Some(t)
        } else {
            None
        }
    }
}

/// Builds the store of the lines of `text`: ids run from 1 to the number of
/// lines, in the text's order.
pub fn build_database(text: &str) -> (r: Store)
    ensures
        r@ == lines_of(text@),
{
    Store { lines: split_lines(text) }
}

/// The line with id `line`, or `NotFound` when `line` is outside `[1, N]`
/// for a store of `N` lines.
pub fn get_line(line: i64, store: &Store) -> (r: Result<Line, NotFound>)
    ensures
        match r {
            Ok(l) => holds_id(store@, line as int) && l.data@ == line_text(store@, line as int),
            Err(_) => !holds_id(store@, line as int),
        },
{
    match store.text_of(line) {
        Some(t) => Ok(Line { data: t.clone() }),
        None => Err(NotFound),
    }
}

} // verus!
