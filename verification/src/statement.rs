//! Reading the lines of a mesh description as statements.
//!
//! The first word of a line says what the line states: `v` a position, `vt`
//! a texture coordinate, `vn` a normal, `f` a face. The words after it are
//! its fields. A line that begins with anything else states nothing; so a
//! comment, which begins with `#`, and an empty line.

use vstd::prelude::*;
use crate::obj::{Corner, FaceIndex};
use crate::text::{
    find_byte, index_of, parse_index, run_until, split_lines, split_whitespace, words, lines, Span,
    SLASH,
};

verus! {

/// What a line states.
#[derive(Clone, Copy, PartialEq, Eq, Structural, Debug)]
pub enum Keyword {
    Position,
    TexCoord,
    Normal,
    Face,
}

/// A line of a description. The fields of a position, a texture coordinate
/// and a normal are handed on as their places in the text; the fields of a
/// face are read as corners.
#[derive(Debug)]
pub enum Statement {
    Position(Vec<Span>),
    TexCoord(Vec<Span>),
    Normal(Vec<Span>),
    Face(Vec<Corner>),
    Other,
}

pub const LETTER_V: u8 = 118;

pub const LETTER_T: u8 = 116;

pub const LETTER_N: u8 = 110;

pub const LETTER_F: u8 = 102;

/// The keyword that a word spells: `v`, `vt`, `vn` or `f`.
pub open spec fn keyword_of(word: Seq<u8>) -> Option<Keyword> {
    if word.len() == 1 && word[0] == LETTER_V {
        Some(Keyword::Position)
    } else if word.len() == 2 && word[0] == LETTER_V && word[1] == LETTER_T {
        Some(Keyword::TexCoord)
    } else if word.len() == 2 && word[0] == LETTER_V && word[1] == LETTER_N {
        Some(Keyword::Normal)
    } else if word.len() == 1 && word[0] == LETTER_F {
        Some(Keyword::Face)
    } else {
        None
    }
}

/// What a part of a corner writes: nothing where it is empty, else the index
/// that it writes, else something unreadable.
pub open spec fn face_index_of(t: Seq<u8>) -> FaceIndex {
    if t.len() == 0 {
        FaceIndex::Absent
    } else {
        match index_of(t) {
            Some(i) => FaceIndex::At(i),
            None => FaceIndex::Unreadable,
        }
    }
}

/// The corner that the text between `from` and `to` writes: up to three
/// parts, parted by slashes, for the position, the texture coordinate and
/// the normal. A part that is wanting or empty is absent; one that is not
/// empty and writes no index is unreadable. What follows a third slash is
/// not looked at.
pub open spec fn corner_of(s: Seq<u8>, from: int, to: int) -> Corner {
    let first = from + run_until(s, SLASH, from, to);
    let second = first + 1 + run_until(s, SLASH, first + 1, to);
    let third = second + 1 + run_until(s, SLASH, second + 1, to);
    Corner {
        pos: face_index_of(s.subrange(from, first)),
        uv: if first < to {
            face_index_of(s.subrange(first + 1, second))
        } else {
            FaceIndex::Absent
        },
        normal: if first < to && second < to {
            face_index_of(s.subrange(second + 1, third))
        } else {
            FaceIndex::Absent
        },
    }
}

/// The corners that the fields of a face write, one for each field.
pub open spec fn corners_of(s: Seq<u8>, fields: Seq<Span>) -> Seq<Corner> {
    Seq::new(fields.len(), |i: int| corner_of(s, fields[i].start as int, fields[i].end as int))
}

/// Whether `statement` is what the line at `line` states.
pub open spec fn states(statement: Statement, s: Seq<u8>, line: Span) -> bool {
    let w = words(s, line.start as int, line.end as int);
    let keyword = if w.len() == 0 {
        None
    } else {
        keyword_of(s.subrange(w[0].start as int, w[0].end as int))
    };
    match keyword {
        None => statement is Other,
        Some(Keyword::Position) => statement matches Statement::Position(f) && f@ == w.skip(1),
        Some(Keyword::TexCoord) => statement matches Statement::TexCoord(f) && f@ == w.skip(1),
        Some(Keyword::Normal) => statement matches Statement::Normal(f) && f@ == w.skip(1),
        Some(Keyword::Face) => statement matches Statement::Face(c) && c@ == corners_of(
            s,
            w.skip(1),
        ),
    }
}

/// Reads the word at `word` as a keyword.
pub fn read_keyword(s: &[u8], word: Span) -> (r: Option<Keyword>)
    requires
        word.start <= word.end <= s@.len(),
    ensures
        r == keyword_of(s@.subrange(word.start as int, word.end as int)),
{
    let n: usize = word.end - word.start;
    if n == 1 {
        let a = s[word.start];
        if a == LETTER_V {
            Some(Keyword::Position)
        } else if a == LETTER_F {
            Some(Keyword::Face)
        } else {
            None
        }
    } else if n == 2 {
        let a = s[word.start];
        let b = s[word.start + 1];
        if a == LETTER_V && b == LETTER_T {
            Some(Keyword::TexCoord)
        } else if a == LETTER_V && b == LETTER_N {
            Some(Keyword::Normal)
        } else {
            None
        }
    } else {
        None
    }
}

/// Reads the text between `from` and `to` as one part of a corner.
pub fn parse_face_index(s: &[u8], from: usize, to: usize) -> (r: FaceIndex)
    requires
        from <= to <= s@.len(),
    ensures
        r == face_index_of(s@.subrange(from as int, to as int)),
{
    if from >= to {
        return FaceIndex::Absent;
    }
    match parse_index(s, from, to) {
        Some(i) => FaceIndex::At(i),
        None => FaceIndex::Unreadable,
    }
}

/// Reads the text between `from` and `to` as a corner of a face.
pub fn parse_corner(s: &[u8], from: usize, to: usize) -> (r: Corner)
    requires
        from <= to <= s@.len(),
    ensures
        r == corner_of(s@, from as int, to as int),
{
    let first = find_byte(s, SLASH, from, to);
    let pos = parse_face_index(s, from, first);
    if first >= to {
        return Corner { pos, uv: FaceIndex::Absent, normal: FaceIndex::Absent };
    }
    let second = find_byte(s, SLASH, first + 1, to);
    let uv = parse_face_index(s, first + 1, second);
    if second >= to {
        return Corner { pos, uv, normal: FaceIndex::Absent };
    }
    let third = find_byte(s, SLASH, second + 1, to);
    let normal = parse_face_index(s, second + 1, third);
    Corner { pos, uv, normal }
}

/// Reads every field of a face as a corner.
fn parse_corners(s: &[u8], fields: &Vec<Span>) -> (r: Vec<Corner>)
    requires
        forall|k: int| 0 <= k < fields@.len() ==> (#[trigger] fields@[k]).start <= fields@[k].end
            <= s@.len(),
    ensures
        r@ == corners_of(s@, fields@),
{
    let mut out: Vec<Corner> = Vec::new();
    let mut i: usize = 0;
    while i < fields.len()
        invariant
            0 <= i <= fields@.len(),
            out@.len() == i,
            forall|k: int| 0 <= k < fields@.len() ==> (#[trigger] fields@[k]).start
                <= fields@[k].end <= s@.len(),
            forall|k: int| 0 <= k < i ==> out@[k] == corner_of(
                s@,
                fields@[k].start as int,
                fields@[k].end as int,
            ),
        decreases fields@.len() - i,
    {
        let field = fields[i];
        out.push(parse_corner(s, field.start, field.end));
        i += 1;
    }
    assert(out@ =~= corners_of(s@, fields@));
    out
}

/// Reads the line at `line` as a statement.
pub fn read_statement(s: &[u8], line: Span) -> (r: Statement)
    requires
        line.start <= line.end <= s@.len(),
    ensures
        states(r, s@, line),
{
    let mut fields = split_whitespace(s, line.start, line.end);
    if fields.len() == 0 {
        return Statement::Other;
    }
    let ghost w = fields@;
    let keyword = read_keyword(s, fields[0]);
    fields.remove(0);
    assert(fields@ =~= w.skip(1));
    match keyword {
        None => Statement::Other,
        Some(Keyword::Position) => Statement::Position(fields),
        Some(Keyword::TexCoord) => Statement::TexCoord(fields),
        Some(Keyword::Normal) => Statement::Normal(fields),
        Some(Keyword::Face) => Statement::Face(parse_corners(s, &fields)),
    }
}

/// Reads a whole description, line by line: one statement for each line, in
/// the order of the lines.
pub fn scan(s: &[u8]) -> (r: Vec<Statement>)
    ensures
        r@.len() == lines(s@, 0, s@.len() as int).len(),
        forall|k: int|
            0 <= k < r@.len() ==> states(#[trigger] r@[k], s@, lines(s@, 0, s@.len() as int)[k]),
{
    let spans = split_lines(s, 0, s.len());
    let mut out: Vec<Statement> = Vec::new();
    let mut i: usize = 0;
    while i < spans.len()
        invariant
            0 <= i <= spans@.len(),
            out@.len() == i,
            spans@ == lines(s@, 0, s@.len() as int),
            forall|k: int| 0 <= k < spans@.len() ==> 0 <= (#[trigger] spans@[k]).start
                <= spans@[k].end <= s@.len(),
            forall|k: int| 0 <= k < i ==> states(#[trigger] out@[k], s@, spans@[k]),
        decreases spans@.len() - i,
    {
        out.push(read_statement(s, spans[i]));
        i += 1;
    }
    out
}

} // verus!
