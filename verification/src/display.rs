//! The character-matrix form that game art is rendered from. The terminal
//! layer owns colors, glyph placement and cursor positioning; this module
//! only turns lines of text into a matrix of characters and back.

use vstd::prelude::*;
use vstd::string::StringExecFns;

verus! {

/// The characters of `rows` laid out line by line, each row followed by a
/// newline.
pub open spec fn text_of(rows: Seq<Seq<char>>) -> Seq<char>
    decreases rows.len(),
{
    if rows.len() == 0 {
        Seq::empty()
    } else {
        text_of(rows.drop_last()) + rows.last() + seq!['\n']
    }
}

/// A block of characters — the renderable form of a piece of ASCII art.
/// Just a `Vec<Vec<char>>` with a type of its own.
#[derive(Debug)]
pub struct CharMatrix(pub Vec<Vec<char>>);

impl CharMatrix {
    /// The rows as mathematical character sequences.
    pub open spec fn rows_view(&self) -> Seq<Seq<char>> {
        self.0@.map_values(|r: Vec<char>| r@)
    }

    pub fn new(rows: Vec<Vec<char>>) -> (m: CharMatrix)
        ensures
            m.0@ == rows@,
    {
        CharMatrix(rows)
    }

    /// The rows of the matrix.
    pub fn rows(&self) -> (r: &Vec<Vec<char>>)
        ensures
            r@ == self.0@,
    {
        &self.0
    }

    /// The whole matrix as one string, each row on a line of its own.
    pub fn to_text(&self) -> (r: String)
        ensures
            r@ == text_of(self.rows_view()),
    {
        let mut out = String::new();
        let mut i: usize = 0;
        while i < self.0.len()
            invariant
                i <= self.0@.len(),
                out@ == text_of(self.rows_view().take(i as int)),
            decreases self.0@.len() - i,
        {
            let line = chars_to_string(&self.0[i]);
            out.append(line.as_str());
            out.append("\n");
            proof {
                reveal_strlit("\n");
                assert("\n"@ =~= seq!['\n']);
                assert(self.rows_view().take(i + 1).drop_last() =~= self.rows_view().take(
                    i as int,
                ));
                assert(out@ =~= text_of(self.rows_view().take(i + 1)));
            }
            i += 1;
        }
        proof {
            assert(self.rows_view().take(self.0@.len() as int) =~= self.rows_view());
        }
        out
    }
}

impl Default for CharMatrix {
    /// A matrix of a single empty row.
    fn default() -> (m: CharMatrix)
        ensures
            m.0@.len() == 1,
            m.0@[0]@ == Seq::<char>::empty(),
    {
        let mut rows: Vec<Vec<char>> = Vec::new();
        rows.push(Vec::new());
        CharMatrix(rows)
    }
}

/// Turn lines of text into a character matrix, one row per line.
pub fn to_char_matrix(lines: &[&str]) -> (m: CharMatrix)
    ensures
        m.0@.len() == lines@.len(),
        forall|i: int| 0 <= i < lines@.len() ==> m.0@[i]@ == (#[trigger] lines@[i])@,
{
    let mut rows: Vec<Vec<char>> = Vec::new();
    let mut i: usize = 0;
    while i < lines.len()
        invariant
            i <= lines@.len(),
            rows@.len() == i,
            forall|k: int| 0 <= k < i ==> rows@[k]@ == (#[trigger] lines@[k])@,
        decreases lines@.len() - i,
    {
        rows.push(str_to_chars(lines[i]));
        i += 1;
    }
    CharMatrix(rows)
}

/// Relies on `str::chars`: iterating a string yields exactly its characters,
/// in order.
#[verifier::external_body]
fn str_to_chars(s: &str) -> (r: Vec<char>)
    ensures
        r@ == s@,
{
    s.chars().collect()
}

/// Relies on `String`'s `FromIterator<char>` implementation: collecting
/// characters yields the string of exactly those characters, in order.
#[verifier::external_body]
fn chars_to_string(cs: &Vec<char>) -> (r: String)
    ensures
        r@ == cs@,
{
    cs.iter().copied().collect()
}

} // verus!
