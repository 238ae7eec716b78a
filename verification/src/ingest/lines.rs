//! Preparing the lines of a trace file for parsing.
use vstd::prelude::*;
use vstd::string::StrSliceExecFns;

use crate::text::{same_text, to_owned};

verus! {

/// How many lines are read before a batch is parsed.
pub const BATCH_SIZE: usize = 0x80000;

/// What becomes of one line of a trace file: empty lines and the brackets
/// that open and close a JSON array are skipped, and a leading `", "` that
/// separates array items is cut off.
pub open spec fn cleaned(l: Seq<char>) -> Option<Seq<char>> {
    if l.len() == 0 || l == "["@ || l == "]"@ {
        None
    } else if l.len() >= 2 && l[0] == ',' && l[1] == ' ' {
        Some(l.skip(2))
    } else {
        Some(l)
    }
}

/// The numbered lines that remain of `lines`, each cleaned, in order.
pub open spec fn cleaned_all(lines: Seq<(usize, Seq<char>)>) -> Seq<(usize, Seq<char>)>
    decreases lines.len(),
{
    if lines.len() == 0 {
        Seq::empty()
    } else {
        let rest = cleaned_all(lines.drop_last());
        match cleaned(lines.last().1) {
            Some(c) => rest.push((lines.last().0, c)),
            None => rest,
        }
    }
}

/// Cleans one line of a trace file; `None` when the line is skipped.
pub fn clean_line(l: &str) -> (r: Option<String>)
    ensures
        match r {
            Some(s) => cleaned(l@) == Some(s@),
            None => cleaned(l@) is None,
        },
{
    let n = l.unicode_len();
    if n == 0 || same_text(l, "[") || same_text(l, "]") {
        return None;
    }
    if n >= 2 && l.get_char(0) == ',' && l.get_char(1) == ' ' {
        let rest = l.substring_char(2, n);
        assert(rest@ =~= l@.skip(2));
        Some(to_owned(rest))
    } else {
        Some(to_owned(l))
    }
}

/// Cleans a batch of numbered lines, dropping the skipped ones and keeping
/// the order and the line numbers of the rest.
pub fn clean_batch(lines: &Vec<(usize, String)>) -> (r: Vec<(usize, String)>)
    ensures
        r@.map_values(|e: (usize, String)| (e.0, e.1@)) == cleaned_all(
            lines@.map_values(|e: (usize, String)| (e.0, e.1@)),
        ),
{
    let ghost input = lines@.map_values(|e: (usize, String)| (e.0, e.1@));
    let mut r: Vec<(usize, String)> = Vec::new();
    let mut i: usize = 0;
    while i < lines.len()
        invariant
            0 <= i <= lines.len(),
            input == lines@.map_values(|e: (usize, String)| (e.0, e.1@)),
            r@.map_values(|e: (usize, String)| (e.0, e.1@)) == cleaned_all(
                input.subrange(0, i as int),
            ),
        decreases lines.len() - i,
    {
        let ghost prev = r@;
        let n = lines[i].0;
        match clean_line(lines[i].1.as_str()) {
            Some(c) => {
                r.push((n, c));
            },
            None => {},
        }
        assert(input.subrange(0, i + 1).drop_last() =~= input.subrange(0, i as int));
        assert(r@.map_values(|e: (usize, String)| (e.0, e.1@)) =~= cleaned_all(
            input.subrange(0, i + 1),
        ));
        i = i + 1;
    }
    assert(input.subrange(0, i as int) =~= input);
    r
}

} // verus!
