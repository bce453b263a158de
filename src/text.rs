//! Text helpers: building strings, and the shortened form of a long cell.

use vstd::prelude::*;
use vstd::string::StringExecFns;

verus! {

/// Cells with more characters than this are shortened for display.
pub const DISPLAY_LIMIT: usize = 50;

/// How many leading characters of a shortened cell are kept.
pub const KEPT_CHARS: usize = 47;

/// The marker that ends a shortened cell.
pub open spec fn ellipsis() -> Seq<char> {
    seq!['.', '.', '.']
}

/// What a cell shows: the text itself when it has at most `DISPLAY_LIMIT`
/// characters, else its first `KEPT_CHARS` characters and an ellipsis.
pub open spec fn display_form(s: Seq<char>) -> Seq<char> {
    if s.len() > DISPLAY_LIMIT {
        s.take(KEPT_CHARS as int) + ellipsis()
    } else {
        s
    }
}

/// The texts of a list of strings.
pub open spec fn texts(v: Seq<String>) -> Seq<Seq<char>> {
    v.map_values(|x: String| x@)
}

/// The texts of a list of rows of strings.
pub open spec fn rows_texts(v: Seq<Vec<String>>) -> Seq<Seq<Seq<char>>> {
    v.map_values(|row: Vec<String>| texts(row@))
}

/// A shortened cell has exactly `DISPLAY_LIMIT` characters: the first
/// `KEPT_CHARS` of the cell and an ellipsis; a short cell is left as it is.
pub proof fn lemma_display_form(s: Seq<char>)
    ensures
        s.len() > DISPLAY_LIMIT ==> display_form(s).len() == DISPLAY_LIMIT
            && display_form(s).take(KEPT_CHARS as int) == s.take(KEPT_CHARS as int)
            && display_form(s).skip(KEPT_CHARS as int) == ellipsis(),
        s.len() <= DISPLAY_LIMIT ==> display_form(s) == s,
        display_form(s).len() <= DISPLAY_LIMIT,
{
    if s.len() > DISPLAY_LIMIT {
        let d = display_form(s);
        assert(d.take(KEPT_CHARS as int) =~= s.take(KEPT_CHARS as int));
        assert(d.skip(KEPT_CHARS as int) =~= ellipsis());
    }
}

/// Relies on String::push: appends one character at the end.
#[verifier::external_body]
pub(crate) fn push_char(s: &mut String, c: char)
    ensures
        final(s)@ == old(s)@.push(c),
{
    s.push(c)
}

/// The text that a cell shows in the grid (see `display_form`).
pub fn display_text(cell: &str) -> (r: String)
    ensures
        r@ == display_form(cell@),
{
    let mut prefix = String::new();
    let mut n: usize = 0;
    let ghost s = cell@;
    for c in it: cell.chars()
        invariant
            it.seq() == s,
            n as int == if it.index() <= DISPLAY_LIMIT { it.index() as int } else { DISPLAY_LIMIT + 1 },
            prefix@ == s.take(if it.index() <= KEPT_CHARS { it.index() as int } else { KEPT_CHARS as int }),
    {
        if n < KEPT_CHARS {
            assert(s.take(it.index() + 1) =~= s.take(it.index() as int).push(c));
            push_char(&mut prefix, c);
        }
        if n <= DISPLAY_LIMIT {
            n = n + 1;
        }
    }
    if n > DISPLAY_LIMIT {
        proof { reveal_strlit("..."); }
        prefix.append("...");
        prefix
    } else {
        assert(s.take(s.len() as int) =~= s);
        String::from_str(cell)
    }
}

} // verus!
