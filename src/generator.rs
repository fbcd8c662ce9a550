use crate::grid::{Cell, CellModel, CellOrigin};
use vstd::prelude::*;

verus! {

/// The text written into a cell whose lookup failed.
pub open spec fn fallback_marker() -> Seq<char> {
    seq!['?', '?', '?']
}

/// What one answer of the word source stands for: `None` is a failed lookup.
pub open spec fn lookup_view(l: Option<String>) -> Option<Seq<char>> {
    match l {
        Some(w) => Some(w@),
        None => None,
    }
}

pub open spec fn lookup_views(ls: Seq<Option<String>>) -> Seq<Option<Seq<char>>> {
    ls.map_values(|l: Option<String>| lookup_view(l))
}

/// The cell made from one answer of the word source. A word source that
/// hands back no text has failed as surely as one that reports an error.
pub open spec fn generated_cell(lookup: Option<Seq<char>>) -> CellModel {
    if lookup is Some && lookup->0.len() > 0 {
        CellModel { value: lookup->0, origin: CellOrigin::GeneratedSuccess }
    } else {
        CellModel { value: fallback_marker(), origin: CellOrigin::GeneratedFallback }
    }
}

/// The fallback marker as text.
pub fn fallback_text() -> (r: String)
    ensures
        r@ == fallback_marker(),
{
    proof {
        reveal_strlit("???");
    }
    let r = String::from_str("???");
    assert(r@ =~= fallback_marker());
    r
}

/// Turns one answer of the word source into an opponent's cell: the word
/// itself on success, the fallback marker, tagged as such, on failure.
pub fn generate_cell(lookup: &Option<String>) -> (r: Cell)
    ensures
        r@ == generated_cell(lookup_view(*lookup)),
{
    match lookup {
        Some(w) => {
            if w.as_str().is_empty() {
                Cell { value: fallback_text(), origin: CellOrigin::GeneratedFallback }
            } else {
                Cell { value: w.clone(), origin: CellOrigin::GeneratedSuccess }
            }
        },
        None => Cell { value: fallback_text(), origin: CellOrigin::GeneratedFallback },
    }
}

} // verus!
