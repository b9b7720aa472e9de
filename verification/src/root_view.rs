//! The root view: a greeting, a row of swatches, and a numbered, clickable list.
use vstd::prelude::*;
use crate::decimal::{digits_value, is_digit};
use crate::labels::{item_label, item_label_text, lemma_item_label_names_number};
use crate::palette::PaletteColor;

verus! {

/// How many entries the root view's list has.
pub const LIST_LEN: usize = 50;

/// One square of the swatch row: its fill and the colour of its dashed border.
#[derive(Clone, Copy, Debug, PartialEq, Eq, Structural)]
pub struct Swatch {
    pub fill: PaletteColor,
    pub border: PaletteColor,
}

/// The fills of the swatch row, left to right.
pub open spec fn swatch_fills() -> Seq<PaletteColor> {
    seq![
        PaletteColor::Red,
        PaletteColor::Green,
        PaletteColor::Blue,
        PaletteColor::Yellow,
        PaletteColor::Black,
        PaletteColor::White,
    ]
}

/// The border drawn round a swatch of colour `fill`: white, or black round white.
pub open spec fn contrast_border(fill: PaletteColor) -> PaletteColor {
    if fill == PaletteColor::White {
        PaletteColor::Black
    } else {
        PaletteColor::White
    }
}

/// A swatch's border always differs from its fill, so that every swatch stays visible.
pub proof fn lemma_border_contrasts(fill: PaletteColor)
    ensures
        contrast_border(fill) != fill,
{
}

fn swatch(fill: PaletteColor) -> (s: Swatch)
    ensures
        s.fill == fill,
        s.border == contrast_border(fill),
{
    let border = match fill {
        PaletteColor::White => PaletteColor::Black,
        _ => PaletteColor::White,
    };
    Swatch { fill, border }
}

/// The swatch row, left to right.
pub fn swatches() -> (v: Vec<Swatch>)
    ensures
        v.len() == swatch_fills().len(),
        forall|i: int|
            0 <= i < v.len() ==> (#[trigger] v[i]).fill == swatch_fills()[i] && v[i].border
                == contrast_border(swatch_fills()[i]),
{
    let mut v: Vec<Swatch> = Vec::new();
    v.push(swatch(PaletteColor::Red));
    v.push(swatch(PaletteColor::Green));
    v.push(swatch(PaletteColor::Blue));
    v.push(swatch(PaletteColor::Yellow));
    v.push(swatch(PaletteColor::Black));
    v.push(swatch(PaletteColor::White));
    v
}

/// One row of the list: the element id it is given, the number it shows, and its text.
pub struct ListEntry {
    pub id: usize,
    pub number: usize,
    pub label: String,
}

impl ListEntry {
    /// What the row at index `ix` of the list is: id `ix`, number `ix + 1`.
    pub open spec fn is_row(self, ix: int) -> bool {
        &&& self.id == ix
        &&& self.number == ix + 1
        &&& self.label@ == item_label_text((ix + 1) as nat)
    }
}

/// How many indices a range holds.
pub open spec fn range_len(range: std::ops::Range<usize>) -> nat {
    if range.start <= range.end {
        (range.end - range.start) as nat
    } else {
        0
    }
}

/// Rows that stand for the indices of `range` (as `list_entries` gives them) are one per
/// index: `range.end - range.start` of them, none for an empty or reversed range; row `k`
/// has id `range.start + k`, and its label is `Item ` and then the digits of that id plus one.
pub proof fn lemma_rows_cover_range(range: std::ops::Range<usize>, rows: Seq<ListEntry>)
    requires
        rows.len() == range_len(range),
        forall|k: int| 0 <= k < rows.len() ==> (#[trigger] rows[k]).is_row(range.start + k),
    ensures
        range.start <= range.end ==> rows.len() == range.end - range.start,
        range.end < range.start ==> rows.len() == 0,
        forall|k: int|
            0 <= k < rows.len() ==> {
                &&& (#[trigger] rows[k]).id == range.start + k
                &&& rows[k].number == range.start + k + 1
                &&& rows[k].label@.len() > 5
                &&& rows[k].label@.take(5) == "Item "@
                &&& forall|i: int|
                    5 <= i < rows[k].label@.len() ==> is_digit(#[trigger] rows[k].label@[i])
                &&& rows[k].label@[5] != '0'
                &&& digits_value(rows[k].label@.skip(5)) == range.start + k + 1
            },
{
    assert forall|k: int| 0 <= k < rows.len() implies {
        &&& (#[trigger] rows[k]).id == range.start + k
        &&& rows[k].number == range.start + k + 1
        &&& rows[k].label@.len() > 5
        &&& rows[k].label@.take(5) == "Item "@
        &&& forall|i: int|
            5 <= i < rows[k].label@.len() ==> is_digit(#[trigger] rows[k].label@[i])
        &&& rows[k].label@[5] != '0'
        &&& digits_value(rows[k].label@.skip(5)) == range.start + k + 1
    } by {
        assert(rows[k].is_row(range.start + k));
        lemma_item_label_names_number((range.start + k + 1) as nat);
    }
}

/// The rows of the list whose indices `range` holds, in order; each shows its index plus one.
pub fn list_entries(range: std::ops::Range<usize>) -> (v: Vec<ListEntry>)
    ensures
        v.len() == range_len(range),
        range.start <= range.end ==> v.len() == range.end - range.start,
        range.end < range.start ==> v.len() == 0,
        forall|k: int| 0 <= k < v.len() ==> (#[trigger] v[k]).is_row(range.start + k),
        forall|k: int|
            0 <= k < v.len() ==> {
                &&& (#[trigger] v[k]).id == range.start + k
                &&& v[k].number == range.start + k + 1
                &&& v[k].label@.len() > 5
                &&& v[k].label@.take(5) == "Item "@
                &&& forall|i: int|
                    5 <= i < v[k].label@.len() ==> is_digit(#[trigger] v[k].label@[i])
                &&& v[k].label@[5] != '0'
                &&& digits_value(v[k].label@.skip(5)) == range.start + k + 1
            },
{
    let mut v: Vec<ListEntry> = Vec::new();
    let mut ix = range.start;
    while ix < range.end
        invariant
            range.start <= ix || range.end <= range.start,
            range.start <= range.end ==> ix <= range.end,
            range.start <= range.end ==> v.len() == ix - range.start,
            range.end <= range.start ==> v.len() == 0 && ix == range.start,
            forall|k: int| 0 <= k < v.len() ==> (#[trigger] v[k]).is_row(range.start + k),
        decreases range.end - ix,
    {
        let number = ix + 1;
        let entry = ListEntry { id: ix, number, label: item_label(number) };
        v.push(entry);
        ix = ix + 1;
    }
    proof { lemma_rows_cover_range(range, v@); }
    v
}

} // verus!
