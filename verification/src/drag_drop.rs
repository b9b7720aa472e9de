//! The drag-and-drop panel: three coloured items that can be dragged, and a target
//! that takes on the colour of the last item dropped on it.
use vstd::prelude::*;
use crate::decimal::{digits_value, is_digit};
use crate::labels::{item_label, item_label_text, source_label, source_label_text};
use crate::palette::{PaletteColor, Tint, HIGHLIGHT_OPACITY, PREVIEW_OPACITY};

verus! {

/// What travels with a dragged item: its index, its colour, and where the pointer is.
///
/// The position is whatever the view layer measures it in (GPUI's `Point<Pixels>`);
/// this library only carries it.
#[derive(Clone, Copy)]
pub struct DragInfo<P> {
    pub ix: usize,
    pub color: PaletteColor,
    pub position: P,
}

impl<P: Copy + Default> DragInfo<P> {
    /// The payload of the item at `ix`, at the default position.
    pub fn new(ix: usize, color: PaletteColor) -> (info: Self)
        ensures
            info.ix == ix,
            info.color == color,
            call_ensures(P::default, (), info.position),
    {
        DragInfo { ix, color, position: P::default() }
    }
}

impl<P: Copy> DragInfo<P> {
    /// The same payload, moved to `pos`.
    pub fn position(self, pos: P) -> (moved: Self)
        ensures
            moved == (DragInfo { ix: self.ix, color: self.color, position: pos }),
    {
        DragInfo { position: pos, ..self }
    }

    /// The text of the preview that follows the pointer: `Item {ix}`.
    pub fn preview_label(&self) -> (s: String)
        ensures
            s@ == item_label_text(self.ix as nat),
            s@.len() > 5,
            s@.take(5) == "Item "@,
            forall|i: int| 5 <= i < s@.len() ==> is_digit(#[trigger] s@[i]),
            s@[5] == '0' <==> self.ix == 0,
            digits_value(s@.skip(5)) == self.ix,
    {
        item_label(self.ix)
    }

    /// The fill of the preview: the item's colour at half opacity.
    pub fn preview_fill(&self) -> (t: Tint)
        ensures
            t.wf(),
            t == (Tint { color: self.color, opacity_percent: PREVIEW_OPACITY }),
    {
        Tint::new(self.color, PREVIEW_OPACITY)
    }
}

/// The colours of the draggable items, in order.
pub open spec fn source_colors() -> Seq<PaletteColor> {
    seq![PaletteColor::Blue, PaletteColor::Red, PaletteColor::Green]
}

/// One draggable item as the panel shows it.
pub struct DragSource {
    pub ix: usize,
    pub color: PaletteColor,
    pub label: String,
    pub hover_fill: Tint,
}

impl DragSource {
    /// What the item at index `i` of the panel is.
    pub open spec fn is_source(self, i: int) -> bool {
        &&& self.ix == i
        &&& self.color == source_colors()[i]
        &&& self.label@ == source_label_text(i as nat)
        &&& self.hover_fill == (Tint { color: source_colors()[i], opacity_percent: HIGHLIGHT_OPACITY })
    }

    /// The payload that dragging this item carries, at the default position.
    pub fn drag_info<P: Copy + Default>(&self) -> (info: DragInfo<P>)
        ensures
            info.ix == self.ix,
            info.color == self.color,
            call_ensures(P::default, (), info.position),
    {
        DragInfo::new(self.ix, self.color)
    }
}

fn make_source(ix: usize, color: PaletteColor) -> (s: DragSource)
    ensures
        s.ix == ix,
        s.color == color,
        s.label@ == source_label_text(ix as nat),
        s.hover_fill == (Tint { color, opacity_percent: HIGHLIGHT_OPACITY }),
{
    DragSource { ix, color, label: source_label(ix), hover_fill: Tint::new(color, HIGHLIGHT_OPACITY) }
}

/// The draggable items, blue, red and green, indexed from 0.
pub fn drag_sources() -> (v: Vec<DragSource>)
    ensures
        v.len() == source_colors().len(),
        forall|i: int| 0 <= i < v.len() ==> (#[trigger] v[i]).is_source(i),
{
    let mut v: Vec<DragSource> = Vec::new();
    v.push(make_source(0, PaletteColor::Blue));
    v.push(make_source(1, PaletteColor::Red));
    v.push(make_source(2, PaletteColor::Green));
    v
}

/// The drag-and-drop panel's state: what was last dropped on its target, if anything.
pub struct DragDrop<P> {
    pub drop_on: Option<DragInfo<P>>,
}

impl<P: Copy> DragDrop<P> {
    /// The panel after `info` is dropped on its target.
    pub open spec fn dropped(self, info: DragInfo<P>) -> DragDrop<P> {
        DragDrop { drop_on: Some(info) }
    }

    /// The panel after `infos` are dropped on its target, one after another, in order.
    pub open spec fn after_drops(self, infos: Seq<DragInfo<P>>) -> DragDrop<P>
        decreases infos.len(),
    {
        if infos.len() == 0 {
            self
        } else {
            self.after_drops(infos.drop_last()).dropped(infos.last())
        }
    }

    /// The colour of the target's border: that of the last item dropped, else white.
    pub open spec fn border_of(self) -> PaletteColor {
        match self.drop_on {
            Some(info) => info.color,
            None => PaletteColor::White,
        }
    }

    /// The target's fill: the last item's colour, lightly, once something was dropped.
    pub open spec fn fill_of(self) -> Option<Tint> {
        match self.drop_on {
            Some(info) => Some(Tint { color: info.color, opacity_percent: HIGHLIGHT_OPACITY }),
            None => None,
        }
    }

    /// A panel on whose target nothing was dropped yet.
    pub fn new() -> (d: Self)
        ensures
            d.drop_on is None,
    {
        DragDrop { drop_on: None }
    }

    /// Records that `info` was dropped on the target.
    pub fn accept_drop(&mut self, info: &DragInfo<P>)
        ensures
            *final(self) == old(self).dropped(*info),
    {
        self.drop_on = Some(*info);
    }

    /// The colour of the target's border.
    pub fn target_border(&self) -> (c: PaletteColor)
        ensures
            c == self.border_of(),
    {
        match &self.drop_on {
            Some(info) => info.color,
            None => PaletteColor::White,
        }
    }

    /// The target's fill, if any.
    pub fn target_fill(&self) -> (t: Option<Tint>)
        ensures
            t == self.fill_of(),
            t matches Some(t) ==> t.wf(),
    {
        match &self.drop_on {
            Some(info) => Some(Tint::new(info.color, HIGHLIGHT_OPACITY)),
            None => None,
        }
    }
}

/// A target on which nothing was dropped has a white border and no fill.
pub proof fn lemma_fresh_target_is_plain<P: Copy>(d: DragDrop<P>)
    requires
        d.drop_on is None,
    ensures
        d.border_of() == PaletteColor::White,
        d.fill_of() is None,
{
}

/// After an item is dropped, the target shows that item's colour: its border in full,
/// its fill lightly.
pub proof fn lemma_drop_shows_color<P: Copy>(d: DragDrop<P>, info: DragInfo<P>)
    ensures
        d.dropped(info).border_of() == info.color,
        d.dropped(info).fill_of() == Some(Tint { color: info.color, opacity_percent: HIGHLIGHT_OPACITY }),
{
}

/// Of two drops, the later one decides what the target shows: the earlier leaves no trace.
pub proof fn lemma_last_drop_wins<P: Copy>(d: DragDrop<P>, first: DragInfo<P>, second: DragInfo<P>)
    ensures
        d.dropped(first).dropped(second) == d.dropped(second),
        d.dropped(first).dropped(second).border_of() == second.color,
{
}

/// However many items are dropped, the target holds the last of them, and it is empty
/// only while nothing was dropped on a fresh panel: once filled, it never empties again.
pub proof fn lemma_target_holds_last_drop<P: Copy>(d: DragDrop<P>, infos: Seq<DragInfo<P>>)
    ensures
        infos.len() == 0 ==> d.after_drops(infos) == d,
        infos.len() > 0 ==> d.after_drops(infos).drop_on == Some(infos.last()),
        infos.len() > 0 ==> d.after_drops(infos).border_of() == infos.last().color,
        d.drop_on is None ==> (d.after_drops(infos).drop_on is None <==> infos.len() == 0),
        d.drop_on is Some ==> d.after_drops(infos).drop_on is Some,
{
}

} // verus!
