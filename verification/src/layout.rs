//! The layout state that an editor keeps from one frame to the next.
//!
//! An editor that is centred or right-aligned has to know its width before
//! it is drawn. So its first pass is drawn left-aligned over all the space
//! there is, only to be measured, and is then redone; later passes use the
//! width measured last and are redone only when the width came out
//! differently.

use vstd::prelude::*;
use egui::{Context, Id};

verus! {

/// A length in the host's units, held by the bit pattern of the host's
/// 32-bit representation. Two lengths are the same when their patterns are.
#[derive(Debug, Clone, Copy, PartialEq, Eq, Structural)]
pub struct Length {
    /// The bit pattern.
    pub bits: u32,
}

/// How the surrounding layout aligns its content across its main direction.
#[derive(Debug, Clone, Copy, PartialEq, Eq, Structural)]
pub enum Alignment {
    /// At the leading edge.
    Min,
    /// In the middle.
    Center,
    /// At the trailing edge.
    Max,
}

/// Where in the available space the editor is drawn.
#[derive(Debug, Clone, Copy, PartialEq, Eq, Structural)]
pub enum Placement {
    /// Over all of the available space.
    Available,
    /// In a rectangle of the given width and of the available height, with
    /// the centre of the available space as its centre.
    Centered(Length),
    /// In a rectangle of the given width that ends at the trailing edge of
    /// the available space, less the margin of the surrounding window.
    Trailing(Length),
}

/// What an editor remembers between frames.
#[derive(Debug, Clone, Copy)]
pub struct PropertyEditorStore {
    /// Whether the editor has not been drawn yet.
    pub first_pass: bool,
    /// The width that the editor took up when it was drawn last.
    pub last_width: Length,
}

impl Default for PropertyEditorStore {
    /// The state of an editor that was never drawn.
    fn default() -> (store: Self)
        ensures
            store == Self::initial(),
    {
        PropertyEditorStore { first_pass: true, last_width: Length { bits: 0 } }
    }
}

impl PropertyEditorStore {
    /// The state of an editor that was never drawn: its first pass is still
    /// to come, and its width is zero.
    pub open spec fn initial() -> Self {
        PropertyEditorStore { first_pass: true, last_width: Length { bits: 0 } }
    }

    /// The placement of the editor in this state under the given alignment.
    pub open spec fn placed(self, alignment: Alignment) -> Placement {
        if self.first_pass {
            Placement::Available
        } else {
            match alignment {
                Alignment::Min => Placement::Available,
                Alignment::Center => Placement::Centered(self.last_width),
                Alignment::Max => Placement::Trailing(self.last_width),
            }
        }
    }

    /// Whether a pass that began in this state and took up `width` has to be
    /// redone: the first pass always, a later one when the width changed.
    pub open spec fn needs_relayout(self, width: Length) -> bool {
        self.first_pass || self.last_width != width
    }

    /// The state after a pass that took up `width`.
    pub open spec fn after(self, width: Length) -> Self {
        PropertyEditorStore { first_pass: false, last_width: width }
    }

    /// Reads the state kept under `id`, if there is one.
    ///
    /// Calls `egui::Context::data` with `IdTypeMap::get_temp`. Nothing is
    /// claimed of what comes back: it is what `store` put there earlier in
    /// this run of the program, or nothing.
    #[verifier::external_body]
    pub fn load(ctx: &Context, id: Id) -> (stored: Option<Self>) {
        ctx.data(|d| d.get_temp(id))
    }

    /// Keeps this state under `id` for the frames to come.
    ///
    /// Calls `egui::Context::data_mut` with `IdTypeMap::insert_temp`.
    #[verifier::external_body]
    pub fn store(self, ctx: &Context, id: Id) {
        ctx.data_mut(|d| d.insert_temp(id, self));
    }

    /// The state to start a pass with: what was kept, or the initial state
    /// where nothing was.
    pub fn resume(stored: Option<Self>) -> (store: Self)
        ensures
            store == (match stored {
                Some(kept) => kept,
                None => Self::initial(),
            }),
    {
        match stored {
            Some(kept) => kept,
            None => PropertyEditorStore::default(),
        }
    }

    /// Where the editor is drawn in this pass. The first pass takes all the
    /// space there is. Later passes do so under leading alignment; centred or
    /// trailing, they take the width measured last.
    pub fn placement(&self, alignment: Alignment) -> (placement: Placement)
        ensures
            placement == self.placed(alignment),
    {
        if self.first_pass {
            Placement::Available
        } else {
            match alignment {
                Alignment::Min => Placement::Available,
                Alignment::Center => Placement::Centered(self.last_width),
                Alignment::Max => Placement::Trailing(self.last_width),
            }
        }
    }

    /// Ends a pass in which the editor took up `width`: gives the state for
    /// the next pass, and says whether this pass has to be redone.
    pub fn finish(self, width: Length) -> (next: (Self, bool))
        ensures
            next.0 == self.after(width),
            next.1 == self.needs_relayout(width),
    {
        let relayout = self.first_pass || self.last_width != width;
        (PropertyEditorStore { first_pass: false, last_width: width }, relayout)
    }

    /// Starts a pass: reads the state kept under `id`, and starts from the
    /// initial state where there is none.
    pub fn begin_pass(ctx: &Context, id: Id) -> (store: Self) {
        Self::resume(Self::load(ctx, id))
    }

    /// Ends a pass in which the editor took up `width`: asks the host to
    /// redo the frame where the pass has to be redone, keeps the state for
    /// the next pass under `id`, and says whether it asked.
    pub fn end_pass(self, ctx: &Context, id: Id, width: Length) -> (relayout: bool)
        ensures
            relayout == self.needs_relayout(width),
    {
        let (next, relayout) = self.finish(width);
        if relayout {
            request_discard(ctx);
        }
        next.store(ctx, id);
        relayout
    }
}

/// Asks the host to discard the frame that is being drawn and to draw it
/// once more.
///
/// Calls `egui::Context::request_discard`, which notes the request with its
/// reason; the host may decline it.
#[verifier::external_body]
fn request_discard(ctx: &Context) {
    ctx.request_discard("Property editor size changed");
}

/// The first pass of an editor is always redone. After a pass that took up
/// some width, a pass that takes up the same width is not redone, and a pass
/// that takes up another width is.
pub proof fn lemma_relayout_rule(store: PropertyEditorStore, width: Length, other: Length)
    ensures
        PropertyEditorStore::initial().needs_relayout(width),
        !store.after(width).needs_relayout(width),
        other != width ==> store.after(width).needs_relayout(other),
        !store.after(width).after(width).needs_relayout(width),
        store.after(width).placed(Alignment::Center) == Placement::Centered(width),
        store.after(width).placed(Alignment::Max) == Placement::Trailing(width),
        PropertyEditorStore::initial().placed(Alignment::Center) == Placement::Available,
{
}

} // verus!
