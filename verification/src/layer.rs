//! Layers that know what lies behind them: each carries its own color and,
//! where another layer follows, that layer's color as its background.

use vstd::prelude::*;
use crate::color::AnsiCode;

verus! {

/// A layer of a stack: its own color, the color of what lies behind it, and
/// where it is placed.
pub struct Overlay<F, B> where F: AnsiCode, B: AnsiCode {
    /// The color behind this layer, or `None` where nothing lies behind it.
    pub bg: Option<B>,
    /// Rows left free above and below.
    pub padding: usize,
    /// Columns by which the layer is moved to the right.
    pub insert: usize,
    pub fg: F,
}

impl<F, B> Overlay<F, B> where F: AnsiCode, B: AnsiCode {
    pub fn new(bg: Option<B>, padding: usize, insert: usize, fg: F) -> (overlay: Self)
        ensures
            overlay == (Overlay { bg, padding, insert, fg }),
    {
        Self { bg, padding, insert, fg }
    }
}

/// The layer at position `index` of the stack that `params` describes. Each
/// entry gives a layer's color, padding and insert; a layer's background is
/// the color of the entry after it, and the last layer has none.
pub open spec fn stacked<F: AnsiCode>(params: Seq<(F, usize, usize)>, index: int) -> Overlay<F, F> {
    Overlay {
        bg: if index + 1 < params.len() {
            Some(params[index + 1].0)
        } else {
            None
        },
        padding: params[index].1,
        insert: params[index].2,
        fg: params[index].0,
    }
}

/// Builds a stack of layers, the frontmost first, from the color, padding
/// and insert of each.
pub fn new_overlays<F>(params: &[(F, usize, usize)]) -> (overlays: Vec<Overlay<F, F>>) where
    F: AnsiCode + Copy,

    ensures
        overlays@ == Seq::new(params@.len(), |i: int| stacked(params@, i)),
{
    let mut overlays = Vec::with_capacity(params.len());

    let mut i: usize = 0;
    while i < params.len()
        invariant
            i <= params.len(),
            overlays@ == Seq::new(i as nat, |k: int| stacked(params@, k)),
        decreases params.len() - i,
    {
        let (fg, padding, insert) = params[i];
        let bg = if i + 1 < params.len() {
            Some(params[i + 1].0)
        } else {
            None
        };
        overlays.push(Overlay::new(bg, padding, insert, fg));
        i += 1;
    }

    overlays
}

} // verus!
