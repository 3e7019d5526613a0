//! The layer resolver: which of the two key layers is in force.
use vstd::prelude::*;
use crate::config::{Grid, FN_COL, FN_ROW};

verus! {

/// A key layer.
#[derive(Clone, Copy, Debug, PartialEq, Eq, Structural)]
pub enum Layer {
    /// The layer of the legends on the keys.
    Base,
    /// The layer that is in force while the function key is held.
    Function,
}

/// The layer that a pressed grid selects: the function layer exactly when
/// the function key is pressed. Nothing is remembered from one call to
/// the next.
pub open spec fn active_layer_of(keys: Grid) -> Layer {
    if keys[FN_ROW as int][FN_COL as int] == 1 {
        Layer::Function
    } else {
        Layer::Base
    }
}

/// Resolves the layer that is in force for the pressed grid `keys`.
pub fn active_layer(keys: &Grid) -> (layer: Layer)
    ensures
        layer == active_layer_of(*keys),
        layer == Layer::Function <==> keys[FN_ROW as int][FN_COL as int] == 1,
{
    if keys[FN_ROW][FN_COL] == 1 {
        Layer::Function
    } else {
        Layer::Base
    }
}

} // verus!
