//! The sheets that are open, without the editing state around them.

use vstd::prelude::*;
use crate::sheet::{Sheet, SheetModel};

verus! {

/// The open sheets.
#[derive(Debug)]
pub struct Model {
    pub documents: Vec<Sheet>,
}

impl View for Model {
    type V = Seq<SheetModel>;

    open spec fn view(&self) -> Seq<SheetModel> {
        self.documents@.map_values(|s: Sheet| s@)
    }
}

impl Model {
    /// No sheet open.
    pub fn new() -> (r: Model)
        ensures
            r@ == Seq::<SheetModel>::empty(),
    {
        let r = Model { documents: Vec::new() };
        assert(r@ =~= Seq::<SheetModel>::empty());
        r
    }
}

} // verus!
