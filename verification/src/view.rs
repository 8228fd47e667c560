pub mod app;
pub mod widgets;

use vstd::prelude::*;

verus! {

/// A view over the catalog, implemented by the terminal front end.
pub trait View {
    fn display_crate_categories(&self) -> String;
}

} // verus!
