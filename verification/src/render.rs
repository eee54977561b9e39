//! The render pass: per-element renderers, the shared notation context, and
//! the driver that walks a staff left to right.

pub mod beam;
pub mod context;
pub mod input;
pub mod renderer;

pub use crate::ir;
pub use crate::stem;
pub use renderer::Renderer;

use vstd::prelude::*;

use crate::ir::{Element, ElementModel};
use crate::staff_spaces::StaffSpaces;

verus! {

/// What rendering one notation element yields: the scene elements it emits
/// and the horizontal width it consumes.
#[derive(Clone, Debug)]
pub struct Output {
    pub elements: Vec<Element<StaffSpaces>>,
    pub width: StaffSpaces,
}

/// Model of an [`Output`]: the element models and the width in units.
pub struct OutputModel {
    pub elements: Seq<ElementModel>,
    pub width: int,
}

impl View for Output {
    type V = OutputModel;

    open spec fn view(&self) -> OutputModel {
        OutputModel {
            elements: crate::ir::elements_view(self.elements@),
            width: self.width@,
        }
    }
}

} // verus!
