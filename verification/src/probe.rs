//! The layout probe: deciding whether a caret can be placed.
//!
//! Each render pass the widget asks the framework for its parent's
//! geometry and for a measurement of the current value in the loaded
//! font. Either may be unavailable — the parent may not be laid out
//! yet, the font asset may not have arrived. Absence is not an error:
//! the probe returns a tagged degraded result, and the render-tree
//! builder suppresses the caret whenever measurement was not possible.
//! The framework performs the actual glyph measurement and hands its
//! outcome in as a plain size.

use vstd::prelude::*;

verus! {

/// A rectangle's extent in whole pixels.
#[derive(Clone, Copy, Debug, PartialEq, Eq, Structural)]
pub struct Size {
    pub width: u32,
    pub height: u32,
}

/// The geometry the layout solver has assigned to the widget's parent.
#[derive(Clone, Copy, Debug, PartialEq, Eq, Structural)]
pub struct Layout {
    pub width: u32,
    pub height: u32,
}

/// The outcome of one layout probe.
#[derive(Clone, Copy, Debug, PartialEq, Eq, Structural)]
pub enum MeasurementResult {
    /// Parent geometry and font were both available; the current value
    /// was measured.
    Available { text_size: Size, parent_size: Size },
    /// The parent is laid out but the font asset has not arrived yet;
    /// the real parent geometry is retained, the text box is zero-sized.
    MissingFont { parent_size: Size },
    /// No parent layout exists yet; nothing is known.
    MissingLayout,
}

impl MeasurementResult {
    /// Whether the probe measured the value, i.e. whether a caret can
    /// be placed this pass.
    pub open spec fn spec_available(self) -> bool {
        self is Available
    }

    /// Whether the probe measured the value, i.e. whether a caret can
    /// be placed this pass.
    pub fn available(&self) -> (r: bool)
        ensures
            r == self.spec_available(),
    {
        match self {
            MeasurementResult::Available { .. } => true,
            _ => false,
        }
    }
}

/// The probe's decision: no parent layout means nothing is known; a
/// parent without a loaded font keeps the parent geometry but yields no
/// measurement; otherwise the framework's measurement is adopted.
pub open spec fn spec_probe(parent: Option<Layout>, measured: Option<Size>) -> MeasurementResult {
    match parent {
        None => MeasurementResult::MissingLayout,
        Some(layout) => match measured {
            None => MeasurementResult::MissingFont {
                parent_size: Size { width: layout.width, height: layout.height },
            },
            Some(text_size) => MeasurementResult::Available {
                text_size,
                parent_size: Size { width: layout.width, height: layout.height },
            },
        },
    }
}

/// Runs one layout probe. `parent` is the parent geometry, if the
/// layout solver has produced one; `measured` is the font's measurement
/// of the current value, if the font asset is loaded.
pub fn probe_layout(parent: Option<Layout>, measured: Option<Size>) -> (m: MeasurementResult)
    ensures
        m == spec_probe(parent, measured),
        m is Available <==> parent is Some && measured is Some,
{
    match parent {
        None => MeasurementResult::MissingLayout,
        Some(layout) => match measured {
            None => MeasurementResult::MissingFont {
                parent_size: Size { width: layout.width, height: layout.height },
            },
            Some(text_size) => MeasurementResult::Available {
                text_size,
                parent_size: Size { width: layout.width, height: layout.height },
            },
        },
    }
}

} // verus!
