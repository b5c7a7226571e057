//! The render-tree builder: one declarative output tree per pass.
//!
//! The tree's shape is fixed: a background fill, a clip region nested
//! in it, and the text node inside the clip. The only conditional part
//! is the caret, present exactly when the widget is focused and the
//! layout probe measured the value this pass. The tree is rebuilt from
//! scratch every pass; diffing against the previous tree is the
//! enclosing framework's job.

use vstd::prelude::*;
use crate::edit::clone_value;
use crate::focus::Focus;
use crate::probe::MeasurementResult;
use crate::style::{
    Style, spec_background_styles, spec_caret_styles, spec_text_styles, background_styles,
    caret_styles, text_styles,
};

verus! {

/// The text node nested inside the background's clip region.
#[derive(Clone, Debug, PartialEq)]
pub struct TextNode {
    /// The characters shown: the value, or the placeholder when the
    /// value is empty.
    pub content: Vec<char>,
    /// The font size, in pixels.
    pub size: u64,
    /// The line height, in pixels.
    pub line_height: u64,
    /// The text's style fragment.
    pub styles: Style,
}

/// The caret element, a styled box placed after the measured text.
#[derive(Clone, Copy, Debug, PartialEq, Eq, Structural)]
pub struct CaretNode {
    pub styles: Style,
}

/// One pass's declarative output: background fill, clip region and text
/// node (always, in that nesting), plus the caret when it may be shown.
#[derive(Clone, Debug, PartialEq)]
pub struct RenderTree {
    /// The style of the background fill; the clip and the text node are
    /// nested inside it.
    pub background_styles: Style,
    /// The text node inside the clip region.
    pub text: TextNode,
    /// The caret element, present iff the widget is focused and the
    /// value was measured this pass.
    pub caret: Option<CaretNode>,
}

/// The characters shown in the text node: the value when it is
/// non-empty, else the placeholder, else nothing.
pub open spec fn spec_displayed_text(value: Seq<char>, placeholder: Option<Seq<char>>) -> Seq<
    char,
> {
    if value.len() > 0 {
        value
    } else {
        match placeholder {
            Some(p) => p,
            None => value,
        }
    }
}

/// Picks the characters to display: the value when it is non-empty,
/// else the placeholder, else the empty value itself.
pub fn displayed_text(value: &Vec<char>, placeholder: &Option<Vec<char>>) -> (r: Vec<char>)
    ensures
        r@ == spec_displayed_text(value@, match placeholder {
            Some(p) => Some(p@),
            None => None,
        }),
{
    if value.len() > 0 {
        clone_value(value)
    } else {
        match placeholder {
            Some(p) => clone_value(p),
            None => clone_value(value),
        }
    }
}

/// Whether a tree contains the caret element.
pub open spec fn spec_has_caret(t: RenderTree) -> bool {
    t.caret is Some
}

/// Builds one pass's render tree from the current value, the
/// placeholder, the focus flag and this pass's measurement.
///
/// The caret element is present iff the widget is focused and the
/// measurement succeeded; the displayed text is the value or, when the
/// value is empty, the placeholder; the text is dimmed exactly when the
/// value is empty; the text is set at font size 14 with line height 22.
pub fn build_render_tree(
    value: &Vec<char>,
    placeholder: &Option<Vec<char>>,
    focus: Focus,
    measurement: &MeasurementResult,
) -> (t: RenderTree)
    ensures
        spec_has_caret(t) <==> focus.0 && measurement.spec_available(),
        t.text.content@ == spec_displayed_text(value@, match placeholder {
            Some(p) => Some(p@),
            None => None,
        }),
        t.text.styles == spec_text_styles(value@.len() == 0),
        t.text.size == 14 && t.text.line_height == 22,
        t.background_styles == spec_background_styles(),
        *measurement matches MeasurementResult::Available { text_size, .. } ==> (focus.0
            ==> t.caret == Some(CaretNode { styles: spec_caret_styles(text_size.width) })),
{
    let content = displayed_text(value, placeholder);
    let text = TextNode {
        content,
        size: 14,
        line_height: 22,
        styles: text_styles(value.len() == 0),
    };
    let caret = if focus.0 {
        match measurement {
            MeasurementResult::Available { text_size, .. } => Some(
                CaretNode { styles: caret_styles(text_size.width) },
            ),
            _ => None,
        }
    } else {
        None
    };
    RenderTree { background_styles: background_styles(), text, caret }
}

} // verus!
