//! The widget's style model and the style-cascade composer.
//!
//! A [`Style`] is a set of optional fields; a field left `None` is unset
//! and may be filled from a lower-priority fragment. Dimensions are whole
//! pixels; colour channels are thousandths of full intensity, so `1000`
//! is a fully saturated channel.

use vstd::prelude::*;

verus! {

/// An RGBA colour. Each channel holds thousandths of full intensity,
/// from `0` to `1000`.
#[derive(Clone, Copy, Debug, PartialEq, Eq, Structural)]
pub struct Color {
    pub r: u16,
    pub g: u16,
    pub b: u16,
    pub a: u16,
}

/// A length, either a fixed number of pixels or a stretch factor that
/// takes a share of the remaining space.
#[derive(Clone, Copy, Debug, PartialEq, Eq, Structural)]
pub enum Units {
    Pixels(u64),
    Stretch(u64),
}

/// How a node is drawn.
#[derive(Clone, Copy, Debug, PartialEq, Eq, Structural)]
pub enum RenderCommand {
    /// The node only participates in layout; nothing is drawn.
    Layout,
    /// The node is drawn as a solid quad.
    Quad,
}

/// The mouse-cursor icon shown over a node.
#[derive(Clone, Copy, Debug, PartialEq, Eq, Structural)]
pub enum CursorIcon {
    /// The I-beam text cursor.
    Text,
}

/// How a node is positioned relative to its parent's layout flow.
#[derive(Clone, Copy, Debug, PartialEq, Eq, Structural)]
pub enum PositionType {
    /// The node places itself and does not take part in the parent's flow.
    SelfDirected,
}

/// The corner radii of a rounded rectangle, in pixels.
#[derive(Clone, Copy, Debug, PartialEq, Eq, Structural)]
pub struct BorderRadius {
    pub top_left: u64,
    pub top_right: u64,
    pub bottom_left: u64,
    pub bottom_right: u64,
}

/// One style fragment. Every field is optional; `None` means the field
/// is unset and defers to a lower-priority fragment.
#[derive(Clone, Copy, Debug, PartialEq, Eq, Structural)]
pub struct Style {
    pub render_command: Option<RenderCommand>,
    pub background_color: Option<Color>,
    pub border_radius: Option<BorderRadius>,
    pub color: Option<Color>,
    pub cursor: Option<CursorIcon>,
    pub position_type: Option<PositionType>,
    pub left: Option<Units>,
    pub top: Option<Units>,
    pub bottom: Option<Units>,
    pub width: Option<Units>,
    pub height: Option<Units>,
    pub padding_left: Option<Units>,
    pub padding_right: Option<Units>,
}

impl Style {
    /// The style with every field unset.
    pub open spec fn unset() -> Style {
        Style {
            render_command: None,
            background_color: None,
            border_radius: None,
            color: None,
            cursor: None,
            position_type: None,
            left: None,
            top: None,
            bottom: None,
            width: None,
            height: None,
            padding_left: None,
            padding_right: None,
        }
    }

    /// The cascade step: each field of `self` that is set wins; each field
    /// that is unset is filled from `other`. Applying fragments in order of
    /// falling priority therefore gives every field to the highest-priority
    /// fragment that sets it.
    pub open spec fn spec_with_style(self, other: Style) -> Style {
        Style {
            render_command: if self.render_command is Some {
                self.render_command
            } else {
                other.render_command
            },
            background_color: if self.background_color is Some {
                self.background_color
            } else {
                other.background_color
            },
            border_radius: if self.border_radius is Some {
                self.border_radius
            } else {
                other.border_radius
            },
            color: if self.color is Some {
                self.color
            } else {
                other.color
            },
            cursor: if self.cursor is Some {
                self.cursor
            } else {
                other.cursor
            },
            position_type: if self.position_type is Some {
                self.position_type
            } else {
                other.position_type
            },
            left: if self.left is Some {
                self.left
            } else {
                other.left
            },
            top: if self.top is Some {
                self.top
            } else {
                other.top
            },
            bottom: if self.bottom is Some {
                self.bottom
            } else {
                other.bottom
            },
            width: if self.width is Some {
                self.width
            } else {
                other.width
            },
            height: if self.height is Some {
                self.height
            } else {
                other.height
            },
            padding_left: if self.padding_left is Some {
                self.padding_left
            } else {
                other.padding_left
            },
            padding_right: if self.padding_right is Some {
                self.padding_right
            } else {
                other.padding_right
            },
        }
    }

    /// Applies a lower-priority fragment under `self`: fields already set
    /// in `self` keep their value, unset fields take `other`'s.
    pub fn with_style(self, other: &Style) -> (r: Style)
        ensures
            r == self.spec_with_style(*other),
    {
        Style {
            render_command: if self.render_command.is_some() {
                self.render_command
            } else {
                other.render_command
            },
            background_color: if self.background_color.is_some() {
                self.background_color
            } else {
                other.background_color
            },
            border_radius: if self.border_radius.is_some() {
                self.border_radius
            } else {
                other.border_radius
            },
            color: if self.color.is_some() {
                self.color
            } else {
                other.color
            },
            cursor: if self.cursor.is_some() {
                self.cursor
            } else {
                other.cursor
            },
            position_type: if self.position_type.is_some() {
                self.position_type
            } else {
                other.position_type
            },
            left: if self.left.is_some() {
                self.left
            } else {
                other.left
            },
            top: if self.top.is_some() {
                self.top
            } else {
                other.top
            },
            bottom: if self.bottom.is_some() {
                self.bottom
            } else {
                other.bottom
            },
            width: if self.width.is_some() {
                self.width
            } else {
                other.width
            },
            height: if self.height.is_some() {
                self.height
            } else {
                other.height
            },
            padding_left: if self.padding_left.is_some() {
                self.padding_left
            } else {
                other.padding_left
            },
            padding_right: if self.padding_right.is_some() {
                self.padding_right
            } else {
                other.padding_right
            },
        }
    }
}

/// The fixed fragment the widget always imposes: it participates in
/// layout only. These fields win over every caller-supplied style.
pub open spec fn spec_required_styles() -> Style {
    Style { render_command: Some(RenderCommand::Layout), ..Style::unset() }
}

/// The widget's computed defaults, used only for fields the caller left
/// unset: flush top and bottom, a fixed height, and the text cursor.
pub open spec fn spec_default_styles() -> Style {
    Style {
        top: Some(Units::Pixels(0)),
        bottom: Some(Units::Pixels(0)),
        height: Some(Units::Pixels(26)),
        cursor: Some(CursorIcon::Text),
        ..Style::unset()
    }
}

/// The widget's effective style: required fields first, then the
/// caller's overrides, then the computed defaults.
pub open spec fn spec_composed_styles(user: Option<Style>) -> Style {
    let with_user = match user {
        Some(u) => spec_required_styles().spec_with_style(u),
        None => spec_required_styles(),
    };
    with_user.spec_with_style(spec_default_styles())
}

/// Merges the widget's effective style from the three layers, highest
/// priority first: the fixed required fragment, the caller-supplied
/// overrides, and the computed defaults.
pub fn compose_widget_styles(user: &Option<Style>) -> (r: Style)
    ensures
        r == spec_composed_styles(*user),
{
    let required = Style { render_command: Some(RenderCommand::Layout), ..Style::default() };
    let defaults = Style {
        top: Some(Units::Pixels(0)),
        bottom: Some(Units::Pixels(0)),
        height: Some(Units::Pixels(26)),
        cursor: Some(CursorIcon::Text),
        ..Style::default()
    };
    let with_user = match user {
        Some(u) => required.with_style(u),
        None => required,
    };
    with_user.with_style(&defaults)
}

/// The style of the background fill behind the text.
pub open spec fn spec_background_styles() -> Style {
    Style {
        background_color: Some(Color { r: 176, g: 196, b: 215, a: 1000 }),
        border_radius: Some(
            BorderRadius { top_left: 5, top_right: 5, bottom_left: 5, bottom_right: 5 },
        ),
        height: Some(Units::Pixels(26)),
        padding_left: Some(Units::Pixels(5)),
        padding_right: Some(Units::Pixels(5)),
        ..Style::unset()
    }
}

/// Builds the style of the background fill behind the text.
pub fn background_styles() -> (r: Style)
    ensures
        r == spec_background_styles(),
{
    Style {
        background_color: Some(Color { r: 176, g: 196, b: 215, a: 1000 }),
        border_radius: Some(
            BorderRadius { top_left: 5, top_right: 5, bottom_left: 5, bottom_right: 5 },
        ),
        height: Some(Units::Pixels(26)),
        padding_left: Some(Units::Pixels(5)),
        padding_right: Some(Units::Pixels(5)),
        ..Style::default()
    }
}

/// The style of the text node: the dimmed placeholder colour exactly
/// when the edited value is empty, the inherited colour otherwise.
pub open spec fn spec_text_styles(value_is_empty: bool) -> Style {
    if value_is_empty {
        Style { color: Some(Color { r: 500, g: 500, b: 500, a: 1000 }), ..Style::unset() }
    } else {
        Style::unset()
    }
}

/// Builds the style of the text node; the colour is dimmed exactly when
/// the edited value is empty (so the placeholder shows dimmed).
pub fn text_styles(value_is_empty: bool) -> (r: Style)
    ensures
        r == spec_text_styles(value_is_empty),
{
    if value_is_empty {
        Style { color: Some(Color { r: 500, g: 500, b: 500, a: 1000 }), ..Style::default() }
    } else {
        Style::default()
    }
}

/// The caret's style: a one-pixel self-directed quad placed a fixed
/// five-pixel margin past the measured end of the text.
pub open spec fn spec_caret_styles(text_width: u32) -> Style {
    Style {
        background_color: Some(Color { r: 0, g: 1000, b: 1000, a: 1000 }),
        position_type: Some(PositionType::SelfDirected),
        render_command: Some(RenderCommand::Quad),
        left: Some(Units::Pixels((text_width + 5) as u64)),
        top: Some(Units::Pixels(3)),
        bottom: Some(Units::Pixels(3)),
        width: Some(Units::Pixels(1)),
        height: Some(Units::Stretch(1)),
        ..Style::unset()
    }
}

/// Builds the caret's style from the measured width of the current
/// value.
pub fn caret_styles(text_width: u32) -> (r: Style)
    ensures
        r == spec_caret_styles(text_width),
{
    Style {
        background_color: Some(Color { r: 0, g: 1000, b: 1000, a: 1000 }),
        position_type: Some(PositionType::SelfDirected),
        render_command: Some(RenderCommand::Quad),
        left: Some(Units::Pixels(text_width as u64 + 5)),
        top: Some(Units::Pixels(3)),
        bottom: Some(Units::Pixels(3)),
        width: Some(Units::Pixels(1)),
        height: Some(Units::Stretch(1)),
        ..Style::default()
    }
}

impl Default for Style {
    /// The default style leaves every field unset.
    fn default() -> (r: Style)
        ensures
            r == Style::unset(),
    {
        Style {
            render_command: None,
            background_color: None,
            border_radius: None,
            color: None,
            cursor: None,
            position_type: None,
            left: None,
            top: None,
            bottom: None,
            width: None,
            height: None,
            padding_left: None,
            padding_right: None,
        }
    }
}

} // verus!
