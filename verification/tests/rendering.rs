//! Tests of the layout probe, the style composer and the render tree.

use text_box::focus::Focus;
use text_box::probe::{Layout, MeasurementResult, Size, probe_layout};
use text_box::render::{build_render_tree, displayed_text};
use text_box::style::{
    BorderRadius, Color, CursorIcon, PositionType, RenderCommand, Style, Units,
    background_styles, caret_styles, compose_widget_styles, text_styles,
};
use text_box::widget::{Children, TextBoxProps, TextBoxState, render_text_box};

#[test]
fn probe_without_parent_layout() {
    let m = probe_layout(None, None);
    assert_eq!(m, MeasurementResult::MissingLayout);
    assert!(!m.available());
}

#[test]
fn probe_without_font_keeps_parent_geometry() {
    let parent = Layout { width: 200, height: 30 };
    let m = probe_layout(Some(parent), None);
    assert_eq!(
        m,
        MeasurementResult::MissingFont { parent_size: Size { width: 200, height: 30 } }
    );
    assert!(!m.available());
}

#[test]
fn probe_with_font_measures() {
    let parent = Layout { width: 200, height: 30 };
    let text = Size { width: 42, height: 22 };
    let m = probe_layout(Some(parent), Some(text));
    assert_eq!(
        m,
        MeasurementResult::Available {
            text_size: Size { width: 42, height: 22 },
            parent_size: Size { width: 200, height: 30 },
        }
    );
    assert!(m.available());
}

#[test]
fn caret_absent_when_unmeasured_despite_focus() {
    let m = probe_layout(None, None);
    let t = build_render_tree(&vec!['h', 'i'], &None, Focus(true), &m);
    assert!(t.caret.is_none());
    assert_eq!(t.text.content, vec!['h', 'i']);
    assert_eq!(t.background_styles, background_styles());
}

#[test]
fn caret_absent_when_font_missing_despite_focus() {
    let m = probe_layout(Some(Layout { width: 200, height: 30 }), None);
    let t = build_render_tree(&vec!['h', 'i'], &None, Focus(true), &m);
    assert!(t.caret.is_none());
}

#[test]
fn caret_absent_after_blur_despite_measurement() {
    let m = probe_layout(
        Some(Layout { width: 200, height: 30 }),
        Some(Size { width: 42, height: 22 }),
    );
    let t = build_render_tree(&vec!['h', 'i'], &None, Focus(false), &m);
    assert!(t.caret.is_none());
}

#[test]
fn caret_present_when_focused_and_measured() {
    let m = probe_layout(
        Some(Layout { width: 200, height: 30 }),
        Some(Size { width: 42, height: 22 }),
    );
    let t = build_render_tree(&vec!['h', 'i'], &None, Focus(true), &m);
    let caret = t.caret.expect("caret should be present");
    assert_eq!(caret.styles, caret_styles(42));
    assert_eq!(caret.styles.left, Some(Units::Pixels(47)));
    assert_eq!(caret.styles.render_command, Some(RenderCommand::Quad));
    assert_eq!(caret.styles.position_type, Some(PositionType::SelfDirected));
    assert_eq!(caret.styles.width, Some(Units::Pixels(1)));
    assert_eq!(caret.styles.height, Some(Units::Stretch(1)));
    assert_eq!(caret.styles.top, Some(Units::Pixels(3)));
    assert_eq!(caret.styles.bottom, Some(Units::Pixels(3)));
    assert_eq!(
        caret.styles.background_color,
        Some(Color { r: 0, g: 1000, b: 1000, a: 1000 })
    );
}

#[test]
fn placeholder_shown_when_value_empty() {
    let placeholder = Some(vec!['t', 'y', 'p', 'e']);
    let shown = displayed_text(&Vec::new(), &placeholder);
    assert_eq!(shown, vec!['t', 'y', 'p', 'e']);
    let t = build_render_tree(&Vec::new(), &placeholder, Focus(false), &probe_layout(None, None));
    assert_eq!(t.text.content, vec!['t', 'y', 'p', 'e']);
    assert_eq!(t.text.styles, text_styles(true));
    assert_eq!(
        t.text.styles.color,
        Some(Color { r: 500, g: 500, b: 500, a: 1000 })
    );
}

#[test]
fn value_shown_when_non_empty_regardless_of_focus() {
    let placeholder = Some(vec!['t', 'y', 'p', 'e']);
    for focused in [false, true] {
        let t = build_render_tree(
            &vec!['h', 'i'],
            &placeholder,
            Focus(focused),
            &probe_layout(None, None),
        );
        assert_eq!(t.text.content, vec!['h', 'i']);
        assert_eq!(t.text.styles.color, None);
    }
}

#[test]
fn empty_value_without_placeholder_shows_nothing() {
    let t = build_render_tree(&Vec::new(), &None, Focus(true), &probe_layout(None, None));
    assert_eq!(t.text.content, Vec::<char>::new());
    assert_eq!(
        t.text.styles.color,
        Some(Color { r: 500, g: 500, b: 500, a: 1000 })
    );
}

#[test]
fn text_node_fixed_metrics() {
    let t = build_render_tree(&vec!['a'], &None, Focus(false), &probe_layout(None, None));
    assert_eq!(t.text.size, 14);
    assert_eq!(t.text.line_height, 22);
}

#[test]
fn required_fields_win_over_caller() {
    let user = Style { render_command: Some(RenderCommand::Quad), ..Style::default() };
    let composed = compose_widget_styles(&Some(user));
    assert_eq!(composed.render_command, Some(RenderCommand::Layout));
}

#[test]
fn caller_overrides_defaults() {
    let user = Style { height: Some(Units::Pixels(40)), ..Style::default() };
    let composed = compose_widget_styles(&Some(user));
    assert_eq!(composed.height, Some(Units::Pixels(40)));
    assert_eq!(composed.top, Some(Units::Pixels(0)));
    assert_eq!(composed.bottom, Some(Units::Pixels(0)));
    assert_eq!(composed.cursor, Some(CursorIcon::Text));
}

#[test]
fn defaults_fill_unset_fields() {
    let composed = compose_widget_styles(&None);
    assert_eq!(composed.render_command, Some(RenderCommand::Layout));
    assert_eq!(composed.height, Some(Units::Pixels(26)));
    assert_eq!(composed.top, Some(Units::Pixels(0)));
    assert_eq!(composed.bottom, Some(Units::Pixels(0)));
    assert_eq!(composed.cursor, Some(CursorIcon::Text));
    assert_eq!(composed.background_color, None);
}

#[test]
fn with_style_keeps_set_fields() {
    let high = Style { height: Some(Units::Pixels(10)), ..Style::default() };
    let low = Style {
        height: Some(Units::Pixels(99)),
        width: Some(Units::Pixels(7)),
        ..Style::default()
    };
    let merged = high.with_style(&low);
    assert_eq!(merged.height, Some(Units::Pixels(10)));
    assert_eq!(merged.width, Some(Units::Pixels(7)));
}

#[test]
fn background_style_values() {
    let bg = background_styles();
    assert_eq!(
        bg.background_color,
        Some(Color { r: 176, g: 196, b: 215, a: 1000 })
    );
    assert_eq!(
        bg.border_radius,
        Some(BorderRadius { top_left: 5, top_right: 5, bottom_left: 5, bottom_right: 5 })
    );
    assert_eq!(bg.height, Some(Units::Pixels(26)));
    assert_eq!(bg.padding_left, Some(Units::Pixels(5)));
    assert_eq!(bg.padding_right, Some(Units::Pixels(5)));
    assert_eq!(bg.render_command, None);
}

#[test]
fn default_style_is_fully_unset() {
    let s = Style::default();
    assert_eq!(s, Style {
        render_command: None,
        background_color: None,
        border_radius: None,
        color: None,
        cursor: None,
        position_type: None,
        left: None,
        top: None,
        bottom: None,
        width: None,
        height: None,
        padding_left: None,
        padding_right: None,
    });
}

#[test]
fn render_pass_composes_styles_and_tree() {
    let props = TextBoxProps {
        placeholder: Some(vec!['n', 'a', 'm', 'e']),
        styles: Some(Style { width: Some(Units::Pixels(120)), ..Style::default() }),
        ..TextBoxProps::default()
    };
    let state = TextBoxState::new(Vec::new());
    let m = probe_layout(
        Some(Layout { width: 200, height: 30 }),
        Some(Size { width: 0, height: 22 }),
    );
    let (styles, tree) = render_text_box(&props, &state, &m);
    assert_eq!(styles.width, Some(Units::Pixels(120)));
    assert_eq!(styles.render_command, Some(RenderCommand::Layout));
    assert_eq!(tree.text.content, vec!['n', 'a', 'm', 'e']);
    assert!(tree.caret.is_none());
}

#[test]
fn focusable_derived_from_disabled() {
    let enabled = TextBoxProps::default();
    assert_eq!(enabled.get_focusable(), Some(true));
    let disabled = TextBoxProps { disabled: true, ..TextBoxProps::default() };
    assert_eq!(disabled.get_focusable(), Some(false));
}

#[test]
fn explicit_focusable_wins_over_derivation() {
    let opted_out = TextBoxProps { focusable: Some(false), ..TextBoxProps::default() };
    assert_eq!(opted_out.get_focusable(), Some(false));
    let forced_in = TextBoxProps {
        disabled: true,
        focusable: Some(true),
        ..TextBoxProps::default()
    };
    assert_eq!(forced_in.get_focusable(), Some(true));
}

#[test]
fn props_getters_and_setters() {
    let mut props = TextBoxProps::default();
    assert_eq!(props.get_children(), None);
    props.set_children(Some(Children));
    assert_eq!(props.get_children(), Some(Children));
    assert_eq!(props.get_on_event(), None);
    let styled = TextBoxProps {
        styles: Some(Style { height: Some(Units::Pixels(40)), ..Style::default() }),
        ..TextBoxProps::default()
    };
    assert_eq!(
        styled.get_styles(),
        Some(Style { height: Some(Units::Pixels(40)), ..Style::default() })
    );
}
