//! The text-box widget: its prop surface, its owned state, the event
//! dispatcher and the per-pass render entry point.
//!
//! The enclosing framework owns the scheduling: it delivers input
//! events to [`handle_event`] and, on every render pass, calls
//! [`render_text_box`] with the current state and this pass's layout
//! probe result. Both are plain functions of their arguments; the
//! framework keeps the state cells and hands them in.

use vstd::prelude::*;
use crate::edit::{emits_change, is_backspace_char, is_control_char, reduce_char, value_after_char};
use crate::events::{ChangeEvent, InputEvent, OnChange};
use crate::focus::{Focus, focus_after, focus_transition};
use crate::probe::MeasurementResult;
use crate::render::{
    CaretNode, RenderTree, build_render_tree, spec_displayed_text, spec_has_caret,
};
use crate::style::{
    Style, compose_widget_styles, spec_background_styles, spec_caret_styles, spec_composed_styles,
    spec_text_styles,
};

verus! {

/// The framework's handle for a widget's child-construction closure.
/// The text box never reads its children; the handle is only stored and
/// handed back to the framework.
#[derive(Clone, Copy, Debug, PartialEq, Eq, Structural)]
pub struct Children;

/// The framework's handle for a registered event handler. The text box
/// registers its own handler and never reads the handle's contents.
#[derive(Clone, Copy, Debug, PartialEq, Eq, Structural)]
pub struct OnEvent;

/// The widget's prop surface, as the consumer supplies it.
#[derive(Clone, Debug, PartialEq)]
pub struct TextBoxProps {
    /// A disabled widget is not focusable and receives no input.
    pub disabled: bool,
    /// The value the widget's edit state is seeded from.
    pub value: Vec<char>,
    /// Where change notifications are delivered, if anywhere.
    pub on_change: Option<OnChange>,
    /// Shown dimmed in place of an empty value.
    pub placeholder: Option<Vec<char>>,
    /// The caller's style overrides.
    pub styles: Option<Style>,
    pub children: Option<Children>,
    pub on_event: Option<OnEvent>,
    /// An explicit focusability override; when absent the widget is
    /// focusable exactly while enabled.
    pub focusable: Option<bool>,
}

impl TextBoxProps {
    pub fn get_children(&self) -> (r: Option<Children>)
        ensures
            r == self.children,
    {
        self.children
    }

    pub fn set_children(&mut self, children: Option<Children>)
        ensures
            final(self).children == children,
            final(self).disabled == old(self).disabled,
            final(self).value == old(self).value,
            final(self).on_change == old(self).on_change,
            final(self).placeholder == old(self).placeholder,
            final(self).styles == old(self).styles,
            final(self).on_event == old(self).on_event,
            final(self).focusable == old(self).focusable,
    {
        self.children = children;
    }

    pub fn get_styles(&self) -> (r: Option<Style>)
        ensures
            r == self.styles,
    {
        self.styles
    }

    pub fn get_on_event(&self) -> (r: Option<OnEvent>)
        ensures
            r == self.on_event,
    {
        self.on_event
    }

    /// The widget's focusability: the explicit `focusable` prop when one
    /// is set, else derived as focusable exactly while enabled.
    pub fn get_focusable(&self) -> (r: Option<bool>)
        ensures
            r == if self.focusable is Some {
                self.focusable
            } else {
                Some(!self.disabled)
            },
    {
        match self.focusable {
            Some(f) => Some(f),
            None => Some(!self.disabled),
        }
    }
}

impl Default for TextBoxProps {
    /// The default props: enabled, empty value, nothing registered.
    fn default() -> (r: TextBoxProps)
        ensures
            !r.disabled,
            r.value@ == Seq::<char>::empty(),
            r.on_change is None,
            r.placeholder is None,
            r.styles is None,
            r.children is None,
            r.on_event is None,
            r.focusable is None,
    {
        TextBoxProps {
            disabled: false,
            value: Vec::new(),
            on_change: None,
            placeholder: None,
            styles: None,
            children: None,
            on_event: None,
            focusable: None,
        }
    }
}

/// The state a widget instance owns across passes: the edited value and
/// the focus flag.
#[derive(Clone, Debug, PartialEq)]
pub struct TextBoxState {
    pub value: Vec<char>,
    pub focus: Focus,
}

impl TextBoxState {
    /// A fresh instance's state: the value seeded from the `value`
    /// prop, unfocused.
    pub fn new(initial_value: Vec<char>) -> (r: TextBoxState)
        ensures
            r.value == initial_value,
            r.focus == Focus(false),
    {
        TextBoxState { value: initial_value, focus: Focus(false) }
    }
}

/// The value after one event: character input is applied only while
/// focused; focus changes and unknown events leave the value alone.
pub open spec fn value_after_event(v: Seq<char>, f: Focus, e: InputEvent) -> Seq<char> {
    match e {
        InputEvent::CharInput { c } => if f.0 {
            value_after_char(v, c)
        } else {
            v
        },
        _ => v,
    }
}

/// Whether one event produces a change notification: only character
/// input does, only while focused, and only when the character is a
/// backspace or printable.
pub open spec fn event_emits(f: Focus, e: InputEvent) -> bool {
    match e {
        InputEvent::CharInput { c } => f.0 && emits_change(c),
        _ => false,
    }
}

/// Handles one input event: runs the focus machine and, for character
/// input while focused, the edit reducer. Returns the change
/// notification to deliver, if the event produced one.
///
/// A `CharInput` while unfocused changes nothing and produces no
/// notification; a control character other than backspace likewise; a
/// backspace produces a notification even when the value was already
/// empty.
pub fn handle_event(state: &mut TextBoxState, event: &InputEvent) -> (notify: Option<ChangeEvent>)
    ensures
        final(state).focus == focus_after(old(state).focus, *event),
        final(state).value@ == value_after_event(old(state).value@, old(state).focus, *event),
        notify is Some <==> event_emits(old(state).focus, *event),
        notify matches Some(ev) ==> ev.value@ == final(state).value@,
{
    match event {
        InputEvent::CharInput { c } => {
            if !state.focus.0 {
                return None;
            }
            reduce_char(&mut state.value, *c)
        },
        _ => {
            state.focus = focus_transition(state.focus, event);
            None
        },
    }
}

/// Whether a registered notification handle is ready to accept a
/// delivery: one is registered and its slot is free.
pub open spec fn can_deliver(on_change: Option<OnChange>) -> bool {
    match on_change {
        Some(h) => h.0 is None,
        None => false,
    }
}

/// The value carried by the notification waiting in a handle's slot,
/// if a handle is registered and one is waiting.
pub open spec fn pending_value(on_change: Option<OnChange>) -> Option<Seq<char>> {
    match on_change {
        Some(h) => match h.0 {
            Some(ev) => Some(ev.value@),
            None => None,
        },
        None => None,
    }
}

/// Handles one input event and delivers any resulting notification
/// through the registered handle. Delivery is best-effort: with no
/// handle registered, or with the handle's slot still held, the
/// notification is dropped silently. Returns whether one was stored.
pub fn handle_event_and_notify(
    state: &mut TextBoxState,
    on_change: &mut Option<OnChange>,
    event: &InputEvent,
) -> (delivered: bool)
    ensures
        final(state).focus == focus_after(old(state).focus, *event),
        final(state).value@ == value_after_event(old(state).value@, old(state).focus, *event),
        delivered <==> event_emits(old(state).focus, *event) && can_deliver(*old(on_change)),
        delivered ==> pending_value(*final(on_change)) == Some(final(state).value@),
        !delivered ==> *final(on_change) == *old(on_change),
{
    let notify = handle_event(state, event);
    match notify {
        Some(ev) => match on_change {
            Some(handle) => handle.offer(ev),
            None => false,
        },
        None => false,
    }
}

/// The state after a whole run of events, applied in arrival order.
pub open spec fn state_after_events(v: Seq<char>, f: Focus, es: Seq<InputEvent>) -> (
    Seq<char>,
    Focus,
)
    decreases es.len(),
{
    if es.len() == 0 {
        (v, f)
    } else {
        state_after_events(
            value_after_event(v, f, es.first()),
            focus_after(f, es.first()),
            es.drop_first(),
        )
    }
}

/// Whether an event is the input of one printable character: character
/// input that is neither a backspace signal nor a control character.
pub open spec fn printable_input(e: InputEvent) -> bool {
    match e {
        InputEvent::CharInput { c } => !is_backspace_char(c) && !is_control_char(c),
        _ => false,
    }
}

/// The character carried by a character-input event.
pub open spec fn event_char(e: InputEvent) -> char {
    match e {
        InputEvent::CharInput { c } => c,
        _ => arbitrary(),
    }
}

/// Printable input appends in order: while focused, a run of printable
/// character-input events leaves the value equal to the old value
/// followed by exactly the characters of those events, in arrival
/// order, and leaves the widget focused.
pub proof fn lemma_focused_printable_run(v: Seq<char>, es: Seq<InputEvent>)
    requires
        forall|i: int| 0 <= i < es.len() ==> printable_input(#[trigger] es[i]),
    ensures
        state_after_events(v, Focus(true), es).0 == v + es.map_values(
            |e: InputEvent| event_char(e),
        ),
        state_after_events(v, Focus(true), es).1 == Focus(true),
    decreases es.len(),
{
    let cs = es.map_values(|e: InputEvent| event_char(e));
    if es.len() == 0 {
        assert(v + cs =~= v);
    } else {
        let c = event_char(es.first());
        assert(value_after_event(v, Focus(true), es.first()) == v.push(c));
        lemma_focused_printable_run(v.push(c), es.drop_first());
        assert(es.drop_first().map_values(|e: InputEvent| event_char(e)) =~= cs.drop_first());
        assert(v.push(c) + cs.drop_first() =~= v + cs);
    }
}

/// Runs one render pass: composes the widget's effective style from
/// the caller's overrides and builds the pass's render tree from the
/// owned state and this pass's measurement.
///
/// The returned style obeys the fixed cascade (required fields, then
/// caller overrides, then computed defaults). The returned tree shows
/// the value, or the placeholder when the value is empty, dims the text
/// exactly when the value is empty, and contains the caret iff the
/// widget is focused and the measurement succeeded.
pub fn render_text_box(
    props: &TextBoxProps,
    state: &TextBoxState,
    measurement: &MeasurementResult,
) -> (r: (Style, RenderTree))
    ensures
        r.0 == spec_composed_styles(props.styles),
        spec_has_caret(r.1) <==> state.focus.0 && measurement.spec_available(),
        r.1.text.content@ == spec_displayed_text(state.value@, match props.placeholder {
            Some(p) => Some(p@),
            None => None,
        }),
        r.1.text.styles == spec_text_styles(state.value@.len() == 0),
        r.1.text.size == 14 && r.1.text.line_height == 22,
        r.1.background_styles == spec_background_styles(),
        *measurement matches MeasurementResult::Available { text_size, .. } ==> (state.focus.0
            ==> r.1.caret == Some((CaretNode { styles: spec_caret_styles(text_size.width) }))),
{
    let styles = compose_widget_styles(&props.styles);
    let tree = build_render_tree(&state.value, &props.placeholder, state.focus, measurement);
    (styles, tree)
}

} // verus!
