//! The input widget and its assembler. `Input` is the caller-facing
//! configuration record (placeholder, value, variant, interaction state),
//! built once per render pass through chainable setters. `render` resolves
//! the style snapshot and assembles the render-tree node the host's
//! layout/paint pipeline consumes.

use vstd::prelude::*;
use vstd::string::StringExecFns;
use crate::style::{resolve_spec, resolve_style, InputVariant, InteractionState, StyleSnapshot,
    StyleView};
use crate::theme::{Color, Theme};

verus! {

/// The outer container's fixed height, in the host's layout units.
pub const INPUT_HEIGHT: u32 = 7;

/// The outer container's horizontal padding, in the host's layout units.
pub const INPUT_PADDING_X: u32 = 2;

/// The cursor glyph trailing the text: a fixed literal, always rendered
/// regardless of focus state. A visual affordance, not a blinking caret.
pub open spec fn cursor_glyph() -> Seq<char> {
    seq!['|']
}

/// A text node: a string drawn in one color.
#[derive(Debug)]
pub struct TextNode {
    pub text: String,
    pub color: Color,
}

/// The model of a text node, with the text as a sequence of characters.
pub ghost struct TextNodeView {
    pub text: Seq<char>,
    pub color: Color,
}

impl View for TextNode {
    type V = TextNodeView;

    open spec fn view(&self) -> TextNodeView {
        TextNodeView { text: self.text@, color: self.color }
    }
}

/// The style override applied while the pointer is over the widget: it
/// swaps the border and background colors.
#[derive(Clone, Copy, PartialEq, Eq, Structural, Debug)]
pub struct HoverStyle {
    pub border: Color,
    pub background: Color,
}

/// The render-tree node for one input widget: an outer flex container of
/// fixed height and full available width, horizontally padded, bordered
/// and filled, its content vertically centered, carrying a hover-style
/// override; inside it a flex row with the text node and the trailing
/// cursor glyph.
#[derive(Debug)]
pub struct InputNode {
    pub height: u32,
    pub full_width: bool,
    pub padding_x: u32,
    pub border_color: Color,
    pub background: Color,
    pub hover: HoverStyle,
    pub centered: bool,
    pub text: TextNode,
    pub cursor: TextNode,
}

/// The model of a render-tree node.
pub ghost struct InputNodeView {
    pub height: u32,
    pub full_width: bool,
    pub padding_x: u32,
    pub border_color: Color,
    pub background: Color,
    pub hover: HoverStyle,
    pub centered: bool,
    pub text: TextNodeView,
    pub cursor: TextNodeView,
}

impl View for InputNode {
    type V = InputNodeView;

    open spec fn view(&self) -> InputNodeView {
        InputNodeView {
            height: self.height,
            full_width: self.full_width,
            padding_x: self.padding_x,
            border_color: self.border_color,
            background: self.background,
            hover: self.hover,
            centered: self.centered,
            text: self.text@,
            cursor: self.cursor@,
        }
    }
}

/// What the assembler produces from a resolved snapshot and the cursor
/// accent: the snapshot's default colors on the container, its hover pair
/// in the hover override, its text and text color in the text node, and
/// the always-rendered cursor glyph in the accent color.
pub open spec fn assemble_spec(snapshot: StyleView, accent: Color) -> InputNodeView {
    InputNodeView {
        height: INPUT_HEIGHT,
        full_width: true,
        padding_x: INPUT_PADDING_X,
        border_color: snapshot.border_default,
        background: snapshot.background_default,
        hover: HoverStyle { border: snapshot.border_hover, background: snapshot.background_hover },
        centered: true,
        text: TextNodeView { text: snapshot.displayed_text, color: snapshot.text_color },
        cursor: TextNodeView { text: cursor_glyph(), color: accent },
    }
}

/// Assembles the render-tree node from a resolved snapshot. Structurally
/// total: no error conditions, no side effects beyond the returned tree.
pub fn assemble(snapshot: StyleSnapshot, accent: Color) -> (node: InputNode)
    ensures
        node@ == assemble_spec(snapshot@, accent),
{
    let cursor_text = String::from_str("|");
    proof {
        reveal_strlit("|");
        assert(cursor_text@ =~= cursor_glyph());
    }
    InputNode {
        height: INPUT_HEIGHT,
        full_width: true,
        padding_x: INPUT_PADDING_X,
        border_color: snapshot.border_default,
        background: snapshot.background_default,
        hover: HoverStyle { border: snapshot.border_hover, background: snapshot.background_hover },
        centered: true,
        text: TextNode { text: snapshot.displayed_text, color: snapshot.text_color },
        cursor: TextNode { text: cursor_text, color: accent },
    }
}

/// One input widget instance: rebuilt per render pass by the host, with no
/// persistent identity across renders. Holds the placeholder text, the
/// current value (text mutation happens upstream; the value is handed in
/// finished), the interaction state, and the visual variant.
#[derive(Debug)]
pub struct Input {
    pub placeholder: String,
    pub value: String,
    pub state: InteractionState,
    pub variant: InputVariant,
}

/// What one render pass produces for a widget instance: the assembled
/// node over the resolved snapshot, with the cursor accent at participant
/// index 0.
pub open spec fn render_spec(input: Input, theme: Theme) -> InputNodeView
    recommends
        theme.wf(),
{
    assemble_spec(
        resolve_spec(input.variant, input.state, theme, input.value@, input.placeholder@),
        theme.accent(),
    )
}

impl Input {
    /// Creates a widget with the given placeholder, an empty value, the
    /// default interaction state and the default variant.
    pub fn new(placeholder: &str) -> (r: Self)
        ensures
            r.placeholder@ == placeholder@,
            r.value@ == Seq::<char>::empty(),
            r.state == InteractionState::Default,
            r.variant == InputVariant::Ghosted,
    {
        Self {
            placeholder: String::from_str(placeholder),
            value: String::new(),
            state: InteractionState::Default,
            variant: InputVariant::Ghosted,
        }
    }

    /// Sets the current value; the other fields are unchanged.
    pub fn value(self, value: String) -> (r: Self)
        ensures
            r.value == value,
            r.placeholder == self.placeholder,
            r.state == self.state,
            r.variant == self.variant,
    {
        Self { value, ..self }
    }

    /// Sets the interaction state; the other fields are unchanged.
    pub fn state(self, state: InteractionState) -> (r: Self)
        ensures
            r.state == state,
            r.placeholder == self.placeholder,
            r.value == self.value,
            r.variant == self.variant,
    {
        Self { state, ..self }
    }

    /// Sets the visual variant; the other fields are unchanged.
    pub fn variant(self, variant: InputVariant) -> (r: Self)
        ensures
            r.variant == variant,
            r.placeholder == self.placeholder,
            r.value == self.value,
            r.state == self.state,
    {
        Self { variant, ..self }
    }

    /// Renders the widget: resolves the style snapshot from the theme
    /// tokens and assembles the render-tree node. Pure with respect to
    /// everything but the read-only theme.
    pub fn render(&self, theme: &Theme) -> (node: InputNode)
        requires
            theme.wf(),
        ensures
            node@ == render_spec(*self, *theme),
    {
        let snapshot = resolve_style(
            self.variant,
            self.state,
            theme,
            &self.value,
            &self.placeholder,
        );
        let accent = theme.cursor_accent();
        assemble(snapshot, accent)
    }
}

} // verus!
