//! The style resolver: a pure mapping from (variant, interaction state,
//! theme tokens, value, placeholder) to a fully resolved style snapshot.
//! Later rules override earlier ones; that precedence is the core design
//! decision, stated here once as `resolve_spec` and proved of the
//! executable resolver.

use vstd::prelude::*;
use crate::theme::{Color, Theme};

verus! {

/// The visual variant of the input: it selects which theme sub-tier
/// supplies the background colors.
#[derive(Clone, Copy, PartialEq, Eq, Structural, Debug)]
pub enum InputVariant {
    Ghosted,
    Filled,
}

impl Default for InputVariant {
    /// The default variant is Ghosted.
    fn default() -> (r: Self)
        ensures
            r == InputVariant::Ghosted,
    {
        InputVariant::Ghosted
    }
}

/// The externally driven pointer/focus/enablement status of the widget.
/// Transitions between these states are owned by the host framework; the
/// widget is a stateless renderer invoked once per state value.
#[derive(Clone, Copy, PartialEq, Eq, Structural, Debug)]
pub enum InteractionState {
    Default,
    Hovered,
    Pressed,
    Active,
    Focused,
    Disabled,
}

impl Default for InteractionState {
    /// The default interaction state is Default.
    fn default() -> (r: Self)
        ensures
            r == InteractionState::Default,
    {
        InteractionState::Default
    }
}

/// In the Focused and Active states the widget shows the live value; in
/// every other state (Default, Hovered, Pressed, Disabled) it shows the
/// placeholder. Any state outside {Focused, Active} counts as "not
/// actively editing"; the grouping is deliberate, not a per-state rule.
pub open spec fn is_editing(state: InteractionState) -> bool {
    state == InteractionState::Focused || state == InteractionState::Active
}

/// The fully resolved, immutable set of colors and text content for one
/// render pass. Computed fresh each render, never cached or mutated.
#[derive(Debug)]
pub struct StyleSnapshot {
    pub border_default: Color,
    pub border_hover: Color,
    pub background_default: Color,
    pub background_hover: Color,
    pub text_color: Color,
    pub displayed_text: String,
    pub is_placeholder: bool,
}

/// The mathematical model of a style snapshot: the same fields, with the
/// displayed text as a sequence of characters.
pub ghost struct StyleView {
    pub border_default: Color,
    pub border_hover: Color,
    pub background_default: Color,
    pub background_hover: Color,
    pub text_color: Color,
    pub displayed_text: Seq<char>,
    pub is_placeholder: bool,
}

impl View for StyleSnapshot {
    type V = StyleView;

    open spec fn view(&self) -> StyleView {
        StyleView {
            border_default: self.border_default,
            border_hover: self.border_hover,
            background_default: self.background_default,
            background_hover: self.background_hover,
            text_color: self.text_color,
            displayed_text: self.displayed_text@,
            is_placeholder: self.is_placeholder,
        }
    }
}

impl PartialEq for StyleSnapshot {
    fn eq(&self, other: &StyleSnapshot) -> (r: bool) {
        self.border_default == other.border_default
            && self.border_hover == other.border_hover
            && self.background_default == other.background_default
            && self.background_hover == other.background_hover
            && self.text_color == other.text_color
            && self.displayed_text == other.displayed_text
            && self.is_placeholder == other.is_placeholder
    }
}

impl vstd::std_specs::cmp::PartialEqSpecImpl for StyleSnapshot {
    open spec fn obeys_eq_spec() -> bool {
        true
    }

    open spec fn eq_spec(&self, other: &StyleSnapshot) -> bool {
        self@ == other@
    }
}

/// What the resolver produces, stated as a pure function of its inputs.
/// Rules, in order, later ones overriding earlier ones:
/// 1. borders start from the base-tier default/hovered border tokens;
/// 2. the variant selects the background pair (Ghosted from the base
///    sub-tier, Filled from the "on" sub-tier);
/// 3. the Focused state overrides both borders with the cursor accent,
///    unconditionally and independent of variant;
/// 4. Focused and Active show the live value in the default foreground;
///    every other state shows the placeholder in the disabled foreground.
pub open spec fn resolve_spec(
    variant: InputVariant,
    state: InteractionState,
    theme: Theme,
    value: Seq<char>,
    placeholder: Seq<char>,
) -> StyleView
    recommends
        theme.wf(),
{
    StyleView {
        border_default: if state == InteractionState::Focused {
            theme.accent()
        } else {
            theme.middle.base.default.border
        },
        border_hover: if state == InteractionState::Focused {
            theme.accent()
        } else {
            theme.middle.base.hovered.border
        },
        background_default: if variant == InputVariant::Ghosted {
            theme.middle.base.default.background
        } else {
            theme.middle.on.default.background
        },
        background_hover: if variant == InputVariant::Ghosted {
            theme.middle.base.active.background
        } else {
            theme.middle.on.active.background
        },
        text_color: if is_editing(state) {
            theme.lowest.base.default.foreground
        } else {
            theme.lowest.base.disabled.foreground
        },
        displayed_text: if is_editing(state) {
            value
        } else {
            placeholder
        },
        is_placeholder: !is_editing(state),
    }
}

/// Outside the Focused state the focus override never fires: for every
/// variant, the resolved borders are exactly the base-tier default and
/// hovered border tokens.
pub proof fn lemma_borders_without_focus(
    variant: InputVariant,
    state: InteractionState,
    theme: Theme,
    value: Seq<char>,
    placeholder: Seq<char>,
)
    requires
        state != InteractionState::Focused,
    ensures
        resolve_spec(variant, state, theme, value, placeholder).border_default
            == theme.middle.base.default.border,
        resolve_spec(variant, state, theme, value, placeholder).border_hover
            == theme.middle.base.hovered.border,
{
}

/// In the Focused state both borders are overridden with the cursor accent
/// at participant index 0, regardless of variant.
pub proof fn lemma_focus_border_override(
    variant: InputVariant,
    theme: Theme,
    value: Seq<char>,
    placeholder: Seq<char>,
)
    ensures
        resolve_spec(variant, InteractionState::Focused, theme, value, placeholder).border_default
            == theme.accent(),
        resolve_spec(variant, InteractionState::Focused, theme, value, placeholder).border_hover
            == theme.accent(),
{
}

/// The variant alone selects the background pair: Ghosted takes the base
/// sub-tier's default/active backgrounds, Filled the same slots of the
/// "on" sub-tier, whatever the interaction state.
pub proof fn lemma_background_by_variant(
    variant: InputVariant,
    state: InteractionState,
    theme: Theme,
    value: Seq<char>,
    placeholder: Seq<char>,
)
    ensures
        variant == InputVariant::Ghosted ==> {
            &&& resolve_spec(variant, state, theme, value, placeholder).background_default
                == theme.middle.base.default.background
            &&& resolve_spec(variant, state, theme, value, placeholder).background_hover
                == theme.middle.base.active.background
        },
        variant == InputVariant::Filled ==> {
            &&& resolve_spec(variant, state, theme, value, placeholder).background_default
                == theme.middle.on.default.background
            &&& resolve_spec(variant, state, theme, value, placeholder).background_hover
                == theme.middle.on.active.background
        },
{
}

/// In the Focused and Active states the widget displays the live value,
/// even when it is empty, in the lowest tier's default foreground.
pub proof fn lemma_editing_shows_value(
    variant: InputVariant,
    state: InteractionState,
    theme: Theme,
    value: Seq<char>,
    placeholder: Seq<char>,
)
    requires
        is_editing(state),
    ensures
        resolve_spec(variant, state, theme, value, placeholder).displayed_text == value,
        resolve_spec(variant, state, theme, value, placeholder).text_color
            == theme.lowest.base.default.foreground,
        !resolve_spec(variant, state, theme, value, placeholder).is_placeholder,
{
}

/// In the Default, Hovered, Pressed and Disabled states the widget
/// displays the placeholder in the lowest tier's disabled foreground.
pub proof fn lemma_idle_shows_placeholder(
    variant: InputVariant,
    state: InteractionState,
    theme: Theme,
    value: Seq<char>,
    placeholder: Seq<char>,
)
    requires
        !is_editing(state),
    ensures
        resolve_spec(variant, state, theme, value, placeholder).displayed_text == placeholder,
        resolve_spec(variant, state, theme, value, placeholder).text_color
            == theme.lowest.base.disabled.foreground,
        resolve_spec(variant, state, theme, value, placeholder).is_placeholder,
{
}

/// Resolution is idempotent: two snapshots resolved from identical inputs
/// are identical. The resolver's contract pins the whole snapshot to
/// `resolve_spec`, a pure function of the inputs, so no hidden state can
/// make two passes differ.
pub proof fn lemma_resolve_idempotent(
    variant: InputVariant,
    state: InteractionState,
    theme: Theme,
    value: Seq<char>,
    placeholder: Seq<char>,
    first: StyleView,
    second: StyleView,
)
    requires
        first == resolve_spec(variant, state, theme, value, placeholder),
        second == resolve_spec(variant, state, theme, value, placeholder),
    ensures
        first == second,
{
}

/// Resolves the style for one render pass. The result is a pure function
/// of the arguments: no hidden mutable state influences it.
pub fn resolve_style(
    variant: InputVariant,
    state: InteractionState,
    theme: &Theme,
    value: &String,
    placeholder: &String,
) -> (r: StyleSnapshot)
    requires
        theme.wf(),
    ensures
        r@ == resolve_spec(variant, state, *theme, value@, placeholder@),
{
    let text_el: String;
    let text_color: Color;
    let background_color_default: Color;
    let background_color_active: Color;

    let mut border_color_default = theme.middle.base.default.border;
    let mut border_color_hover = theme.middle.base.hovered.border;
    // Computed but intentionally unused in the final output: reserved for a
    // future "active border" rule that was never wired in. Kept as dead
    // code rather than silently dropped.
    let _border_color_focus = theme.middle.base.pressed.background;

    match variant {
        InputVariant::Ghosted => {
            background_color_default = theme.middle.base.default.background;
            background_color_active = theme.middle.base.active.background;
        }
        InputVariant::Filled => {
            background_color_default = theme.middle.on.default.background;
            background_color_active = theme.middle.on.active.background;
        }
    }

    if state == InteractionState::Focused {
        let accent = theme.cursor_accent();
        border_color_default = accent;
        border_color_hover = accent;
    }

    let showing_value = state == InteractionState::Focused || state == InteractionState::Active;
    if showing_value {
        text_el = value.clone();
        text_color = theme.lowest.base.default.foreground;
    } else {
        text_el = placeholder.clone();
        text_color = theme.lowest.base.disabled.foreground;
    }

    StyleSnapshot {
        border_default: border_color_default,
        border_hover: border_color_hover,
        background_default: background_color_default,
        background_hover: background_color_active,
        text_color,
        displayed_text: text_el,
        is_placeholder: !showing_value,
    }
}

} // verus!
