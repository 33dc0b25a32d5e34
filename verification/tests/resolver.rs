use input_widget::style::{resolve_style, InputVariant, InteractionState};
use input_widget::theme::{Color, Player, StateColors, SubTier, Theme, Tier};

fn bucket(base: u32) -> StateColors {
    StateColors {
        background: Color(base),
        border: Color(base + 1),
        foreground: Color(base + 2),
    }
}

fn sub_tier(base: u32) -> SubTier {
    SubTier {
        default: bucket(base),
        hovered: bucket(base + 10),
        pressed: bucket(base + 20),
        active: bucket(base + 30),
        disabled: bucket(base + 40),
    }
}

fn test_theme() -> Theme {
    Theme {
        lowest: Tier {
            base: sub_tier(100),
            on: sub_tier(200),
        },
        middle: Tier {
            base: sub_tier(300),
            on: sub_tier(400),
        },
        players: vec![Player { cursor: Color(999) }, Player { cursor: Color(888) }],
    }
}

fn middle_base_default_border() -> Color { Color(301) }
fn middle_base_hovered_border() -> Color { Color(311) }
fn middle_base_default_background() -> Color { Color(300) }
fn middle_base_active_background() -> Color { Color(330) }
fn middle_on_default_background() -> Color { Color(400) }
fn middle_on_active_background() -> Color { Color(430) }
fn lowest_base_default_foreground() -> Color { Color(102) }
fn lowest_base_disabled_foreground() -> Color { Color(142) }
fn accent() -> Color { Color(999) }

fn all_states() -> [InteractionState; 6] {
    [
        InteractionState::Default,
        InteractionState::Hovered,
        InteractionState::Pressed,
        InteractionState::Active,
        InteractionState::Focused,
        InteractionState::Disabled,
    ]
}

#[test]
fn borders_are_base_tokens_outside_focus() {
    let theme = test_theme();
    let value = String::from("hello");
    let placeholder = String::from("Search");
    for variant in [InputVariant::Ghosted, InputVariant::Filled] {
        for state in all_states() {
            if state != InteractionState::Focused {
                let snap = resolve_style(variant, state, &theme, &value, &placeholder);
                assert_eq!(snap.border_default, middle_base_default_border());
                assert_eq!(snap.border_hover, middle_base_hovered_border());
            }
        }
    }
}

#[test]
fn focus_overrides_both_borders_with_accent() {
    let theme = test_theme();
    let value = String::from("hello");
    let placeholder = String::from("Search");
    for variant in [InputVariant::Ghosted, InputVariant::Filled] {
        let snap = resolve_style(variant, InteractionState::Focused, &theme, &value, &placeholder);
        assert_eq!(snap.border_default, accent());
        assert_eq!(snap.border_hover, accent());
    }
}

#[test]
fn ghosted_backgrounds_come_from_base_sub_tier() {
    let theme = test_theme();
    let value = String::from("hello");
    let placeholder = String::from("Search");
    for state in all_states() {
        let snap = resolve_style(InputVariant::Ghosted, state, &theme, &value, &placeholder);
        assert_eq!(snap.background_default, middle_base_default_background());
        assert_eq!(snap.background_hover, middle_base_active_background());
    }
}

#[test]
fn filled_backgrounds_come_from_on_sub_tier() {
    let theme = test_theme();
    let value = String::from("hello");
    let placeholder = String::from("Search");
    for state in all_states() {
        let snap = resolve_style(InputVariant::Filled, state, &theme, &value, &placeholder);
        assert_eq!(snap.background_default, middle_on_default_background());
        assert_eq!(snap.background_hover, middle_on_active_background());
    }
}

#[test]
fn focused_and_active_show_live_value() {
    let theme = test_theme();
    let placeholder = String::from("Search");
    for variant in [InputVariant::Ghosted, InputVariant::Filled] {
        for state in [InteractionState::Focused, InteractionState::Active] {
            let snap = resolve_style(
                variant,
                state,
                &theme,
                &String::from("hello"),
                &placeholder,
            );
            assert_eq!(snap.displayed_text, "hello");
            assert_eq!(snap.text_color, lowest_base_default_foreground());
            assert!(!snap.is_placeholder);
        }
    }
}

#[test]
fn focused_and_active_show_value_even_when_empty() {
    let theme = test_theme();
    let placeholder = String::from("Search");
    for state in [InteractionState::Focused, InteractionState::Active] {
        let snap = resolve_style(
            InputVariant::Ghosted,
            state,
            &theme,
            &String::new(),
            &placeholder,
        );
        assert_eq!(snap.displayed_text, "");
        assert_eq!(snap.text_color, lowest_base_default_foreground());
    }
}

#[test]
fn idle_states_show_placeholder() {
    let theme = test_theme();
    let value = String::from("hello");
    let placeholder = String::from("Search");
    let idle = [
        InteractionState::Default,
        InteractionState::Hovered,
        InteractionState::Pressed,
        InteractionState::Disabled,
    ];
    for variant in [InputVariant::Ghosted, InputVariant::Filled] {
        for state in idle {
            let snap = resolve_style(variant, state, &theme, &value, &placeholder);
            assert_eq!(snap.displayed_text, "Search");
            assert_eq!(snap.text_color, lowest_base_disabled_foreground());
            assert!(snap.is_placeholder);
        }
    }
}

#[test]
fn resolution_is_idempotent() {
    let theme = test_theme();
    let value = String::from("hello");
    let placeholder = String::from("Search");
    for variant in [InputVariant::Ghosted, InputVariant::Filled] {
        for state in all_states() {
            let first = resolve_style(variant, state, &theme, &value, &placeholder);
            let second = resolve_style(variant, state, &theme, &value, &placeholder);
            assert_eq!(first, second);
        }
    }
}

#[test]
fn scenario_default_ghosted_empty_value() {
    let theme = test_theme();
    let snap = resolve_style(
        InputVariant::Ghosted,
        InteractionState::Default,
        &theme,
        &String::new(),
        &String::from("Search"),
    );
    assert_eq!(snap.displayed_text, "Search");
    assert_eq!(snap.text_color, lowest_base_disabled_foreground());
    assert_eq!(snap.background_default, middle_base_default_background());
    assert_eq!(snap.background_hover, middle_base_active_background());
}

#[test]
fn scenario_focused_ghosted_with_value() {
    let theme = test_theme();
    let snap = resolve_style(
        InputVariant::Ghosted,
        InteractionState::Focused,
        &theme,
        &String::from("hello"),
        &String::from("Search"),
    );
    assert_eq!(snap.displayed_text, "hello");
    assert_eq!(snap.border_default, accent());
    assert_eq!(snap.border_hover, accent());
    assert_eq!(snap.text_color, lowest_base_default_foreground());
}

#[test]
fn scenario_active_filled_with_value() {
    let theme = test_theme();
    let snap = resolve_style(
        InputVariant::Filled,
        InteractionState::Active,
        &theme,
        &String::from("hello"),
        &String::from("Search"),
    );
    assert_eq!(snap.displayed_text, "hello");
    assert_eq!(snap.background_default, middle_on_default_background());
    assert_eq!(snap.background_hover, middle_on_active_background());
    assert_eq!(snap.text_color, lowest_base_default_foreground());
    assert_eq!(snap.border_default, middle_base_default_border());
    assert_eq!(snap.border_hover, middle_base_hovered_border());
}

#[test]
fn accent_comes_from_first_participant() {
    let theme = test_theme();
    let snap = resolve_style(
        InputVariant::Ghosted,
        InteractionState::Focused,
        &theme,
        &String::from("hello"),
        &String::from("Search"),
    );
    assert_ne!(snap.border_default, Color(888));
    assert_eq!(snap.border_default, Color(999));
}
