//! The showcase instance for visual regression tooling: a labeled story
//! that renders one input widget in its default configuration.

use vstd::prelude::*;
use vstd::string::StringExecFns;
use crate::style::{resolve_spec, InputVariant, InteractionState};
use crate::theme::Theme;
use crate::widget::{assemble_spec, Input, InputNode};

verus! {

/// A labeled story node: the story's title, the label of the showcased
/// configuration, and the rendered widget.
#[derive(Debug)]
pub struct StoryNode {
    pub title: String,
    pub label: String,
    pub input: InputNode,
}

/// A no-argument showcase producing one labeled input widget; excluded
/// from the widget's own logic, kept for preview tooling.
#[derive(Debug)]
pub struct InputStory {}

impl InputStory {
    /// Creates the showcase.
    pub fn new() -> Self {
        Self {  }
    }

    /// Renders the story: a widget titled after the input element,
    /// labeled "Default", showing the placeholder "Search" with an empty
    /// value in the default variant and state.
    pub fn render(&self, theme: &Theme) -> (story: StoryNode)
        requires
            theme.wf(),
        ensures
            story.title@ == "Input"@,
            story.label@ == "Default"@,
            story.input@ == assemble_spec(
                resolve_spec(
                    InputVariant::Ghosted,
                    InteractionState::Default,
                    *theme,
                    Seq::<char>::empty(),
                    "Search"@,
                ),
                theme.accent(),
            ),
    {
        let input = Input::new("Search");
        let node = input.render(theme);
        StoryNode {
            title: String::from_str("Input"),
            label: String::from_str("Default"),
            input: node,
        }
    }
}

} // verus!
