//! Theme tokens: an externally owned, read-only palette of color values,
//! organized by tier ("lowest", "middle"), sub-tier ("base" vs. the
//! emphasized "on" tier), and state bucket (default/hovered/pressed/active/
//! disabled), plus an ordered list of per-participant accent colors. The
//! widget only reads named paths under this structure; the host theming
//! subsystem owns the values.

use vstd::prelude::*;

verus! {

/// An opaque color value, as the host's theming subsystem hands it in
/// (for example a packed RGBA word). The widget never inspects it; it only
/// copies colors from token slots into the resolved style.
#[derive(Clone, Copy, PartialEq, Eq, Structural, Debug)]
pub struct Color(pub u32);

/// The {background, border, foreground} triple held by one state bucket.
#[derive(Clone, Copy, PartialEq, Eq, Structural, Debug)]
pub struct StateColors {
    pub background: Color,
    pub border: Color,
    pub foreground: Color,
}

/// One sub-tier: a state bucket for each interaction state the palette
/// distinguishes.
#[derive(Clone, Copy, PartialEq, Eq, Structural, Debug)]
pub struct SubTier {
    pub default: StateColors,
    pub hovered: StateColors,
    pub pressed: StateColors,
    pub active: StateColors,
    pub disabled: StateColors,
}

/// One semantic tier: the plain "base" sub-tier and the emphasized "on"
/// sub-tier.
#[derive(Clone, Copy, PartialEq, Eq, Structural, Debug)]
pub struct Tier {
    pub base: SubTier,
    pub on: SubTier,
}

/// Per-participant colors; the widget only reads the cursor accent.
#[derive(Clone, Copy, PartialEq, Eq, Structural, Debug)]
pub struct Player {
    pub cursor: Color,
}

/// The full token structure the widget reads from.
#[derive(Clone, Debug)]
pub struct Theme {
    pub lowest: Tier,
    pub middle: Tier,
    pub players: Vec<Player>,
}

impl Theme {
    /// A complete theme carries at least one participant, so the cursor
    /// accent at index 0 is present. The host guarantees completeness.
    pub open spec fn wf(self) -> bool {
        self.players@.len() > 0
    }

    /// The cursor/focus accent color: the accent at participant index 0.
    pub open spec fn accent(self) -> Color
        recommends
            self.wf(),
    {
        self.players@[0].cursor
    }

    /// Reads the cursor accent at participant index 0.
    pub fn cursor_accent(&self) -> (c: Color)
        requires
            self.wf(),
        ensures
            c == self.accent(),
    {
        self.players[0].cursor
    }
}

} // verus!
