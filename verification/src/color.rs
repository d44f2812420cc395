//! Theme color names, the default palette, and the grammar of color
//! references such as `primary(opacity-0.5, rgb-mult-1.2)`.
//!
//! The numeric arguments of modifiers are carried as text: turning them into
//! floating-point factors and applying them to a color is left to the caller.

use vstd::prelude::*;
use crate::text::{
    chars_eq_str, chars_of, rsplit_once, rsplit_once_chars, split, split_chars, split_once,
    split_once_chars, string_of, trim, trim_chars, trim_end_char, trim_end_char_chars,
};

verus! {

/// How many theme color names there are.
pub const WGUI_COLOR_NAME_COUNT: usize = 17;

/// A color of the theme. `Primary` is the button color, `OnPrimary` the text
/// color placed on it, and so on.
#[derive(Clone, Copy, Debug, PartialEq, Eq, Structural)]
pub enum WguiColorName {
    Primary,
    OnPrimary,
    Secondary,
    OnSecondary,
    Tertiary,
    OnTertiary,
    Danger,
    OnDanger,
    Background,
    OnBackground,
    BackgroundVariant,
    OnBackgroundVariant,
    BackgroundContrast,
    OnBackgroundContrast,
    Outline,
    Shadow,
    Highlight,
}

/// An 8-bit-per-channel color.
#[derive(Clone, Copy, Debug, PartialEq, Eq, Structural)]
pub struct Rgba8 {
    pub r: u8,
    pub g: u8,
    pub b: u8,
    pub a: u8,
}

impl Rgba8 {
    pub fn opaque(r: u8, g: u8, b: u8) -> (c: Rgba8)
        ensures
            c == (Rgba8 { r, g, b, a: 255 }),
    {
        Rgba8 { r, g, b, a: 255 }
    }
}

impl WguiColorName {
    /// Position of the name in declaration order.
    pub open spec fn spec_index(self) -> nat {
        match self {
            WguiColorName::Primary => 0,
            WguiColorName::OnPrimary => 1,
            WguiColorName::Secondary => 2,
            WguiColorName::OnSecondary => 3,
            WguiColorName::Tertiary => 4,
            WguiColorName::OnTertiary => 5,
            WguiColorName::Danger => 6,
            WguiColorName::OnDanger => 7,
            WguiColorName::Background => 8,
            WguiColorName::OnBackground => 9,
            WguiColorName::BackgroundVariant => 10,
            WguiColorName::OnBackgroundVariant => 11,
            WguiColorName::BackgroundContrast => 12,
            WguiColorName::OnBackgroundContrast => 13,
            WguiColorName::Outline => 14,
            WguiColorName::Shadow => 15,
            WguiColorName::Highlight => 16,
        }
    }

    /// The name at position `i` of the declaration order.
    pub open spec fn at_index(i: int) -> Option<WguiColorName> {
        if i == 0 {
            Some(WguiColorName::Primary)
        } else if i == 1 {
            Some(WguiColorName::OnPrimary)
        } else if i == 2 {
            Some(WguiColorName::Secondary)
        } else if i == 3 {
            Some(WguiColorName::OnSecondary)
        } else if i == 4 {
            Some(WguiColorName::Tertiary)
        } else if i == 5 {
            Some(WguiColorName::OnTertiary)
        } else if i == 6 {
            Some(WguiColorName::Danger)
        } else if i == 7 {
            Some(WguiColorName::OnDanger)
        } else if i == 8 {
            Some(WguiColorName::Background)
        } else if i == 9 {
            Some(WguiColorName::OnBackground)
        } else if i == 10 {
            Some(WguiColorName::BackgroundVariant)
        } else if i == 11 {
            Some(WguiColorName::OnBackgroundVariant)
        } else if i == 12 {
            Some(WguiColorName::BackgroundContrast)
        } else if i == 13 {
            Some(WguiColorName::OnBackgroundContrast)
        } else if i == 14 {
            Some(WguiColorName::Outline)
        } else if i == 15 {
            Some(WguiColorName::Shadow)
        } else if i == 16 {
            Some(WguiColorName::Highlight)
        } else {
            None
        }
    }

    /// The palette key under which the color is looked up.
    pub open spec fn key(self) -> Seq<char> {
        match self {
            WguiColorName::Primary => "primary"@,
            WguiColorName::OnPrimary => "on_primary"@,
            WguiColorName::Secondary => "secondary"@,
            WguiColorName::OnSecondary => "on_secondary"@,
            WguiColorName::Tertiary => "tertiary"@,
            WguiColorName::OnTertiary => "on_tertiary"@,
            WguiColorName::Danger => "danger"@,
            WguiColorName::OnDanger => "on_danger"@,
            WguiColorName::Background => "background"@,
            WguiColorName::OnBackground => "on_background"@,
            WguiColorName::BackgroundVariant => "background_variant"@,
            WguiColorName::OnBackgroundVariant => "on_background_variant"@,
            WguiColorName::BackgroundContrast => "background_contrast"@,
            WguiColorName::OnBackgroundContrast => "on_background_contrast"@,
            WguiColorName::Outline => "outline"@,
            WguiColorName::Shadow => "shadow"@,
            WguiColorName::Highlight => "highlight"@,
        }
    }

    /// The name whose key is `k`, if any.
    pub open spec fn of_key(k: Seq<char>) -> Option<WguiColorName> {
        if k == "primary"@ {
            Some(WguiColorName::Primary)
        } else if k == "on_primary"@ {
            Some(WguiColorName::OnPrimary)
        } else if k == "secondary"@ {
            Some(WguiColorName::Secondary)
        } else if k == "on_secondary"@ {
            Some(WguiColorName::OnSecondary)
        } else if k == "tertiary"@ {
            Some(WguiColorName::Tertiary)
        } else if k == "on_tertiary"@ {
            Some(WguiColorName::OnTertiary)
        } else if k == "danger"@ {
            Some(WguiColorName::Danger)
        } else if k == "on_danger"@ {
            Some(WguiColorName::OnDanger)
        } else if k == "background"@ {
            Some(WguiColorName::Background)
        } else if k == "on_background"@ {
            Some(WguiColorName::OnBackground)
        } else if k == "background_variant"@ {
            Some(WguiColorName::BackgroundVariant)
        } else if k == "on_background_variant"@ {
            Some(WguiColorName::OnBackgroundVariant)
        } else if k == "background_contrast"@ {
            Some(WguiColorName::BackgroundContrast)
        } else if k == "on_background_contrast"@ {
            Some(WguiColorName::OnBackgroundContrast)
        } else if k == "outline"@ {
            Some(WguiColorName::Outline)
        } else if k == "shadow"@ {
            Some(WguiColorName::Shadow)
        } else if k == "highlight"@ {
            Some(WguiColorName::Highlight)
        } else {
            None
        }
    }

    /// The color of the name in the default theme.
    pub open spec fn default_color(self) -> Rgba8 {
        match self {
            WguiColorName::Primary => Rgba8 { r: 0x21, g: 0xad, b: 0xff, a: 0xff },
            WguiColorName::OnPrimary => Rgba8 { r: 0xea, g: 0xf7, b: 0xff, a: 0xff },
            WguiColorName::Secondary => Rgba8 { r: 0x42, g: 0x4b, b: 0x56, a: 0xff },
            WguiColorName::OnSecondary => Rgba8 { r: 0xd2, g: 0xe6, b: 0xff, a: 0xff },
            WguiColorName::Tertiary => Rgba8 { r: 0x10, g: 0xd0, b: 0xb3, a: 0xff },
            WguiColorName::OnTertiary => Rgba8 { r: 0xd1, g: 0xff, b: 0xf8, a: 0xff },
            WguiColorName::Danger => Rgba8 { r: 0xf7, g: 0x46, b: 0x9a, a: 0xff },
            WguiColorName::OnDanger => Rgba8 { r: 0xff, g: 0xeb, b: 0xf5, a: 0xff },
            WguiColorName::Background => Rgba8 { r: 0x00, g: 0x2e, b: 0x43, a: 0xff },
            WguiColorName::OnBackground => Rgba8 { r: 0xe4, g: 0xf5, b: 0xf6, a: 0xff },
            WguiColorName::BackgroundVariant => Rgba8 { r: 0x0c, g: 0x51, b: 0x70, a: 0xff },
            WguiColorName::OnBackgroundVariant => Rgba8 { r: 0xe2, g: 0xfd, b: 0xff, a: 0xff },
            WguiColorName::BackgroundContrast => Rgba8 { r: 0x00, g: 0x13, b: 0x1c, a: 0xff },
            WguiColorName::OnBackgroundContrast => Rgba8 { r: 0xe4, g: 0xed, b: 0xf6, a: 0xff },
            WguiColorName::Outline => Rgba8 { r: 0x1c, g: 0x67, b: 0x88, a: 0xff },
            WguiColorName::Shadow => Rgba8 { r: 0x00, g: 0x00, b: 0x00, a: 0xff },
            WguiColorName::Highlight => Rgba8 { r: 0xff, g: 0xff, b: 0xff, a: 0xff },
        }
    }

    /// Position of the name in declaration order (`name as usize`).
    pub fn index(self) -> (i: usize)
        ensures
            i == self.spec_index(),
            i < WGUI_COLOR_NAME_COUNT,
    {
        match self {
            WguiColorName::Primary => 0,
            WguiColorName::OnPrimary => 1,
            WguiColorName::Secondary => 2,
            WguiColorName::OnSecondary => 3,
            WguiColorName::Tertiary => 4,
            WguiColorName::OnTertiary => 5,
            WguiColorName::Danger => 6,
            WguiColorName::OnDanger => 7,
            WguiColorName::Background => 8,
            WguiColorName::OnBackground => 9,
            WguiColorName::BackgroundVariant => 10,
            WguiColorName::OnBackgroundVariant => 11,
            WguiColorName::BackgroundContrast => 12,
            WguiColorName::OnBackgroundContrast => 13,
            WguiColorName::Outline => 14,
            WguiColorName::Shadow => 15,
            WguiColorName::Highlight => 16,
        }
    }

    /// The name at position `v` (`WguiColorName::try_from(v)`).
    pub fn from_index(v: u8) -> (r: Option<WguiColorName>)
        ensures
            r == Self::at_index(v as int),
            r is Some <==> v < WGUI_COLOR_NAME_COUNT,
            r matches Some(n) ==> n.spec_index() == v,
    {
        match v {
            0 => Some(WguiColorName::Primary),
            1 => Some(WguiColorName::OnPrimary),
            2 => Some(WguiColorName::Secondary),
            3 => Some(WguiColorName::OnSecondary),
            4 => Some(WguiColorName::Tertiary),
            5 => Some(WguiColorName::OnTertiary),
            6 => Some(WguiColorName::Danger),
            7 => Some(WguiColorName::OnDanger),
            8 => Some(WguiColorName::Background),
            9 => Some(WguiColorName::OnBackground),
            10 => Some(WguiColorName::BackgroundVariant),
            11 => Some(WguiColorName::OnBackgroundVariant),
            12 => Some(WguiColorName::BackgroundContrast),
            13 => Some(WguiColorName::OnBackgroundContrast),
            14 => Some(WguiColorName::Outline),
            15 => Some(WguiColorName::Shadow),
            16 => Some(WguiColorName::Highlight),
            _ => None,
        }
    }

    /// The palette key of the name.
    pub fn key_str(self) -> (s: &'static str)
        ensures
            s@ == self.key(),
    {
        match self {
            WguiColorName::Primary => "primary",
            WguiColorName::OnPrimary => "on_primary",
            WguiColorName::Secondary => "secondary",
            WguiColorName::OnSecondary => "on_secondary",
            WguiColorName::Tertiary => "tertiary",
            WguiColorName::OnTertiary => "on_tertiary",
            WguiColorName::Danger => "danger",
            WguiColorName::OnDanger => "on_danger",
            WguiColorName::Background => "background",
            WguiColorName::OnBackground => "on_background",
            WguiColorName::BackgroundVariant => "background_variant",
            WguiColorName::OnBackgroundVariant => "on_background_variant",
            WguiColorName::BackgroundContrast => "background_contrast",
            WguiColorName::OnBackgroundContrast => "on_background_contrast",
            WguiColorName::Outline => "outline",
            WguiColorName::Shadow => "shadow",
            WguiColorName::Highlight => "highlight",
        }
    }
}


/// A key maps to at most one name: looking a name's key up gives the name
/// back.
pub proof fn lemma_key_lookup(n: WguiColorName)
    ensures
        WguiColorName::of_key(n.key()) == Some(n),
{
    match n {
        WguiColorName::Primary => {
            reveal_strlit("primary");
        },
        WguiColorName::OnPrimary => {
            reveal_strlit("on_primary");
            reveal_strlit("primary");
            assert("on_primary"@.len() != "primary"@.len());
        },
        WguiColorName::Secondary => {
            reveal_strlit("secondary");
            reveal_strlit("primary");
            assert("secondary"@.len() != "primary"@.len());
            reveal_strlit("on_primary");
            assert("secondary"@.len() != "on_primary"@.len());
        },
        WguiColorName::OnSecondary => {
            reveal_strlit("on_secondary");
            reveal_strlit("primary");
            assert("on_secondary"@.len() != "primary"@.len());
            reveal_strlit("on_primary");
            assert("on_secondary"@.len() != "on_primary"@.len());
            reveal_strlit("secondary");
            assert("on_secondary"@.len() != "secondary"@.len());
        },
        WguiColorName::Tertiary => {
            reveal_strlit("tertiary");
            reveal_strlit("primary");
            assert("tertiary"@.len() != "primary"@.len());
            reveal_strlit("on_primary");
            assert("tertiary"@.len() != "on_primary"@.len());
            reveal_strlit("secondary");
            assert("tertiary"@.len() != "secondary"@.len());
            reveal_strlit("on_secondary");
            assert("tertiary"@.len() != "on_secondary"@.len());
        },
        WguiColorName::OnTertiary => {
            reveal_strlit("on_tertiary");
            reveal_strlit("primary");
            assert("on_tertiary"@.len() != "primary"@.len());
            reveal_strlit("on_primary");
            assert("on_tertiary"@.len() != "on_primary"@.len());
            reveal_strlit("secondary");
            assert("on_tertiary"@.len() != "secondary"@.len());
            reveal_strlit("on_secondary");
            assert("on_tertiary"@.len() != "on_secondary"@.len());
            reveal_strlit("tertiary");
            assert("on_tertiary"@.len() != "tertiary"@.len());
        },
        WguiColorName::Danger => {
            reveal_strlit("danger");
            reveal_strlit("primary");
            assert("danger"@.len() != "primary"@.len());
            reveal_strlit("on_primary");
            assert("danger"@.len() != "on_primary"@.len());
            reveal_strlit("secondary");
            assert("danger"@.len() != "secondary"@.len());
            reveal_strlit("on_secondary");
            assert("danger"@.len() != "on_secondary"@.len());
            reveal_strlit("tertiary");
            assert("danger"@.len() != "tertiary"@.len());
            reveal_strlit("on_tertiary");
            assert("danger"@.len() != "on_tertiary"@.len());
        },
        WguiColorName::OnDanger => {
            reveal_strlit("on_danger");
            reveal_strlit("primary");
            assert("on_danger"@.len() != "primary"@.len());
            reveal_strlit("on_primary");
            assert("on_danger"@.len() != "on_primary"@.len());
            reveal_strlit("secondary");
            assert("on_danger"@[0] != "secondary"@[0]);
            reveal_strlit("on_secondary");
            assert("on_danger"@.len() != "on_secondary"@.len());
            reveal_strlit("tertiary");
            assert("on_danger"@.len() != "tertiary"@.len());
            reveal_strlit("on_tertiary");
            assert("on_danger"@.len() != "on_tertiary"@.len());
            reveal_strlit("danger");
            assert("on_danger"@.len() != "danger"@.len());
        },
        WguiColorName::Background => {
            reveal_strlit("background");
            reveal_strlit("primary");
            assert("background"@.len() != "primary"@.len());
            reveal_strlit("on_primary");
            assert("background"@[0] != "on_primary"@[0]);
            reveal_strlit("secondary");
            assert("background"@.len() != "secondary"@.len());
            reveal_strlit("on_secondary");
            assert("background"@.len() != "on_secondary"@.len());
            reveal_strlit("tertiary");
            assert("background"@.len() != "tertiary"@.len());
            reveal_strlit("on_tertiary");
            assert("background"@.len() != "on_tertiary"@.len());
            reveal_strlit("danger");
            assert("background"@.len() != "danger"@.len());
            reveal_strlit("on_danger");
            assert("background"@.len() != "on_danger"@.len());
        },
        WguiColorName::OnBackground => {
            reveal_strlit("on_background");
            reveal_strlit("primary");
            assert("on_background"@.len() != "primary"@.len());
            reveal_strlit("on_primary");
            assert("on_background"@.len() != "on_primary"@.len());
            reveal_strlit("secondary");
            assert("on_background"@.len() != "secondary"@.len());
            reveal_strlit("on_secondary");
            assert("on_background"@.len() != "on_secondary"@.len());
            reveal_strlit("tertiary");
            assert("on_background"@.len() != "tertiary"@.len());
            reveal_strlit("on_tertiary");
            assert("on_background"@.len() != "on_tertiary"@.len());
            reveal_strlit("danger");
            assert("on_background"@.len() != "danger"@.len());
            reveal_strlit("on_danger");
            assert("on_background"@.len() != "on_danger"@.len());
            reveal_strlit("background");
            assert("on_background"@.len() != "background"@.len());
        },
        WguiColorName::BackgroundVariant => {
            reveal_strlit("background_variant");
            reveal_strlit("primary");
            assert("background_variant"@.len() != "primary"@.len());
            reveal_strlit("on_primary");
            assert("background_variant"@.len() != "on_primary"@.len());
            reveal_strlit("secondary");
            assert("background_variant"@.len() != "secondary"@.len());
            reveal_strlit("on_secondary");
            assert("background_variant"@.len() != "on_secondary"@.len());
            reveal_strlit("tertiary");
            assert("background_variant"@.len() != "tertiary"@.len());
            reveal_strlit("on_tertiary");
            assert("background_variant"@.len() != "on_tertiary"@.len());
            reveal_strlit("danger");
            assert("background_variant"@.len() != "danger"@.len());
            reveal_strlit("on_danger");
            assert("background_variant"@.len() != "on_danger"@.len());
            reveal_strlit("background");
            assert("background_variant"@.len() != "background"@.len());
            reveal_strlit("on_background");
            assert("background_variant"@.len() != "on_background"@.len());
        },
        WguiColorName::OnBackgroundVariant => {
            reveal_strlit("on_background_variant");
            reveal_strlit("primary");
            assert("on_background_variant"@.len() != "primary"@.len());
            reveal_strlit("on_primary");
            assert("on_background_variant"@.len() != "on_primary"@.len());
            reveal_strlit("secondary");
            assert("on_background_variant"@.len() != "secondary"@.len());
            reveal_strlit("on_secondary");
            assert("on_background_variant"@.len() != "on_secondary"@.len());
            reveal_strlit("tertiary");
            assert("on_background_variant"@.len() != "tertiary"@.len());
            reveal_strlit("on_tertiary");
            assert("on_background_variant"@.len() != "on_tertiary"@.len());
            reveal_strlit("danger");
            assert("on_background_variant"@.len() != "danger"@.len());
            reveal_strlit("on_danger");
            assert("on_background_variant"@.len() != "on_danger"@.len());
            reveal_strlit("background");
            assert("on_background_variant"@.len() != "background"@.len());
            reveal_strlit("on_background");
            assert("on_background_variant"@.len() != "on_background"@.len());
            reveal_strlit("background_variant");
            assert("on_background_variant"@.len() != "background_variant"@.len());
        },
        WguiColorName::BackgroundContrast => {
            reveal_strlit("background_contrast");
            reveal_strlit("primary");
            assert("background_contrast"@.len() != "primary"@.len());
            reveal_strlit("on_primary");
            assert("background_contrast"@.len() != "on_primary"@.len());
            reveal_strlit("secondary");
            assert("background_contrast"@.len() != "secondary"@.len());
            reveal_strlit("on_secondary");
            assert("background_contrast"@.len() != "on_secondary"@.len());
            reveal_strlit("tertiary");
            assert("background_contrast"@.len() != "tertiary"@.len());
            reveal_strlit("on_tertiary");
            assert("background_contrast"@.len() != "on_tertiary"@.len());
            reveal_strlit("danger");
            assert("background_contrast"@.len() != "danger"@.len());
            reveal_strlit("on_danger");
            assert("background_contrast"@.len() != "on_danger"@.len());
            reveal_strlit("background");
            assert("background_contrast"@.len() != "background"@.len());
            reveal_strlit("on_background");
            assert("background_contrast"@.len() != "on_background"@.len());
            reveal_strlit("background_variant");
            assert("background_contrast"@.len() != "background_variant"@.len());
            reveal_strlit("on_background_variant");
            assert("background_contrast"@.len() != "on_background_variant"@.len());
        },
        WguiColorName::OnBackgroundContrast => {
            reveal_strlit("on_background_contrast");
            reveal_strlit("primary");
            assert("on_background_contrast"@.len() != "primary"@.len());
            reveal_strlit("on_primary");
            assert("on_background_contrast"@.len() != "on_primary"@.len());
            reveal_strlit("secondary");
            assert("on_background_contrast"@.len() != "secondary"@.len());
            reveal_strlit("on_secondary");
            assert("on_background_contrast"@.len() != "on_secondary"@.len());
            reveal_strlit("tertiary");
            assert("on_background_contrast"@.len() != "tertiary"@.len());
            reveal_strlit("on_tertiary");
            assert("on_background_contrast"@.len() != "on_tertiary"@.len());
            reveal_strlit("danger");
            assert("on_background_contrast"@.len() != "danger"@.len());
            reveal_strlit("on_danger");
            assert("on_background_contrast"@.len() != "on_danger"@.len());
            reveal_strlit("background");
            assert("on_background_contrast"@.len() != "background"@.len());
            reveal_strlit("on_background");
            assert("on_background_contrast"@.len() != "on_background"@.len());
            reveal_strlit("background_variant");
            assert("on_background_contrast"@.len() != "background_variant"@.len());
            reveal_strlit("on_background_variant");
            assert("on_background_contrast"@.len() != "on_background_variant"@.len());
            reveal_strlit("background_contrast");
            assert("on_background_contrast"@.len() != "background_contrast"@.len());
        },
        WguiColorName::Outline => {
            reveal_strlit("outline");
            reveal_strlit("primary");
            assert("outline"@[0] != "primary"@[0]);
            reveal_strlit("on_primary");
            assert("outline"@.len() != "on_primary"@.len());
            reveal_strlit("secondary");
            assert("outline"@.len() != "secondary"@.len());
            reveal_strlit("on_secondary");
            assert("outline"@.len() != "on_secondary"@.len());
            reveal_strlit("tertiary");
            assert("outline"@.len() != "tertiary"@.len());
            reveal_strlit("on_tertiary");
            assert("outline"@.len() != "on_tertiary"@.len());
            reveal_strlit("danger");
            assert("outline"@.len() != "danger"@.len());
            reveal_strlit("on_danger");
            assert("outline"@.len() != "on_danger"@.len());
            reveal_strlit("background");
            assert("outline"@.len() != "background"@.len());
            reveal_strlit("on_background");
            assert("outline"@.len() != "on_background"@.len());
            reveal_strlit("background_variant");
            assert("outline"@.len() != "background_variant"@.len());
            reveal_strlit("on_background_variant");
            assert("outline"@.len() != "on_background_variant"@.len());
            reveal_strlit("background_contrast");
            assert("outline"@.len() != "background_contrast"@.len());
            reveal_strlit("on_background_contrast");
            assert("outline"@.len() != "on_background_contrast"@.len());
        },
        WguiColorName::Shadow => {
            reveal_strlit("shadow");
            reveal_strlit("primary");
            assert("shadow"@.len() != "primary"@.len());
            reveal_strlit("on_primary");
            assert("shadow"@.len() != "on_primary"@.len());
            reveal_strlit("secondary");
            assert("shadow"@.len() != "secondary"@.len());
            reveal_strlit("on_secondary");
            assert("shadow"@.len() != "on_secondary"@.len());
            reveal_strlit("tertiary");
            assert("shadow"@.len() != "tertiary"@.len());
            reveal_strlit("on_tertiary");
            assert("shadow"@.len() != "on_tertiary"@.len());
            reveal_strlit("danger");
            assert("shadow"@[0] != "danger"@[0]);
            reveal_strlit("on_danger");
            assert("shadow"@.len() != "on_danger"@.len());
            reveal_strlit("background");
            assert("shadow"@.len() != "background"@.len());
            reveal_strlit("on_background");
            assert("shadow"@.len() != "on_background"@.len());
            reveal_strlit("background_variant");
            assert("shadow"@.len() != "background_variant"@.len());
            reveal_strlit("on_background_variant");
            assert("shadow"@.len() != "on_background_variant"@.len());
            reveal_strlit("background_contrast");
            assert("shadow"@.len() != "background_contrast"@.len());
            reveal_strlit("on_background_contrast");
            assert("shadow"@.len() != "on_background_contrast"@.len());
            reveal_strlit("outline");
            assert("shadow"@.len() != "outline"@.len());
        },
        WguiColorName::Highlight => {
            reveal_strlit("highlight");
            reveal_strlit("primary");
            assert("highlight"@.len() != "primary"@.len());
            reveal_strlit("on_primary");
            assert("highlight"@.len() != "on_primary"@.len());
            reveal_strlit("secondary");
            assert("highlight"@[0] != "secondary"@[0]);
            reveal_strlit("on_secondary");
            assert("highlight"@.len() != "on_secondary"@.len());
            reveal_strlit("tertiary");
            assert("highlight"@.len() != "tertiary"@.len());
            reveal_strlit("on_tertiary");
            assert("highlight"@.len() != "on_tertiary"@.len());
            reveal_strlit("danger");
            assert("highlight"@.len() != "danger"@.len());
            reveal_strlit("on_danger");
            assert("highlight"@[0] != "on_danger"@[0]);
            reveal_strlit("background");
            assert("highlight"@.len() != "background"@.len());
            reveal_strlit("on_background");
            assert("highlight"@.len() != "on_background"@.len());
            reveal_strlit("background_variant");
            assert("highlight"@.len() != "background_variant"@.len());
            reveal_strlit("on_background_variant");
            assert("highlight"@.len() != "on_background_variant"@.len());
            reveal_strlit("background_contrast");
            assert("highlight"@.len() != "background_contrast"@.len());
            reveal_strlit("on_background_contrast");
            assert("highlight"@.len() != "on_background_contrast"@.len());
            reveal_strlit("outline");
            assert("highlight"@.len() != "outline"@.len());
            reveal_strlit("shadow");
            assert("highlight"@.len() != "shadow"@.len());
        },
    }
}

/// The default theme, color by color: primary #21adff, on_primary #eaf7ff,
/// secondary #424b56, on_secondary #d2e6ff, tertiary #10d0b3, on_tertiary
/// #d1fff8, danger #f7469a, on_danger #ffebf5, background #002e43,
/// on_background #e4f5f6, background_variant #0c5170, on_background_variant
/// #e2fdff, background_contrast #00131c, on_background_contrast #e4edf6,
/// outline #1c6788, shadow #000000 and highlight #ffffff; every one of them
/// fully opaque.
pub proof fn lemma_default_theme_colors()
    ensures
        WguiColorName::Primary.default_color() == (Rgba8 { r: 0x21, g: 0xad, b: 0xff, a: 0xff }),
        WguiColorName::OnPrimary.default_color() == (Rgba8 { r: 0xea, g: 0xf7, b: 0xff, a: 0xff }),
        WguiColorName::Secondary.default_color() == (Rgba8 { r: 0x42, g: 0x4b, b: 0x56, a: 0xff }),
        WguiColorName::OnSecondary.default_color() == (Rgba8 { r: 0xd2, g: 0xe6, b: 0xff, a: 0xff }),
        WguiColorName::Tertiary.default_color() == (Rgba8 { r: 0x10, g: 0xd0, b: 0xb3, a: 0xff }),
        WguiColorName::OnTertiary.default_color() == (Rgba8 { r: 0xd1, g: 0xff, b: 0xf8, a: 0xff }),
        WguiColorName::Danger.default_color() == (Rgba8 { r: 0xf7, g: 0x46, b: 0x9a, a: 0xff }),
        WguiColorName::OnDanger.default_color() == (Rgba8 { r: 0xff, g: 0xeb, b: 0xf5, a: 0xff }),
        WguiColorName::Background.default_color() == (Rgba8 { r: 0x00, g: 0x2e, b: 0x43, a: 0xff }),
        WguiColorName::OnBackground.default_color() == (Rgba8 { r: 0xe4, g: 0xf5, b: 0xf6, a: 0xff }),
        WguiColorName::BackgroundVariant.default_color() == (Rgba8 { r: 0x0c, g: 0x51, b: 0x70, a: 0xff }),
        WguiColorName::OnBackgroundVariant.default_color() == (Rgba8 { r: 0xe2, g: 0xfd, b: 0xff, a: 0xff }),
        WguiColorName::BackgroundContrast.default_color() == (Rgba8 { r: 0x00, g: 0x13, b: 0x1c, a: 0xff }),
        WguiColorName::OnBackgroundContrast.default_color() == (Rgba8 { r: 0xe4, g: 0xed, b: 0xf6, a: 0xff }),
        WguiColorName::Outline.default_color() == (Rgba8 { r: 0x1c, g: 0x67, b: 0x88, a: 0xff }),
        WguiColorName::Shadow.default_color() == (Rgba8 { r: 0x00, g: 0x00, b: 0x00, a: 0xff }),
        WguiColorName::Highlight.default_color() == (Rgba8 { r: 0xff, g: 0xff, b: 0xff, a: 0xff }),
        forall|n: WguiColorName| (#[trigger] n.default_color()).a == 0xff,
{
}

/// A key that is found belongs to the name it is found under.
pub proof fn lemma_of_key_sound(k: Seq<char>)
    ensures
        WguiColorName::of_key(k) matches Some(n) ==> n.key() == k,
{
}

/// The theme: for each color name, in declaration order, its color and key.
pub struct WguiColorPalette {
    colors: Vec<(Rgba8, &'static str)>,
}

impl WguiColorPalette {
    #[verifier::type_invariant]
    closed spec fn inv(self) -> bool {
        &&& self.colors@.len() == WGUI_COLOR_NAME_COUNT
        &&& forall|i: int|
            0 <= i < WGUI_COLOR_NAME_COUNT ==> (#[trigger] self.colors@[i]).1@
                == WguiColorName::at_index(i)->0.key()
    }

    /// The color the palette gives `name`.
    pub closed spec fn spec_color(&self, name: WguiColorName) -> Rgba8 {
        self.colors@[name.spec_index() as int].0
    }

    /// The default theme.
    pub fn new() -> (p: WguiColorPalette)
        ensures
            forall|n: WguiColorName| #[trigger] p.spec_color(n) == n.default_color(),
            p.spec_color(WguiColorName::Primary) == (Rgba8 { r: 0x21, g: 0xad, b: 0xff, a: 0xff }),
            p.spec_color(WguiColorName::OnPrimary) == (Rgba8 { r: 0xea, g: 0xf7, b: 0xff, a: 0xff }),
            p.spec_color(WguiColorName::Secondary) == (Rgba8 { r: 0x42, g: 0x4b, b: 0x56, a: 0xff }),
            p.spec_color(WguiColorName::OnSecondary) == (Rgba8 { r: 0xd2, g: 0xe6, b: 0xff, a: 0xff }),
            p.spec_color(WguiColorName::Tertiary) == (Rgba8 { r: 0x10, g: 0xd0, b: 0xb3, a: 0xff }),
            p.spec_color(WguiColorName::OnTertiary) == (Rgba8 { r: 0xd1, g: 0xff, b: 0xf8, a: 0xff }),
            p.spec_color(WguiColorName::Danger) == (Rgba8 { r: 0xf7, g: 0x46, b: 0x9a, a: 0xff }),
            p.spec_color(WguiColorName::OnDanger) == (Rgba8 { r: 0xff, g: 0xeb, b: 0xf5, a: 0xff }),
            p.spec_color(WguiColorName::Background) == (Rgba8 { r: 0x00, g: 0x2e, b: 0x43, a: 0xff }),
            p.spec_color(WguiColorName::OnBackground) == (Rgba8 { r: 0xe4, g: 0xf5, b: 0xf6, a: 0xff }),
            p.spec_color(WguiColorName::BackgroundVariant) == (Rgba8 { r: 0x0c, g: 0x51, b: 0x70, a: 0xff }),
            p.spec_color(WguiColorName::OnBackgroundVariant) == (Rgba8 { r: 0xe2, g: 0xfd, b: 0xff, a: 0xff }),
            p.spec_color(WguiColorName::BackgroundContrast) == (Rgba8 { r: 0x00, g: 0x13, b: 0x1c, a: 0xff }),
            p.spec_color(WguiColorName::OnBackgroundContrast) == (Rgba8 { r: 0xe4, g: 0xed, b: 0xf6, a: 0xff }),
            p.spec_color(WguiColorName::Outline) == (Rgba8 { r: 0x1c, g: 0x67, b: 0x88, a: 0xff }),
            p.spec_color(WguiColorName::Shadow) == (Rgba8 { r: 0x00, g: 0x00, b: 0x00, a: 0xff }),
            p.spec_color(WguiColorName::Highlight) == (Rgba8 { r: 0xff, g: 0xff, b: 0xff, a: 0xff }),
    {
        let mut colors: Vec<(Rgba8, &'static str)> = Vec::new();
        colors.push((Rgba8::opaque(0x21, 0xad, 0xff), "primary"));
        colors.push((Rgba8::opaque(0xea, 0xf7, 0xff), "on_primary"));
        colors.push((Rgba8::opaque(0x42, 0x4b, 0x56), "secondary"));
        colors.push((Rgba8::opaque(0xd2, 0xe6, 0xff), "on_secondary"));
        colors.push((Rgba8::opaque(0x10, 0xd0, 0xb3), "tertiary"));
        colors.push((Rgba8::opaque(0xd1, 0xff, 0xf8), "on_tertiary"));
        colors.push((Rgba8::opaque(0xf7, 0x46, 0x9a), "danger"));
        colors.push((Rgba8::opaque(0xff, 0xeb, 0xf5), "on_danger"));
        colors.push((Rgba8::opaque(0x00, 0x2e, 0x43), "background"));
        colors.push((Rgba8::opaque(0xe4, 0xf5, 0xf6), "on_background"));
        colors.push((Rgba8::opaque(0x0c, 0x51, 0x70), "background_variant"));
        colors.push((Rgba8::opaque(0xe2, 0xfd, 0xff), "on_background_variant"));
        colors.push((Rgba8::opaque(0x00, 0x13, 0x1c), "background_contrast"));
        colors.push((Rgba8::opaque(0xe4, 0xed, 0xf6), "on_background_contrast"));
        colors.push((Rgba8::opaque(0x1c, 0x67, 0x88), "outline"));
        colors.push((Rgba8::opaque(0x00, 0x00, 0x00), "shadow"));
        colors.push((Rgba8::opaque(0xff, 0xff, 0xff), "highlight"));
        let p = WguiColorPalette { colors };
        assert forall|n: WguiColorName| #[trigger] p.spec_color(n) == n.default_color() by {
            match n {
                WguiColorName::Primary => {},
                WguiColorName::OnPrimary => {},
                WguiColorName::Secondary => {},
                WguiColorName::OnSecondary => {},
                WguiColorName::Tertiary => {},
                WguiColorName::OnTertiary => {},
                WguiColorName::Danger => {},
                WguiColorName::OnDanger => {},
                WguiColorName::Background => {},
                WguiColorName::OnBackground => {},
                WguiColorName::BackgroundVariant => {},
                WguiColorName::OnBackgroundVariant => {},
                WguiColorName::BackgroundContrast => {},
                WguiColorName::OnBackgroundContrast => {},
                WguiColorName::Outline => {},
                WguiColorName::Shadow => {},
                WguiColorName::Highlight => {},
            }
        }
        p
    }

    /// The color the palette gives `name`.
    pub fn color(&self, name: WguiColorName) -> (c: Rgba8)
        ensures
            c == self.spec_color(name),
    {
        proof {
            use_type_invariant(self);
        }
        self.colors[name.index()].0
    }

    /// The name whose key is `in_name`.
    pub fn resolve_name(&self, in_name: &str) -> (r: Option<WguiColorName>)
        ensures
            r == WguiColorName::of_key(in_name@),
    {
        proof {
            use_type_invariant(self);
        }
        let wanted = chars_of(in_name);
        let mut idx: usize = 0;
        while idx < self.colors.len()
            invariant
                self.colors@.len() == WGUI_COLOR_NAME_COUNT,
                forall|i: int|
                    0 <= i < WGUI_COLOR_NAME_COUNT ==> (#[trigger] self.colors@[i]).1@
                        == WguiColorName::at_index(i)->0.key(),
                wanted@ == in_name@,
                idx <= WGUI_COLOR_NAME_COUNT,
                forall|j: int|
                    0 <= j < idx ==> WguiColorName::at_index(j)->0.key() != in_name@,
            decreases WGUI_COLOR_NAME_COUNT - idx,
        {
            if chars_eq_str(wanted.as_slice(), self.colors[idx].1) {
                let r = WguiColorName::from_index(idx as u8);
                proof {
                    assert(self.colors@[idx as int].1@ == WguiColorName::at_index(idx as int)->0.key());
                    lemma_of_key_first(in_name@, idx as int);
                }
                return r;
            }
            proof {
                assert(self.colors@[idx as int].1@ == WguiColorName::at_index(idx as int)->0.key());
            }
            idx = idx + 1;
        }
        proof {
            lemma_of_key_none(in_name@);
        }
        None
    }
}

proof fn lemma_of_key_first(k: Seq<char>, i: int)
    requires
        0 <= i < WGUI_COLOR_NAME_COUNT,
        WguiColorName::at_index(i)->0.key() == k,
        forall|j: int| 0 <= j < i ==> WguiColorName::at_index(j)->0.key() != k,
    ensures
        WguiColorName::of_key(k) == WguiColorName::at_index(i),
{
    assert(WguiColorName::at_index(0)->0.key() != k || i <= 0);
    assert(WguiColorName::at_index(1)->0.key() != k || i <= 1);
    assert(WguiColorName::at_index(2)->0.key() != k || i <= 2);
    assert(WguiColorName::at_index(3)->0.key() != k || i <= 3);
    assert(WguiColorName::at_index(4)->0.key() != k || i <= 4);
    assert(WguiColorName::at_index(5)->0.key() != k || i <= 5);
    assert(WguiColorName::at_index(6)->0.key() != k || i <= 6);
    assert(WguiColorName::at_index(7)->0.key() != k || i <= 7);
    assert(WguiColorName::at_index(8)->0.key() != k || i <= 8);
    assert(WguiColorName::at_index(9)->0.key() != k || i <= 9);
    assert(WguiColorName::at_index(10)->0.key() != k || i <= 10);
    assert(WguiColorName::at_index(11)->0.key() != k || i <= 11);
    assert(WguiColorName::at_index(12)->0.key() != k || i <= 12);
    assert(WguiColorName::at_index(13)->0.key() != k || i <= 13);
    assert(WguiColorName::at_index(14)->0.key() != k || i <= 14);
    assert(WguiColorName::at_index(15)->0.key() != k || i <= 15);
    assert(WguiColorName::at_index(16)->0.key() != k || i <= 16);
}

proof fn lemma_of_key_none(k: Seq<char>)
    requires
        forall|j: int| 0 <= j < WGUI_COLOR_NAME_COUNT ==> WguiColorName::at_index(j)->0.key() != k,
    ensures
        WguiColorName::of_key(k) is None,
{
    assert(WguiColorName::at_index(0)->0.key() != k);
    assert(WguiColorName::at_index(1)->0.key() != k);
    assert(WguiColorName::at_index(2)->0.key() != k);
    assert(WguiColorName::at_index(3)->0.key() != k);
    assert(WguiColorName::at_index(4)->0.key() != k);
    assert(WguiColorName::at_index(5)->0.key() != k);
    assert(WguiColorName::at_index(6)->0.key() != k);
    assert(WguiColorName::at_index(7)->0.key() != k);
    assert(WguiColorName::at_index(8)->0.key() != k);
    assert(WguiColorName::at_index(9)->0.key() != k);
    assert(WguiColorName::at_index(10)->0.key() != k);
    assert(WguiColorName::at_index(11)->0.key() != k);
    assert(WguiColorName::at_index(12)->0.key() != k);
    assert(WguiColorName::at_index(13)->0.key() != k);
    assert(WguiColorName::at_index(14)->0.key() != k);
    assert(WguiColorName::at_index(15)->0.key() != k);
    assert(WguiColorName::at_index(16)->0.key() != k);
}

impl Default for WguiColorPalette {
    fn default() -> (p: Self)
        ensures
            forall|n: WguiColorName| #[trigger] p.spec_color(n) == n.default_color(),
    {
        Self::new()
    }
}


/// A modifier of a color reference.
#[derive(Clone, Copy, Debug, PartialEq, Eq, Structural)]
pub enum ModifierKind {
    /// `transparent`: alpha 0.
    Transparent,
    /// `opaque`: alpha 1.
    Opaque,
    /// `opacity-<v>`: alpha `v`.
    Opacity,
    /// `rgb-mult-<v>`: red, green and blue multiplied by `v`.
    RgbMult,
    /// `rgb-add-<v>`: `v` added to red, green and blue.
    RgbAdd,
}

/// A modifier with the text of its numeric argument (empty for
/// `transparent` and `opaque`).
pub struct ColorModifier {
    pub kind: ModifierKind,
    pub value: String,
}

impl View for ColorModifier {
    type V = (ModifierKind, Seq<char>);

    open spec fn view(&self) -> (ModifierKind, Seq<char>) {
        (self.kind, self.value@)
    }
}

/// A named color with the modifiers to apply to it, in order.
pub struct ColorSpec {
    pub name: WguiColorName,
    pub modifiers: Vec<ColorModifier>,
}

impl View for ColorSpec {
    type V = (WguiColorName, Seq<(ModifierKind, Seq<char>)>);

    open spec fn view(&self) -> (WguiColorName, Seq<(ModifierKind, Seq<char>)>) {
        (self.name, self.modifiers@.map_values(|m: ColorModifier| m@))
    }
}

/// What one modifier text means: `transparent`, `opaque`, or a prefix and a
/// value separated by the last `-`, the prefix being `opacity`, `rgb-mult`
/// or `rgb-add`.
pub open spec fn modifier_of(m: Seq<char>) -> Option<(ModifierKind, Seq<char>)> {
    if m == "transparent"@ {
        Some((ModifierKind::Transparent, Seq::<char>::empty()))
    } else if m == "opaque"@ {
        Some((ModifierKind::Opaque, Seq::<char>::empty()))
    } else {
        match rsplit_once(m, '-') {
            Some((prefix, value)) => {
                if prefix == "opacity"@ {
                    Some((ModifierKind::Opacity, value))
                } else if prefix == "rgb-mult"@ {
                    Some((ModifierKind::RgbMult, value))
                } else if prefix == "rgb-add"@ {
                    Some((ModifierKind::RgbAdd, value))
                } else {
                    None
                }
            },
            None => None,
        }
    }
}

/// The modifier texts of a color reference: the part after the first `(`,
/// without trailing `)`, split at `,`, each piece trimmed.
pub open spec fn modifier_texts(rest: Seq<char>) -> Seq<Seq<char>> {
    split(trim_end_char(rest, ')'), ',').map_values(|p: Seq<char>| trim(p))
}

/// What a color reference denotes: `name` alone, or
/// `name(modifier, modifier, ...)`; `None` when the name is unknown or a
/// modifier is not understood.
pub open spec fn color_ref(s: Seq<char>) -> Option<(WguiColorName, Seq<(ModifierKind, Seq<char>)>)> {
    match split_once(s, '(') {
        Some((base, rest)) => {
            let mods = modifier_texts(rest).map_values(|t: Seq<char>| modifier_of(t));
            match WguiColorName::of_key(trim(base)) {
                Some(n) => if forall|i: int| 0 <= i < mods.len() ==> (#[trigger] mods[i]) is Some {
                    Some((n, mods.map_values(|o: Option<(ModifierKind, Seq<char>)>| o->0)))
                } else {
                    None
                },
                None => None,
            }
        },
        None => match WguiColorName::of_key(s) {
            Some(n) => Some((n, Seq::empty())),
            None => None,
        },
    }
}

fn modifier_of_kind(kind: ModifierKind, value: Vec<char>) -> (m: ColorModifier)
    ensures
        m@ == (kind, value@),
{
    ColorModifier { kind, value: string_of(value.as_slice()) }
}

/// Reads one (already trimmed) modifier text.
pub fn parse_modifier(m: &[char]) -> (r: Option<ColorModifier>)
    ensures
        match r {
            Some(cm) => modifier_of(m@) == Some(cm@),
            None => modifier_of(m@) is None,
        },
{
    if chars_eq_str(m, "transparent") {
        return Some(modifier_of_kind(ModifierKind::Transparent, Vec::new()));
    }
    if chars_eq_str(m, "opaque") {
        return Some(modifier_of_kind(ModifierKind::Opaque, Vec::new()));
    }
    match rsplit_once_chars(m, '-') {
        Some((prefix, value)) => {
            if chars_eq_str(prefix.as_slice(), "opacity") {
                Some(modifier_of_kind(ModifierKind::Opacity, value))
            } else if chars_eq_str(prefix.as_slice(), "rgb-mult") {
                Some(modifier_of_kind(ModifierKind::RgbMult, value))
            } else if chars_eq_str(prefix.as_slice(), "rgb-add") {
                Some(modifier_of_kind(ModifierKind::RgbAdd, value))
            } else {
                None
            }
        },
        None => None,
    }
}

impl WguiColorPalette {
    /// Reads a color reference such as `primary` or
    /// `on_primary(opacity-0.5, rgb-add-0.1)`.
    pub fn find(&self, in_name: &str) -> (r: Option<ColorSpec>)
        ensures
            match r {
                Some(spec) => color_ref(in_name@) == Some(spec@),
                None => color_ref(in_name@) is None,
            },
    {
        let chars = chars_of(in_name);
        match split_once_chars(chars.as_slice(), '(') {
            Some((base, rest)) => {
                let base_name = trim_chars(base.as_slice());
                let base_str = string_of(base_name.as_slice());
                let name = match self.resolve_name(base_str.as_str()) {
                    Some(n) => n,
                    None => {
                        return None;
                    },
                };
                let inner = trim_end_char_chars(rest.as_slice(), ')');
                let pieces = split_chars(inner.as_slice(), ',');
                let ghost texts = modifier_texts(rest@);
                let ghost mods = texts.map_values(|t: Seq<char>| modifier_of(t));
                let mut modifiers: Vec<ColorModifier> = Vec::new();
                let mut i: usize = 0;
                while i < pieces.len()
                    invariant
                        pieces@.len() == split(inner@, ',').len(),
                        forall|k: int|
                            0 <= k < pieces@.len() ==> #[trigger] pieces@[k]@ == split(inner@, ',')[k],
                        inner@ == trim_end_char(rest@, ')'),
                        split_once(in_name@, '(') == Some((base@, rest@)),
                        WguiColorName::of_key(trim(base@)) == Some(name),
                        texts == modifier_texts(rest@),
                        mods == texts.map_values(|t: Seq<char>| modifier_of(t)),
                        i <= pieces@.len(),
                        modifiers@.len() == i,
                        forall|k: int|
                            0 <= k < i ==> (#[trigger] mods[k]) is Some && mods[k]->0
                                == modifiers@[k]@,
                    decreases pieces.len() - i,
                {
                    let t = trim_chars(pieces[i].as_slice());
                    assert(t@ == texts[i as int]);
                    match parse_modifier(t.as_slice()) {
                        Some(m) => {
                            modifiers.push(m);
                        },
                        None => {
                            assert(mods[i as int] is None);
                            return None;
                        },
                    }
                    i = i + 1;
                }
                let spec = ColorSpec { name, modifiers };
                proof {
                    assert(spec@.1 =~= mods.map_values(
                        |o: Option<(ModifierKind, Seq<char>)>| o->0,
                    ));
                }
                Some(spec)
            },
            None => match self.resolve_name(in_name) {
                Some(n) => {
                    let spec = ColorSpec { name: n, modifiers: Vec::new() };
                    assert(spec@.1 =~= Seq::<(ModifierKind, Seq<char>)>::empty());
                    Some(spec)
                },
                None => None,
            },
        }
    }
}

} // verus!
