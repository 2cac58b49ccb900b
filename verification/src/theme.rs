//! The display theme selector: which themes exist, their cycling order,
//! and their display names. The colors themselves belong to the
//! presentation layer.

use vstd::prelude::*;

verus! {

/// The available display themes, in cycling order.
#[derive(Debug, Clone, Copy, PartialEq, Eq, Structural)]
pub enum ThemeType {
    DarkPurple,
    Monotone,
    HighContrast,
}

/// The theme after `t` in the fixed cycle.
pub open spec fn spec_next_theme(t: ThemeType) -> ThemeType {
    match t {
        ThemeType::DarkPurple => ThemeType::Monotone,
        ThemeType::Monotone => ThemeType::HighContrast,
        ThemeType::HighContrast => ThemeType::DarkPurple,
    }
}

impl ThemeType {
    /// The next theme in the fixed cycle.
    pub fn next(&self) -> (r: ThemeType)
        ensures
            r == spec_next_theme(*self),
    {
        match self {
            ThemeType::DarkPurple => ThemeType::Monotone,
            ThemeType::Monotone => ThemeType::HighContrast,
            ThemeType::HighContrast => ThemeType::DarkPurple,
        }
    }

    /// The theme's display name.
    pub fn as_str(&self) -> (r: &'static str)
        ensures
            *self == ThemeType::DarkPurple ==> r@ == "Dark Purple (Default)"@,
            *self == ThemeType::Monotone ==> r@ == "Monotone"@,
            *self == ThemeType::HighContrast ==> r@ == "High Contrast"@,
    {
        match self {
            ThemeType::DarkPurple => "Dark Purple (Default)",
            ThemeType::Monotone => "Monotone",
            ThemeType::HighContrast => "High Contrast",
        }
    }
}

} // verus!
