//! The table that picks a composition style for an asset.

use crate::models::AssetCategory;
use vstd::prelude::*;

verus! {

/// The four composition presets.
#[derive(Debug, Clone, Copy, PartialEq, Eq, Structural)]
pub enum CompositionStyle {
    Electronic,
    Orchestral,
    Ambient,
    Rock,
}

impl CompositionStyle {
    /// The name under which the style is reported.
    pub open spec fn label(self) -> Seq<char> {
        match self {
            CompositionStyle::Electronic => "Electronic"@,
            CompositionStyle::Orchestral => "Orchestral"@,
            CompositionStyle::Ambient => "Ambient"@,
            CompositionStyle::Rock => "Rock"@,
        }
    }

    pub fn as_str(&self) -> (label: &'static str)
        ensures
            label@ == self.label(),
    {
        match self {
            CompositionStyle::Electronic => "Electronic",
            CompositionStyle::Orchestral => "Orchestral",
            CompositionStyle::Ambient => "Ambient",
            CompositionStyle::Rock => "Rock",
        }
    }
}

/// One style per category and volatility level.
#[derive(Debug, Clone, Copy, PartialEq, Eq, Structural)]
pub struct StylePalette {
    pub crypto_primary: CompositionStyle,
    pub crypto_alt: CompositionStyle,
    pub stock_primary: CompositionStyle,
    pub stock_alt: CompositionStyle,
}

impl StylePalette {
    /// The entry of the table for `category` at the given volatility level.
    ///
    /// A crypto asset plays its primary style when volatility is high; a
    /// stock plays its primary style when volatility is low.
    pub open spec fn lookup(self, category: AssetCategory, high_volatility: bool) -> CompositionStyle {
        match category {
            AssetCategory::Crypto => if high_volatility {
                self.crypto_primary
            } else {
                self.crypto_alt
            },
            AssetCategory::Stock => if high_volatility {
                self.stock_alt
            } else {
                self.stock_primary
            },
        }
    }

    /// The standard table.
    pub open spec fn standard() -> StylePalette {
        StylePalette {
            crypto_primary: CompositionStyle::Electronic,
            crypto_alt: CompositionStyle::Ambient,
            stock_primary: CompositionStyle::Orchestral,
            stock_alt: CompositionStyle::Rock,
        }
    }

    pub fn default() -> (palette: StylePalette)
        ensures
            palette == Self::standard(),
    {
        StylePalette {
            crypto_primary: CompositionStyle::Electronic,
            crypto_alt: CompositionStyle::Ambient,
            stock_primary: CompositionStyle::Orchestral,
            stock_alt: CompositionStyle::Rock,
        }
    }

    pub fn style_for_category(&self, category: AssetCategory, high_volatility: bool) -> (style:
        CompositionStyle)
        ensures
            style == self.lookup(category, high_volatility),
    {
        match category {
            AssetCategory::Crypto => {
                if high_volatility {
                    self.crypto_primary
                } else {
                    self.crypto_alt
                }
            },
            AssetCategory::Stock => {
                if high_volatility {
                    self.stock_alt
                } else {
                    self.stock_primary
                }
            },
        }
    }
}

/// With the standard table every combination of category and volatility
/// level plays a style of its own, so the style tells both apart.
pub proof fn standard_styles_are_distinct(
    a: AssetCategory,
    a_high: bool,
    b: AssetCategory,
    b_high: bool,
)
    ensures
        StylePalette::standard().lookup(a, a_high) == StylePalette::standard().lookup(b, b_high)
            <==> (a == b && a_high == b_high),
{
}

} // verus!
