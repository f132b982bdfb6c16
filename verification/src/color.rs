//! The color palette. Targets and the player's post-hit color are drawn from
//! a fixed 12-color palette; the player starts out green, which is not in the
//! palette.

use vstd::prelude::*;

verus! {

/// Number of palette entries a spawner may draw from.
pub const PALETTE_LEN: usize = 12;

/// Every color a sprite can carry: the player's initial green plus the
/// 12-entry palette used for targets and for recoloring the player on a hit.
#[derive(Clone, Copy, Debug, PartialEq, Eq, Structural)]
pub enum SpriteColor {
    Green,
    Gold,
    Crimson,
    Purple,
    Red,
    OrangeRed,
    Orange,
    Pink,
    Salmon,
    Tomato,
    LimeGreen,
    Blue,
    Yellow,
}

/// The palette entry at an index; indices at or past `PALETTE_LEN` fall back
/// to the first entry.
pub open spec fn spec_palette(i: int) -> SpriteColor {
    if i == 0 {
        SpriteColor::Gold
    } else if i == 1 {
        SpriteColor::Crimson
    } else if i == 2 {
        SpriteColor::Purple
    } else if i == 3 {
        SpriteColor::Red
    } else if i == 4 {
        SpriteColor::OrangeRed
    } else if i == 5 {
        SpriteColor::Orange
    } else if i == 6 {
        SpriteColor::Pink
    } else if i == 7 {
        SpriteColor::Salmon
    } else if i == 8 {
        SpriteColor::Tomato
    } else if i == 9 {
        SpriteColor::LimeGreen
    } else if i == 10 {
        SpriteColor::Blue
    } else {
        SpriteColor::Yellow
    }
}

/// A color the spawner may pick: any palette entry, so anything but green.
pub open spec fn in_palette(c: SpriteColor) -> bool {
    c != SpriteColor::Green
}

/// Look a palette entry up by index.
pub fn palette(i: usize) -> (c: SpriteColor)
    requires
        i < PALETTE_LEN,
    ensures
        c == spec_palette(i as int),
        in_palette(c),
{
    if i == 0 {
        SpriteColor::Gold
    } else if i == 1 {
        SpriteColor::Crimson
    } else if i == 2 {
        SpriteColor::Purple
    } else if i == 3 {
        SpriteColor::Red
    } else if i == 4 {
        SpriteColor::OrangeRed
    } else if i == 5 {
        SpriteColor::Orange
    } else if i == 6 {
        SpriteColor::Pink
    } else if i == 7 {
        SpriteColor::Salmon
    } else if i == 8 {
        SpriteColor::Tomato
    } else if i == 9 {
        SpriteColor::LimeGreen
    } else if i == 10 {
        SpriteColor::Blue
    } else {
        SpriteColor::Yellow
    }
}

} // verus!
