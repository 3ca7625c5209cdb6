//! The palette: which colour each tag stands for.

use crate::color::Color;
use std::collections::HashMap;
use vstd::prelude::*;

verus! {

broadcast use vstd::std_specs::hash::group_hash_axioms;

/// Number of tags a freshly made cell can carry: such tags lie in `0..TAG_COUNT`.
pub const TAG_COUNT: i32 = 5;

/// The built-in palette. It has an entry for every tag in `0..=5`, one more than fresh cells use.
pub open spec fn default_palette() -> Map<i32, Color> {
    Map::empty()
        .insert(0i32, Color::white())
        .insert(1i32, Color::black())
        .insert(2i32, Color::rgb(66, 135, 245))
        .insert(3i32, Color::rgb(217, 53, 24))
        .insert(4i32, Color::rgb(13, 219, 58))
        .insert(5i32, Color::rgb(252, 252, 38))
}

/// The colour that `tag` stands for in `palette`: its entry, or black where it has none.
pub open spec fn resolve(palette: Map<i32, Color>, tag: i32) -> Color {
    if palette.contains_key(tag) {
        palette[tag]
    } else {
        Color::black()
    }
}

/// Builds the built-in palette.
pub fn build_default_palette() -> (palette: HashMap<i32, Color>)
    ensures
        palette@ == default_palette(),
{
    let mut palette: HashMap<i32, Color> = HashMap::new();
    palette.insert(0, Color::from_rgb(255, 255, 255));
    palette.insert(1, Color::from_rgb(0, 0, 0));
    palette.insert(2, Color::from_rgb(66, 135, 245));
    palette.insert(3, Color::from_rgb(217, 53, 24));
    palette.insert(4, Color::from_rgb(13, 219, 58));
    palette.insert(5, Color::from_rgb(252, 252, 38));
    palette
}

/// Looks `tag` up in `palette`, falling back to black when the palette has no entry for it.
pub fn lookup(palette: &HashMap<i32, Color>, tag: i32) -> (color: Color)
    ensures
        color == resolve(palette@, tag),
{
    match palette.get(&tag) {
        Some(color) => *color,
        None => Color::from_rgb(0, 0, 0),
    }
}

/// The built-in palette has an entry for every tag a freshly made cell can carry, so resolving
/// such a tag never falls back to black for want of an entry.
pub proof fn lemma_default_palette_complete(tag: i32)
    requires
        0 <= tag < TAG_COUNT,
    ensures
        default_palette().contains_key(tag),
        resolve(default_palette(), tag) == default_palette()[tag],
{
}

} // verus!
