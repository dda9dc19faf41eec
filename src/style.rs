use vstd::prelude::*;

verus! {

/// The visual skins a page can take. The order is the order in which the
/// four composited bitmaps are registered with the renderer, so a style's
/// `index` is the texture slot that holds its bitmap.
#[derive(Clone, Copy, Debug, PartialEq, Eq, Structural)]
pub enum PageStyle {
    WhiteSquared,
    WhitePlain,
    BeigeSquared,
    BeigePlain,
}

/// Number of styles, and so of textures registered per page.
pub const STYLE_COUNT: usize = 4;

/// Texture slot of a style.
pub open spec fn style_index(s: PageStyle) -> nat {
    match s {
        PageStyle::WhiteSquared => 0,
        PageStyle::WhitePlain => 1,
        PageStyle::BeigeSquared => 2,
        PageStyle::BeigePlain => 3,
    }
}

/// The style held in texture slot `i` (slots past the last wrap to the last style).
pub open spec fn style_at_spec(i: int) -> PageStyle {
    if i <= 0 {
        PageStyle::WhiteSquared
    } else if i == 1 {
        PageStyle::WhitePlain
    } else if i == 2 {
        PageStyle::BeigeSquared
    } else {
        PageStyle::BeigePlain
    }
}

/// Source asset of a style.
pub open spec fn style_path(s: PageStyle) -> Seq<char> {
    match s {
        PageStyle::WhiteSquared => "assets/white_squared.png"@,
        PageStyle::WhitePlain => "assets/white_plain.png"@,
        PageStyle::BeigeSquared => "assets/beige_squared.png"@,
        PageStyle::BeigePlain => "assets/beige_plain.png"@,
    }
}

impl PageStyle {
    /// Relative path of the spritesheet this style is tiled from.
    pub fn path(&self) -> (r: &'static str)
        ensures
            r@ == style_path(*self),
    {
        match *self {
            PageStyle::WhiteSquared => "assets/white_squared.png",
            PageStyle::WhitePlain => "assets/white_plain.png",
            PageStyle::BeigeSquared => "assets/beige_squared.png",
            PageStyle::BeigePlain => "assets/beige_plain.png",
        }
    }

    /// Texture slot of this style within the page's registered batch.
    pub fn index(&self) -> (r: usize)
        ensures
            r == style_index(*self),
            r < STYLE_COUNT,
    {
        match *self {
            PageStyle::WhiteSquared => 0,
            PageStyle::WhitePlain => 1,
            PageStyle::BeigeSquared => 2,
            PageStyle::BeigePlain => 3,
        }
    }

    /// The style held in texture slot `i`, for `i` below `STYLE_COUNT`.
    pub fn at(i: usize) -> (r: PageStyle)
        requires
            i < STYLE_COUNT,
        ensures
            r == style_at_spec(i as int),
            style_index(r) == i,
    {
        if i == 0 {
            PageStyle::WhiteSquared
        } else if i == 1 {
            PageStyle::WhitePlain
        } else if i == 2 {
            PageStyle::BeigeSquared
        } else {
            PageStyle::BeigePlain
        }
    }
}

/// Slots and styles are in one-to-one correspondence: each style's slot
/// holds that style, and each slot below `STYLE_COUNT` holds a style whose
/// slot it is. Distinct styles therefore never share a texture.
pub proof fn style_slots_correspond(s: PageStyle, i: int)
    ensures
        style_index(s) < STYLE_COUNT,
        style_at_spec(style_index(s) as int) == s,
        0 <= i < STYLE_COUNT ==> style_index(style_at_spec(i)) == i,
{
}

/// Each style has its own asset.
pub proof fn style_paths_distinct(a: PageStyle, b: PageStyle)
    ensures
        a != b ==> style_path(a) != style_path(b),
{
    reveal_strlit("assets/white_squared.png");
    reveal_strlit("assets/white_plain.png");
    reveal_strlit("assets/beige_squared.png");
    reveal_strlit("assets/beige_plain.png");
    if a != b {
        assert(style_path(a).len() != style_path(b).len() || style_path(a)[7] != style_path(b)[7]
            || style_path(a)[14] != style_path(b)[14] || style_path(a)[13] != style_path(b)[13]);
    }
}

} // verus!
