use vstd::prelude::*;

verus! {

/// An 8-bit RGBA color.
#[derive(Clone, Copy, Debug, PartialEq, Eq, Structural)]
pub struct Color {
    pub r: u8,
    pub g: u8,
    pub b: u8,
    pub a: u8,
}

/// Which of the keys that steer the brush are held down in this frame.
#[derive(Clone, Copy, Debug, PartialEq, Eq, Structural)]
pub struct BrushKeys {
    /// `1`: purple.
    pub key1: bool,
    /// `2`: navy.
    pub key2: bool,
    /// `3`: dark green.
    pub key3: bool,
    /// `,`: more transparent.
    pub comma: bool,
    /// `.`: more opaque.
    pub period: bool,
    /// `9`: smaller brush.
    pub key9: bool,
    /// `0`: larger brush.
    pub key0: bool,
}

/// The brush: its color, its size in pixels and the alpha that the color
/// keys and the transparency keys apply.
#[derive(Clone, Copy, Debug, PartialEq, Eq, Structural)]
pub struct Brush {
    pub color: Color,
    pub size: i32,
    pub alpha: u8,
}

/// Smallest brush size.
pub const MIN_BRUSH_SIZE: i32 = 1;

/// Largest brush size.
pub const MAX_BRUSH_SIZE: i32 = 50;

/// How much one frame with a transparency key held changes the alpha.
pub const ALPHA_STEP: u8 = 5;

/// The alpha goes down only while it is above this value.
pub const ALPHA_FLOOR: u8 = 5;

/// The alpha goes up only while it is below this value.
pub const ALPHA_CEILING: u8 = 250;

pub open spec fn rgba(r: u8, g: u8, b: u8, a: u8) -> Color {
    Color { r, g, b, a }
}

/// The color that the color keys select, `1` before `2` before `3`, with the
/// alpha `alpha`; the current color when none of them is held.
pub open spec fn selected_color(current: Color, alpha: u8, keys: BrushKeys) -> Color {
    if keys.key1 {
        rgba(128, 0, 128, alpha)
    } else if keys.key2 {
        rgba(0, 0, 125, alpha)
    } else if keys.key3 {
        rgba(17, 49, 12, alpha)
    } else {
        current
    }
}

/// The alpha after one frame: `,` lowers it by a step while it stays above
/// the floor, else `.` raises it by a step while it is below the ceiling.
pub open spec fn next_alpha(alpha: u8, keys: BrushKeys) -> u8 {
    if keys.comma {
        if alpha > ALPHA_FLOOR { (alpha - ALPHA_STEP) as u8 } else { alpha }
    } else if keys.period {
        if alpha < ALPHA_CEILING { (alpha + ALPHA_STEP) as u8 } else { alpha }
    } else {
        alpha
    }
}

/// `x` brought into `[lo, hi]`.
pub open spec fn clamp_int(x: int, lo: int, hi: int) -> int {
    if x < lo { lo } else if x > hi { hi } else { x }
}

/// The brush size after one frame: `9` shrinks it by one, else `0` grows it
/// by one, and either way it is brought into the allowed sizes.
pub open spec fn next_size(size: i32, keys: BrushKeys) -> int {
    if keys.key9 {
        clamp_int(size - 1, MIN_BRUSH_SIZE as int, MAX_BRUSH_SIZE as int)
    } else if keys.key0 {
        clamp_int(size + 1, MIN_BRUSH_SIZE as int, MAX_BRUSH_SIZE as int)
    } else {
        size as int
    }
}

/// Whether the size change of one frame stays within `i32` before it is clamped.
pub open spec fn size_step_fits(size: i32, keys: BrushKeys) -> bool {
    &&& keys.key9 ==> size > i32::MIN
    &&& (!keys.key9 && keys.key0) ==> size < i32::MAX
}

/// The brush after one frame in which `keys` are held.
pub open spec fn next_brush(b: Brush, keys: BrushKeys) -> Brush {
    let picked = selected_color(b.color, b.alpha, keys);
    let alpha = next_alpha(b.alpha, keys);
    let color = if keys.comma || keys.period {
        rgba(picked.r, picked.g, picked.b, alpha)
    } else {
        picked
    };
    Brush { color, size: next_size(b.size, keys) as i32, alpha }
}

/// The brush the program starts with: opaque red, size 10, alpha 16.
pub open spec fn initial_brush() -> Brush {
    Brush { color: rgba(255, 0, 0, 255), size: 10, alpha: 16 }
}

/// What holds of every brush that the program reaches from its first one:
/// the size lies within the allowed sizes, and the alpha is one of
/// 1, 6, 11, ..., 251.
pub open spec fn reachable(b: Brush) -> bool {
    &&& MIN_BRUSH_SIZE <= b.size <= MAX_BRUSH_SIZE
    &&& 1 <= b.alpha <= 251
    &&& b.alpha % 5 == 1
}

/// `x` brought into `[lo, hi]`, as `Ord::clamp` does.
fn clamp_i32(x: i32, lo: i32, hi: i32) -> (r: i32)
    requires
        lo <= hi,
    ensures
        r == clamp_int(x as int, lo as int, hi as int),
{
    if x < lo {
        lo
    } else if x > hi {
        hi
    } else {
        x
    }
}

impl Brush {
    /// The brush the program starts with: opaque red, size 10, alpha 16.
    pub fn initial() -> (b: Brush)
        ensures
            b == initial_brush(),
            reachable(b),
    {
        Brush { color: Color { r: 255, g: 0, b: 0, a: 255 }, size: 10, alpha: 16 }
    }

    /// Applies the keys held in one frame to the brush.
    pub fn apply_keys(&mut self, keys: BrushKeys)
        requires
            size_step_fits(old(self).size, keys),
        ensures
            *final(self) == next_brush(*old(self), keys),
            keys.comma && old(self).alpha > 5 ==> final(self).alpha == old(self).alpha - 5,
            !keys.comma && keys.period && old(self).alpha < 250 ==> final(self).alpha == old(self).alpha + 5,
            keys.key1 && !keys.comma && !keys.period ==> final(self).color == (Color {
                r: 128,
                g: 0,
                b: 128,
                a: old(self).alpha,
            }),
            !keys.key1 && keys.key2 && !keys.comma && !keys.period ==> final(self).color == (
            Color { r: 0, g: 0, b: 125, a: old(self).alpha }),
            !keys.key1 && !keys.key2 && keys.key3 && !keys.comma && !keys.period ==> final(self).color == (Color { r: 17, g: 49, b: 12, a: old(self).alpha }),
            keys.key9 && 1 < old(self).size <= 50 ==> final(self).size == old(self).size - 1,
            !keys.key9 && keys.key0 && 1 <= old(self).size < 50 ==> final(self).size == old(self).size + 1,
    {
        if keys.key1 {
            self.color = Color { r: 128, g: 0, b: 128, a: self.alpha };
        } else if keys.key2 {
            self.color = Color { r: 0, g: 0, b: 125, a: self.alpha };
        } else if keys.key3 {
            self.color = Color { r: 17, g: 49, b: 12, a: self.alpha };
        }
        if keys.comma {
            if self.alpha > ALPHA_FLOOR {
                self.alpha = self.alpha - ALPHA_STEP;
            }
            self.color = Color { r: self.color.r, g: self.color.g, b: self.color.b, a: self.alpha };
        } else if keys.period {
            if self.alpha < ALPHA_CEILING {
                self.alpha = self.alpha + ALPHA_STEP;
            }
            self.color = Color { r: self.color.r, g: self.color.g, b: self.color.b, a: self.alpha };
        }
        if keys.key9 {
            self.size = clamp_i32(self.size - 1, MIN_BRUSH_SIZE, MAX_BRUSH_SIZE);
        } else if keys.key0 {
            self.size = clamp_i32(self.size + 1, MIN_BRUSH_SIZE, MAX_BRUSH_SIZE);
        }
    }
}

/// Every frame keeps the brush among those the program can reach: the size
/// never leaves `[1, 50]` and the alpha never leaves 1, 6, ..., 251, whatever
/// keys are held.
pub proof fn lemma_brush_stays_reachable(b: Brush, keys: BrushKeys)
    requires
        reachable(b),
    ensures
        size_step_fits(b.size, keys),
        reachable(next_brush(b, keys)),
{
}

/// A brush key always leaves the size within the allowed sizes, whatever
/// size the brush had.
pub proof fn lemma_size_key_clamps(b: Brush, keys: BrushKeys)
    requires
        keys.key9 || keys.key0,
        size_step_fits(b.size, keys),
    ensures
        MIN_BRUSH_SIZE <= next_brush(b, keys).size <= MAX_BRUSH_SIZE,
{
}

/// After a frame with a transparency key held, the color carries the
/// brush's alpha.
pub proof fn lemma_transparency_key_sets_color_alpha(b: Brush, keys: BrushKeys)
    requires
        keys.comma || keys.period,
    ensures
        next_brush(b, keys).color.a == next_brush(b, keys).alpha,
{
}

/// The transparency keys move the alpha by one step: `,` lowers an alpha above
/// the floor by exactly 5, and `.` without `,` raises an alpha below the
/// ceiling by exactly 5; either way the color takes the new alpha and keeps
/// its red, green and blue.
pub proof fn lemma_transparency_keys_step_alpha(b: Brush, keys: BrushKeys)
    ensures
        keys.comma && b.alpha > 5 ==> next_brush(b, keys).alpha == b.alpha - 5,
        keys.comma && b.alpha <= 5 ==> next_brush(b, keys).alpha == b.alpha,
        !keys.comma && keys.period && b.alpha < 250 ==> next_brush(b, keys).alpha == b.alpha + 5,
        !keys.comma && keys.period && b.alpha >= 250 ==> next_brush(b, keys).alpha == b.alpha,
        !keys.comma && !keys.period ==> next_brush(b, keys).alpha == b.alpha,
        (keys.comma || keys.period) ==> next_brush(b, keys).color.a == next_brush(b, keys).alpha,
{
}

/// The color keys pick their presets, `1` before `2` before `3`, with the
/// alpha the brush had before the frame; a transparency key held in the same
/// frame then gives the preset the new alpha.
pub proof fn lemma_color_keys_pick_presets(b: Brush, keys: BrushKeys)
    ensures
        keys.key1 && !keys.comma && !keys.period ==> next_brush(b, keys).color == (Color {
            r: 128,
            g: 0,
            b: 128,
            a: b.alpha,
        }),
        !keys.key1 && keys.key2 && !keys.comma && !keys.period ==> next_brush(b, keys).color == (
        Color { r: 0, g: 0, b: 125, a: b.alpha }),
        !keys.key1 && !keys.key2 && keys.key3 && !keys.comma && !keys.period ==> next_brush(
            b,
            keys,
        ).color == (Color { r: 17, g: 49, b: 12, a: b.alpha }),
        keys.key1 && (keys.comma || keys.period) ==> next_brush(b, keys).color == (Color {
            r: 128,
            g: 0,
            b: 128,
            a: next_brush(b, keys).alpha,
        }),
        !keys.key1 && !keys.key2 && !keys.key3 ==> next_brush(b, keys).color.r == b.color.r
            && next_brush(b, keys).color.g == b.color.g && next_brush(b, keys).color.b
            == b.color.b,
        !keys.key1 && !keys.key2 && !keys.key3 && !keys.comma && !keys.period ==> next_brush(
            b,
            keys,
        ).color == b.color,
{
}

/// The size keys move a size inside the allowed sizes by exactly one: `9`
/// shrinks any size above 1 by one, and `0` without `9` grows any size below
/// 50 by one; with neither key the size stays.
pub proof fn lemma_size_keys_step_size(b: Brush, keys: BrushKeys)
    ensures
        keys.key9 && 1 < b.size <= 50 ==> next_brush(b, keys).size == b.size - 1,
        keys.key9 && b.size == 1 ==> next_brush(b, keys).size == 1,
        !keys.key9 && keys.key0 && 1 <= b.size < 50 ==> next_brush(b, keys).size == b.size + 1,
        !keys.key9 && keys.key0 && b.size == 50 ==> next_brush(b, keys).size == 50,
        !keys.key9 && !keys.key0 ==> next_brush(b, keys).size == b.size,
{
}

/// A frame with none of the brush keys held leaves the brush as it was.
pub proof fn lemma_no_keys_no_change(b: Brush, keys: BrushKeys)
    requires
        !keys.key1 && !keys.key2 && !keys.key3 && !keys.comma && !keys.period && !keys.key9
            && !keys.key0,
    ensures
        next_brush(b, keys) == b,
{
}

} // verus!
