use vstd::prelude::*;

verus! {

/// The largest width or height a playfield may have: large enough for any
/// screen, small enough that positions near the field stay far from the
/// limits of `i64`.
pub const FIELD_LIMIT: i64 = 0x100_0000_0000;

/// The visible playfield, centered on the origin.
#[derive(Clone, Copy, Debug, PartialEq, Eq, Structural)]
pub struct Playfield {
    pub width: i64,
    pub height: i64,
}

impl Playfield {
    pub open spec fn wf(self) -> bool {
        &&& 0 < self.width <= FIELD_LIMIT
        &&& 0 < self.height <= FIELD_LIMIT
    }

    /// The field of the given size, if both dimensions are positive and
    /// within `FIELD_LIMIT`.
    pub fn new(width: i64, height: i64) -> (r: Option<Playfield>)
        ensures
            r.is_some() <==> (0 < width <= FIELD_LIMIT && 0 < height <= FIELD_LIMIT),
            r matches Some(f) ==> f.width == width && f.height == height && f.wf(),
    {
        if 0 < width && width <= FIELD_LIMIT && 0 < height && height <= FIELD_LIMIT {
            Some(Playfield { width, height })
        } else {
            None
        }
    }

    pub open spec fn half_width(self) -> int {
        self.width / 2
    }

    pub open spec fn half_height(self) -> int {
        self.height / 2
    }
}

} // verus!
