//! Choosing the class of a terminal point from its distances to the attractors.
use vstd::prelude::*;

verus! {

/// `r` is the first index at which `keys` takes its least value.
pub open spec fn is_first_nearest(keys: Seq<u64>, r: int) -> bool {
    &&& 0 <= r < keys.len()
    &&& forall|j: int| 0 <= j < keys.len() ==> keys[r] <= #[trigger] keys[j]
    &&& forall|j: int| 0 <= j < r ==> keys[r] < #[trigger] keys[j]
}

/// There is one first nearest index: the choice among equal keys is fixed.
pub proof fn lemma_first_nearest_unique(keys: Seq<u64>, r1: int, r2: int)
    requires
        is_first_nearest(keys, r1),
        is_first_nearest(keys, r2),
    ensures
        r1 == r2,
{
    if r1 < r2 {
        assert(keys[r2] < keys[r1]);
        assert(keys[r1] <= keys[r2]);
    } else if r2 < r1 {
        assert(keys[r1] < keys[r2]);
        assert(keys[r2] <= keys[r1]);
    }
}

/// Index of the nearest attractor, given one distance key per attractor in
/// attractor order. Keys order as the distances do; of equal keys the lowest
/// index wins.
pub fn nearest_index(keys: &Vec<u64>) -> (r: usize)
    requires
        keys@.len() > 0,
    ensures
        is_first_nearest(keys@, r as int),
{
    let mut best: usize = 0;
    let mut i: usize = 1;
    while i < keys.len()
        invariant
            1 <= i <= keys@.len(),
            best < i,
            forall|j: int| 0 <= j < i ==> keys@[best as int] <= #[trigger] keys@[j],
            forall|j: int| 0 <= j < best ==> keys@[best as int] < #[trigger] keys@[j],
        decreases keys@.len() - i,
    {
        if keys[i] < keys[best] {
            best = i;
        }
        i = i + 1;
    }
    best
}

/// An 8-bit RGB colour.
#[derive(Clone, Copy, Debug, PartialEq, Eq, Structural)]
pub struct Color {
    pub r: u8,
    pub g: u8,
    pub b: u8,
}

/// The colour of a class index: white and black for the first two
/// attractors, blue and yellow for the next two, white for the spare index
/// four, black for anything else.
pub open spec fn palette(class: int) -> Color {
    if class == 0 {
        Color { r: 255, g: 255, b: 255 }
    } else if class == 1 {
        Color { r: 0, g: 0, b: 0 }
    } else if class == 2 {
        Color { r: 0, g: 0, b: 255 }
    } else if class == 3 {
        Color { r: 255, g: 255, b: 0 }
    } else if class == 4 {
        Color { r: 255, g: 255, b: 255 }
    } else {
        Color { r: 0, g: 0, b: 0 }
    }
}

/// Looks up the colour of a class index.
pub fn class_color(class: usize) -> (c: Color)
    ensures
        c == palette(class as int),
{
    match class {
        0 => Color { r: 255, g: 255, b: 255 },
        1 => Color { r: 0, g: 0, b: 0 },
        2 => Color { r: 0, g: 0, b: 255 },
        3 => Color { r: 255, g: 255, b: 0 },
        4 => Color { r: 255, g: 255, b: 255 },
        _ => Color { r: 0, g: 0, b: 0 },
    }
}

} // verus!
