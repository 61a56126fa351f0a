use vstd::prelude::*;

verus! {

/// The frames of a sprite sheet that one animation cycles through, first and
/// last included.
#[derive(Clone, Copy, Debug, PartialEq, Eq, Structural)]
pub struct AnimationFrames {
    pub min_sprite: usize,
    pub max_sprite: usize,
}

impl AnimationFrames {
    /// The frame shown after `index`: the next one, or back to the first once
    /// the next would lie past the last.
    pub fn next_index(&self, index: usize) -> (r: usize)
        ensures
            r == if index + 1 > self.max_sprite { self.min_sprite as int } else { index + 1 },
    {
        if index >= self.max_sprite {
            self.min_sprite
        } else {
            index + 1
        }
    }
}

} // verus!
