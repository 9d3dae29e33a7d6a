//! The identity a cached line handle is stored under.

use vstd::prelude::*;
use crate::command::Direction;

verus! {

/// Identity of a claimed line: chip device name, pin offset on that
/// chip, and the direction the line is claimed for. Two keys are equal
/// exactly when all three fields are equal, so the same pin used in
/// both directions occupies two distinct cache entries.
pub struct ResourceKey {
    pub chip: String,
    pub pin: u32,
    pub dir: Direction,
}

impl View for ResourceKey {
    type V = (Seq<char>, u32, Direction);

    open spec fn view(&self) -> (Seq<char>, u32, Direction) {
        (self.chip@, self.pin, self.dir)
    }
}

impl ResourceKey {
    /// Build a key from its parts.
    pub fn new(chip: String, pin: u32, dir: Direction) -> (k: ResourceKey)
        ensures
            k@ == (chip@, pin, dir),
    {
        ResourceKey { chip, pin, dir }
    }

    /// Field-by-field equality, the equality the cache looks keys up by.
    pub fn key_eq(&self, other: &ResourceKey) -> (r: bool)
        ensures
            r == (self@ == other@),
    {
        self.chip == other.chip && self.pin == other.pin && self.dir == other.dir
    }

    /// An owned copy of the key.
    pub fn duplicate(&self) -> (k: ResourceKey)
        ensures
            k@ == self@,
    {
        ResourceKey { chip: self.chip.clone(), pin: self.pin, dir: self.dir }
    }
}

} // verus!
