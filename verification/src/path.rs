//! The walk of a light path through its bounces.
//!
//! A path starts with a depth: the number of surfaces it may still meet.
//! With no depth left it carries no light. Otherwise the scene is asked for
//! the nearest surface along the ray: where there is none the path ends in
//! the sky, and where there is one it is scattered there and goes on with one
//! less.

use vstd::prelude::*;
use crate::nearest::Hit;

verus! {

/// What a path does next.
#[derive(Clone, Copy, PartialEq, Eq, Structural, Debug)]
pub enum Step {
    /// The depth is used up: the path ends and carries no light.
    Black,
    /// The ray leaves the scene: the path ends with the colour of the sky.
    Sky,
    /// The ray meets a surface: the path takes up what the surface emits and
    /// goes on, scattered, with the depth that is left.
    Bounce { hit: Hit, depth: usize },
}

/// The step of a path with `depth` left, given the nearest surface along its
/// ray. With no depth left the scene is not looked at.
pub open spec fn step_of(depth: usize, found: Option<Hit>) -> Step {
    if depth == 0 {
        Step::Black
    } else {
        match found {
            None => Step::Sky,
            Some(hit) => Step::Bounce { hit, depth: (depth - 1) as usize },
        }
    }
}

/// The depth that is left after a step: none once the path has ended.
pub open spec fn depth_after(step: Step) -> usize {
    match step {
        Step::Bounce { hit, depth } => depth,
        _ => 0,
    }
}

/// How many bounces a path of the given depth makes when the scene answers
/// with `found`, one answer for each time it is asked.
pub open spec fn bounces(depth: usize, found: Seq<Option<Hit>>) -> nat
    decreases found.len(),
{
    if found.len() == 0 {
        0
    } else {
        match step_of(depth, found[0]) {
            Step::Bounce { hit, depth } => 1 + bounces(depth, found.skip(1)),
            _ => 0,
        }
    }
}

/// A light path on its way.
#[derive(Clone, Copy, PartialEq, Eq, Structural, Debug)]
pub struct Path {
    pub depth: usize,
}

impl Path {
    /// A path that may meet `depth` surfaces.
    pub fn begin(depth: usize) -> (r: Path)
        ensures
            r.depth == depth,
    {
        Path { depth }
    }

    /// Whether the path has ended for want of depth, so that the scene need
    /// not be asked.
    pub fn is_spent(&self) -> (r: bool)
        ensures
            r == (self.depth == 0),
    {
        self.depth == 0
    }

    /// Takes the next step, given the nearest surface along the ray.
    pub fn advance(&mut self, found: Option<Hit>) -> (r: Step)
        ensures
            r == step_of(old(self).depth, found),
            final(self).depth == depth_after(r),
            final(self).depth < old(self).depth || old(self).depth == 0,
    {
        if self.depth == 0 {
            return Step::Black;
        }
        match found {
            None => {
                self.depth = 0;
                Step::Sky
            },
            Some(hit) => {
                self.depth = self.depth - 1;
                Step::Bounce { hit, depth: self.depth }
            },
        }
    }
}

/// A path never makes more bounces than its depth, whatever the scene
/// answers.
pub proof fn bounces_within_depth(depth: usize, found: Seq<Option<Hit>>)
    ensures
        bounces(depth, found) <= depth,
    decreases found.len(),
{
    if found.len() > 0 {
        match step_of(depth, found[0]) {
            Step::Bounce { hit, depth } => {
                bounces_within_depth(depth, found.skip(1));
            },
            _ => {},
        }
    }
}

/// A path of depth one that meets a surface bounces there once and then
/// ends carrying no light: what comes back along it is what the surface
/// itself emits.
pub proof fn single_bounce(hit: Hit, after: Option<Hit>)
    ensures
        step_of(1, Some(hit)) == (Step::Bounce { hit, depth: 0 }),
        step_of(0, after) == Step::Black,
{
}

} // verus!
