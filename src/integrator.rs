use vstd::prelude::*;

use crate::color::Color;

verus! {

/// What the scene does with the ray of one bounce of a light path.
pub enum Bounce {
    /// The ray hits no object: the background lights the path.
    Miss,
    /// The ray hits an object whose material absorbs it.
    Absorbed,
    /// The ray hits an object and leaves it again; `attenuation` is the
    /// fraction of light, out of the channel maximum, that the surface lets
    /// through.
    Scattered(Color),
}

/// How a light path ends.
pub enum PathEnd {
    /// No light comes back along the path.
    Dark,
    /// The background is seen through the surfaces that the path met; their
    /// attenuations are given nearest first.
    Background(Vec<Color>),
}

/// One step of a light path.
pub enum Step {
    /// The path goes on: the scattered ray is to be traced next.
    Next(LightPath),
    /// The path has ended.
    End(PathEnd),
}

/// A light path being traced from the camera: how many more bounces may be
/// traced, and the attenuations of the surfaces met so far, nearest first.
pub struct LightPath {
    budget: usize,
    attenuations: Vec<Color>,
}

impl LightPath {
    /// Number of bounces that may still be traced.
    pub closed spec fn budget(&self) -> nat {
        self.budget as nat
    }

    /// Attenuations of the surfaces met so far, nearest first.
    pub closed spec fn attenuations(&self) -> Seq<Color> {
        self.attenuations@
    }

    /// A path that may trace `depth` bounces and has met no surface yet.
    pub fn new(depth: usize) -> (p: LightPath)
        ensures
            p.budget() == depth,
            p.attenuations() == Seq::<Color>::empty(),
    {
        LightPath { budget: depth, attenuations: Vec::new() }
    }

    /// Whether no bounce may be traced any more: the path then ends dark.
    pub fn is_spent(&self) -> (r: bool)
        ensures
            r == (self.budget() == 0),
    {
        self.budget == 0
    }

    /// Takes in what the scene did with the ray of the current bounce: a miss
    /// ends the path with the background seen through the surfaces met, an
    /// absorption ends it dark, and a scatter adds the surface's attenuation
    /// and uses up one bounce.
    pub fn record(self, b: Bounce) -> (s: Step)
        requires
            self.budget() > 0,
        ensures
            b is Miss ==> (s matches Step::End(PathEnd::Background(a)) && a@ == self.attenuations()),
            b is Absorbed ==> (s matches Step::End(PathEnd::Dark)),
            b matches Bounce::Scattered(c) ==> (s matches Step::Next(p) && p.budget() == self.budget() - 1
                && p.attenuations() == self.attenuations().push(c)),
    {
        match b {
            Bounce::Miss => Step::End(PathEnd::Background(self.attenuations)),
            Bounce::Absorbed => Step::End(PathEnd::Dark),
            Bounce::Scattered(c) => {
                let mut attenuations = self.attenuations;
                attenuations.push(c);
                Step::Next(LightPath { budget: self.budget - 1, attenuations })
            },
        }
    }
}

} // verus!
