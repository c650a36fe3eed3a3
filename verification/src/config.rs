use vstd::prelude::*;

verus! {

/// The immutable bundle of parameters handed to the cascade detector on
/// every invocation, with the documented defaults spelled out as named
/// fields rather than inline literals.
///
/// The scale factor is the shrink ratio applied to the search window
/// between successive passes over the image pyramid. It is a little above
/// one, so it is kept in tenths (14 stands for a factor of 1.4) and the
/// library stays in integer arithmetic; a driver converts it to whatever
/// form its detector wants.
#[derive(Clone, Copy, PartialEq, Eq, Structural, Debug)]
pub struct DetectorConfig {
    /// Shrink ratio between successive detection passes, in tenths.
    pub scale_factor_tenths: u32,
    /// Vote threshold: how many overlapping raw candidates must agree
    /// before they are merged and reported as one confirmed region.
    pub min_neighbors: u32,
    /// Ask the detector to scale the image into a pyramid rather than
    /// scaling its features.
    pub scale_image: bool,
    /// Width of the smallest region worth reporting, in pixels.
    pub min_width: u32,
    /// Height of the smallest region worth reporting, in pixels.
    pub min_height: u32,
    /// Width of the largest region worth reporting; zero means unbounded.
    pub max_width: u32,
    /// Height of the largest region worth reporting; zero means unbounded.
    pub max_height: u32,
}

impl DetectorConfig {
    /// A meaningful configuration shrinks the search window between
    /// passes, so the factor lies strictly above one.
    pub open spec fn wf(self) -> bool {
        self.scale_factor_tenths > 10
    }
}

impl Default for DetectorConfig {
    /// The stock configuration: scale factor 1.4, two agreeing neighbors,
    /// pyramid scaling, regions no smaller than 10 by 10 pixels and no
    /// upper size bound.
    fn default() -> (c: Self)
        ensures
            c.scale_factor_tenths == 14,
            c.min_neighbors == 2,
            c.scale_image,
            c.min_width == 10,
            c.min_height == 10,
            c.max_width == 0,
            c.max_height == 0,
            c.wf(),
    {
        DetectorConfig {
            scale_factor_tenths: 14,
            min_neighbors: 2,
            scale_image: true,
            min_width: 10,
            min_height: 10,
            max_width: 0,
            max_height: 0,
        }
    }
}

} // verus!
