use vstd::prelude::*;

use crate::errors::PipelineError;
use crate::features::FeatureSet;

verus! {

/// Magnitude of a signed entry; the front ends accept a sign and drop it.
pub open spec fn spec_magnitude(r: int) -> int {
    if r >= 0 {
        r
    } else {
        -r
    }
}

/// The numeric options of the interactive front end, with the deferred
/// validation it applies when a text entry loses focus: an unparsable entry
/// leaves the old value standing, a zero radius falls back to 1, a bin
/// count under 1 falls back to 4, and a sign is dropped.
pub struct MapOptSelector {
    kernel_radius: usize,
    num_bins: usize,
}

impl MapOptSelector {
    pub closed spec fn spec_kernel_radius(self) -> usize {
        self.kernel_radius
    }

    pub closed spec fn spec_num_bins(self) -> usize {
        self.num_bins
    }

    pub fn kernel_radius(&self) -> (r: usize)
        ensures
            r == self.spec_kernel_radius(),
    {
        self.kernel_radius
    }

    pub fn num_bins(&self) -> (r: usize)
        ensures
            r == self.spec_num_bins(),
    {
        self.num_bins
    }

    /// A committed radius entry: `None` (unparsable) keeps the old value,
    /// zero falls back to 1, and a negative entry counts by magnitude.
    pub fn apply_kernel_radius_entry(&mut self, parsed: Option<i32>)
        ensures
            final(self).spec_num_bins() == old(self).spec_num_bins(),
            final(self).spec_kernel_radius() == match parsed {
                Some(r) => if r == 0 {
                    1int
                } else {
                    spec_magnitude(r as int)
                },
                None => old(self).spec_kernel_radius() as int,
            },
    {
        match parsed {
            Some(r) => {
                if r == 0 {
                    self.kernel_radius = 1;
                } else if r >= 0 {
                    self.kernel_radius = r as usize;
                } else {
                    let wide: i64 = r as i64;
                    self.kernel_radius = (-wide) as usize;
                }
            }
            None => {}
        }
    }

    /// A committed bin-count entry: `None` keeps the old value, an entry
    /// under 1 falls back to 4.
    pub fn apply_num_bins_entry(&mut self, parsed: Option<i32>)
        ensures
            final(self).spec_kernel_radius() == old(self).spec_kernel_radius(),
            final(self).spec_num_bins() == match parsed {
                Some(b) => if b < 1 {
                    4int
                } else {
                    b as int
                },
                None => old(self).spec_num_bins() as int,
            },
    {
        match parsed {
            Some(b) => {
                if b < 1 {
                    self.num_bins = 4;
                } else {
                    self.num_bins = b as usize;
                }
            }
            None => {}
        }
    }
}

impl Default for MapOptSelector {
    /// Radius 1, 32 bins.
    fn default() -> (s: MapOptSelector)
        ensures
            s.spec_kernel_radius() == 1,
            s.spec_num_bins() == 32,
    {
        MapOptSelector { kernel_radius: 1, num_bins: 32 }
    }
}

/// Everything the compute collaborator is configured with for one run.
pub struct MapOptions {
    n_bins: usize,
    kernel_radius: usize,
    max_threads: Option<usize>,
    features: FeatureSet,
}

impl MapOptions {
    pub closed spec fn spec_n_bins(self) -> usize {
        self.n_bins
    }

    pub closed spec fn spec_kernel_radius(self) -> usize {
        self.kernel_radius
    }

    pub closed spec fn spec_max_threads(self) -> Option<usize> {
        self.max_threads
    }

    pub closed spec fn spec_features(self) -> FeatureSet {
        self.features
    }

    /// The bin count is positive and the feature set well formed.
    pub open spec fn wf(self) -> bool {
        &&& self.spec_n_bins() >= 1
        &&& self.spec_features().wf()
    }

    /// Assemble options as the command line does: a missing bin count means
    /// 32, a missing radius means 1, a signed radius counts by magnitude.
    /// A bin count of zero is refused before anything is loaded.
    pub fn from_cli(
        n_bins: Option<usize>,
        kernel_radius: Option<i32>,
        max_threads: Option<usize>,
        features: FeatureSet,
    ) -> (r: Result<MapOptions, PipelineError>)
        requires
            features.wf(),
        ensures
            match r {
                Ok(o) => {
                    &&& o.wf()
                    &&& o.spec_n_bins() == match n_bins {
                        Some(b) => b as int,
                        None => 32int,
                    }
                    &&& o.spec_kernel_radius() == match kernel_radius {
                        Some(kr) => spec_magnitude(kr as int),
                        None => 1int,
                    }
                    &&& o.spec_max_threads() == max_threads
                    &&& o.spec_features() == features
                    &&& !(n_bins == Some(0usize))
                },
                Err(e) => {
                    &&& e is InvalidInput
                    &&& n_bins == Some(0usize)
                },
            },
    {
        let bins: usize = match n_bins {
            Some(b) => {
                if b == 0 {
                    return Err(
                        PipelineError::InvalidInput("the bin count must be positive".to_owned()),
                    );
                }
                b
            }
            None => 32,
        };
        let radius: usize = match kernel_radius {
            Some(kr) => {
                if kr >= 0 {
                    kr as usize
                } else {
                    let wide: i64 = kr as i64;
                    (-wide) as usize
                }
            }
            None => 1,
        };
        Ok(MapOptions { n_bins: bins, kernel_radius: radius, max_threads, features })
    }

    /// Options for one interactive run, taken from the widgets' committed
    /// state; internal parallelism is left to the collaborator.
    pub fn from_selection(selector: &MapOptSelector, features: FeatureSet) -> (o: MapOptions)
        requires
            features.wf(),
        ensures
            o.spec_n_bins() == selector.spec_num_bins(),
            o.spec_kernel_radius() == selector.spec_kernel_radius(),
            o.spec_max_threads() is None,
            o.spec_features() == features,
            selector.spec_num_bins() >= 1 ==> o.wf(),
    {
        MapOptions {
            n_bins: selector.num_bins(),
            kernel_radius: selector.kernel_radius(),
            max_threads: None,
            features,
        }
    }

    pub fn n_bins(&self) -> (r: usize)
        ensures
            r == self.spec_n_bins(),
    {
        self.n_bins
    }

    pub fn kernel_radius(&self) -> (r: usize)
        ensures
            r == self.spec_kernel_radius(),
    {
        self.kernel_radius
    }

    pub fn max_threads(&self) -> (r: Option<usize>)
        ensures
            r == self.spec_max_threads(),
    {
        self.max_threads
    }

    pub fn features(&self) -> (r: &FeatureSet)
        ensures
            *r == self.spec_features(),
    {
        &self.features
    }
}

} // verus!
