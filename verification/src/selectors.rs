use vstd::prelude::*;

use crate::features::{FeatureId, FeatureSet};
use crate::options::{MapOptSelector, MapOptions};

verus! {

/// The interactive feature checklist: which features are requested for the
/// next run. Every alias it hands out is the canonical feature name.
pub struct FeatureSelector {
    selected_features: FeatureSet,
}

impl FeatureSelector {
    pub closed spec fn spec_selected(self) -> FeatureSet {
        self.selected_features
    }

    pub open spec fn wf(self) -> bool {
        self.spec_selected().wf()
    }

    /// The current selection.
    pub fn selected(&self) -> (s: &FeatureSet)
        ensures
            *s == self.spec_selected(),
    {
        &self.selected_features
    }

    /// The selected `(feature, alias)` pairs, in the deterministic
    /// declaration order of the identifiers.
    pub fn features_aliases(&self) -> (v: Vec<(FeatureId, String)>)
        ensures
            v@.map_values(|e: (FeatureId, String)| (e.0, e.1@)) == self.spec_selected().entry_view(),
    {
        self.selected_features.features_aliases()
    }

    /// Empty the selection.
    pub fn deselect_all(&mut self)
        ensures
            final(self).wf(),
            forall|f: FeatureId| !final(self).spec_selected().spec_contains(f),
    {
        self.selected_features = FeatureSet::empty();
    }

    /// Select every feature.
    pub fn select_all(&mut self)
        ensures
            final(self).wf(),
            forall|f: FeatureId| final(self).spec_selected().spec_contains(f),
    {
        self.selected_features = FeatureSet::all_features();
    }

    /// Flip one checkbox: `f` joins the selection if it was out, leaves it
    /// if it was in; every other feature's membership is kept.
    pub fn toggle(&mut self, f: FeatureId)
        requires
            old(self).wf(),
        ensures
            final(self).wf(),
            final(self).spec_selected().spec_contains(f) == !old(self).spec_selected()
                .spec_contains(f),
            forall|g: FeatureId|
                g != f ==> #[trigger] final(self).spec_selected().spec_contains(g) == old(
                    self,
                ).spec_selected().spec_contains(g),
    {
        self.selected_features = self.selected_features.toggled(f);
    }
}

impl Default for FeatureSelector {
    /// Every feature starts selected.
    fn default() -> (s: FeatureSelector)
        ensures
            s.wf(),
            forall|f: FeatureId| s.spec_selected().spec_contains(f),
    {
        FeatureSelector { selected_features: FeatureSet::all_features() }
    }
}

/// Copy the committed widget state into the options handed to the compute
/// collaborator: radius and bin count from the numeric fields, the feature
/// selection as it stands.
pub fn update_options(
    opts: &mut MapOptions,
    map_opts: &MapOptSelector,
    features: &FeatureSelector,
)
    requires
        features.wf(),
    ensures
        final(opts).spec_n_bins() == map_opts.spec_num_bins(),
        final(opts).spec_kernel_radius() == map_opts.spec_kernel_radius(),
        final(opts).spec_max_threads() is None,
        final(opts).spec_features().entry_view() == features.spec_selected().entry_view(),
        map_opts.spec_num_bins() >= 1 ==> final(opts).wf(),
{
    let set = features.selected().duplicate();
    proof {
        assert(set.ids() == features.spec_selected().ids());
        assert(set.wf());
    }
    *opts = MapOptions::from_selection(map_opts, set);
}

/// The input pickers: a volume path and an optional mask path, each only
/// held while the committed text names a file that exists.
pub struct InputSelector {
    volume_path: Option<String>,
    mask_path: Option<String>,
}

impl InputSelector {
    pub closed spec fn spec_volume_path(self) -> Option<Seq<char>> {
        match self.volume_path {
            Some(p) => Some(p@),
            None => None,
        }
    }

    pub closed spec fn spec_mask_path(self) -> Option<Seq<char>> {
        match self.mask_path {
            Some(p) => Some(p@),
            None => None,
        }
    }

    /// Commit a volume path entry: kept only if the file exists, else the
    /// selection is cleared.
    pub fn commit_volume_path(&mut self, path: String, exists: bool)
        ensures
            final(self).spec_volume_path() == (if exists {
                Some(path@)
            } else {
                Option::<Seq<char>>::None
            }),
            final(self).spec_mask_path() == old(self).spec_mask_path(),
    {
        if exists {
            self.volume_path = Some(path);
        } else {
            self.volume_path = None;
        }
    }

    /// Commit a mask path entry, under the same rule as the volume's.
    pub fn commit_mask_path(&mut self, path: String, exists: bool)
        ensures
            final(self).spec_mask_path() == (if exists {
                Some(path@)
            } else {
                Option::<Seq<char>>::None
            }),
            final(self).spec_volume_path() == old(self).spec_volume_path(),
    {
        if exists {
            self.mask_path = Some(path);
        } else {
            self.mask_path = None;
        }
    }

    /// Both inputs a launch needs are confirmed once a volume is selected;
    /// the mask stays optional.
    pub fn ready_to_launch(&self) -> (b: bool)
        ensures
            b == (self.spec_volume_path() is Some),
    {
        match &self.volume_path {
            Some(_) => true,
            None => false,
        }
    }

    pub fn volume_path(&self) -> (p: &Option<String>)
        ensures
            match *p {
                Some(s) => self.spec_volume_path() == Some(s@),
                None => self.spec_volume_path() is None,
            },
    {
        &self.volume_path
    }

    pub fn mask_path(&self) -> (p: &Option<String>)
        ensures
            match *p {
                Some(s) => self.spec_mask_path() == Some(s@),
                None => self.spec_mask_path() is None,
            },
    {
        &self.mask_path
    }

    /// Is a mask part of the next run?
    pub fn has_mask(&self) -> (b: bool)
        ensures
            b == (self.spec_mask_path() is Some),
    {
        match &self.mask_path {
            Some(_) => true,
            None => false,
        }
    }
}

impl Default for InputSelector {
    /// Nothing selected.
    fn default() -> (s: InputSelector)
        ensures
            s.spec_volume_path() is None,
            s.spec_mask_path() is None,
    {
        InputSelector { volume_path: None, mask_path: None }
    }
}

/// The output picker: the directory results are written into, held only
/// while the committed text names a directory that exists.
pub struct OutputSelector {
    output_dir: Option<String>,
}

impl OutputSelector {
    pub closed spec fn spec_output_dir(self) -> Option<Seq<char>> {
        match self.output_dir {
            Some(p) => Some(p@),
            None => None,
        }
    }

    /// Commit a directory entry: kept only if it exists.
    pub fn commit_output_dir(&mut self, path: String, exists: bool)
        ensures
            final(self).spec_output_dir() == (if exists {
                Some(path@)
            } else {
                Option::<Seq<char>>::None
            }),
    {
        if exists {
            self.output_dir = Some(path);
        } else {
            self.output_dir = None;
        }
    }

    /// May a pending result be handed to the write stage?
    pub fn confirmed(&self) -> (b: bool)
        ensures
            b == (self.spec_output_dir() is Some),
    {
        match &self.output_dir {
            Some(_) => true,
            None => false,
        }
    }

    pub fn output_dir(&self) -> (p: &Option<String>)
        ensures
            match *p {
                Some(s) => self.spec_output_dir() == Some(s@),
                None => self.spec_output_dir() is None,
            },
    {
        &self.output_dir
    }
}

impl Default for OutputSelector {
    /// No directory confirmed.
    fn default() -> (s: OutputSelector)
        ensures
            s.spec_output_dir() is None,
    {
        OutputSelector { output_dir: None }
    }
}

} // verus!
