use vstd::prelude::*;
use vstd::string::StringSliceAdditionalSpecFns;
use vstd::utf8::decode_utf8;

use crate::errors::PipelineError;

verus! {

/// How many distinct features the compute collaborator offers.
pub const FEATURE_COUNT: usize = 8;

/// One scalar texture statistic derived from a neighborhood co-occurrence
/// histogram. The collaborator's results buffer holds one contiguous block
/// per requested feature, addressed by `index`.
#[derive(Clone, Copy, Debug, PartialEq, Eq, Structural)]
pub enum FeatureId {
    Energy,
    Entropy,
    Contrast,
    Homogeneity,
    Correlation,
    Dissimilarity,
    ClusterShade,
    ClusterProminence,
}

impl FeatureId {
    /// Position of this feature among all features, and of its block in a
    /// results buffer that holds every requested feature in declaration
    /// order.
    pub open spec fn spec_index(self) -> int {
        match self {
            FeatureId::Energy => 0,
            FeatureId::Entropy => 1,
            FeatureId::Contrast => 2,
            FeatureId::Homogeneity => 3,
            FeatureId::Correlation => 4,
            FeatureId::Dissimilarity => 5,
            FeatureId::ClusterShade => 6,
            FeatureId::ClusterProminence => 7,
        }
    }

    /// The feature's canonical lower-case name, as the command line accepts
    /// it and as output files are tagged with it.
    pub open spec fn spec_name(self) -> Seq<char> {
        match self {
            FeatureId::Energy => "energy"@,
            FeatureId::Entropy => "entropy"@,
            FeatureId::Contrast => "contrast"@,
            FeatureId::Homogeneity => "homogeneity"@,
            FeatureId::Correlation => "correlation"@,
            FeatureId::Dissimilarity => "dissimilarity"@,
            FeatureId::ClusterShade => "cluster_shade"@,
            FeatureId::ClusterProminence => "cluster_prominence"@,
        }
    }

    /// Block position in a full results buffer.
    pub fn index(self) -> (i: usize)
        ensures
            i == self.spec_index(),
            i < FEATURE_COUNT,
    {
        match self {
            FeatureId::Energy => 0,
            FeatureId::Entropy => 1,
            FeatureId::Contrast => 2,
            FeatureId::Homogeneity => 3,
            FeatureId::Correlation => 4,
            FeatureId::Dissimilarity => 5,
            FeatureId::ClusterShade => 6,
            FeatureId::ClusterProminence => 7,
        }
    }

    /// The canonical name.
    pub fn name(self) -> (r: &'static str)
        ensures
            r@ == self.spec_name(),
    {
        match self {
            FeatureId::Energy => "energy",
            FeatureId::Entropy => "entropy",
            FeatureId::Contrast => "contrast",
            FeatureId::Homogeneity => "homogeneity",
            FeatureId::Correlation => "correlation",
            FeatureId::Dissimilarity => "dissimilarity",
            FeatureId::ClusterShade => "cluster_shade",
            FeatureId::ClusterProminence => "cluster_prominence",
        }
    }
}

/// All features, in declaration order.
pub open spec fn all_feature_ids() -> Seq<FeatureId> {
    seq![
        FeatureId::Energy,
        FeatureId::Entropy,
        FeatureId::Contrast,
        FeatureId::Homogeneity,
        FeatureId::Correlation,
        FeatureId::Dissimilarity,
        FeatureId::ClusterShade,
        FeatureId::ClusterProminence,
    ]
}

/// A feature's position indexes it in the declaration-order list, so no two
/// features share a position.
pub proof fn lemma_feature_index(f: FeatureId)
    ensures
        0 <= f.spec_index() < FEATURE_COUNT,
        all_feature_ids()[f.spec_index()] == f,
{
}

/// Every feature, in declaration order.
pub fn all_features_in_order() -> (v: Vec<FeatureId>)
    ensures
        v@ == all_feature_ids(),
{
    let mut v: Vec<FeatureId> = Vec::new();
    v.push(FeatureId::Energy);
    v.push(FeatureId::Entropy);
    v.push(FeatureId::Contrast);
    v.push(FeatureId::Homogeneity);
    v.push(FeatureId::Correlation);
    v.push(FeatureId::Dissimilarity);
    v.push(FeatureId::ClusterShade);
    v.push(FeatureId::ClusterProminence);
    proof {
        assert(v@ =~= all_feature_ids());
    }
    v
}

/// String equality over the character views. The byte encodings of two
/// character sequences agree exactly when the sequences do.
pub fn str_eq(a: &str, b: &str) -> (r: bool)
    ensures
        r == (a@ == b@),
{
    proof {
        vstd::utf8::encode_utf8_decode_utf8(a@);
        vstd::utf8::encode_utf8_decode_utf8(b@);
    }
    let ab = a.as_bytes();
    let bb = b.as_bytes();
    let n = ab.len();
    if n != bb.len() {
        return false;
    }
    let mut i: usize = 0;
    while i < n
        invariant
            0 <= i <= n,
            n == ab@.len(),
            n == bb@.len(),
            ab@ == a.spec_bytes(),
            bb@ == b.spec_bytes(),
            decode_utf8(a.spec_bytes()) == a@,
            decode_utf8(b.spec_bytes()) == b@,
            forall|j: int| 0 <= j < i ==> ab@[j] == bb@[j],
        decreases n - i,
    {
        if ab[i] != bb[i] {
            return false;
        }
        i = i + 1;
    }
    proof {
        assert(a.spec_bytes() =~= b.spec_bytes());
    }
    true
}

/// Does `v` hold `f`?
pub fn vec_contains_feature(v: &Vec<FeatureId>, f: FeatureId) -> (b: bool)
    ensures
        b == v@.contains(f),
{
    let mut j: usize = 0;
    while j < v.len()
        invariant
            0 <= j <= v@.len(),
            forall|k: int| 0 <= k < j ==> v@[k] != f,
        decreases v@.len() - j,
    {
        if v[j] == f {
            return true;
        }
        j = j + 1;
    }
    false
}

/// Whether inclusion and omission filtering keeps `f`: the run starts from
/// every feature when `all_features` is set, otherwise from the explicitly
/// included ones, and the omitted ones are removed in either case.
pub open spec fn feature_selected(
    all_features: bool,
    included: Seq<FeatureId>,
    omit: Seq<FeatureId>,
    f: FeatureId,
) -> bool {
    (all_features || included.contains(f)) && !omit.contains(f)
}

/// The ordered set of requested features: `(feature, display alias)` pairs,
/// kept strictly in declaration order of the feature identifiers, which
/// makes every identifier unique and the output order deterministic.
pub struct FeatureSet {
    entries: Vec<(FeatureId, String)>,
}

impl FeatureSet {
    /// The entries with the aliases as character sequences.
    pub closed spec fn entry_view(self) -> Seq<(FeatureId, Seq<char>)> {
        self.entries@.map_values(|e: (FeatureId, String)| (e.0, e.1@))
    }

    /// The feature identifiers, in order.
    pub open spec fn ids(self) -> Seq<FeatureId> {
        self.entry_view().map_values(|e: (FeatureId, Seq<char>)| e.0)
    }

    pub open spec fn spec_contains(self, f: FeatureId) -> bool {
        self.ids().contains(f)
    }

    pub open spec fn spec_len(self) -> nat {
        self.entry_view().len()
    }

    /// Entries stand strictly in declaration order, so each feature appears
    /// at most once.
    pub open spec fn wf(self) -> bool {
        forall|i: int, j: int|
            0 <= i < j < self.ids().len() ==> self.ids()[i].spec_index() < self.ids()[j].spec_index()
    }

    /// No features requested.
    pub fn empty() -> (s: FeatureSet)
        ensures
            s.wf(),
            s.spec_len() == 0,
            forall|f: FeatureId| !s.spec_contains(f),
    {
        let s = FeatureSet { entries: Vec::new() };
        proof {
            assert(s.entry_view() =~= Seq::<(FeatureId, Seq<char>)>::empty());
        }
        s
    }

    /// How many features are requested.
    pub fn len(&self) -> (n: usize)
        ensures
            n == self.spec_len(),
    {
        self.entries.len()
    }

    pub fn is_empty(&self) -> (b: bool)
        ensures
            b == (self.spec_len() == 0),
    {
        self.entries.len() == 0
    }

    /// Is `f` requested?
    pub fn contains(&self, f: FeatureId) -> (b: bool)
        ensures
            b == self.spec_contains(f),
    {
        let mut j: usize = 0;
        while j < self.entries.len()
            invariant
                0 <= j <= self.entry_view().len(),
                forall|k: int| 0 <= k < j ==> self.ids()[k] != f,
            decreases self.entry_view().len() - j,
        {
            if self.entries[j].0 == f {
                proof {
                    assert(self.ids()[j as int] == f);
                }
                return true;
            }
            j = j + 1;
        }
        false
    }

    /// The requested `(feature, alias)` pairs in declaration order of the
    /// feature identifiers, which is also the order result blocks are
    /// written in.
    pub fn features_aliases(&self) -> (v: Vec<(FeatureId, String)>)
        ensures
            v@.map_values(|e: (FeatureId, String)| (e.0, e.1@)) == self.entry_view(),
    {
        let mut v: Vec<(FeatureId, String)> = Vec::new();
        let mut j: usize = 0;
        while j < self.entries.len()
            invariant
                0 <= j <= self.entries@.len(),
                v@.len() == j,
                forall|k: int|
                    0 <= k < j ==> #[trigger] v@[k].0 == self.entries@[k].0
                        && v@[k].1@ == self.entries@[k].1@,
        decreases self.entries@.len() - j,
        {
            let f = self.entries[j].0;
            let alias = self.entries[j].1.clone();
            v.push((f, alias));
            j = j + 1;
        }
        proof {
            assert(v@.map_values(|e: (FeatureId, String)| (e.0, e.1@)) =~= self.entry_view());
        }
        v
    }

    /// An owned copy of the set, entry for entry.
    pub fn duplicate(&self) -> (s: FeatureSet)
        ensures
            s.entry_view() == self.entry_view(),
    {
        let s = FeatureSet { entries: self.features_aliases() };
        proof {
            assert(s.entry_view() =~= self.entry_view());
        }
        s
    }

    /// Resolve a request into the set it denotes: all features or the
    /// included ones, minus the omitted ones, each under its canonical name
    /// as alias. Fails with `EmptyFeatureSet`, before any stage may spawn,
    /// exactly when nothing is left.
    pub fn resolve(all_features: bool, included: &Vec<FeatureId>, omit: &Vec<FeatureId>) -> (r:
        Result<FeatureSet, PipelineError>)
        ensures
            match r {
                Ok(s) => {
                    &&& s.wf()
                    &&& s.spec_len() > 0
                    &&& forall|f: FeatureId|
                        #[trigger] s.spec_contains(f) == feature_selected(
                            all_features,
                            included@,
                            omit@,
                            f,
                        )
                    &&& forall|i: int|
                        0 <= i < s.entry_view().len() ==> (#[trigger] s.entry_view()[i]).1
                            == s.entry_view()[i].0.spec_name()
                    &&& exists|f: FeatureId|
                        feature_selected(all_features, included@, omit@, f)
                },
                Err(e) => {
                    &&& e is EmptyFeatureSet
                    &&& forall|f: FeatureId|
                        !feature_selected(all_features, included@, omit@, f)
                },
            },
    {
        let all = all_features_in_order();
        let mut s = FeatureSet::empty();
        let mut i: usize = 0;
        while i < FEATURE_COUNT
            invariant
                0 <= i <= FEATURE_COUNT,
                all@ == all_feature_ids(),
                s.wf(),
                forall|g: FeatureId|
                    #[trigger] s.spec_contains(g) == (feature_selected(
                        all_features,
                        included@,
                        omit@,
                        g,
                    ) && g.spec_index() < i),
                forall|k: int|
                    0 <= k < s.entry_view().len() ==> (#[trigger] s.entry_view()[k]).1
                        == s.entry_view()[k].0.spec_name()
                        && s.entry_view()[k].0.spec_index() < i,
            decreases FEATURE_COUNT - i,
        {
            let f = all[i];
            proof {
                lemma_feature_index(f);
            }
            let keep = (all_features || vec_contains_feature(included, f))
                && !vec_contains_feature(omit, f);
            if keep {
                let ghost old_s = s;
                let alias = f.name().to_owned();
                s.entries.push((f, alias));
                proof {
                    assert(s.entry_view() =~= old_s.entry_view().push((f, f.spec_name())));
                    assert(s.ids() =~= old_s.ids().push(f));
                    assert forall|g: FeatureId|
                        #[trigger] s.spec_contains(g) == (feature_selected(
                            all_features,
                            included@,
                            omit@,
                            g,
                        ) && g.spec_index() < i + 1) by {
                        lemma_feature_index(g);
                        if g == f {
                            assert(s.ids()[s.ids().len() - 1] == f);
                            assert(s.spec_contains(g));
                        } else {
                            if s.spec_contains(g) {
                                let w = choose|w: int|
                                    0 <= w < s.ids().len() && s.ids()[w] == g;
                                assert(old_s.ids()[w] == g);
                                assert(old_s.spec_contains(g));
                            }
                            if old_s.spec_contains(g) {
                                let w = choose|w: int|
                                    0 <= w < old_s.ids().len() && old_s.ids()[w] == g;
                                assert(s.ids()[w] == g);
                            }
                        }
                    }
                }
            } else {
                proof {
                    assert forall|g: FeatureId|
                        #[trigger] s.spec_contains(g) == (feature_selected(
                            all_features,
                            included@,
                            omit@,
                            g,
                        ) && g.spec_index() < i + 1) by {
                        lemma_feature_index(g);
                    }
                }
            }
            i = i + 1;
        }
        proof {
            assert forall|g: FeatureId|
                #[trigger] s.spec_contains(g) == feature_selected(
                    all_features,
                    included@,
                    omit@,
                    g,
                ) by {
                lemma_feature_index(g);
            }
        }
        if s.entries.len() == 0 {
            proof {
                assert forall|g: FeatureId|
                    !feature_selected(all_features, included@, omit@, g) by {
                    assert(!s.spec_contains(g));
                }
            }
            Err(PipelineError::EmptyFeatureSet)
        } else {
            proof {
                let g0 = s.ids()[0];
                assert(s.spec_contains(g0));
            }
            Ok(s)
        }
    }
}

impl FeatureSet {
    /// Every feature, each under its canonical name.
    pub fn all_features() -> (s: FeatureSet)
        ensures
            s.wf(),
            forall|f: FeatureId| s.spec_contains(f),
            s.spec_len() == FEATURE_COUNT,
            forall|i: int|
                0 <= i < s.entry_view().len() ==> (#[trigger] s.entry_view()[i]).1
                    == s.entry_view()[i].0.spec_name(),
    {
        let all = all_features_in_order();
        let mut s = FeatureSet::empty();
        let mut i: usize = 0;
        while i < FEATURE_COUNT
            invariant
                0 <= i <= FEATURE_COUNT,
                all@ == all_feature_ids(),
                s.wf(),
                s.spec_len() == i,
                forall|g: FeatureId|
                    #[trigger] s.spec_contains(g) == (g.spec_index() < i),
                forall|k: int|
                    0 <= k < s.entry_view().len() ==> (#[trigger] s.entry_view()[k]).1
                        == s.entry_view()[k].0.spec_name()
                        && s.entry_view()[k].0.spec_index() < i,
            decreases FEATURE_COUNT - i,
        {
            let g = all[i];
            proof {
                lemma_feature_index(g);
            }
            let ghost old_s = s;
            let alias = g.name().to_owned();
            s.entries.push((g, alias));
            proof {
                assert(s.entry_view() =~= old_s.entry_view().push((g, g.spec_name())));
                assert(s.ids() =~= old_s.ids().push(g));
                assert forall|h: FeatureId|
                    #[trigger] s.spec_contains(h) == (h.spec_index() < i + 1) by {
                    lemma_feature_index(h);
                    if h == g {
                        assert(s.ids()[s.ids().len() - 1] == g);
                    } else {
                        if s.spec_contains(h) {
                            let w = choose|w: int| 0 <= w < s.ids().len() && s.ids()[w] == h;
                            assert(old_s.ids()[w] == h);
                        }
                        if old_s.spec_contains(h) {
                            let w = choose|w: int|
                                0 <= w < old_s.ids().len() && old_s.ids()[w] == h;
                            assert(s.ids()[w] == h);
                        }
                    }
                }
            }
            i = i + 1;
        }
        proof {
            assert forall|h: FeatureId| s.spec_contains(h) by {
                lemma_feature_index(h);
            }
        }
        s
    }

    /// The set with `f`'s membership flipped and every other membership
    /// kept; every alias is (re)set to the canonical name.
    pub fn toggled(&self, f: FeatureId) -> (s: FeatureSet)
        requires
            self.wf(),
        ensures
            s.wf(),
            s.spec_contains(f) == !self.spec_contains(f),
            forall|g: FeatureId|
                g != f ==> #[trigger] s.spec_contains(g) == self.spec_contains(g),
            forall|i: int|
                0 <= i < s.entry_view().len() ==> (#[trigger] s.entry_view()[i]).1
                    == s.entry_view()[i].0.spec_name(),
    {
        let all = all_features_in_order();
        let mut s = FeatureSet::empty();
        let mut i: usize = 0;
        while i < FEATURE_COUNT
            invariant
                0 <= i <= FEATURE_COUNT,
                all@ == all_feature_ids(),
                self.wf(),
                s.wf(),
                forall|g: FeatureId|
                    #[trigger] s.spec_contains(g) == ((if g == f {
                        !self.spec_contains(g)
                    } else {
                        self.spec_contains(g)
                    }) && g.spec_index() < i),
                forall|k: int|
                    0 <= k < s.entry_view().len() ==> (#[trigger] s.entry_view()[k]).1
                        == s.entry_view()[k].0.spec_name()
                        && s.entry_view()[k].0.spec_index() < i,
            decreases FEATURE_COUNT - i,
        {
            let g = all[i];
            proof {
                lemma_feature_index(g);
            }
            let was = self.contains(g);
            let keep = if g == f {
                !was
            } else {
                was
            };
            if keep {
                let ghost old_s = s;
                let alias = g.name().to_owned();
                s.entries.push((g, alias));
                proof {
                    assert(s.entry_view() =~= old_s.entry_view().push((g, g.spec_name())));
                    assert(s.ids() =~= old_s.ids().push(g));
                    assert forall|h: FeatureId|
                        #[trigger] s.spec_contains(h) == ((if h == f {
                            !self.spec_contains(h)
                        } else {
                            self.spec_contains(h)
                        }) && h.spec_index() < i + 1) by {
                        lemma_feature_index(h);
                        if h == g {
                            assert(s.ids()[s.ids().len() - 1] == g);
                        } else {
                            if s.spec_contains(h) {
                                let w = choose|w: int|
                                    0 <= w < s.ids().len() && s.ids()[w] == h;
                                assert(old_s.ids()[w] == h);
                            }
                            if old_s.spec_contains(h) {
                                let w = choose|w: int|
                                    0 <= w < old_s.ids().len() && old_s.ids()[w] == h;
                                assert(s.ids()[w] == h);
                            }
                        }
                    }
                }
            } else {
                proof {
                    assert forall|h: FeatureId|
                        #[trigger] s.spec_contains(h) == ((if h == f {
                            !self.spec_contains(h)
                        } else {
                            self.spec_contains(h)
                        }) && h.spec_index() < i + 1) by {
                        lemma_feature_index(h);
                    }
                }
            }
            i = i + 1;
        }
        proof {
            assert forall|h: FeatureId|
                #[trigger] s.spec_contains(h) == (if h == f {
                    !self.spec_contains(h)
                } else {
                    self.spec_contains(h)
                }) by {
                lemma_feature_index(h);
            }
        }
        s
    }
}

/// The feature whose canonical name is `name`, if any. Names are matched
/// exactly; the command-line front end lower-cases its input first.
pub fn from_name(name: &str) -> (r: Option<FeatureId>)
    ensures
        match r {
            Some(f) => name@ == f.spec_name(),
            None => forall|f: FeatureId| name@ != #[trigger] f.spec_name(),
        },
{
    let all = all_features_in_order();
    let mut i: usize = 0;
    while i < FEATURE_COUNT
        invariant
            0 <= i <= FEATURE_COUNT,
            all@ == all_feature_ids(),
            forall|j: int| 0 <= j < i ==> name@ != #[trigger] all_feature_ids()[j].spec_name(),
        decreases FEATURE_COUNT - i,
    {
        let f = all[i];
        if str_eq(name, f.name()) {
            return Some(f);
        }
        i = i + 1;
    }
    proof {
        assert forall|f: FeatureId| name@ != #[trigger] f.spec_name() by {
            lemma_feature_index(f);
        }
    }
    None
}

} // verus!
