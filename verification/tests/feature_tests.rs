use radmap::{
    all_features_in_order, from_name, str_eq, update_options, FeatureId, FeatureSelector,
    FeatureSet, MapOptSelector, MapOptions, PipelineError, FEATURE_COUNT,
};

#[test]
fn all_but_contrast_omitted_leaves_contrast() {
    let included: Vec<FeatureId> = Vec::new();
    let mut omit = all_features_in_order();
    omit.retain(|f| *f != FeatureId::Contrast);
    assert_eq!(omit.len(), FEATURE_COUNT - 1);
    let s = FeatureSet::resolve(true, &included, &omit).unwrap();
    assert_eq!(s.len(), 1);
    assert!(s.contains(FeatureId::Contrast));
    assert!(!s.contains(FeatureId::Energy));
    assert!(!s.contains(FeatureId::Homogeneity));
}

#[test]
fn empty_selection_fails_fast() {
    let none: Vec<FeatureId> = Vec::new();
    let r = FeatureSet::resolve(false, &none, &none);
    assert!(matches!(r, Err(PipelineError::EmptyFeatureSet)));
}

#[test]
fn omitting_everything_fails_fast() {
    let none: Vec<FeatureId> = Vec::new();
    let omit = all_features_in_order();
    let r = FeatureSet::resolve(true, &none, &omit);
    assert!(matches!(r, Err(PipelineError::EmptyFeatureSet)));
}

#[test]
fn included_minus_omitted() {
    let included = vec![FeatureId::Energy, FeatureId::Contrast];
    let omit = vec![FeatureId::Energy];
    let s = FeatureSet::resolve(false, &included, &omit).unwrap();
    assert_eq!(s.len(), 1);
    assert!(s.contains(FeatureId::Contrast));
    assert!(!s.contains(FeatureId::Energy));
}

#[test]
fn resolved_order_is_declaration_order() {
    let included = vec![FeatureId::ClusterShade, FeatureId::Energy, FeatureId::Contrast];
    let none: Vec<FeatureId> = Vec::new();
    let s = FeatureSet::resolve(false, &included, &none).unwrap();
    let pairs = s.features_aliases();
    let ids: Vec<FeatureId> = pairs.iter().map(|e| e.0).collect();
    assert_eq!(
        ids,
        vec![FeatureId::Energy, FeatureId::Contrast, FeatureId::ClusterShade]
    );
    assert_eq!(pairs[0].1, "energy");
    assert_eq!(pairs[1].1, "contrast");
    assert_eq!(pairs[2].1, "cluster_shade");
}

#[test]
fn canonical_names_round_trip() {
    for f in all_features_in_order() {
        assert_eq!(from_name(f.name()), Some(f));
    }
}

#[test]
fn unknown_or_uppercase_names_are_rejected() {
    assert_eq!(from_name("glossiness"), None);
    assert_eq!(from_name("Contrast"), None);
    assert_eq!(from_name(""), None);
}

#[test]
fn feature_indices_are_their_positions() {
    let all = all_features_in_order();
    for (i, f) in all.iter().enumerate() {
        assert_eq!(f.index(), i);
    }
}

#[test]
fn str_eq_compares_contents() {
    assert!(str_eq("contrast", "contrast"));
    assert!(!str_eq("contrast", "energy"));
    assert!(!str_eq("contrast", "contrast "));
    assert!(str_eq("", ""));
}

#[test]
fn selector_starts_full_and_toggles() {
    let mut sel = FeatureSelector::default();
    assert_eq!(sel.selected().len(), FEATURE_COUNT);
    sel.toggle(FeatureId::Contrast);
    assert!(!sel.selected().contains(FeatureId::Contrast));
    assert!(sel.selected().contains(FeatureId::Energy));
    assert_eq!(sel.selected().len(), FEATURE_COUNT - 1);
    sel.toggle(FeatureId::Contrast);
    assert!(sel.selected().contains(FeatureId::Contrast));
    assert_eq!(sel.selected().len(), FEATURE_COUNT);
}

#[test]
fn selector_select_and_deselect_all() {
    let mut sel = FeatureSelector::default();
    sel.deselect_all();
    assert!(sel.selected().is_empty());
    sel.select_all();
    assert_eq!(sel.selected().len(), FEATURE_COUNT);
}

#[test]
fn update_options_copies_the_committed_state() {
    let mut selector = MapOptSelector::default();
    selector.apply_kernel_radius_entry(Some(-3));
    selector.apply_num_bins_entry(Some(16));
    let mut features = FeatureSelector::default();
    features.deselect_all();
    features.toggle(FeatureId::Contrast);
    let mut opts =
        MapOptions::from_cli(None, None, None, FeatureSet::empty()).unwrap();
    update_options(&mut opts, &selector, &features);
    assert_eq!(opts.n_bins(), 16);
    assert_eq!(opts.kernel_radius(), 3);
    assert_eq!(opts.max_threads(), None);
    assert_eq!(opts.features().len(), 1);
    assert!(opts.features().contains(FeatureId::Contrast));
}
