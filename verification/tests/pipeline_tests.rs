use radmap::{
    codec_for_extension, feature_block_bounds, output_file_name, results_len, CodecKind,
    FeatureId, FeatureSet, InputSelector, MapOptSelector, MapOptions, OutputSelector,
    PipelineError, PipelineRun, RunStatus, TickAction, TickEvent, VolumeShape,
};

fn opts_with_all_features() -> MapOptions {
    let none: Vec<FeatureId> = Vec::new();
    let set = FeatureSet::resolve(true, &none, &none).unwrap();
    MapOptions::from_cli(None, None, None, set).unwrap()
}

#[test]
fn mismatched_shapes_end_in_load_failed_without_compute() {
    let mut run = PipelineRun::new(opts_with_all_features(), true);
    assert_eq!(run.status(), RunStatus::Idle);
    let a = run.tick(TickEvent::LaunchPressed);
    assert!(matches!(a, TickAction::SpawnLoads));
    assert_eq!(run.status(), RunStatus::Loading);
    let vol = VolumeShape::new(vec![64, 64, 32]).unwrap();
    let mask = VolumeShape::new(vec![64, 64, 16]).unwrap();
    let a = run.tick(TickEvent::LoadsFinished {
        volume: Ok(vol),
        mask: Some(Ok(mask)),
    });
    assert!(!matches!(a, TickAction::SpawnCompute { .. }));
    assert_eq!(run.status(), RunStatus::LoadFailed);
    assert!(matches!(run.failure(), Some(PipelineError::ShapeMismatch)));
    let a = run.tick(TickEvent::Quiet);
    assert!(!matches!(a, TickAction::SpawnCompute { .. }));
    assert_eq!(run.status(), RunStatus::LoadFailed);
    let a = run.tick(TickEvent::LaunchPressed);
    assert!(!matches!(a, TickAction::SpawnCompute { .. }));
    assert_eq!(run.status(), RunStatus::LoadFailed);
}

#[test]
fn agreeing_shapes_validate() {
    let mut run = PipelineRun::new(opts_with_all_features(), true);
    run.tick(TickEvent::LaunchPressed);
    let vol = VolumeShape::new(vec![64, 64, 32]).unwrap();
    let mask = VolumeShape::new(vec![64, 64, 32]).unwrap();
    run.tick(TickEvent::LoadsFinished {
        volume: Ok(vol),
        mask: Some(Ok(mask)),
    });
    assert_eq!(run.status(), RunStatus::Validated);
    assert!(matches!(run.failure(), None));
}

#[test]
fn benign_ticks_visit_statuses_in_exact_order() {
    let mut run = PipelineRun::new(opts_with_all_features(), false);
    let mut visited = vec![run.status()];
    let vol = VolumeShape::new(vec![4, 4, 4]).unwrap();
    let events = vec![
        TickEvent::LaunchPressed,
        TickEvent::LoadsFinished {
            volume: Ok(vol),
            mask: None,
        },
        TickEvent::Quiet,
        TickEvent::ComputeFinished { failure: None },
        TickEvent::OutputConfirmed,
        TickEvent::WriteFinished { failure: None },
    ];
    let mut compute_total = None;
    let mut write_spawns = 0;
    for ev in events {
        let a = run.tick(ev);
        if let TickAction::SpawnCompute { total } = a {
            compute_total = Some(total);
        }
        if matches!(a, TickAction::SpawnWrite) {
            write_spawns += 1;
        }
        visited.push(run.status());
    }
    assert_eq!(
        visited,
        vec![
            RunStatus::Idle,
            RunStatus::Loading,
            RunStatus::Validated,
            RunStatus::Running,
            RunStatus::Computed,
            RunStatus::Writing,
            RunStatus::Complete,
        ]
    );
    assert_eq!(compute_total, Some(64));
    assert_eq!(write_spawns, 1);
    // the terminal status absorbs every further tick
    run.tick(TickEvent::Quiet);
    run.tick(TickEvent::LaunchPressed);
    assert_eq!(run.status(), RunStatus::Complete);
}

#[test]
fn empty_selection_refuses_launch_in_idle() {
    let opts = MapOptions::from_cli(None, None, None, FeatureSet::empty()).unwrap();
    let mut run = PipelineRun::new(opts, false);
    let a = run.tick(TickEvent::LaunchPressed);
    assert!(matches!(a, TickAction::RefuseLaunch));
    assert_eq!(run.status(), RunStatus::Idle);
}

#[test]
fn failed_compute_join_is_worker_failed() {
    let mut run = PipelineRun::new(opts_with_all_features(), false);
    run.tick(TickEvent::LaunchPressed);
    let vol = VolumeShape::new(vec![2, 2]).unwrap();
    run.tick(TickEvent::LoadsFinished {
        volume: Ok(vol),
        mask: None,
    });
    run.tick(TickEvent::Quiet);
    run.tick(TickEvent::ComputeFinished {
        failure: Some(String::from("worker hit a bad histogram")),
    });
    assert_eq!(run.status(), RunStatus::ComputeFailed);
    assert!(matches!(run.failure(), Some(PipelineError::WorkerFailed(_))));
}

#[test]
fn failed_load_join_carries_its_cause() {
    let mut run = PipelineRun::new(opts_with_all_features(), false);
    run.tick(TickEvent::LaunchPressed);
    run.tick(TickEvent::LoadsFinished {
        volume: Err(PipelineError::WorkerFailed(String::from("unreadable file"))),
        mask: None,
    });
    assert_eq!(run.status(), RunStatus::LoadFailed);
    assert!(matches!(run.failure(), Some(PipelineError::WorkerFailed(_))));
}

#[test]
fn failed_write_join_is_write_failed() {
    let mut run = PipelineRun::new(opts_with_all_features(), false);
    run.tick(TickEvent::LaunchPressed);
    let vol = VolumeShape::new(vec![2, 2]).unwrap();
    run.tick(TickEvent::LoadsFinished {
        volume: Ok(vol),
        mask: None,
    });
    run.tick(TickEvent::Quiet);
    run.tick(TickEvent::ComputeFinished { failure: None });
    run.tick(TickEvent::OutputConfirmed);
    run.tick(TickEvent::WriteFinished {
        failure: Some(String::from("directory vanished")),
    });
    assert_eq!(run.status(), RunStatus::WriteFailed);
    assert!(matches!(run.failure(), Some(PipelineError::WriteFailed(_))));
}

#[test]
fn single_contrast_four_cubed_run_sizes() {
    let included = vec![FeatureId::Contrast];
    let none: Vec<FeatureId> = Vec::new();
    let set = FeatureSet::resolve(false, &included, &none).unwrap();
    assert_eq!(set.len(), 1);
    let opts = MapOptions::from_cli(Some(4), Some(1), None, set).unwrap();
    assert_eq!(opts.n_bins(), 4);
    assert_eq!(opts.kernel_radius(), 1);
    let mut run = PipelineRun::new(opts, false);
    run.tick(TickEvent::LaunchPressed);
    let vol = VolumeShape::new(vec![4, 4, 4]).unwrap();
    assert_eq!(vol.numel(), 64);
    run.tick(TickEvent::LoadsFinished {
        volume: Ok(vol),
        mask: None,
    });
    let a = run.tick(TickEvent::Quiet);
    match a {
        TickAction::SpawnCompute { total } => assert_eq!(total, 64),
        _ => panic!("compute was not spawned"),
    }
    // the results buffer holds one block of 64 values for the one feature
    assert_eq!(results_len(1, 64), Some(64));
    assert_eq!(feature_block_bounds(0, 64, 1), (0, 64));
}

#[test]
fn extension_dispatch() {
    assert_eq!(codec_for_extension("nii").unwrap(), CodecKind::Nifti);
    assert_eq!(codec_for_extension("nhdr").unwrap(), CodecKind::Nrrd);
    assert_eq!(codec_for_extension("nrrd").unwrap(), CodecKind::Nrrd);
    assert!(matches!(
        codec_for_extension("txt"),
        Err(PipelineError::InvalidInput(_))
    ));
    assert!(matches!(
        codec_for_extension(""),
        Err(PipelineError::InvalidInput(_))
    ));
}

#[test]
fn output_names_join_stem_and_tag() {
    assert_eq!(output_file_name("subject01", "contrast"), "subject01_contrast");
    assert_eq!(output_file_name("t1w", "cluster_shade"), "t1w_cluster_shade");
}

#[test]
fn shape_numel_and_equality() {
    let s = VolumeShape::new(vec![64, 64, 32]).unwrap();
    assert_eq!(s.numel(), 64 * 64 * 32);
    assert_eq!(s.dim_count(), 3);
    assert_eq!(s.extent(2), 32);
    let z = VolumeShape::new(vec![4, 0, 4]).unwrap();
    assert_eq!(z.numel(), 0);
    let t = VolumeShape::new(vec![64, 64, 32]).unwrap();
    assert!(s.same_shape(&t));
    let u = VolumeShape::new(vec![64, 64]).unwrap();
    assert!(!s.same_shape(&u));
    let r = VolumeShape::new(vec![usize::MAX, 2]);
    assert!(matches!(r, Err(PipelineError::InvalidInput(_))));
}

#[test]
fn cli_option_rules() {
    let set = FeatureSet::empty();
    let o = MapOptions::from_cli(None, None, None, set).unwrap();
    assert_eq!(o.n_bins(), 32);
    assert_eq!(o.kernel_radius(), 1);
    let set = FeatureSet::empty();
    let o = MapOptions::from_cli(Some(16), Some(-2), Some(8), set).unwrap();
    assert_eq!(o.n_bins(), 16);
    assert_eq!(o.kernel_radius(), 2);
    assert_eq!(o.max_threads(), Some(8));
    let set = FeatureSet::empty();
    let r = MapOptions::from_cli(Some(0), None, None, set);
    assert!(matches!(r, Err(PipelineError::InvalidInput(_))));
}

#[test]
fn map_opt_selector_entry_rules() {
    let mut s = MapOptSelector::default();
    assert_eq!(s.kernel_radius(), 1);
    assert_eq!(s.num_bins(), 32);
    s.apply_kernel_radius_entry(Some(0));
    assert_eq!(s.kernel_radius(), 1);
    s.apply_kernel_radius_entry(Some(-5));
    assert_eq!(s.kernel_radius(), 5);
    s.apply_kernel_radius_entry(None);
    assert_eq!(s.kernel_radius(), 5);
    s.apply_num_bins_entry(Some(0));
    assert_eq!(s.num_bins(), 4);
    s.apply_num_bins_entry(Some(-7));
    assert_eq!(s.num_bins(), 4);
    s.apply_num_bins_entry(Some(64));
    assert_eq!(s.num_bins(), 64);
    s.apply_num_bins_entry(None);
    assert_eq!(s.num_bins(), 64);
}

#[test]
fn path_selectors_keep_only_existing_entries() {
    let mut sel = InputSelector::default();
    assert!(!sel.ready_to_launch());
    sel.commit_volume_path(String::from("vol.nii"), true);
    assert!(sel.ready_to_launch());
    assert_eq!(sel.volume_path().as_deref(), Some("vol.nii"));
    sel.commit_volume_path(String::from("missing.nii"), false);
    assert!(!sel.ready_to_launch());
    sel.commit_mask_path(String::from("mask.nrrd"), true);
    assert!(sel.has_mask());
    let mut out = OutputSelector::default();
    assert!(!out.confirmed());
    out.commit_output_dir(String::from("results"), true);
    assert!(out.confirmed());
    assert_eq!(out.output_dir().as_deref(), Some("results"));
    out.commit_output_dir(String::from("gone"), false);
    assert!(!out.confirmed());
}

#[test]
fn polling_stops_exactly_at_total() {
    assert!(PipelineRun::keep_polling(0, 64));
    assert!(PipelineRun::keep_polling(63, 64));
    assert!(!PipelineRun::keep_polling(64, 64));
    assert!(!PipelineRun::keep_polling(0, 0));
}

#[test]
fn masked_benign_run_reaches_complete() {
    let mut run = PipelineRun::new(opts_with_all_features(), true);
    run.tick(TickEvent::LaunchPressed);
    let vol = VolumeShape::new(vec![8, 8, 8]).unwrap();
    let mask = VolumeShape::new(vec![8, 8, 8]).unwrap();
    run.tick(TickEvent::LoadsFinished {
        volume: Ok(vol),
        mask: Some(Ok(mask)),
    });
    let a = run.tick(TickEvent::Quiet);
    match a {
        TickAction::SpawnCompute { total } => assert_eq!(total, 512),
        _ => panic!("compute was not spawned"),
    }
    run.tick(TickEvent::ComputeFinished { failure: None });
    run.tick(TickEvent::OutputConfirmed);
    run.tick(TickEvent::WriteFinished { failure: None });
    assert_eq!(run.status(), RunStatus::Complete);
    assert!(matches!(run.failure(), None));
}

#[test]
fn failed_mask_load_carries_its_cause() {
    let mut run = PipelineRun::new(opts_with_all_features(), true);
    run.tick(TickEvent::LaunchPressed);
    let vol = VolumeShape::new(vec![8, 8, 8]).unwrap();
    run.tick(TickEvent::LoadsFinished {
        volume: Ok(vol),
        mask: Some(Err(PipelineError::InvalidInput(String::from(
            "only nrrd and nifti volumes are supported",
        )))),
    });
    assert_eq!(run.status(), RunStatus::LoadFailed);
    assert!(matches!(run.failure(), Some(PipelineError::InvalidInput(_))));
}

#[test]
fn running_stage_ignores_stray_events() {
    let mut run = PipelineRun::new(opts_with_all_features(), false);
    run.tick(TickEvent::LaunchPressed);
    let vol = VolumeShape::new(vec![2, 2]).unwrap();
    run.tick(TickEvent::LoadsFinished {
        volume: Ok(vol),
        mask: None,
    });
    run.tick(TickEvent::Quiet);
    assert_eq!(run.status(), RunStatus::Running);
    let a = run.tick(TickEvent::LaunchPressed);
    assert!(matches!(a, TickAction::Stay));
    assert_eq!(run.status(), RunStatus::Running);
    let a = run.tick(TickEvent::OutputConfirmed);
    assert!(matches!(a, TickAction::Stay));
    assert_eq!(run.status(), RunStatus::Running);
}

#[test]
fn computed_result_is_handed_to_write_exactly_once() {
    let mut run = PipelineRun::new(opts_with_all_features(), false);
    run.tick(TickEvent::LaunchPressed);
    let vol = VolumeShape::new(vec![2, 2]).unwrap();
    run.tick(TickEvent::LoadsFinished {
        volume: Ok(vol),
        mask: None,
    });
    run.tick(TickEvent::Quiet);
    run.tick(TickEvent::ComputeFinished { failure: None });
    assert_eq!(run.status(), RunStatus::Computed);
    let a = run.tick(TickEvent::OutputConfirmed);
    assert!(matches!(a, TickAction::SpawnWrite));
    let a = run.tick(TickEvent::OutputConfirmed);
    assert!(!matches!(a, TickAction::SpawnWrite));
    assert_eq!(run.status(), RunStatus::Writing);
}

#[test]
fn block_bounds_tile_the_buffer() {
    let numel = 64;
    let blocks = 3;
    assert_eq!(results_len(blocks, numel), Some(192));
    let mut next_lo = 0;
    for k in 0..blocks {
        let (lo, hi) = feature_block_bounds(k, numel, blocks);
        assert_eq!(lo, next_lo);
        assert_eq!(hi, lo + numel);
        next_lo = hi;
    }
    assert_eq!(next_lo, 192);
    assert_eq!(results_len(usize::MAX, 2), None);
}
