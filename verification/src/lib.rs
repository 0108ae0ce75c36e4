//! Orchestration layer for a long-running volumetric feature-map computation.
//!
//! The heavy lifting (the feature math itself, volume file codecs, widget
//! rendering) is done by outside collaborators; this crate holds the verified
//! decision logic that sequences them: progress accounting, feature-set
//! resolution, shape validation, and the pipeline state machines that the
//! blocking and non-blocking front ends drive.

mod codec;
mod errors;
mod features;
mod options;
mod pipeline;
mod progress;
mod selectors;
mod shape;

pub use codec::codec_for_extension;
pub use codec::output_file_name;
pub use codec::CodecKind;
pub use errors::PipelineError;
pub use features::all_feature_ids;
pub use features::all_features_in_order;
pub use features::feature_selected;
pub use features::from_name;
pub use features::str_eq;
pub use features::vec_contains_feature;
pub use features::FeatureId;
pub use features::FeatureSet;
pub use features::FEATURE_COUNT;
pub use options::MapOptSelector;
pub use options::MapOptions;
pub use pipeline::benign_event;
pub use pipeline::next_status;
pub use pipeline::run_trace;
pub use pipeline::PipelineRun;
pub use pipeline::RunStatus;
pub use pipeline::TickAction;
pub use pipeline::TickEvent;
pub use progress::run_schedule;
pub use progress::Progress;
pub use progress::ProgressChannel;
pub use selectors::update_options;
pub use selectors::FeatureSelector;
pub use selectors::InputSelector;
pub use selectors::OutputSelector;
pub use shape::feature_block_bounds;
pub use shape::results_len;
pub use shape::spec_numel;
pub use shape::VolumeShape;
