//! Incremental batch export of layered diagram files through an external
//! renderer: layer plans, job planning, staleness rules and outcome checks.

pub mod flags;
pub mod jobs;
pub mod layers;
pub mod markers;
pub mod process;
pub mod staleness;

pub use flags::{apply_draft_scale, binary_candidates, split_build_args, DraftError};
pub use jobs::{create_job, job_args, output_name, step_output_paths, BuildConfig, DrawioExportStep};
pub use layers::{
    assemble_layer_cli_flag, decimal_string, DrawioConfig, DrawioFileConfig, LayerConfig,
};
pub use markers::{is_source_extension, layer_count_from_markers, LayerScanner, ScanError};
pub use process::{error_log_path, failure_log, first_failure, reason_message, DrawioError, DrawioProcess};
pub use staleness::{check_output, is_fresh, FailureReason, Timestamp};
