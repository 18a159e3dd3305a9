//! Removal of the Zone.Identifier marker that Windows attaches to downloaded
//! files, over a single file or a whole directory tree.
//!
//! The crate holds the decision core of the tool: path validation, the
//! per-file unblock classification, the aggregation of per-file outcomes into
//! run statistics, and the escalation flag that records whether any
//! permission failure was seen.  Everything that touches the machine — the
//! directory walk, the deletion of the marker stream, probing whether a path
//! is a file or a directory — is performed by the embedding program, which
//! hands the results to the functions here as plain values.

pub mod config;
pub mod error;
pub mod path_utils;
pub mod text;
pub mod unblocker;

pub use config::Config;
pub use error::UnblockerError;
pub use path_utils::{get_ads_path, is_safe_path, validate_path};
pub use unblocker::{
    plan_unblock, process_target, record_walk_event, unblock_directory, unblock_file,
    RemovalEvent, TargetKind, UnblockAction, UnblockStats, WalkEvent,
};
