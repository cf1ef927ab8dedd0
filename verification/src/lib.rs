//! Verification engine for auditing that a destination directory tree is a
//! faithful copy of a source tree: every non-directory entry under the source
//! root is classified against its counterpart under the destination root by
//! existence and byte length, and the outcomes are counted per kind.
//!
//! Paths are treated as character strings whose separator is `/`: the path
//! contracts, and the traversal's, assume a platform whose native path
//! separator is `/`.

pub mod channel;
pub mod driver;
pub mod files;
pub mod outcome;
pub mod paths;
pub mod stats;
pub(crate) mod walk;

pub use outcome::compare_sizes;
pub use outcome::u64_to_dec;
pub use outcome::verify_err_accept_all_filter;
pub use outcome::verify_err_only_errors_filter;
pub use outcome::FilterPolicy;
pub use outcome::VerifyErr;
pub use outcome::VerifyErrType;

pub use channel::RecvPoll;
pub use channel::ResultChannel;
pub use driver::emit_records;
pub use driver::verify;
pub use driver::verify_path;
pub use driver::verify_path_async;
pub use driver::verify_path_filtered;
pub use driver::verify_path_with_filtered_logger;
pub use driver::verify_path_with_logger;
pub use driver::RecordCollector;
pub use driver::VerifyErrLogger;
pub use paths::derive_dst_path;
pub use stats::VerifyErrStats;
