//! Configuration resolution and snapshot-retention settings for a
//! gluster-based snapshot tool.
//!
//! The library locates a `ggsnap.conf` file among a fixed set of candidate
//! locations, parses its TOML content into a typed [`Config`], and classifies
//! the output of the cluster's `snapshot list` command.  All decision logic is
//! verified; file and process I/O are left to the surrounding binary, which
//! feeds their outcomes in as plain values.

mod config;
mod gateway;
mod parse;
mod raw;
mod resolve;

pub use config::Config;
pub use config::ConfigReadErr;
pub use config::General;
pub use config::MailFromMaster;
pub use config::Snapshot;
pub use gateway::CommandOutcome;
pub use gateway::remove_old_snapshots_from;
pub use parse::config_from_doc;
pub use parse::parse_config;
pub use raw::RawBody;
pub use raw::RawDoc;
pub use raw::RawEntry;
pub use raw::RawItem;
pub use raw::RawSection;
pub use resolve::FileAttempt;
pub use resolve::get_config_from;
