//! A client library for a distributed password-cracking coordinator: version
//! gating, response classification, the retry policy, the worker state
//! machine, and decoding of the coordinator's records.

pub mod codec;
pub mod error;
pub mod policy;
pub mod protocol;
pub mod records;
pub mod version;
pub mod wordlist;
pub mod worker;

pub use error::ZinharoError;
pub use version::{client_version, err_min_version, Version};
pub use policy::{decide, Decision, Operation};
pub use protocol::{classify, ApiJson, Endpoint};
pub use worker::{Action, Command, Event, Halt, Phase, ReportReason, Worker};
pub use codec::{decode_cap, encode_cap};
pub use records::{RawJob, RawReport, Timestamp, ZinharoHash, ZinharoJob, ZinharoQueuedJob, ZinharoReport, parse_timestamp};
pub use wordlist::{unpack_wordlist, wordlist_source, WordlistSource};
