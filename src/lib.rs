//! Safe, verified model of a proximity-card (NFC) reader library.
//!
//! The native driver is reached from outside this crate: callers perform the
//! native calls and hand the plain results (status codes, handles, record
//! bytes) to the functions here, which decide what they mean. The crate
//! covers the error taxonomy of native status codes, the codec between
//! native target records and the tagged `Target`, and the ownership of
//! context and device handles across role promotion.

pub mod bits;
pub mod context;
pub mod device;
pub mod error;
pub mod exchange;
mod layout;
pub mod modulation;
pub mod target;
pub mod target_info;
pub mod util;

pub use context::Context;
pub use device::{Device, Initiator, PollType, SecureInitiator, TargetAndCount, TargetResultEnum};
pub use error::{ErrorKind, FfiError, NfcError, NfcError as Error, NfcResult};
pub use modulation::{BaudRate, DepMode, Modulation, ModulationType, Property};
pub use target::{RawTarget, Target, TargetInfo};
pub use target_info::DepInfo;
pub use util::str_to_connarr;
