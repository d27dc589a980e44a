//! Checks whether the locally installed Go is older than the latest stable
//! release on go.dev and, if so, decides every step of replacing it.
//!
//! The library holds the decisions and computations; the outside work
//! (network, processes, files) is done by whoever drives the state machines
//! in [`update`] and [`root_run`].
pub mod decimal;
pub mod fs;
pub mod release;
pub mod root_run;
pub mod semver;
pub mod sys;
pub mod text;
pub mod update;
pub mod version_order;

pub use fs::{ChecksumMismatch, RealFs};
pub use release::{find_artifact, latest_stable, map_arch, GoFile, GoRelease};
pub use root_run::{EscalationPrograms, RootAction, RootError, RootState};
pub use semver::{GoSemver, SemverError};
pub use sys::{GoVersionError, RealSys};
pub use update::{UpdateAction, UpdateError, UpdateEvent, UpdateOutcome, UpdateState};
