//! Decision logic of a desktop application shell's backend commands.
//!
//! The host application performs the network and updater calls and hands
//! their outcomes to the functions here, which decide what each command
//! reports back to the user interface.

pub mod connectivity;
pub mod updates;
pub mod version;

pub use connectivity::{is_online, ProbeOutcome, PROBE_URL};
pub use updates::{
    check_for_updates, startup_notice, Platform, UpdaterReport, CHECK_FAILED_PREFIX,
    UNAVAILABLE_MESSAGE, UNSUPPORTED_MESSAGE, UPDATE_NOTICE_PREFIX,
};
pub use version::{get_app_version, APP_VERSION};
