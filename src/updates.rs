use vstd::prelude::*;

verus! {

/// Reply to an update check on a platform without in-app updates.
pub const UNSUPPORTED_MESSAGE: &'static str = "Updates not supported on this platform";

/// Reply to an update check when the updater capability cannot be obtained.
pub const UNAVAILABLE_MESSAGE: &'static str = "Updater not available";

/// Put before the updater's own error text when its check fails.
pub const CHECK_FAILED_PREFIX: &'static str = "Update check failed: ";

/// Put before the new version in the notice the startup probe prints.
pub const UPDATE_NOTICE_PREFIX: &'static str = "Update available: ";

/// The kind of target the application runs on.
#[derive(Debug, Clone, Copy, PartialEq, Eq, Structural)]
pub enum Platform {
    /// Windows, macOS or Linux: the updater capability exists.
    Desktop,
    /// Android or iOS: there are no in-app updates.
    Mobile,
}

impl Platform {
    /// Whether this platform has in-app updates, and so runs the startup probe.
    pub fn is_desktop(&self) -> (r: bool)
        ensures
            r == (*self == Platform::Desktop),
    {
        match self {
            Platform::Desktop => true,
            Platform::Mobile => false,
        }
    }
}

/// What the updater capability reported when asked for a newer version.
#[derive(Debug, Clone, PartialEq, Eq)]
pub enum UpdaterReport {
    /// The updater capability could not be obtained.
    Unavailable,
    /// The check ran and failed; this is the failure rendered as text.
    CheckFailed(String),
    /// The check ran and found no newer version.
    UpToDate,
    /// The check ran and found this newer version.
    Available(String),
}

/// The reply of an update check, over character sequences.
pub open spec fn update_check_reply(
    platform: Platform,
    report: UpdaterReport,
) -> Result<Option<Seq<char>>, Seq<char>> {
    match platform {
        Platform::Mobile => Err(UNSUPPORTED_MESSAGE@),
        Platform::Desktop => match report {
            UpdaterReport::Unavailable => Err(UNAVAILABLE_MESSAGE@),
            UpdaterReport::CheckFailed(e) => Err(CHECK_FAILED_PREFIX@ + e@),
            UpdaterReport::UpToDate => Ok(None),
            UpdaterReport::Available(v) => Ok(Some(v@)),
        },
    }
}

/// A reply seen as character sequences.
pub open spec fn reply_view(r: Result<Option<String>, String>) -> Result<Option<Seq<char>>, Seq<char>> {
    match r {
        Ok(None) => Ok(None),
        Ok(Some(v)) => Ok(Some(v@)),
        Err(e) => Err(e@),
    }
}

/// Off the desktop the update check's reply does not depend on the updater:
/// whatever two reports it is given, the reply is the same unsupported error.
pub proof fn lemma_unsupported_ignores_updater(a: UpdaterReport, b: UpdaterReport)
    ensures
        update_check_reply(Platform::Mobile, a) == update_check_reply(Platform::Mobile, b),
        update_check_reply(Platform::Mobile, a) == Err::<Option<Seq<char>>, Seq<char>>(
            UNSUPPORTED_MESSAGE@,
        ),
{
}

/// The reply of the update-check command, given the platform and what the
/// updater reported.
///
/// Off the desktop the reply is always the unsupported message, whatever the
/// updater reported. On the desktop: the new version when there is one,
/// nothing when up to date, and an error message when the updater is missing
/// or its check failed.
pub fn check_for_updates(platform: Platform, report: UpdaterReport) -> (r: Result<
    Option<String>,
    String,
>)
    ensures
        reply_view(r) == update_check_reply(platform, report),
        platform == Platform::Mobile ==> (r matches Err(m) && m@ == UNSUPPORTED_MESSAGE@),
        platform == Platform::Desktop && report == UpdaterReport::UpToDate ==> r == Ok::<
            Option<String>,
            String,
        >(None),
        platform == Platform::Desktop && report is Available ==> (r matches Ok(Some(v))
            && v@ == report->Available_0@),
{
    match platform {
        Platform::Mobile => Err(String::from_str(UNSUPPORTED_MESSAGE)),
        Platform::Desktop => match report {
            UpdaterReport::Unavailable => Err(String::from_str(UNAVAILABLE_MESSAGE)),
            UpdaterReport::CheckFailed(e) => Err(
                String::from_str(CHECK_FAILED_PREFIX).concat(e.as_str()),
            ),
            UpdaterReport::UpToDate => Ok(None),
            UpdaterReport::Available(v) => Ok(Some(v)),
        },
    }
}

/// What the startup probe prints, given the platform and what the updater
/// reported: a notice naming the new version when one is available on the
/// desktop, and nothing otherwise. Failures stay silent.
pub fn startup_notice(platform: Platform, report: UpdaterReport) -> (r: Option<String>)
    ensures
        platform == Platform::Desktop && report is Available ==> (r matches Some(n) && n@
            == UPDATE_NOTICE_PREFIX@ + report->Available_0@),
        !(platform == Platform::Desktop && report is Available) ==> r is None,
{
    match platform {
        Platform::Mobile => None,
        Platform::Desktop => match report {
            UpdaterReport::Available(v) => Some(String::from_str(UPDATE_NOTICE_PREFIX).concat(v.as_str())),
            _ => None,
        },
    }
}

} // verus!
