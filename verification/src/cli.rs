//! The command-line program that the application installs for the user,
//! and how the installed copy is kept in step with the application.
//!
//! The installed program reports its version when asked. If that version
//! is older than the application's own, the install is run again. Reading
//! the environment, looking at files and running programs happen outside
//! this library; it decides what to do on what was found.

use crate::text::{trim, trimmed};
use vstd::prelude::*;
use vstd::string::StringExecFns;

verus! {

/// The directory below the user's home directory that the program is
/// installed into.
pub const CLI_INSTALL_DIR: &'static str = ".opencode/bin";

/// The file name of the installed program.
pub const CLI_BINARY_NAME: &'static str = "opencode";

/// The message with which `text` is refused as a semantic version; `None`
/// where `text` is a semantic version.
pub uninterp spec fn version_parse_error(text: Seq<char>) -> Option<Seq<char>>;

/// For two semantic versions: whether the one written `a` orders before
/// the one written `b`.
pub uninterp spec fn version_is_older(a: Seq<char>, b: Seq<char>) -> bool;

/// Parses `text` with `semver::Version::parse` and hands out the message
/// of the error, written with its `Display`, if there is one. The contract
/// only names that result.
#[verifier::external_body]
fn semver_parse_error(text: &str) -> (error: Option<String>)
    ensures
        match error {
            Some(e) => version_parse_error(text@) == Some(e@),
            None => version_parse_error(text@) is None,
        },
{
    semver::Version::parse(text).err().map(|e| e.to_string())
}

/// Parses both texts with `semver::Version::parse` and compares the
/// versions with `<`. The result is `None` exactly where one of the texts
/// is refused; otherwise the contract names what the comparison gives.
#[verifier::external_body]
fn semver_is_older(a: &str, b: &str) -> (older: Option<bool>)
    ensures
        match older {
            Some(o) => version_parse_error(a@) is None && version_parse_error(b@) is None && o
                == version_is_older(a@, b@),
            None => version_parse_error(a@) is Some || version_parse_error(b@) is Some,
        },
{
    match (semver::Version::parse(a), semver::Version::parse(b)) {
        (Ok(x), Ok(y)) => Some(x < y),
        _ => None,
    }
}

/// A semantic version.
#[derive(Debug)]
pub struct Version {
    text: String,
}

impl View for Version {
    type V = Seq<char>;

    /// The text of the version.
    closed spec fn view(&self) -> Seq<char> {
        self.text@
    }
}

impl Version {
    #[verifier::type_invariant]
    spec fn is_version(self) -> bool {
        version_parse_error(self.text@) is None
    }

    /// Reads a semantic version. A text that is none is refused with the
    /// parser's message.
    pub fn parse(text: &str) -> (version: Result<Version, String>)
        ensures
            match version {
                Ok(v) => version_parse_error(text@) is None && v@ == text@,
                Err(message) => version_parse_error(text@) == Some(message@),
            },
    {
        match semver_parse_error(text) {
            Some(message) => Err(message),
            None => Ok(Version { text: String::from_str(text) }),
        }
    }

    /// The text of the version.
    pub fn as_str(&self) -> (text: &str)
        ensures
            text@ == self@,
    {
        self.text.as_str()
    }

    /// Tells whether this version orders before `other`.
    pub fn is_older_than(&self, other: &Version) -> (older: bool)
        ensures
            older == version_is_older(self@, other@),
    {
        proof {
            use_type_invariant(self);
            use_type_invariant(other);
        }
        match semver_is_older(self.text.as_str(), other.text.as_str()) {
            Some(older) => older,
            None => false,
        }
    }
}

/// Whether the program counts as installed: the place where it would be
/// must be known, and it must be there. `found` is `None` where the place
/// is not known, else whether the program is there.
pub open spec fn installed(found: Option<bool>) -> bool {
    match found {
        Some(there) => there,
        None => false,
    }
}

/// Tells whether the program is installed, given what looking for it
/// gave: `None` where the place to look at is not known, else whether the
/// program is there.
pub fn is_cli_installed(found: Option<bool>) -> (yes: bool)
    ensures
        yes == installed(found),
{
    match found {
        Some(there) => there,
        None => false,
    }
}

/// Why the installed program is left as it is.
#[derive(Clone, Copy, Debug, PartialEq, Eq, Structural)]
pub enum SkipReason {
    /// The application is a debug build.
    DebugBuild,
    /// The program is not installed.
    NotInstalled,
    /// The installed program is as new as the application.
    UpToDate,
}

/// The first decision of a sync.
#[derive(Debug, PartialEq, Eq)]
pub enum SyncPlan {
    /// Leave the installed program as it is.
    Skip(SkipReason),
    /// Ask the program at this path for its version.
    QueryVersion { path: String },
}

/// The mathematical value of a [`SyncPlan`].
pub enum SyncPlanView {
    Skip(SkipReason),
    QueryVersion { path: Seq<char> },
}

impl View for SyncPlan {
    type V = SyncPlanView;

    open spec fn view(&self) -> SyncPlanView {
        match self {
            SyncPlan::Skip(reason) => SyncPlanView::Skip(*reason),
            SyncPlan::QueryVersion { path } => SyncPlanView::QueryVersion { path: path@ },
        }
    }
}

/// What to do once the version is known.
#[derive(Clone, Copy, Debug, PartialEq, Eq, Structural)]
pub enum SyncAction {
    /// Leave the installed program as it is.
    Skip(SkipReason),
    /// Run the install again.
    Reinstall,
}

/// How asking the installed program for its version ended.
#[derive(Debug)]
pub enum VersionQuery {
    /// The program could not be run; the text says why.
    NotRun(String),
    /// The program ran and reported a failure.
    Failed,
    /// The program ran and wrote this to its standard output.
    Output(String),
}

/// The mathematical value of a [`VersionQuery`].
pub enum VersionQueryView {
    NotRun(Seq<char>),
    Failed,
    Output(Seq<char>),
}

impl View for VersionQuery {
    type V = VersionQueryView;

    open spec fn view(&self) -> VersionQueryView {
        match self {
            VersionQuery::NotRun(reason) => VersionQueryView::NotRun(reason@),
            VersionQuery::Failed => VersionQueryView::Failed,
            VersionQuery::Output(text) => VersionQueryView::Output(text@),
        }
    }
}

/// The first decision of a sync: nothing is done for a debug build, nor
/// where the program is not installed; otherwise the installed program is
/// asked for its version, which needs its path.
pub open spec fn planned_sync(
    debug_build: bool,
    is_installed: bool,
    install_path: Option<Seq<char>>,
) -> Result<SyncPlanView, Seq<char>> {
    if debug_build {
        Ok(SyncPlanView::Skip(SkipReason::DebugBuild))
    } else if !is_installed {
        Ok(SyncPlanView::Skip(SkipReason::NotInstalled))
    } else {
        match install_path {
            Some(path) => Ok(SyncPlanView::QueryVersion { path }),
            None => Err("Could not determine CLI install path"@),
        }
    }
}

/// The message for a reported version that is no semantic version.
pub open spec fn unreadable_version_message(reported: Seq<char>, reason: Seq<char>) -> Seq<char> {
    "Failed to parse CLI version '"@ + reported + "': "@ + reason
}

/// How the reported version compares with the application's: whether it
/// is older, or the message with which it is refused as a version.
pub open spec fn version_check(reported: Seq<char>, app_version: Seq<char>) -> Result<
    bool,
    Seq<char>,
> {
    match version_parse_error(reported) {
        Some(reason) => Err(reason),
        None => Ok(version_is_older(reported, app_version)),
    }
}

/// What to do on a reported version, given how it compares with the
/// application's: a report that is no version is an error, an older
/// version is installed again, any other is left.
pub open spec fn sync_for(reported: Seq<char>, check: Result<bool, Seq<char>>) -> Result<
    SyncAction,
    Seq<char>,
> {
    match check {
        Err(reason) => Err(unreadable_version_message(reported, reason)),
        Ok(older) => if older {
            Ok(SyncAction::Reinstall)
        } else {
            Ok(SyncAction::Skip(SkipReason::UpToDate))
        },
    }
}

/// What to do on the answer of the installed program: a program that
/// could not be run or failed is an error; otherwise its output, without
/// the white space around it, is the reported version.
pub open spec fn decided_sync(
    query: VersionQueryView,
    app_version: Seq<char>,
) -> Result<SyncAction, Seq<char>> {
    match query {
        VersionQueryView::NotRun(reason) => Err("Failed to get CLI version: "@ + reason),
        VersionQueryView::Failed => Err("Failed to get CLI version"@),
        VersionQueryView::Output(text) => sync_for(
            trimmed(text),
            version_check(trimmed(text), app_version),
        ),
    }
}

/// The view of a result whose error is a text.
pub open spec fn text_error_view<T>(result: Result<T, String>) -> Result<T, Seq<char>> {
    match result {
        Ok(value) => Ok(value),
        Err(message) => Err(message@),
    }
}

/// Makes the first decision of a sync.
pub fn plan_sync(debug_build: bool, is_installed: bool, install_path: Option<String>) -> (plan:
    Result<SyncPlan, String>)
    ensures
        match plan {
            Ok(p) => planned_sync(
                debug_build,
                is_installed,
                match install_path {
                    Some(path) => Some(path@),
                    None => None,
                },
            ) == Ok::<SyncPlanView, Seq<char>>(p@),
            Err(message) => planned_sync(
                debug_build,
                is_installed,
                match install_path {
                    Some(path) => Some(path@),
                    None => None,
                },
            ) == Err::<SyncPlanView, Seq<char>>(message@),
        },
{
    if debug_build {
        Ok(SyncPlan::Skip(SkipReason::DebugBuild))
    } else if !is_installed {
        Ok(SyncPlan::Skip(SkipReason::NotInstalled))
    } else {
        match install_path {
            Some(path) => Ok(SyncPlan::QueryVersion { path }),
            None => Err(String::from_str("Could not determine CLI install path")),
        }
    }
}

/// Decides what to do on a reported version, given how it compares with
/// the application's.
pub fn sync_action(reported: &str, check: Result<bool, String>) -> (action: Result<
    SyncAction,
    String,
>)
    ensures
        text_error_view(action) == sync_for(reported@, text_error_view(check)),
{
    match check {
        Err(reason) => {
            let mut message = String::from_str("Failed to parse CLI version '");
            message.append(reported);
            message.append("': ");
            message.append(reason.as_str());
            Err(message)
        },
        Ok(older) => if older {
            Ok(SyncAction::Reinstall)
        } else {
            Ok(SyncAction::Skip(SkipReason::UpToDate))
        },
    }
}

/// Compares a reported version with the application's.
pub fn check_version(reported: &str, app_version: &Version) -> (check: Result<bool, String>)
    ensures
        text_error_view(check) == version_check(reported@, app_version@),
{
    match Version::parse(reported) {
        Err(reason) => Err(reason),
        Ok(cli_version) => Ok(cli_version.is_older_than(app_version)),
    }
}

/// Decides what to do on the answer of the installed program.
pub fn sync_cli(query: VersionQuery, app_version: &Version) -> (action: Result<SyncAction, String>)
    ensures
        text_error_view(action) == decided_sync(query@, app_version@),
{
    match query {
        VersionQuery::NotRun(reason) => {
            let mut message = String::from_str("Failed to get CLI version: ");
            message.append(reason.as_str());
            Err(message)
        },
        VersionQuery::Failed => Err(String::from_str("Failed to get CLI version")),
        VersionQuery::Output(text) => {
            let reported = trim(text.as_str());
            let check = check_version(reported.as_str(), app_version);
            sync_action(reported.as_str(), check)
        },
    }
}

/// Why an install did not happen or did not succeed.
#[derive(Debug, PartialEq, Eq)]
pub enum InstallError {
    /// This platform has no install.
    Unsupported,
    /// The binary to install is missing.
    SidecarMissing,
    /// The install script could not be written.
    WriteScript(String),
    /// The install script could not be made executable.
    SetPermissions(String),
    /// The install script could not be run.
    RunScript(String),
    /// The install script failed; the text is what it wrote to its
    /// standard error.
    ScriptFailed(String),
    /// The place that the program was installed to is not known.
    NoInstallPath,
}

/// The mathematical value of an [`InstallError`].
pub enum InstallErrorView {
    Unsupported,
    SidecarMissing,
    WriteScript(Seq<char>),
    SetPermissions(Seq<char>),
    RunScript(Seq<char>),
    ScriptFailed(Seq<char>),
    NoInstallPath,
}

impl View for InstallError {
    type V = InstallErrorView;

    open spec fn view(&self) -> InstallErrorView {
        match self {
            InstallError::Unsupported => InstallErrorView::Unsupported,
            InstallError::SidecarMissing => InstallErrorView::SidecarMissing,
            InstallError::WriteScript(e) => InstallErrorView::WriteScript(e@),
            InstallError::SetPermissions(e) => InstallErrorView::SetPermissions(e@),
            InstallError::RunScript(e) => InstallErrorView::RunScript(e@),
            InstallError::ScriptFailed(e) => InstallErrorView::ScriptFailed(e@),
            InstallError::NoInstallPath => InstallErrorView::NoInstallPath,
        }
    }
}

/// The text shown for an install error.
pub open spec fn install_error_message(error: InstallErrorView) -> Seq<char> {
    match error {
        InstallErrorView::Unsupported => "CLI installation is only supported on macOS & Linux"@,
        InstallErrorView::SidecarMissing => "Sidecar binary not found"@,
        InstallErrorView::WriteScript(e) => "Failed to write install script: "@ + e,
        InstallErrorView::SetPermissions(e) => "Failed to set script permissions: "@ + e,
        InstallErrorView::RunScript(e) => "Failed to run install script: "@ + e,
        InstallErrorView::ScriptFailed(e) => "Install script failed: "@ + e,
        InstallErrorView::NoInstallPath => "Could not determine install path"@,
    }
}

fn labelled(label: &str, detail: &str) -> (text: String)
    ensures
        text@ == label@ + detail@,
{
    let mut text = String::from_str(label);
    text.append(detail);
    text
}

impl InstallError {
    /// The text shown for this error.
    pub fn message(&self) -> (text: String)
        ensures
            text@ == install_error_message(self@),
    {
        match self {
            InstallError::Unsupported => String::from_str(
                "CLI installation is only supported on macOS & Linux",
            ),
            InstallError::SidecarMissing => String::from_str("Sidecar binary not found"),
            InstallError::WriteScript(e) => labelled("Failed to write install script: ", e.as_str()),
            InstallError::SetPermissions(e) => labelled(
                "Failed to set script permissions: ",
                e.as_str(),
            ),
            InstallError::RunScript(e) => labelled("Failed to run install script: ", e.as_str()),
            InstallError::ScriptFailed(e) => labelled("Install script failed: ", e.as_str()),
            InstallError::NoInstallPath => String::from_str("Could not determine install path"),
        }
    }
}

/// Whether an install may start: only on a Unix platform, and only where
/// the binary to install exists.
pub open spec fn install_allowed(unix: bool, sidecar_exists: bool) -> Result<(), InstallErrorView> {
    if !unix {
        Err(InstallErrorView::Unsupported)
    } else if !sidecar_exists {
        Err(InstallErrorView::SidecarMissing)
    } else {
        Ok(())
    }
}

/// Decides whether an install may start.
pub fn check_install(unix: bool, sidecar_exists: bool) -> (allowed: Result<(), InstallError>)
    ensures
        match allowed {
            Ok(()) => install_allowed(unix, sidecar_exists) is Ok,
            Err(e) => install_allowed(unix, sidecar_exists) == Err::<(), InstallErrorView>(e@),
        },
{
    if !unix {
        Err(InstallError::Unsupported)
    } else if !sidecar_exists {
        Err(InstallError::SidecarMissing)
    } else {
        Ok(())
    }
}

/// The result of an install whose script ran: the place that the program
/// was installed to if the script succeeded and that place is known.
/// `stderr` is what the script wrote to its standard error.
pub open spec fn install_outcome(
    succeeded: bool,
    stderr: Seq<char>,
    install_path: Option<Seq<char>>,
) -> Result<Seq<char>, InstallErrorView> {
    if !succeeded {
        Err(InstallErrorView::ScriptFailed(stderr))
    } else {
        match install_path {
            Some(path) => Ok(path),
            None => Err(InstallErrorView::NoInstallPath),
        }
    }
}

/// Reads the result of an install whose script ran.
pub fn install_cli(succeeded: bool, stderr: String, install_path: Option<String>) -> (result: Result<
    String,
    InstallError,
>)
    ensures
        match result {
            Ok(path) => install_outcome(
                succeeded,
                stderr@,
                match install_path {
                    Some(p) => Some(p@),
                    None => None,
                },
            ) == Ok::<Seq<char>, InstallErrorView>(path@),
            Err(e) => install_outcome(
                succeeded,
                stderr@,
                match install_path {
                    Some(p) => Some(p@),
                    None => None,
                },
            ) == Err::<Seq<char>, InstallErrorView>(e@),
        },
{
    if !succeeded {
        Err(InstallError::ScriptFailed(stderr))
    } else {
        match install_path {
            Some(path) => Ok(path),
            None => Err(InstallError::NoInstallPath),
        }
    }
}

} // verus!
