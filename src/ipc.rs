//! The typed command protocol between the UI surface and the host.
//!
//! The UI sends `{ id, name, ...args }`; the host answers `{ id, ok? | err? }`.
//! Commands form a closed set: each one has a variant, a classification
//! (inline or blocking) and a handler plan, never a string route.

use vstd::prelude::*;

use crate::strs::{has_prefix, starts_with};
use crate::updates::{releases_address, releases_url, UpdateInfo};

verus! {

/// Timeout in ms for one round trip; the UI enforces it.
pub const IPC_TIMEOUT_MS: u64 = 30_000;

/// File filter for dialogs: a readable name and its extensions (`["png", "jpg"]`).
#[derive(Debug, Clone)]
pub struct FileFilter {
    pub name: String,
    pub extensions: Vec<String>,
}

/// One configuration write: a key and the JSON value to store under it.
#[derive(Debug)]
pub struct ConfigPayload {
    pub key: String,
    pub value: serde_json::Value,
}

/// Commands that the UI can send.
#[derive(Debug)]
#[allow(inconsistent_fields)]
pub enum Command {
    ReadConfig,
    WriteConfig { data: ConfigPayload },
    Ping,
    OpenFileDialog,
    OpenFileDialogWithFilters { filters: Vec<FileFilter> },
    SaveFileDialog { default_name: Option<String>, filters: Option<Vec<FileFilter>> },
    OpenFolderDialog,
    GetVersion,
    CheckForUpdates,
    DownloadUpdate { url: String },
    InstallUpdate { path: String },
    OpenUrl { url: String },
    GetSystemInfo,
}

/// Incoming message: a correlation `id` and the command it carries.
#[derive(Debug)]
pub struct IpcEnvelope {
    pub id: String,
    pub command: Command,
}

/// Facts about the host reported by `GetSystemInfo`.
#[derive(Debug, Clone)]
pub struct SystemInfo {
    pub os: String,
    pub arch: String,
    pub family: String,
    pub hostname: String,
    pub app_version: String,
}

/// Success payload of a command.
#[derive(Debug)]
pub enum Reply {
    /// The whole stored configuration.
    Config(serde_json::Value),
    /// A configuration write was stored.
    Written,
    Pong,
    /// Path chosen in a dialog.
    Path(String),
    Version { version: String, releases_url: String },
    Update(UpdateInfo),
    /// Where a downloaded installer was saved.
    Downloaded { path: String },
    /// An installer was handed to the system.
    Launched,
    /// A URL was handed to the system.
    Opened,
    Info(SystemInfo),
}

/// Outgoing response correlated by `id`: exactly one of `ok` and `err` is set.
#[derive(Debug)]
pub struct IpcResponse {
    pub id: String,
    pub ok: Option<Reply>,
    pub err: Option<String>,
}

impl IpcResponse {
    /// Exactly one of `ok` and `err` is set.
    pub open spec fn well_formed(&self) -> bool {
        self.ok is Some != self.err is Some
    }

    /// A success response.
    pub fn ok(id: String, data: Reply) -> (r: Self)
        ensures
            r.id == id,
            r.ok == Some(data),
            r.err is None,
            r.well_formed(),
    {
        IpcResponse { id, ok: Some(data), err: None }
    }

    /// An error response.
    pub fn err(id: String, message: String) -> (r: Self)
        ensures
            r.id == id,
            r.ok is None,
            r.err == Some(message),
            r.well_formed(),
    {
        IpcResponse { id, ok: None, err: Some(message) }
    }

    /// The response that a handler's outcome calls for.
    pub fn from_outcome(id: String, outcome: Result<Reply, String>) -> (r: Self)
        ensures
            r.id == id,
            r.well_formed(),
            match outcome {
                Ok(data) => r.ok == Some(data),
                Err(message) => r.err == Some(message),
            },
    {
        match outcome {
            Ok(data) => IpcResponse::ok(id, data),
            Err(message) => IpcResponse::err(id, message),
        }
    }
}

/// Commands whose handlers may block: dialogs, network, process launch and
/// disk transfer. All others are answered inline.
pub open spec fn blocking(command: Command) -> bool {
    match command {
        Command::OpenFileDialog => true,
        Command::OpenFileDialogWithFilters { .. } => true,
        Command::SaveFileDialog { .. } => true,
        Command::OpenFolderDialog => true,
        Command::CheckForUpdates => true,
        Command::DownloadUpdate { .. } => true,
        Command::InstallUpdate { .. } => true,
        Command::OpenUrl { .. } => true,
        Command::ReadConfig => false,
        Command::WriteConfig { .. } => false,
        Command::Ping => false,
        Command::GetVersion => false,
        Command::GetSystemInfo => false,
    }
}

/// True for commands that may block; these run on a worker thread.
pub fn is_blocking_command(command: &Command) -> (r: bool)
    ensures
        r == blocking(*command),
{
    match command {
        Command::OpenFileDialog => true,
        Command::OpenFileDialogWithFilters { .. } => true,
        Command::SaveFileDialog { .. } => true,
        Command::OpenFolderDialog => true,
        Command::CheckForUpdates => true,
        Command::DownloadUpdate { .. } => true,
        Command::InstallUpdate { .. } => true,
        Command::OpenUrl { .. } => true,
        Command::ReadConfig => false,
        Command::WriteConfig { .. } => false,
        Command::Ping => false,
        Command::GetVersion => false,
        Command::GetSystemInfo => false,
    }
}

/// Message for an `OpenUrl` whose scheme is not allowed.
pub const URL_SCHEME_MESSAGE: &'static str = "URL must be http:// or https://";

/// Message for a `DownloadUpdate` whose URL is not `https://`.
pub const DOWNLOAD_SCHEME_MESSAGE: &'static str = "Download URL must be https://";

/// URLs that `OpenUrl` may hand to the system: `https://` and `http://` only.
pub open spec fn allowed_url(url: Seq<char>) -> bool {
    has_prefix(url, "https://"@) || has_prefix(url, "http://"@)
}

/// Whether `OpenUrl` may open `url`.
pub fn is_allowed_url(url: &str) -> (r: bool)
    ensures
        r == allowed_url(url@),
{
    starts_with(url, "https://") || starts_with(url, "http://")
}

/// The leaf work that a command calls for. Fields borrow from the command.
#[derive(Debug)]
pub enum Action<'a> {
    /// Answer at once with this payload.
    Respond(Reply),
    /// Answer with the stored configuration.
    ReadConfig,
    /// Store `value` under `key`, then answer `Written`.
    WriteConfig { key: &'a String, value: &'a serde_json::Value },
    /// Let the user pick a file, with these filters if any.
    PickFile { filters: Option<&'a Vec<FileFilter>> },
    /// Let the user choose where to save.
    SaveFile { default_name: &'a Option<String>, filters: &'a Option<Vec<FileFilter>> },
    /// Let the user pick a folder.
    PickFolder,
    /// Answer with the version and the releases page.
    ReportVersion,
    /// Fetch the latest release description and report on it.
    CheckForUpdates,
    /// Download an installer from an `https://` URL.
    Download { url: &'a String },
    /// Launch the installer at `path`.
    Install { path: &'a String },
    /// Hand an `http(s)://` URL to the system.
    Open { url: &'a String },
    /// Answer with facts about the host.
    ReportSystemInfo,
}

/// What each command calls for; policy rejections become error messages.
pub open spec fn plans<'a>(command: &'a Command, r: Result<Action<'a>, String>) -> bool {
    match *command {
        Command::ReadConfig => r matches Ok(Action::ReadConfig),
        Command::WriteConfig { data } => r matches Ok(Action::WriteConfig { key, value }) && *key
            == data.key && *value == data.value,
        Command::Ping => r matches Ok(Action::Respond(Reply::Pong)),
        Command::OpenFileDialog => r matches Ok(Action::PickFile { filters: None }),
        Command::OpenFileDialogWithFilters { filters } => r matches Ok(
            Action::PickFile { filters: Some(f) },
        ) && *f == filters,
        Command::SaveFileDialog { default_name, filters } => r matches Ok(
            Action::SaveFile { default_name: n, filters: f },
        ) && *n == default_name && *f == filters,
        Command::OpenFolderDialog => r matches Ok(Action::PickFolder),
        Command::GetVersion => r matches Ok(Action::ReportVersion),
        Command::CheckForUpdates => r matches Ok(Action::CheckForUpdates),
        Command::DownloadUpdate { url } => if has_prefix(url@, "https://"@) {
            r matches Ok(Action::Download { url: u }) && *u == url
        } else {
            r matches Err(e) && e@ == DOWNLOAD_SCHEME_MESSAGE@
        },
        Command::InstallUpdate { path } => r matches Ok(Action::Install { path: p }) && *p == path,
        Command::OpenUrl { url } => if allowed_url(url@) {
            r matches Ok(Action::Open { url: u }) && *u == url
        } else {
            r matches Err(e) && e@ == URL_SCHEME_MESSAGE@
        },
        Command::GetSystemInfo => r matches Ok(Action::ReportSystemInfo),
    }
}

/// Decides how one command is handled: the leaf work it needs, or the error
/// that policy gives. A URL that is not `http(s)://` is never opened, and a
/// download URL that is not `https://` is never fetched.
pub fn handle_command(command: &Command) -> (r: Result<Action<'_>, String>)
    ensures
        plans(command, r),
{
    match command {
        Command::ReadConfig => Ok(Action::ReadConfig),
        Command::WriteConfig { data } => Ok(Action::WriteConfig { key: &data.key, value: &data.value }),
        Command::Ping => Ok(Action::Respond(Reply::Pong)),
        Command::OpenFileDialog => Ok(Action::PickFile { filters: None }),
        Command::OpenFileDialogWithFilters { filters } => Ok(Action::PickFile { filters: Some(filters) }),
        Command::SaveFileDialog { default_name, filters } => Ok(Action::SaveFile { default_name, filters }),
        Command::OpenFolderDialog => Ok(Action::PickFolder),
        Command::GetVersion => Ok(Action::ReportVersion),
        Command::CheckForUpdates => Ok(Action::CheckForUpdates),
        Command::DownloadUpdate { url } => {
            if starts_with(url.as_str(), "https://") {
                Ok(Action::Download { url })
            } else {
                Err(String::from_str(DOWNLOAD_SCHEME_MESSAGE))
            }
        },
        Command::InstallUpdate { path } => Ok(Action::Install { path }),
        Command::OpenUrl { url } => {
            if is_allowed_url(url.as_str()) {
                Ok(Action::Open { url })
            } else {
                Err(String::from_str(URL_SCHEME_MESSAGE))
            }
        },
        Command::GetSystemInfo => Ok(Action::ReportSystemInfo),
    }
}

/// The opener is only ever asked for an `http://` or `https://` URL, and a
/// download only ever fetches an `https://` URL: whatever command produced
/// the plan, an `Open` carries an allowed URL and a `Download` an `https://`
/// one.
pub proof fn lemma_plans_respect_url_policy<'a>(command: &'a Command, r: Result<Action<'a>, String>)
    requires
        plans(command, r),
    ensures
        r matches Ok(Action::Open { url }) ==> allowed_url(url@),
        r matches Ok(Action::Download { url }) ==> has_prefix(url@, "https://"@),
{
}

/// Message when the user cancels a dialog.
pub const DIALOG_CANCELLED_MESSAGE: &'static str = "Dialog cancelled";

/// The outcome of a file or folder dialog: the chosen path, or an error when
/// the dialog was cancelled.
pub fn dialog_reply(path: Option<String>) -> (r: Result<Reply, String>)
    ensures
        match path {
            Some(p) => r == Ok::<Reply, String>(Reply::Path(p)),
            None => r matches Err(e) && e@ == DIALOG_CANCELLED_MESSAGE@,
        },
{
    match path {
        Some(p) => Ok(Reply::Path(p)),
        None => Err(String::from_str(DIALOG_CANCELLED_MESSAGE)),
    }
}

/// The `GetVersion` payload: the running version and the releases page of
/// `repo`.
pub fn version_reply(version: &str, repo: &str) -> (r: Reply)
    ensures
        r matches Reply::Version { version: v, releases_url: u } && v@ == version@ && u@
            == releases_address(repo@),
{
    Reply::Version { version: String::from_str(version), releases_url: releases_url(repo) }
}

/// Host name reported by `GetSystemInfo` when the environment names none.
pub const UNKNOWN_HOST: &'static str = "unknown";

/// The host name to report: the first of the two environment readings that
/// is present, else `unknown`.
pub fn hostname_or_unknown(computer_name: Option<String>, host_name: Option<String>) -> (r: String)
    ensures
        r@ == match computer_name {
            Some(c) => c@,
            None => match host_name {
                Some(h) => h@,
                None => UNKNOWN_HOST@,
            },
        },
{
    match computer_name {
        Some(c) => c,
        None => match host_name {
            Some(h) => h,
            None => String::from_str(UNKNOWN_HOST),
        },
    }
}

} // verus!
