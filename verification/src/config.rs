//! Config Store: a single default device address persisted in one file
//! under the platform's per-user configuration directory.
//!
//! The file operations themselves are performed by the calling binary; the
//! functions here decide where the file lives and what each filesystem
//! outcome means. The file's contents are opaque: whatever bytes are
//! written are returned unmodified on a read, trailing whitespace included.

use vstd::prelude::*;
use vstd::string::StringExecFns;

use crate::errors::DefaultAddressConfigError;
use crate::errors::OsErrorKind;

verus! {

/// Name of the configuration file inside the per-user configuration
/// directory.
pub const CONFIG_FILE_NAME: &'static str = "riiload_config";

/// What the filesystem reported when the configuration file was read.
#[derive(Debug, Clone, PartialEq, Eq)]
pub enum ReadOutcome {
    /// The file was read; its exact contents, verbatim.
    Content(String),
    /// The read failed with this kind of error.
    Failed(OsErrorKind),
}

/// What the filesystem reported when the configuration file was written.
#[derive(Debug, Clone, PartialEq, Eq)]
pub enum WriteOutcome {
    /// The file was created or truncated and the bytes were written.
    Done,
    /// The write failed with this kind of error.
    Failed(OsErrorKind),
}

/// What the filesystem reported when the configuration file was removed.
#[derive(Debug, Clone, PartialEq, Eq)]
pub enum DeleteOutcome {
    /// The file existed and was removed.
    Done,
    /// The removal failed with this kind of error.
    Failed(OsErrorKind),
}

/// Relies on dirs::config_dir for the platform's per-user configuration
/// directory, if the platform offers one. The result depends on the
/// environment, so nothing is promised of it.
#[verifier::external_body]
fn platform_config_dir() -> (r: Option<String>) {
    dirs::config_dir().map(|p| p.to_string_lossy().into_owned())
}

/// The configuration file path inside a given directory: the directory
/// with the fixed file name appended.
pub open spec fn config_path_of(dir: Seq<char>) -> Seq<char> {
    dir + "/"@ + "riiload_config"@
}

/// A path some directory of which holds the configuration file name.
pub open spec fn is_config_path(p: Seq<char>) -> bool {
    exists|d: Seq<char>| p == #[trigger] config_path_of(d)
}

/// Appends the fixed configuration file name to a directory.
pub fn config_path_in(dir: &str) -> (r: String)
    ensures
        r@ == config_path_of(dir@),
{
    let mut s = String::from_str(dir);
    s.append("/");
    s.append(CONFIG_FILE_NAME);
    s
}

/// Computes the configuration file location: the platform's per-user
/// configuration directory with the fixed file name appended. Fails
/// exactly when the platform offers no suitable directory.
pub fn get_config_path() -> (r: Result<String, DefaultAddressConfigError>)
    ensures
        r matches Ok(p) ==> is_config_path(p@),
        r matches Err(e) ==> e == DefaultAddressConfigError::NoSuitableFolder,
{
    match platform_config_dir() {
        Some(c) => {
            let p = config_path_in(c.as_str());
            proof {
                assert(p@ == config_path_of(c@));
            }
            Ok(p)
        },
        None => Err(DefaultAddressConfigError::NoSuitableFolder),
    }
}

/// The meaning of a read of the configuration file: its contents verbatim
/// when the read succeeded; a missing file means no default is configured;
/// any other failure is a file-access error.
pub open spec fn read_default_spec(read: ReadOutcome) -> Result<
    String,
    DefaultAddressConfigError,
> {
    match read {
        ReadOutcome::Content(s) => Ok(s),
        ReadOutcome::Failed(OsErrorKind::NotFound) => Err(
            DefaultAddressConfigError::NoConfiguredDefault,
        ),
        ReadOutcome::Failed(k) => Err(DefaultAddressConfigError::FileAccess(k)),
    }
}

/// Interprets what the filesystem reported when the configuration file was
/// read at the path of `get_config_path`.
pub fn get_default_address(read: ReadOutcome) -> (r: Result<String, DefaultAddressConfigError>)
    ensures
        r == read_default_spec(read),
{
    match read {
        ReadOutcome::Content(s) => Ok(s),
        ReadOutcome::Failed(k) => match k {
            OsErrorKind::NotFound => Err(DefaultAddressConfigError::NoConfiguredDefault),
            _ => Err(DefaultAddressConfigError::FileAccess(k)),
        },
    }
}

/// The meaning of a write of the configuration file: success when the
/// bytes were stored, a file-access error otherwise.
pub open spec fn write_default_spec(write: WriteOutcome) -> Result<
    (),
    DefaultAddressConfigError,
> {
    match write {
        WriteOutcome::Done => Ok(()),
        WriteOutcome::Failed(k) => Err(DefaultAddressConfigError::FileAccess(k)),
    }
}

/// Interprets what the filesystem reported when the address bytes were
/// written verbatim to the file at the path of `get_config_path`.
pub fn set_default_address(write: WriteOutcome) -> (r: Result<(), DefaultAddressConfigError>)
    ensures
        r == write_default_spec(write),
{
    match write {
        WriteOutcome::Done => Ok(()),
        WriteOutcome::Failed(k) => Err(DefaultAddressConfigError::FileAccess(k)),
    }
}

/// The meaning of a removal of the configuration file: a missing file
/// means no default was configured, and is a failure, not a no-op
/// success; any other failure is a file-access error.
pub open spec fn delete_default_spec(delete: DeleteOutcome) -> Result<
    (),
    DefaultAddressConfigError,
> {
    match delete {
        DeleteOutcome::Done => Ok(()),
        DeleteOutcome::Failed(OsErrorKind::NotFound) => Err(
            DefaultAddressConfigError::NoConfiguredDefault,
        ),
        DeleteOutcome::Failed(k) => Err(DefaultAddressConfigError::FileAccess(k)),
    }
}

/// Interprets what the filesystem reported when the configuration file was
/// removed at the path of `get_config_path`.
pub fn remove_config_files(delete: DeleteOutcome) -> (r: Result<(), DefaultAddressConfigError>)
    ensures
        r == delete_default_spec(delete),
{
    match delete {
        DeleteOutcome::Done => Ok(()),
        DeleteOutcome::Failed(k) => match k {
            OsErrorKind::NotFound => Err(DefaultAddressConfigError::NoConfiguredDefault),
            _ => Err(DefaultAddressConfigError::FileAccess(k)),
        },
    }
}

/// Model of the configuration file itself: present with its exact
/// contents, or absent. The store keeps at most this one file.
pub open spec fn stored_after_write(address: String) -> Option<String> {
    Some(address)
}

/// What a read reports of a modelled file: the contents verbatim when the
/// file is present, a not-found error when it is absent.
pub open spec fn read_outcome_of(file: Option<String>) -> ReadOutcome {
    match file {
        Some(s) => ReadOutcome::Content(s),
        None => ReadOutcome::Failed(OsErrorKind::NotFound),
    }
}

/// What a removal reports of a modelled file: done when the file is
/// present, a not-found error when it is absent.
pub open spec fn delete_outcome_of(file: Option<String>) -> DeleteOutcome {
    match file {
        Some(_) => DeleteOutcome::Done,
        None => DeleteOutcome::Failed(OsErrorKind::NotFound),
    }
}

/// Law: writing a default address and then reading it back yields exactly
/// the written string, byte for byte, incidental whitespace included.
pub proof fn lemma_write_read_round_trip(address: String)
    ensures
        read_default_spec(read_outcome_of(stored_after_write(address)))
            == Ok::<String, DefaultAddressConfigError>(address),
{
}

/// Law: deleting the configuration file when none was ever written fails
/// with "no configured default", not with a silent success.
pub proof fn lemma_delete_without_write_fails()
    ensures
        delete_default_spec(delete_outcome_of(None::<String>)) == Err::<
            (),
            DefaultAddressConfigError,
        >(DefaultAddressConfigError::NoConfiguredDefault),
{
}

} // verus!
