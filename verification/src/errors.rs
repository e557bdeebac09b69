//! Error taxonomy of the loader: configuration errors, load errors, the
//! conversions between them, and the exact diagnostic line each one is
//! reported with.

use vstd::prelude::*;
use vstd::string::StringExecFns;

verus! {

/// Kind of an operating-system error, as far as the loader's control flow
/// cares: a missing file is told apart from everything else, and the other
/// kinds keep their diagnostic name only.
#[derive(Debug, Clone, PartialEq, Eq)]
pub enum OsErrorKind {
    NotFound,
    Other(String),
}

/// What can go wrong around the configuration file.
#[derive(Debug, Clone, PartialEq, Eq)]
pub enum DefaultAddressConfigError {
    /// The platform offers no suitable folder for storing configuration.
    NoSuitableFolder,
    /// No configuration file exists, so no default address is configured.
    NoConfiguredDefault,
    /// The file exists (or should) but could not be accessed properly.
    FileAccess(OsErrorKind),
}

/// A failure reported by the wire-format encoder.
#[derive(Debug, Clone, PartialEq, Eq)]
pub enum SendFailure {
    ArgsTooLong,
    BinaryTooLong,
    NetError(OsErrorKind),
}

/// What can go wrong while performing a load.
#[derive(Debug, Clone, PartialEq, Eq)]
pub enum NetLoadError {
    /// No explicit address was given and no default is configured.
    NoAddressPassed,
    /// The chosen address yields no transport-layer candidate.
    CantResolveAddress,
    /// The encoder refused the argument string as too long.
    ArgsTooLong,
    /// The encoder refused the executable payload as too long.
    BinaryTooLong,
    /// A generic I/O or network failure.
    IOError(OsErrorKind),
    /// A configuration error other than a missing default.
    OtherConfigError(DefaultAddressConfigError),
}

/// How a configuration error is seen from a load: a missing default becomes
/// "no address passed", every other configuration error is carried along
/// unchanged. The relabelling is deliberate; the two contexts report the
/// same underlying absence with different diagnostic text.
pub open spec fn net_error_of_config(e: DefaultAddressConfigError) -> NetLoadError {
    match e {
        DefaultAddressConfigError::NoConfiguredDefault => NetLoadError::NoAddressPassed,
        _ => NetLoadError::OtherConfigError(e),
    }
}

/// How an encoder failure is seen from a load: the two size limits map
/// one-to-one, a network failure becomes a generic I/O error.
pub open spec fn net_error_of_send(f: SendFailure) -> NetLoadError {
    match f {
        SendFailure::ArgsTooLong => NetLoadError::ArgsTooLong,
        SendFailure::BinaryTooLong => NetLoadError::BinaryTooLong,
        SendFailure::NetError(k) => NetLoadError::IOError(k),
    }
}

impl From<OsErrorKind> for DefaultAddressConfigError {
    fn from(r: OsErrorKind) -> DefaultAddressConfigError {
        DefaultAddressConfigError::FileAccess(r)
    }
}

impl vstd::std_specs::convert::FromSpecImpl<OsErrorKind> for DefaultAddressConfigError {
    open spec fn obeys_from_spec() -> bool {
        true
    }

    open spec fn from_spec(r: OsErrorKind) -> DefaultAddressConfigError {
        DefaultAddressConfigError::FileAccess(r)
    }
}

impl From<OsErrorKind> for NetLoadError {
    fn from(r: OsErrorKind) -> NetLoadError {
        NetLoadError::IOError(r)
    }
}

impl vstd::std_specs::convert::FromSpecImpl<OsErrorKind> for NetLoadError {
    open spec fn obeys_from_spec() -> bool {
        true
    }

    open spec fn from_spec(r: OsErrorKind) -> NetLoadError {
        NetLoadError::IOError(r)
    }
}

impl From<SendFailure> for NetLoadError {
    fn from(r: SendFailure) -> NetLoadError {
        match r {
            SendFailure::ArgsTooLong => NetLoadError::ArgsTooLong,
            SendFailure::BinaryTooLong => NetLoadError::BinaryTooLong,
            SendFailure::NetError(e) => NetLoadError::IOError(e),
        }
    }
}

impl vstd::std_specs::convert::FromSpecImpl<SendFailure> for NetLoadError {
    open spec fn obeys_from_spec() -> bool {
        true
    }

    open spec fn from_spec(r: SendFailure) -> NetLoadError {
        net_error_of_send(r)
    }
}

impl From<DefaultAddressConfigError> for NetLoadError {
    fn from(r: DefaultAddressConfigError) -> NetLoadError {
        match r {
            DefaultAddressConfigError::NoConfiguredDefault => NetLoadError::NoAddressPassed,
            _ => NetLoadError::OtherConfigError(r),
        }
    }
}

impl vstd::std_specs::convert::FromSpecImpl<DefaultAddressConfigError> for NetLoadError {
    open spec fn obeys_from_spec() -> bool {
        true
    }

    open spec fn from_spec(r: DefaultAddressConfigError) -> NetLoadError {
        net_error_of_config(r)
    }
}

/// Diagnostic name of an operating-system error kind.
pub open spec fn kind_text_spec(k: OsErrorKind) -> Seq<char> {
    match k {
        OsErrorKind::NotFound => "NotFound"@,
        OsErrorKind::Other(name) => name@,
    }
}

/// Diagnostic line for a configuration error.
pub open spec fn config_error_text_spec(e: DefaultAddressConfigError) -> Seq<char> {
    match e {
        DefaultAddressConfigError::NoSuitableFolder => "Could not find a folder for storing configuration, aborting."@,
        DefaultAddressConfigError::NoConfiguredDefault => "No configuration file found, aborting."@,
        DefaultAddressConfigError::FileAccess(k) => "Problem while accessing file ("@ + kind_text_spec(k) + ")"@,
    }
}

/// Diagnostic line for a load error.
pub open spec fn net_error_text_spec(e: NetLoadError) -> Seq<char> {
    match e {
        NetLoadError::NoAddressPassed => "No address argument, but not default address configured, aborting."@,
        NetLoadError::CantResolveAddress => "Cannot resolve passed address, aborting."@,
        NetLoadError::ArgsTooLong => "Arguments too long, aborting."@,
        NetLoadError::BinaryTooLong => "Binary file too long, aborting."@,
        NetLoadError::IOError(k) => "IO error, aborting. ("@ + kind_text_spec(k) + ")"@,
        NetLoadError::OtherConfigError(_) => "Configuration-related error, aborting."@,
    }
}

impl OsErrorKind {
    /// Diagnostic name of the kind.
    pub fn kind_text(&self) -> (r: String)
        ensures
            r@ == kind_text_spec(*self),
    {
        match self {
            OsErrorKind::NotFound => String::from_str("NotFound"),
            OsErrorKind::Other(name) => name.clone(),
        }
    }
}

impl DefaultAddressConfigError {
    /// The one-line diagnostic this error is reported with; the reporter
    /// prefixes it with "error: " and terminates the process.
    pub fn problem_message(&self) -> (r: String)
        ensures
            r@ == config_error_text_spec(*self),
    {
        match self {
            DefaultAddressConfigError::NoSuitableFolder => String::from_str(
                "Could not find a folder for storing configuration, aborting.",
            ),
            DefaultAddressConfigError::NoConfiguredDefault => String::from_str(
                "No configuration file found, aborting.",
            ),
            DefaultAddressConfigError::FileAccess(k) => {
                let name = k.kind_text();
                let mut s = String::from_str("Problem while accessing file (");
                s.append(name.as_str());
                s.append(")");
                s
            },
        }
    }
}

impl NetLoadError {
    /// The one-line diagnostic this error is reported with; the reporter
    /// prefixes it with "error: " and terminates the process.
    pub fn problem_message(&self) -> (r: String)
        ensures
            r@ == net_error_text_spec(*self),
    {
        match self {
            NetLoadError::NoAddressPassed => String::from_str(
                "No address argument, but not default address configured, aborting.",
            ),
            NetLoadError::CantResolveAddress => String::from_str(
                "Cannot resolve passed address, aborting.",
            ),
            NetLoadError::ArgsTooLong => String::from_str("Arguments too long, aborting."),
            NetLoadError::BinaryTooLong => String::from_str("Binary file too long, aborting."),
            NetLoadError::IOError(k) => {
                let name = k.kind_text();
                let mut s = String::from_str("IO error, aborting. (");
                s.append(name.as_str());
                s.append(")");
                s
            },
            NetLoadError::OtherConfigError(_) => String::from_str(
                "Configuration-related error, aborting.",
            ),
        }
    }
}

/// Law: the same missing-default condition is reported differently by
/// context. Seen from a load it becomes "no address passed"; queried
/// directly it stays "no configured default"; and the two diagnostic
/// lines differ.
pub proof fn lemma_context_sensitive_remap()
    ensures
        net_error_of_config(DefaultAddressConfigError::NoConfiguredDefault)
            == NetLoadError::NoAddressPassed,
        net_error_text_spec(NetLoadError::NoAddressPassed)
            != config_error_text_spec(DefaultAddressConfigError::NoConfiguredDefault),
{
    reveal_strlit("No address argument, but not default address configured, aborting.");
    reveal_strlit("No configuration file found, aborting.");
    assert(net_error_text_spec(NetLoadError::NoAddressPassed).len() != config_error_text_spec(
        DefaultAddressConfigError::NoConfiguredDefault,
    ).len());
}

} // verus!
