//! Load Orchestrator: drives one send of an executable to the device.
//!
//! The orchestration is a state machine over plain values. Each step takes
//! the outcome of the previous outside operation (a file read, a name
//! resolution, a connect, the encoder's report) and decides the next
//! action; the calling binary performs the actions and feeds the outcomes
//! back. Every decision of the load -- which address, which port, which
//! compression level, which error -- is made and verified here.

use vstd::pervasive::unreached;
use vstd::prelude::*;
use vstd::string::StringExecFns;

use crate::config::ReadOutcome;
use crate::config::get_default_address;
use crate::config::read_default_spec;
use crate::errors::DefaultAddressConfigError;
use crate::errors::NetLoadError;
use crate::errors::OsErrorKind;
use crate::errors::SendFailure;
use crate::errors::net_error_of_config;
use crate::errors::net_error_of_send;

verus! {

/// Compression level handed to the wire-format encoder when compression is
/// requested: a fixed speed/ratio compromise against the device's receive
/// bottleneck.
pub const DEFAULT_COMPRESSION_LEVEL: u8 = 5;

/// The fixed port the device's loader listens on; never configurable. The
/// resolution target appends its decimal digits to the host.
pub const TCP_PORT: u16 = 4299;

/// One load as requested: which file, an optional explicit address, and
/// whether to compress. Built once per invocation, never persisted.
#[derive(Debug, Clone, PartialEq, Eq)]
pub struct LoadRequest {
    pub executable_path: String,
    pub address_override: Option<String>,
    pub compression_enabled: bool,
}

/// Where one load stands. The executable's bytes are carried along from
/// the moment they are read until they are handed to the encoder.
#[derive(Debug, PartialEq, Eq)]
pub enum LoadState {
    /// Waiting for the executable file's bytes.
    ReadingExecutable { address_override: Option<String>, compression_enabled: bool },
    /// Waiting for the configuration file's location.
    LookingUpConfigPath { payload: Vec<u8>, compression_enabled: bool },
    /// Waiting for the configuration file's contents.
    ReadingConfigFile { payload: Vec<u8>, compression_enabled: bool },
    /// Waiting for the target to resolve to a transport address.
    Resolving { payload: Vec<u8>, compression_enabled: bool },
    /// Waiting for the connection to the first resolved candidate.
    Connecting { payload: Vec<u8>, compression_enabled: bool },
    /// Waiting for the encoder's report.
    Sending,
    /// The load is over, one way or the other.
    Done,
}

/// What the resolution of the target string reported.
#[derive(Debug, Clone, PartialEq, Eq)]
pub enum ResolutionOutcome {
    /// At least one candidate; the caller keeps the first one.
    FirstCandidate,
    /// The resolution succeeded but returned no candidate.
    NoCandidates,
    /// The resolution call itself failed.
    LookupFailed,
}

/// What the wire-format encoder reported.
#[derive(Debug, Clone, PartialEq, Eq)]
pub enum SendOutcome {
    /// The device received the complete framed payload.
    Delivered,
    /// The encoder failed; nothing was partially delivered worth keeping.
    Failed(SendFailure),
}

/// The outcome of an outside operation, fed back into the machine.
#[derive(Debug, PartialEq, Eq)]
pub enum LoadEvent {
    /// The executable file was read fully into memory.
    ExecutableRead(Vec<u8>),
    /// The executable file could not be read.
    ExecutableReadFailed(OsErrorKind),
    /// The configuration file's location was computed (or not).
    ConfigPathLookedUp(Result<String, DefaultAddressConfigError>),
    /// The configuration file was read (or not).
    ConfigFileRead(ReadOutcome),
    /// The target string was resolved (or not).
    Resolved(ResolutionOutcome),
    /// The connection to the first candidate is open.
    Connected,
    /// The connection attempt failed.
    ConnectFailed(OsErrorKind),
    /// The encoder ran and reported.
    Sent(SendOutcome),
}

/// What the caller must do next.
#[derive(Debug, PartialEq, Eq)]
pub enum LoadAction {
    /// Read this file fully into memory.
    ReadExecutable(String),
    /// Compute the configuration file's location.
    LookupConfigPath,
    /// Read the configuration file at this path.
    ReadConfigFile(String),
    /// Resolve this "host:port" string to transport addresses.
    Resolve(String),
    /// Open a blocking connection to the first resolved candidate; no
    /// retry, no fallback to further candidates.
    Connect,
    /// Hand the open connection, these bytes, this argument string and
    /// this compression level to the encoder.
    Send { payload: Vec<u8>, arguments: String, compression: Option<u8> },
    /// Report this result and stop: nothing further will be asked.
    Stop(Result<(), NetLoadError>),
}

/// The string handed to name resolution: the host with the fixed port's
/// decimal digits appended.
pub open spec fn target_text(host: Seq<char>) -> Seq<char> {
    host + ":4299"@
}

/// Builds the resolution target for a host.
pub fn target_of(host: &str) -> (r: String)
    ensures
        r@ == target_text(host@),
{
    let mut s = String::from_str(host);
    s.append(":4299");
    s
}

/// The compression level handed to the encoder: the fixed default level
/// when compression is enabled, none otherwise.
pub open spec fn compression_choice_spec(enabled: bool) -> Option<u8> {
    if enabled {
        Some(DEFAULT_COMPRESSION_LEVEL)
    } else {
        None
    }
}

/// Chooses the compression level for the encoder.
pub fn compression_choice(enabled: bool) -> (r: Option<u8>)
    ensures
        r == compression_choice_spec(enabled),
{
    if enabled {
        Some(DEFAULT_COMPRESSION_LEVEL)
    } else {
        None
    }
}

/// Which events a state accepts: exactly the outcomes of the action the
/// machine asked for in that state.
pub open spec fn step_allowed(s: LoadState, e: LoadEvent) -> bool {
    match (s, e) {
        (LoadState::ReadingExecutable { .. }, LoadEvent::ExecutableRead(_)) => true,
        (LoadState::ReadingExecutable { .. }, LoadEvent::ExecutableReadFailed(_)) => true,
        (LoadState::LookingUpConfigPath { .. }, LoadEvent::ConfigPathLookedUp(_)) => true,
        (LoadState::ReadingConfigFile { .. }, LoadEvent::ConfigFileRead(_)) => true,
        (LoadState::Resolving { .. }, LoadEvent::Resolved(_)) => true,
        (LoadState::Connecting { .. }, LoadEvent::Connected) => true,
        (LoadState::Connecting { .. }, LoadEvent::ConnectFailed(_)) => true,
        (LoadState::Sending, LoadEvent::Sent(_)) => true,
        _ => false,
    }
}

/// The transition relation of the load: from state `s`, on event `e`, the
/// machine moves to `s2` and asks for `a`. Strings the machine builds (the
/// resolution target, the empty argument string) are pinned by their
/// contents.
pub open spec fn load_steps_to(s: LoadState, e: LoadEvent, s2: LoadState, a: LoadAction) -> bool {
    match (s, e) {
        (
            LoadState::ReadingExecutable { address_override, compression_enabled },
            LoadEvent::ExecutableRead(payload),
        ) => match address_override {
            Some(host) => s2 == (LoadState::Resolving { payload, compression_enabled })
                && (a matches LoadAction::Resolve(t) && t@ == target_text(host@)),
            None => s2 == (LoadState::LookingUpConfigPath { payload, compression_enabled })
                && a == LoadAction::LookupConfigPath,
        },
        (LoadState::ReadingExecutable { .. }, LoadEvent::ExecutableReadFailed(k)) => s2
            == LoadState::Done && a == LoadAction::Stop(Err(NetLoadError::IOError(k))),
        (
            LoadState::LookingUpConfigPath { payload, compression_enabled },
            LoadEvent::ConfigPathLookedUp(lookup),
        ) => match lookup {
            Ok(path) => s2 == (LoadState::ReadingConfigFile { payload, compression_enabled })
                && a == LoadAction::ReadConfigFile(path),
            Err(cerr) => s2 == LoadState::Done
                && a == LoadAction::Stop(Err(net_error_of_config(cerr))),
        },
        (
            LoadState::ReadingConfigFile { payload, compression_enabled },
            LoadEvent::ConfigFileRead(read),
        ) => match read_default_spec(read) {
            Ok(host) => s2 == (LoadState::Resolving { payload, compression_enabled })
                && (a matches LoadAction::Resolve(t) && t@ == target_text(host@)),
            Err(cerr) => s2 == LoadState::Done
                && a == LoadAction::Stop(Err(net_error_of_config(cerr))),
        },
        (LoadState::Resolving { payload, compression_enabled }, LoadEvent::Resolved(out)) => match out {
            ResolutionOutcome::FirstCandidate => s2 == (LoadState::Connecting {
                payload,
                compression_enabled,
            }) && a == LoadAction::Connect,
            _ => s2 == LoadState::Done
                && a == LoadAction::Stop(Err(NetLoadError::CantResolveAddress)),
        },
        (LoadState::Connecting { payload, compression_enabled }, LoadEvent::Connected) => s2
            == LoadState::Sending && (a matches LoadAction::Send {
            payload: p,
            arguments,
            compression,
        } && p == payload && arguments@ == Seq::<char>::empty() && compression
            == compression_choice_spec(compression_enabled)),
        (LoadState::Connecting { .. }, LoadEvent::ConnectFailed(k)) => s2 == LoadState::Done && a
            == LoadAction::Stop(Err(NetLoadError::IOError(k))),
        (LoadState::Sending, LoadEvent::Sent(out)) => match out {
            SendOutcome::Delivered => s2 == LoadState::Done && a == LoadAction::Stop(Ok(())),
            SendOutcome::Failed(f) => s2 == LoadState::Done
                && a == LoadAction::Stop(Err(net_error_of_send(f))),
        },
        _ => false,
    }
}

/// Begins a load: the machine first wants the executable's bytes in
/// memory, before any network activity.
pub fn start_load(request: LoadRequest) -> (r: (LoadState, LoadAction))
    ensures
        r.0 == (LoadState::ReadingExecutable {
            address_override: request.address_override,
            compression_enabled: request.compression_enabled,
        }),
        r.1 == LoadAction::ReadExecutable(request.executable_path),
{
    let LoadRequest { executable_path, address_override, compression_enabled } = request;
    (
        LoadState::ReadingExecutable { address_override, compression_enabled },
        LoadAction::ReadExecutable(executable_path),
    )
}

/// Whether the machine in this state accepts this event.
pub fn event_fits(state: &LoadState, event: &LoadEvent) -> (b: bool)
    ensures
        b == step_allowed(*state, *event),
{
    match (state, event) {
        (LoadState::ReadingExecutable { .. }, LoadEvent::ExecutableRead(_)) => true,
        (LoadState::ReadingExecutable { .. }, LoadEvent::ExecutableReadFailed(_)) => true,
        (LoadState::LookingUpConfigPath { .. }, LoadEvent::ConfigPathLookedUp(_)) => true,
        (LoadState::ReadingConfigFile { .. }, LoadEvent::ConfigFileRead(_)) => true,
        (LoadState::Resolving { .. }, LoadEvent::Resolved(_)) => true,
        (LoadState::Connecting { .. }, LoadEvent::Connected) => true,
        (LoadState::Connecting { .. }, LoadEvent::ConnectFailed(_)) => true,
        (LoadState::Sending, LoadEvent::Sent(_)) => true,
        _ => false,
    }
}

/// One step of the load: consumes the outcome of the previous action and
/// decides the next state and action.
pub fn load_step(state: LoadState, event: LoadEvent) -> (r: (LoadState, LoadAction))
    requires
        step_allowed(state, event),
    ensures
        load_steps_to(state, event, r.0, r.1),
{
    match (state, event) {
        (
            LoadState::ReadingExecutable { address_override, compression_enabled },
            LoadEvent::ExecutableRead(payload),
        ) => match address_override {
            Some(host) => {
                let t = target_of(host.as_str());
                (LoadState::Resolving { payload, compression_enabled }, LoadAction::Resolve(t))
            },
            None => (
                LoadState::LookingUpConfigPath { payload, compression_enabled },
                LoadAction::LookupConfigPath,
            ),
        },
        (LoadState::ReadingExecutable { .. }, LoadEvent::ExecutableReadFailed(k)) => (
            LoadState::Done,
            LoadAction::Stop(Err(NetLoadError::from(k))),
        ),
        (
            LoadState::LookingUpConfigPath { payload, compression_enabled },
            LoadEvent::ConfigPathLookedUp(lookup),
        ) => match lookup {
            Ok(path) => (
                LoadState::ReadingConfigFile { payload, compression_enabled },
                LoadAction::ReadConfigFile(path),
            ),
            Err(cerr) => (LoadState::Done, LoadAction::Stop(Err(NetLoadError::from(cerr)))),
        },
        (
            LoadState::ReadingConfigFile { payload, compression_enabled },
            LoadEvent::ConfigFileRead(read),
        ) => match get_default_address(read) {
            Ok(host) => {
                let t = target_of(host.as_str());
                (LoadState::Resolving { payload, compression_enabled }, LoadAction::Resolve(t))
            },
            Err(cerr) => (LoadState::Done, LoadAction::Stop(Err(NetLoadError::from(cerr)))),
        },
        (LoadState::Resolving { payload, compression_enabled }, LoadEvent::Resolved(out)) => match out {
            ResolutionOutcome::FirstCandidate => (
                LoadState::Connecting { payload, compression_enabled },
                LoadAction::Connect,
            ),
            _ => (LoadState::Done, LoadAction::Stop(Err(NetLoadError::CantResolveAddress))),
        },
        (LoadState::Connecting { payload, compression_enabled }, LoadEvent::Connected) => (
            LoadState::Sending,
            LoadAction::Send {
                payload,
                arguments: String::new(),
                compression: compression_choice(compression_enabled),
            },
        ),
        (LoadState::Connecting { .. }, LoadEvent::ConnectFailed(k)) => (
            LoadState::Done,
            LoadAction::Stop(Err(NetLoadError::from(k))),
        ),
        (LoadState::Sending, LoadEvent::Sent(out)) => match out {
            SendOutcome::Delivered => (LoadState::Done, LoadAction::Stop(Ok(()))),
            SendOutcome::Failed(f) => (LoadState::Done, LoadAction::Stop(Err(NetLoadError::from(f)))),
        },
        _ => unreached(),
    }
}

/// Law: when an explicit address is given, the machine goes straight from
/// the executable read to resolving that address -- the configuration
/// store is never consulted.
pub proof fn lemma_explicit_address_skips_store(
    host: String,
    compression_enabled: bool,
    payload: Vec<u8>,
    s2: LoadState,
    a: LoadAction,
)
    requires
        load_steps_to(
            LoadState::ReadingExecutable {
                address_override: Some(host),
                compression_enabled,
            },
            LoadEvent::ExecutableRead(payload),
            s2,
            a,
        ),
    ensures
        s2 == (LoadState::Resolving { payload, compression_enabled }),
        a matches LoadAction::Resolve(t) && t@ == target_text(host@),
{
}

/// Law: with no explicit address and no configured default, the load stops
/// with "no address passed" -- before any resolution is attempted.
pub proof fn lemma_missing_default_stops_before_resolution(
    payload: Vec<u8>,
    compression_enabled: bool,
    s2: LoadState,
    a: LoadAction,
)
    requires
        load_steps_to(
            LoadState::ReadingConfigFile { payload, compression_enabled },
            LoadEvent::ConfigFileRead(ReadOutcome::Failed(OsErrorKind::NotFound)),
            s2,
            a,
        ),
    ensures
        s2 == LoadState::Done,
        a == LoadAction::Stop(Err(NetLoadError::NoAddressPassed)),
{
}

/// Law: a resolution that fails outright and one that returns no candidate
/// both stop the load with "cannot resolve address" -- never with a
/// generic network error.
pub proof fn lemma_resolution_failure_is_cant_resolve(
    payload: Vec<u8>,
    compression_enabled: bool,
    out: ResolutionOutcome,
    s2: LoadState,
    a: LoadAction,
)
    requires
        out != ResolutionOutcome::FirstCandidate,
        load_steps_to(
            LoadState::Resolving { payload, compression_enabled },
            LoadEvent::Resolved(out),
            s2,
            a,
        ),
    ensures
        s2 == LoadState::Done,
        a == LoadAction::Stop(Err(NetLoadError::CantResolveAddress)),
{
}

/// Law: once connected, the encoder is handed exactly the bytes that were
/// read, an empty argument string, and the fixed default level when
/// compression is enabled -- no level at all otherwise.
pub proof fn lemma_send_hands_over_payload(
    payload: Vec<u8>,
    compression_enabled: bool,
    s2: LoadState,
    a: LoadAction,
)
    requires
        load_steps_to(
            LoadState::Connecting { payload, compression_enabled },
            LoadEvent::Connected,
            s2,
            a,
        ),
    ensures
        s2 == LoadState::Sending,
        a matches LoadAction::Send { payload: p, arguments, compression } && p == payload
            && arguments@ == Seq::<char>::empty() && compression == compression_choice_spec(
            compression_enabled,
        ),
{
}

/// Law: when the encoder reports the binary too long, the load surfaces
/// exactly that error, whose diagnostic line is the fixed one.
pub proof fn lemma_binary_too_long_surfaced(s2: LoadState, a: LoadAction)
    requires
        load_steps_to(
            LoadState::Sending,
            LoadEvent::Sent(SendOutcome::Failed(SendFailure::BinaryTooLong)),
            s2,
            a,
        ),
    ensures
        s2 == LoadState::Done,
        a == LoadAction::Stop(Err(NetLoadError::BinaryTooLong)),
        crate::errors::net_error_text_spec(NetLoadError::BinaryTooLong)
            == "Binary file too long, aborting."@,
{
}

} // verus!
