use riiload::config::get_config_path;
use riiload::config::get_default_address;
use riiload::config::remove_config_files;
use riiload::config::set_default_address;
use riiload::config::config_path_in;
use riiload::config::DeleteOutcome;
use riiload::config::ReadOutcome;
use riiload::config::WriteOutcome;
use riiload::errors::DefaultAddressConfigError;
use riiload::errors::NetLoadError;
use riiload::errors::OsErrorKind;
use riiload::errors::SendFailure;
use riiload::load::compression_choice;
use riiload::load::event_fits;
use riiload::load::load_step;
use riiload::load::start_load;
use riiload::load::target_of;
use riiload::load::LoadAction;
use riiload::load::LoadEvent;
use riiload::load::LoadRequest;
use riiload::load::LoadState;
use riiload::load::ResolutionOutcome;
use riiload::load::SendOutcome;
use riiload::load::DEFAULT_COMPRESSION_LEVEL;
use riiload::load::TCP_PORT;
use riiload::resolve::maybe_get_address;

#[test]
fn read_returns_stored_bytes_verbatim() {
    let r = get_default_address(ReadOutcome::Content("10.0.0.7\n".to_string()));
    assert_eq!(r, Ok("10.0.0.7\n".to_string()));
}

#[test]
fn read_of_missing_file_means_no_default() {
    let r = get_default_address(ReadOutcome::Failed(OsErrorKind::NotFound));
    assert_eq!(r, Err(DefaultAddressConfigError::NoConfiguredDefault));
}

#[test]
fn read_failure_keeps_its_kind() {
    let r = get_default_address(ReadOutcome::Failed(OsErrorKind::Other(
        "PermissionDenied".to_string(),
    )));
    assert_eq!(
        r,
        Err(DefaultAddressConfigError::FileAccess(OsErrorKind::Other(
            "PermissionDenied".to_string()
        )))
    );
}

#[test]
fn write_outcome_is_mapped() {
    assert_eq!(set_default_address(WriteOutcome::Done), Ok(()));
    let r = set_default_address(WriteOutcome::Failed(OsErrorKind::Other(
        "StorageFull".to_string(),
    )));
    assert_eq!(
        r,
        Err(DefaultAddressConfigError::FileAccess(OsErrorKind::Other(
            "StorageFull".to_string()
        )))
    );
}

#[test]
fn delete_without_prior_write_fails_with_no_default() {
    let r = remove_config_files(DeleteOutcome::Failed(OsErrorKind::NotFound));
    assert_eq!(r, Err(DefaultAddressConfigError::NoConfiguredDefault));
}

#[test]
fn delete_of_present_file_succeeds() {
    assert_eq!(remove_config_files(DeleteOutcome::Done), Ok(()));
}

#[test]
fn explicit_address_wins_over_stored_default() {
    let r = maybe_get_address(
        Some("10.0.0.5".to_string()),
        ReadOutcome::Content("1.2.3.4".to_string()),
    );
    assert_eq!(r, Ok("10.0.0.5".to_string()));
}

#[test]
fn explicit_address_wins_whatever_the_store_reports() {
    let kinds = [
        ReadOutcome::Content("1.2.3.4".to_string()),
        ReadOutcome::Failed(OsErrorKind::NotFound),
        ReadOutcome::Failed(OsErrorKind::Other("PermissionDenied".to_string())),
    ];
    for stored in kinds {
        let r = maybe_get_address(Some("10.0.0.5".to_string()), stored);
        assert_eq!(r, Ok("10.0.0.5".to_string()));
    }
}

#[test]
fn missing_default_is_relabelled_by_context() {
    // Queried directly, the absence keeps "no configured default".
    let config_err = maybe_get_address(None, ReadOutcome::Failed(OsErrorKind::NotFound))
        .unwrap_err();
    assert_eq!(config_err, DefaultAddressConfigError::NoConfiguredDefault);
    // Seen from a load, the same absence becomes "no address passed".
    let load_err = NetLoadError::from(config_err.clone());
    assert_eq!(load_err, NetLoadError::NoAddressPassed);
    // The two contexts report different diagnostic text.
    assert_eq!(
        config_err.problem_message(),
        "No configuration file found, aborting."
    );
    assert_eq!(
        load_err.problem_message(),
        "No address argument, but not default address configured, aborting."
    );
    assert_ne!(config_err.problem_message(), load_err.problem_message());
}

#[test]
fn other_config_errors_are_wrapped_not_relabelled() {
    let e = DefaultAddressConfigError::NoSuitableFolder;
    assert_eq!(
        NetLoadError::from(e),
        NetLoadError::OtherConfigError(DefaultAddressConfigError::NoSuitableFolder)
    );
}

#[test]
fn encoder_failures_map_one_to_one() {
    assert_eq!(
        NetLoadError::from(SendFailure::ArgsTooLong),
        NetLoadError::ArgsTooLong
    );
    assert_eq!(
        NetLoadError::from(SendFailure::BinaryTooLong),
        NetLoadError::BinaryTooLong
    );
    assert_eq!(
        NetLoadError::from(SendFailure::NetError(OsErrorKind::Other(
            "ConnectionReset".to_string()
        ))),
        NetLoadError::IOError(OsErrorKind::Other("ConnectionReset".to_string()))
    );
}

#[test]
fn io_kind_becomes_file_access() {
    assert_eq!(
        DefaultAddressConfigError::from(OsErrorKind::NotFound),
        DefaultAddressConfigError::FileAccess(OsErrorKind::NotFound)
    );
    assert_eq!(
        NetLoadError::from(OsErrorKind::NotFound),
        NetLoadError::IOError(OsErrorKind::NotFound)
    );
}

#[test]
fn config_error_messages_are_fixed() {
    assert_eq!(
        DefaultAddressConfigError::NoSuitableFolder.problem_message(),
        "Could not find a folder for storing configuration, aborting."
    );
    assert_eq!(
        DefaultAddressConfigError::NoConfiguredDefault.problem_message(),
        "No configuration file found, aborting."
    );
    assert_eq!(
        DefaultAddressConfigError::FileAccess(OsErrorKind::NotFound).problem_message(),
        "Problem while accessing file (NotFound)"
    );
    assert_eq!(
        DefaultAddressConfigError::FileAccess(OsErrorKind::Other(
            "PermissionDenied".to_string()
        ))
        .problem_message(),
        "Problem while accessing file (PermissionDenied)"
    );
}

#[test]
fn load_error_messages_are_fixed() {
    assert_eq!(
        NetLoadError::NoAddressPassed.problem_message(),
        "No address argument, but not default address configured, aborting."
    );
    assert_eq!(
        NetLoadError::CantResolveAddress.problem_message(),
        "Cannot resolve passed address, aborting."
    );
    assert_eq!(
        NetLoadError::ArgsTooLong.problem_message(),
        "Arguments too long, aborting."
    );
    assert_eq!(
        NetLoadError::BinaryTooLong.problem_message(),
        "Binary file too long, aborting."
    );
    assert_eq!(
        NetLoadError::IOError(OsErrorKind::Other("TimedOut".to_string())).problem_message(),
        "IO error, aborting. (TimedOut)"
    );
    assert_eq!(
        NetLoadError::OtherConfigError(DefaultAddressConfigError::NoSuitableFolder)
            .problem_message(),
        "Configuration-related error, aborting."
    );
}

#[test]
fn compression_choice_is_fixed_level_or_none() {
    assert_eq!(DEFAULT_COMPRESSION_LEVEL, 5);
    assert_eq!(compression_choice(true), Some(5));
    assert_eq!(compression_choice(false), None);
}

#[test]
fn target_appends_the_fixed_port() {
    assert_eq!(TCP_PORT, 4299);
    assert_eq!(target_of("192.168.1.50"), "192.168.1.50:4299");
    assert_eq!(target_of("wii.local"), "wii.local:4299");
}

#[test]
fn config_path_has_the_fixed_file_name() {
    assert_eq!(
        config_path_in("/home/operator/.config"),
        "/home/operator/.config/riiload_config"
    );
}

#[test]
fn config_path_lookup_uses_the_platform_directory() {
    // The platform directory depends on the environment; whatever it is,
    // the file name at the end is fixed, and the only possible error is
    // the missing-folder one.
    match get_config_path() {
        Ok(p) => assert!(p.ends_with("/riiload_config")),
        Err(e) => assert_eq!(e, DefaultAddressConfigError::NoSuitableFolder),
    }
}

#[test]
fn unresolvable_host_is_cant_resolve_not_network_error() {
    let (s, a) = load_step(
        LoadState::Resolving {
            payload: vec![1, 2, 3],
            compression_enabled: true,
        },
        LoadEvent::Resolved(ResolutionOutcome::LookupFailed),
    );
    assert_eq!(s, LoadState::Done);
    assert_eq!(
        a,
        LoadAction::Stop(Err(NetLoadError::CantResolveAddress))
    );
    assert_eq!(
        NetLoadError::CantResolveAddress.problem_message(),
        "Cannot resolve passed address, aborting."
    );
}

#[test]
fn zero_candidates_is_also_cant_resolve() {
    let (s, a) = load_step(
        LoadState::Resolving {
            payload: vec![],
            compression_enabled: false,
        },
        LoadEvent::Resolved(ResolutionOutcome::NoCandidates),
    );
    assert_eq!(s, LoadState::Done);
    assert_eq!(a, LoadAction::Stop(Err(NetLoadError::CantResolveAddress)));
}

#[test]
fn scenario_explicit_address_with_compression() {
    // A 2 MB executable, an explicit address, compression enabled: the
    // file is read fully before any network activity, the explicit
    // address is resolved with the fixed port, and the encoder gets the
    // bytes, an empty argument string and compression level 5.
    let two_megabytes = vec![0xA5u8; 2 * 1024 * 1024];
    let request = LoadRequest {
        executable_path: "game.dol".to_string(),
        address_override: Some("192.168.1.50".to_string()),
        compression_enabled: true,
    };
    let (state, action) = start_load(request);
    assert_eq!(action, LoadAction::ReadExecutable("game.dol".to_string()));

    let event = LoadEvent::ExecutableRead(two_megabytes.clone());
    assert!(event_fits(&state, &event));
    let (state, action) = load_step(state, event);
    assert_eq!(action, LoadAction::Resolve("192.168.1.50:4299".to_string()));

    let event = LoadEvent::Resolved(ResolutionOutcome::FirstCandidate);
    assert!(event_fits(&state, &event));
    let (state, action) = load_step(state, event);
    assert_eq!(action, LoadAction::Connect);

    let event = LoadEvent::Connected;
    assert!(event_fits(&state, &event));
    let (state, action) = load_step(state, event);
    match action {
        LoadAction::Send {
            payload,
            arguments,
            compression,
        } => {
            assert_eq!(payload, two_megabytes);
            assert_eq!(arguments, "");
            assert_eq!(compression, Some(5));
        }
        other => panic!("expected a send, got {:?}", other),
    }

    let event = LoadEvent::Sent(SendOutcome::Delivered);
    assert!(event_fits(&state, &event));
    let (state, action) = load_step(state, event);
    assert_eq!(state, LoadState::Done);
    assert_eq!(action, LoadAction::Stop(Ok(())));
}

#[test]
fn scenario_no_address_and_no_config_file() {
    // No explicit address and no configuration file: the load stops with
    // "no address passed" and never asks for a resolution.
    let request = LoadRequest {
        executable_path: "game.dol".to_string(),
        address_override: None,
        compression_enabled: true,
    };
    let (state, action) = start_load(request);
    assert_eq!(action, LoadAction::ReadExecutable("game.dol".to_string()));

    let (state, action) = load_step(state, LoadEvent::ExecutableRead(vec![7u8; 64]));
    assert_eq!(action, LoadAction::LookupConfigPath);

    let (state, action) = load_step(
        state,
        LoadEvent::ConfigPathLookedUp(Ok("/home/operator/.config/riiload_config".to_string())),
    );
    assert_eq!(
        action,
        LoadAction::ReadConfigFile("/home/operator/.config/riiload_config".to_string())
    );

    let (state, action) = load_step(
        state,
        LoadEvent::ConfigFileRead(ReadOutcome::Failed(OsErrorKind::NotFound)),
    );
    assert_eq!(state, LoadState::Done);
    assert_eq!(action, LoadAction::Stop(Err(NetLoadError::NoAddressPassed)));
}

#[test]
fn scenario_stored_default_is_resolved() {
    let request = LoadRequest {
        executable_path: "game.dol".to_string(),
        address_override: None,
        compression_enabled: false,
    };
    let (state, _) = start_load(request);
    let (state, _) = load_step(state, LoadEvent::ExecutableRead(vec![1u8]));
    let (state, _) = load_step(
        state,
        LoadEvent::ConfigPathLookedUp(Ok("/tmp/riiload_config".to_string())),
    );
    let (state, action) = load_step(
        state,
        LoadEvent::ConfigFileRead(ReadOutcome::Content("10.0.0.9".to_string())),
    );
    assert_eq!(action, LoadAction::Resolve("10.0.0.9:4299".to_string()));
    let (state, action) = load_step(state, LoadEvent::Resolved(ResolutionOutcome::FirstCandidate));
    assert_eq!(action, LoadAction::Connect);
    let (_, action) = load_step(state, LoadEvent::Connected);
    match action {
        LoadAction::Send { compression, .. } => assert_eq!(compression, None),
        other => panic!("expected a send, got {:?}", other),
    }
}

#[test]
fn scenario_binary_too_long_is_surfaced() {
    let (state, action) = load_step(
        LoadState::Sending,
        LoadEvent::Sent(SendOutcome::Failed(SendFailure::BinaryTooLong)),
    );
    assert_eq!(state, LoadState::Done);
    assert_eq!(action, LoadAction::Stop(Err(NetLoadError::BinaryTooLong)));
    assert_eq!(
        NetLoadError::BinaryTooLong.problem_message(),
        "Binary file too long, aborting."
    );
}

#[test]
fn missing_config_folder_aborts_the_load() {
    let (state, action) = load_step(
        LoadState::LookingUpConfigPath {
            payload: vec![9u8],
            compression_enabled: true,
        },
        LoadEvent::ConfigPathLookedUp(Err(DefaultAddressConfigError::NoSuitableFolder)),
    );
    assert_eq!(state, LoadState::Done);
    assert_eq!(
        action,
        LoadAction::Stop(Err(NetLoadError::OtherConfigError(
            DefaultAddressConfigError::NoSuitableFolder
        )))
    );
}

#[test]
fn failed_executable_read_is_fatal() {
    let (state, action) = load_step(
        LoadState::ReadingExecutable {
            address_override: Some("10.0.0.5".to_string()),
            compression_enabled: true,
        },
        LoadEvent::ExecutableReadFailed(OsErrorKind::NotFound),
    );
    assert_eq!(state, LoadState::Done);
    assert_eq!(
        action,
        LoadAction::Stop(Err(NetLoadError::IOError(OsErrorKind::NotFound)))
    );
}

#[test]
fn failed_connect_is_an_io_error() {
    let (state, action) = load_step(
        LoadState::Connecting {
            payload: vec![3u8],
            compression_enabled: false,
        },
        LoadEvent::ConnectFailed(OsErrorKind::Other("ConnectionRefused".to_string())),
    );
    assert_eq!(state, LoadState::Done);
    assert_eq!(
        action,
        LoadAction::Stop(Err(NetLoadError::IOError(OsErrorKind::Other(
            "ConnectionRefused".to_string()
        ))))
    );
}

#[test]
fn network_failure_during_send_is_an_io_error() {
    let (_, action) = load_step(
        LoadState::Sending,
        LoadEvent::Sent(SendOutcome::Failed(SendFailure::NetError(
            OsErrorKind::Other("BrokenPipe".to_string()),
        ))),
    );
    assert_eq!(
        action,
        LoadAction::Stop(Err(NetLoadError::IOError(OsErrorKind::Other(
            "BrokenPipe".to_string()
        ))))
    );
}

#[test]
fn too_long_arguments_are_surfaced() {
    let (_, action) = load_step(
        LoadState::Sending,
        LoadEvent::Sent(SendOutcome::Failed(SendFailure::ArgsTooLong)),
    );
    assert_eq!(action, LoadAction::Stop(Err(NetLoadError::ArgsTooLong)));
}

#[test]
fn event_fits_rejects_mismatched_events() {
    assert!(event_fits(
        &LoadState::Sending,
        &LoadEvent::Sent(SendOutcome::Delivered)
    ));
    assert!(!event_fits(&LoadState::Sending, &LoadEvent::Connected));
    assert!(!event_fits(
        &LoadState::Done,
        &LoadEvent::Sent(SendOutcome::Delivered)
    ));
}
