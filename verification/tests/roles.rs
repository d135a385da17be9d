use sv2_framing::args::{config_flag, default_config_path, help_flag, help_message, Args, Role};
use sv2_framing::channel_factory::{ByteRange, PoolChannelManager};
use sv2_framing::channel_logic::{extended_to_standard_job, ExtendedJob};
use sv2_framing::coinbase::{get_coinbase_output, is_known_script_type, CoinbaseError, CoinbaseOutput};
use sv2_framing::job_declarator::{
    handle_setup_connection_error, handle_setup_connection_success, jd_mode_from_flags,
    HandlerError, JdMode,
};
use sv2_framing::status::{
    error_branch, handle_error, loop_action, status_for, ErrorBranch, LoopAction, PoolError,
    PoolErrorKind, Sender, State,
};
use sv2_framing::template_provider::{
    default_download_endpoint, download_url, get_bitcoind_filename, needs_signing, node_args,
    release_dir, static_dir, tarball_source, version, TarballSource,
};

fn strings(items: &[&str]) -> Vec<String> {
    items.iter().map(|s| s.to_string()).collect()
}

fn error(kind: PoolErrorKind, text: &str) -> PoolError {
    PoolError { kind, text: text.to_string() }
}

#[test]
fn args_default_path_per_role() {
    for (role, path) in [
        (Role::Pool, "pool-config.toml"),
        (Role::JobDeclaratorClient, "jdc-config.toml"),
        (Role::JobDeclaratorServer, "jds-config.toml"),
    ] {
        assert_eq!(default_config_path(role), path);
        let args = Args::from_args(role, &strings(&["program"])).unwrap();
        assert_eq!(args.config_path, path);
        let none = Args::from_args(role, &Vec::new()).unwrap();
        assert_eq!(none.config_path, path);
    }
}

#[test]
fn args_config_flag_takes_the_next_argument() {
    let short = Args::from_args(Role::Pool, &strings(&["pool", "-c", "a.toml"])).unwrap();
    assert_eq!(short.config_path, "a.toml");
    let long = Args::from_args(Role::Pool, &strings(&["pool", "x", "--config", "b.toml", "-h"]))
        .unwrap();
    assert_eq!(long.config_path, "b.toml");
    let flag_as_path = Args::from_args(Role::Pool, &strings(&["pool", "-c", "-h"])).unwrap();
    assert_eq!(flag_as_path.config_path, "-h");
}

#[test]
fn args_config_flag_without_path_gives_default() {
    let args = Args::from_args(Role::JobDeclaratorServer, &strings(&["jds", "-c"])).unwrap();
    assert_eq!(args.config_path, "jds-config.toml");
}

#[test]
fn args_help_comes_back_as_error() {
    let help = Args::from_args(Role::Pool, &strings(&["pool", "-h", "-c", "a.toml"])).unwrap_err();
    assert_eq!(help, "Usage: -h/--help, -c/--config <path|default pool-config.toml>");
    let long = Args::from_args(Role::JobDeclaratorClient, &strings(&["jdc", "--help"])).unwrap_err();
    assert_eq!(long, "Usage: -h/--help, -c/--config <path|default jdc-config.toml>");
    assert_eq!(long, help_message(Role::JobDeclaratorClient));
    assert_eq!(
        help_message(Role::JobDeclaratorServer),
        "Usage: -h/--help, -c/--config <path|default jds-config.toml>"
    );
}

#[test]
fn args_flags_are_matched_exactly() {
    assert!(config_flag(&"-c".to_string()));
    assert!(config_flag(&"--config".to_string()));
    assert!(!config_flag(&"-config".to_string()));
    assert!(help_flag(&"-h".to_string()));
    assert!(help_flag(&"--help".to_string()));
    assert!(!help_flag(&"-H".to_string()));
}

#[test]
fn channel_manager_of_the_pool_counts_from_one() {
    let mut manager = PoolChannelManager::new();
    assert_eq!(manager.next_id(), 1);
    assert_eq!(manager.next_id(), 2);
    assert_eq!(manager.clone().next_id(), 3);
    assert_eq!(
        manager.ranges(),
        (
            ByteRange { start: 0, end: 0 },
            ByteRange { start: 0, end: 16 },
            ByteRange { start: 16, end: 32 }
        )
    );
}

#[test]
fn standard_job_from_extended_job() {
    let extended = ExtendedJob { channel_id: 9, job_id: 7, min_ntime: Some(1234), version: 0x2000_0000 };
    let job = extended_to_standard_job(&extended, Some(vec![0xab; 32]), 3, None).unwrap();
    assert_eq!(job.channel_id, 3);
    assert_eq!(job.job_id, 7);
    assert_eq!(job.min_ntime, Some(1234));
    assert_eq!(job.version, 0x2000_0000);
    assert_eq!(job.merkle_root, vec![0xab; 32]);
    let renumbered = extended_to_standard_job(&extended, Some(vec![0; 32]), 3, Some(42)).unwrap();
    assert_eq!(renumbered.job_id, 42);
}

#[test]
fn standard_job_needs_a_root_of_32_bytes() {
    let extended = ExtendedJob { channel_id: 9, job_id: 7, min_ntime: None, version: 1 };
    assert!(extended_to_standard_job(&extended, None, 3, None).is_none());
    assert!(extended_to_standard_job(&extended, Some(vec![0; 31]), 3, None).is_none());
    assert!(extended_to_standard_job(&extended, Some(vec![0; 33]), 3, None).is_none());
}

#[test]
fn jd_mode_follows_the_flags() {
    assert_eq!(jd_mode_from_flags(0), JdMode::CoinbaseOnly);
    assert_eq!(jd_mode_from_flags(1), JdMode::FullTemplate);
    assert_eq!(jd_mode_from_flags(2), JdMode::SoloMining);
    assert_eq!(jd_mode_from_flags(u32::MAX), JdMode::SoloMining);
    assert_eq!(handle_setup_connection_success(0), (JdMode::CoinbaseOnly, Ok(())));
    assert_eq!(handle_setup_connection_success(1), (JdMode::FullTemplate, Ok(())));
    assert_eq!(
        handle_setup_connection_success(7),
        (JdMode::SoloMining, Err(HandlerError::Shutdown))
    );
    assert_eq!(handle_setup_connection_error(), Err(HandlerError::Shutdown));
}

#[test]
fn error_branch_by_kind() {
    for kind in [
        PoolErrorKind::ChannelSend,
        PoolErrorKind::Noise,
        PoolErrorKind::RolesLogic { no_downstreams_connected: true },
    ] {
        assert_eq!(error_branch(kind), ErrorBranch::Continue);
    }
    for kind in [
        PoolErrorKind::Io,
        PoolErrorKind::ChannelRecv,
        PoolErrorKind::BinarySv2,
        PoolErrorKind::Codec,
        PoolErrorKind::RolesLogic { no_downstreams_connected: false },
        PoolErrorKind::Custom,
        PoolErrorKind::Framing,
        PoolErrorKind::PoisonLock,
        PoolErrorKind::ComponentShutdown,
        PoolErrorKind::Sv2ProtocolError { downstream_id: 1, open_mining_channel_error: true },
    ] {
        assert_eq!(error_branch(kind), ErrorBranch::Break);
    }
}

#[test]
fn status_of_a_downstream() {
    let dropped = status_for(
        Sender::Downstream,
        error(PoolErrorKind::Sv2ProtocolError { downstream_id: 5, open_mining_channel_error: true }, "x"),
    );
    assert!(matches!(dropped.state, State::DownstreamInstanceDropped(5)));
    let other = status_for(
        Sender::Downstream,
        error(PoolErrorKind::Sv2ProtocolError { downstream_id: 5, open_mining_channel_error: false }, "bad share"),
    );
    assert!(matches!(other.state, State::Healthy(ref text) if text == "bad share"));
    let io = status_for(Sender::Downstream, error(PoolErrorKind::Io, "broken pipe"));
    assert!(matches!(io.state, State::Healthy(ref text) if text == "broken pipe"));
}

#[test]
fn status_of_the_listener_and_the_upstream() {
    let idle = status_for(
        Sender::DownstreamListener,
        error(PoolErrorKind::RolesLogic { no_downstreams_connected: true }, "whatever"),
    );
    assert!(matches!(idle.state, State::Healthy(ref text) if text == "No Downstreams Connected"));
    let down = status_for(Sender::DownstreamListener, error(PoolErrorKind::Io, "closed"));
    assert!(matches!(
        down.state,
        State::DownstreamShutdown(PoolError { kind: PoolErrorKind::Io, ref text }) if text == "closed"
    ));
    let up = status_for(
        Sender::Upstream,
        error(PoolErrorKind::RolesLogic { no_downstreams_connected: true }, "tp"),
    );
    assert!(matches!(up.state, State::TemplateProviderShutdown(ref e) if e.text == "tp"));
}

#[test]
fn handle_error_reports_and_branches() {
    let (status, branch) = handle_error(Sender::Downstream, error(PoolErrorKind::ChannelSend, "full"));
    assert_eq!(branch, ErrorBranch::Continue);
    assert!(matches!(status.state, State::Healthy(ref text) if text == "full"));
    let (status, branch) = handle_error(Sender::Upstream, error(PoolErrorKind::Codec, "bad frame"));
    assert_eq!(branch, ErrorBranch::Break);
    assert!(matches!(status.state, State::TemplateProviderShutdown(_)));
    assert_eq!(Sender::DownstreamListener.listener_to_connection(), Sender::Downstream);
}

#[test]
fn main_loop_reacts_to_the_state() {
    assert_eq!(loop_action(&State::DownstreamShutdown(error(PoolErrorKind::Io, ""))), LoopAction::Stop);
    assert_eq!(
        loop_action(&State::TemplateProviderShutdown(error(PoolErrorKind::Io, ""))),
        LoopAction::Stop
    );
    assert_eq!(loop_action(&State::Healthy("fine".to_string())), LoopAction::Continue);
    assert_eq!(loop_action(&State::DownstreamInstanceDropped(3)), LoopAction::DropDownstream(3));
}

#[test]
fn known_script_types() {
    for kind in ["TEST", "P2PK", "P2PKH", "P2WPKH", "P2SH", "P2WSH", "P2TR"] {
        assert!(is_known_script_type(kind));
    }
    for kind in ["", "p2pk", "P2", "P2TRX", "BARE"] {
        assert!(!is_known_script_type(kind));
    }
}

#[test]
fn coinbase_output_is_checked_by_its_type() {
    let good = CoinbaseOutput::new("P2WPKH".to_string(), "02ab".to_string());
    let checked = good.checked().unwrap();
    assert_eq!(checked.output_script_type(), "P2WPKH");
    assert_eq!(checked.output_script_value(), "02ab");
    let bad = CoinbaseOutput::new("P2XY".to_string(), "02ab".to_string());
    assert_eq!(bad.checked().unwrap_err(), CoinbaseError::UnknownOutputScriptType);
}

#[test]
fn coinbase_outputs_in_order_with_value_zero() {
    let outputs = vec![
        CoinbaseOutput::new("P2PK".to_string(), "a".to_string()),
        CoinbaseOutput::new("P2TR".to_string(), "b".to_string()),
    ];
    let outs = get_coinbase_output(&outputs, vec![Some(vec![1, 2]), Some(vec![3])]).unwrap();
    assert_eq!(outs.len(), 2);
    assert_eq!(outs[0].value, 0);
    assert_eq!(outs[0].script_pubkey, vec![1, 2]);
    assert_eq!(outs[1].value, 0);
    assert_eq!(outs[1].script_pubkey, vec![3]);
}

#[test]
fn coinbase_outputs_first_failure_decides() {
    let outputs = vec![
        CoinbaseOutput::new("P2PK".to_string(), "a".to_string()),
        CoinbaseOutput::new("NOPE".to_string(), "b".to_string()),
        CoinbaseOutput::new("P2SH".to_string(), "c".to_string()),
    ];
    assert_eq!(
        get_coinbase_output(&outputs, vec![Some(vec![1]), None, None]).unwrap_err(),
        CoinbaseError::UnknownOutputScriptType
    );
    assert_eq!(
        get_coinbase_output(&outputs, vec![None, None, Some(vec![1])]).unwrap_err(),
        CoinbaseError::InvalidOutputScript
    );
    assert_eq!(get_coinbase_output(&Vec::new(), Vec::new()).unwrap_err(), CoinbaseError::EmptyCoinbaseOutputs);
}

#[test]
fn bitcoind_filename_per_platform() {
    assert_eq!(get_bitcoind_filename("macos", "aarch64"), "bitcoin-sv2-tp-0.1.13-arm64-apple-darwin.tar.gz");
    assert_eq!(get_bitcoind_filename("macos", "x86_64"), "bitcoin-sv2-tp-0.1.13-x86_64-apple-darwin.tar.gz");
    assert_eq!(get_bitcoind_filename("linux", "x86_64"), "bitcoin-sv2-tp-0.1.13-x86_64-linux-gnu.tar.gz");
    assert_eq!(get_bitcoind_filename("linux", "aarch64"), "bitcoin-sv2-tp-0.1.13-aarch64-linux-gnu.tar.gz");
    assert_eq!(
        get_bitcoind_filename("windows", "x86_64"),
        "bitcoin-sv2-tp-0.1.13-x86_64-apple-darwin-unsigned.zip"
    );
    assert_eq!(
        get_bitcoind_filename("linux", "riscv64"),
        "bitcoin-sv2-tp-0.1.13-x86_64-apple-darwin-unsigned.zip"
    );
}

#[test]
fn template_provider_names_and_arguments() {
    assert_eq!(version(), "0.1.13");
    assert_eq!(release_dir(), "bitcoin-sv2-tp-0.1.13");
    assert_eq!(static_dir(8442), ".bitcoin-8442");
    assert_eq!(static_dir(0), ".bitcoin-0");
    assert_eq!(static_dir(u16::MAX), ".bitcoin-65535");
    assert!(needs_signing("macos"));
    assert!(!needs_signing("linux"));
    assert_eq!(
        node_args(8442, 20),
        strings(&[
            "-txindex=1",
            "-sv2",
            "-sv2port=8442",
            "-debug=rpc",
            "-debug=sv2",
            "-sv2interval=20",
            "-sv2feedelta=0",
            "-loglevel=sv2:trace",
            "-logtimemicros=1",
        ])
    );
    assert_eq!(node_args(1, u32::MAX)[5], "-sv2interval=4294967295");
}

#[test]
fn tarball_comes_from_file_or_endpoint() {
    assert_eq!(
        download_url(default_download_endpoint(), "x.tar.gz"),
        "https://github.com/Sjors/bitcoin/releases/download/sv2-tp-0.1.13/x.tar.gz"
    );
    let file = tarball_source(Some("/tmp/tp.tar.gz".to_string()), Some("http://mirror".to_string()), "x");
    assert!(matches!(file, TarballSource::File(ref path) if path == "/tmp/tp.tar.gz"));
    let mirror = tarball_source(None, Some("http://mirror".to_string()), "x.tar.gz");
    assert!(matches!(mirror, TarballSource::Url(ref url) if url == "http://mirror/sv2-tp-0.1.13/x.tar.gz"));
    let default = tarball_source(None, None, "x.tar.gz");
    assert!(matches!(
        default,
        TarballSource::Url(ref url)
            if url == "https://github.com/Sjors/bitcoin/releases/download/sv2-tp-0.1.13/x.tar.gz"
    ));
}
