use sshp::cfg::{Config, DynamicProxyConfig, MultiDynamicProxyConfig};
use sshp::display::color_text;
use sshp::dynamic_proxy::DynamicProxy;
use sshp::launch::{
    multi_hop_step, multi_launch_verdict, simple_launch_verdict, LaunchEvent, LaunchVerdict,
    MultiHopAction, MultiHopPhase,
};
use sshp::multi_proxy::MultiDynamicProxy;
use sshp::num::NumError;
use sshp::probe::{build_check_args, check_result};
use sshp::supervisor::{
    get_log_file, get_pid_file, get_probe_id, stop_probe_process, ProbeLoopState, SupervisorModel,
};

fn dynamic_config() -> Config {
    Config {
        dynamic_proxy: Some(DynamicProxyConfig {
            local_addr: "127.0.0.1:1080".to_string(),
            remote_user: Some("user".to_string()),
            remote_ip: "host".to_string(),
            remote_port: Some(22),
            heart_beat_interval: None,
        }),
        multi_proxy: None,
        probe_failed_times_when_exit: None,
        probe_check_interval: None,
    }
}

#[test]
fn probe_healthy_on_silence_or_harmless_text() {
    assert!(check_result(&Ok(String::new())));
    assert!(check_result(&Ok("everything fine".to_string())));
}

#[test]
fn probe_unhealthy_on_rejection_signatures() {
    assert!(!check_result(&Ok("Connection refused".to_string())));
    assert!(!check_result(&Ok("xx connection to proxy closed yy".to_string())));
    assert!(!check_result(&Ok("curl: (7) Failed to connect".to_string())));
}

#[test]
fn probe_spawn_error_is_inconclusive_not_unhealthy() {
    assert!(check_result(&Err("no such binary".to_string())));
    assert!(check_result(&Err("Connection refused".to_string())));
}

#[test]
fn probe_classification_is_deterministic() {
    let outcomes: Vec<Result<String, String>> = vec![
        Ok(String::new()),
        Ok("Connection refused".to_string()),
        Ok("fine".to_string()),
        Err("io error".to_string()),
    ];
    for res in &outcomes {
        assert_eq!(check_result(res), check_result(res));
    }
}

#[test]
fn check_args_fetch_through_the_proxy() {
    let args = build_check_args("127.0.0.1:1080");
    assert_eq!(
        args,
        vec!["--no-progress-meter", "--socks5", "127.0.0.1:1080", "https://www.baidu.com"]
    );
}

#[test]
fn launch_silence_and_clean_exit_proceed() {
    assert!(matches!(simple_launch_verdict(&LaunchEvent::TimedOut, true), LaunchVerdict::Proceed));
    assert!(matches!(
        simple_launch_verdict(&LaunchEvent::Received(String::new()), true),
        LaunchVerdict::Proceed
    ));
}

#[test]
fn launch_address_in_use_fails_with_diagnostic() {
    let ev = LaunchEvent::Received("bind: Address already in use\n".to_string());
    match simple_launch_verdict(&ev, false) {
        LaunchVerdict::FailDiagnostic(d) => {
            assert!(d.contains("Address already in use"));
            assert_eq!(d, "bind: Address already in use");
        },
        v => panic!("expected a diagnostic failure, got {:?}", v),
    }
}

#[test]
fn launch_failed_signature_fails_even_with_clean_exit() {
    let ev = LaunchEvent::Received("channel setup failed".to_string());
    assert!(matches!(simple_launch_verdict(&ev, true), LaunchVerdict::FailDiagnostic(_)));
}

#[test]
fn launch_bad_status_without_text_fails_on_status() {
    assert!(matches!(
        simple_launch_verdict(&LaunchEvent::TimedOut, false),
        LaunchVerdict::FailStatus
    ));
}

#[test]
fn simple_launch_ignores_disconnection_but_multi_does_not() {
    assert!(matches!(
        simple_launch_verdict(&LaunchEvent::Disconnected, true),
        LaunchVerdict::Proceed
    ));
    assert!(matches!(
        multi_launch_verdict(&LaunchEvent::Disconnected, true),
        LaunchVerdict::FailDisconnected
    ));
}

#[test]
fn multi_hop_happy_path_spawns_probes_and_reports() {
    let (p, a) = multi_hop_step(MultiHopPhase::LocalForward, true);
    assert_eq!((p, a), (MultiHopPhase::DynamicProxy, MultiHopAction::SpawnDynamicProxy));
    let (p, a) = multi_hop_step(p, true);
    assert_eq!((p, a), (MultiHopPhase::Probing, MultiHopAction::RunProbe));
    let (p, a) = multi_hop_step(p, true);
    assert_eq!((p, a), (MultiHopPhase::Established, MultiHopAction::ReportSuccess));
}

#[test]
fn multi_hop_stage1_failure_never_spawns_stage2() {
    let mut phase = MultiHopPhase::LocalForward;
    let mut stage2_spawns = 0;
    for ok in [false, true, true, true, true] {
        let (next, action) = multi_hop_step(phase, ok);
        if action == MultiHopAction::SpawnDynamicProxy {
            stage2_spawns += 1;
        }
        phase = next;
    }
    assert_eq!(stage2_spawns, 0);
    assert_eq!(phase, MultiHopPhase::Failed);
}

#[test]
fn multi_hop_stage2_failure_rolls_back() {
    let (p, _) = multi_hop_step(MultiHopPhase::LocalForward, true);
    let (p, a) = multi_hop_step(p, false);
    assert_eq!((p, a), (MultiHopPhase::Failed, MultiHopAction::RollbackAndFail));
}

#[test]
fn pid_and_log_files_live_under_the_run_dir() {
    assert_eq!(get_pid_file("127.0.0.1:1080"), "/var/run/sshp/127.0.0.1-1080.pid");
    assert_eq!(get_log_file("127.0.0.1:1080"), "/var/run/sshp/127.0.0.1-1080.log");
}

#[test]
fn probe_id_tolerates_a_missing_file() {
    assert_eq!(get_probe_id(None), Ok(0));
    assert_eq!(get_probe_id(Some("4242")), Ok(4242));
    assert_eq!(get_probe_id(Some("stale junk")), Err(NumError::NotDecimal));
}

#[test]
fn stop_probe_decides_what_to_kill() {
    assert_eq!(stop_probe_process(None), Ok(None));
    assert_eq!(stop_probe_process(Some("0")), Ok(None));
    assert_eq!(stop_probe_process(Some("4242")), Ok(Some(4242)));
    assert_eq!(stop_probe_process(Some("nonsense")), Err(NumError::NotDecimal));
}

#[test]
fn probe_loop_abandons_after_the_third_failure() {
    let mut state = ProbeLoopState::new(3);
    let mut attempts = 0;
    for _poll in 0..4 {
        if state.wants_restart(true, false) {
            attempts += 1;
            state.record_restart(false);
        }
    }
    assert_eq!(attempts, 3);
    assert!(state.abandoned);
}

#[test]
fn probe_loop_success_resets_the_counter() {
    let mut state = ProbeLoopState::new(3);
    state.record_restart(false);
    state.record_restart(false);
    assert_eq!(state.failed_times, 2);
    state.record_restart(true);
    assert_eq!(state.failed_times, 0);
    assert!(!state.abandoned);
}

#[test]
fn probe_loop_idles_while_the_tunnel_lives() {
    let state = ProbeLoopState::new(3);
    assert!(!state.wants_restart(true, true));
    assert!(!state.wants_restart(false, false));
    assert!(state.wants_restart(true, false));
}

#[test]
fn stop_when_nothing_matches_reports_no_process_without_error() {
    let proxy = DynamicProxy::new();
    let listing = "root 1 /sbin/init\n";
    let first = proxy.stop(listing, "127.0.0.1:1080").unwrap();
    assert!(!first.found);
    assert!(first.kill_pids.is_empty());
    let second = proxy.stop(listing, "127.0.0.1:1080").unwrap();
    assert!(!second.found);
    assert!(second.kill_pids.is_empty());
}

#[test]
fn restart_equals_stop_then_start() {
    let starting_points = [
        SupervisorModel {
            probe_running: true,
            pid_file: Some(40),
            tunnel_running: true,
            failed_times: 2,
        },
        SupervisorModel {
            probe_running: false,
            pid_file: None,
            tunnel_running: false,
            failed_times: 0,
        },
    ];
    for s in starting_points {
        for launch_ok in [true, false] {
            let restarted = s.verb_restart(77, launch_ok);
            let stopped_started = s.verb_stop().verb_start(77, launch_ok);
            assert_eq!(restarted.probe_running, stopped_started.probe_running);
            assert_eq!(restarted.pid_file, stopped_started.pid_file);
            assert_eq!(restarted.tunnel_running, stopped_started.tunnel_running);
            assert_eq!(restarted.failed_times, stopped_started.failed_times);
        }
    }
}

#[test]
fn start_scenario_succeeds_and_records_the_pid_file() {
    let config = dynamic_config();
    let proxy = DynamicProxy::new();
    let args = proxy.start_args(&config);
    assert_eq!(
        args,
        vec![
            "-CNf",
            "-o",
            "ServerAliveInterval=60",
            "-o",
            "StrictHostKeyChecking=no",
            "-D",
            "127.0.0.1:1080",
            "user@host",
            "-p",
            "22",
        ]
    );
    // SSH client stubbed to succeed: clean exit, empty stderr.
    let verdict = simple_launch_verdict(&LaunchEvent::Received(String::new()), true);
    assert!(matches!(verdict, LaunchVerdict::Proceed));
    // The probe is then invoked and reports no stderr: overall success.
    let probe_args = build_check_args("127.0.0.1:1080");
    assert_eq!(probe_args[2], "127.0.0.1:1080");
    assert!(check_result(&Ok(String::new())));
    assert_eq!(get_pid_file("127.0.0.1:1080"), "/var/run/sshp/127.0.0.1-1080.pid");
}

#[test]
fn failed_start_scenario_leaves_no_process_behind() {
    // SSH client stub writes the bind failure and exits non-zero.
    let ev = LaunchEvent::Received("bind: Address already in use".to_string());
    let verdict = simple_launch_verdict(&ev, false);
    let diagnostic = match verdict {
        LaunchVerdict::FailDiagnostic(d) => d,
        v => panic!("expected a diagnostic failure, got {:?}", v),
    };
    assert!(diagnostic.contains("Address already in use"));
    // The rollback terminates every process matching the address.
    let proxy = DynamicProxy::new();
    let listing = "user 501 ssh -CNf -D 127.0.0.1:1080 user@host\nuser 1 init\n";
    let plan = proxy.stop(listing, "127.0.0.1:1080").unwrap();
    assert!(plan.found);
    assert_eq!(plan.kill_pids, vec![501]);
    // After the kills nothing matches: the next stop finds nothing.
    let after = "user 1 init\n";
    let plan = proxy.stop(after, "127.0.0.1:1080").unwrap();
    assert!(!plan.found);
    assert!(plan.kill_pids.is_empty());
}

#[test]
fn multi_stop_collects_both_addresses() {
    let proxy = MultiDynamicProxy::new();
    let listing = "u 11 ssh -D 127.0.0.1:1080\nu 12 other\n";
    let forward_listing = "u 21 ssh -L 5000:host:22 fwd@hop\n";
    let plan = proxy.stop(listing, "127.0.0.1:1080", forward_listing, "fwd@hop").unwrap();
    assert!(plan.found);
    assert_eq!(plan.kill_pids, vec![11, 21]);
}

#[test]
fn multi_args_build_both_stages() {
    let config = Config {
        dynamic_proxy: None,
        multi_proxy: Some(MultiDynamicProxyConfig {
            local_addr: "127.0.0.1:1080".to_string(),
            local_forward_port: Some(5000),
            remote_user: Some("user".to_string()),
            remote_ip: "inner".to_string(),
            remote_port: None,
            heart_beat_interval: Some(30),
            forward_ip: "hop".to_string(),
            forward_port: Some(2222),
            forward_user: None,
        }),
        probe_failed_times_when_exit: None,
        probe_check_interval: None,
    };
    let proxy = MultiDynamicProxy::new();
    assert_eq!(proxy.get_forward_addr(&config), "root@hop");
    let stage1 = proxy.local_forward_args(&config, 5000);
    assert_eq!(
        stage1,
        vec![
            "-CNf",
            "-o",
            "ServerAliveInterval=30",
            "-o",
            "StrictHostKeyChecking=no",
            "-L",
            "5000:inner:22",
            "root@hop",
            "-p",
            "2222",
        ]
    );
    let stage2 = proxy.dynamic_proxy_args(&config, 5000);
    assert_eq!(
        stage2,
        vec![
            "-CNf",
            "-o",
            "ServerAliveInterval=30",
            "-D",
            "127.0.0.1:1080",
            "user@127.0.0.1",
            "-p",
            "5000",
            "-o",
            "StrictHostKeyChecking=no",
        ]
    );
}

#[test]
fn forward_port_prefers_the_configured_one() {
    let proxy = MultiDynamicProxy::new();
    let mut config = Config {
        dynamic_proxy: None,
        multi_proxy: Some(MultiDynamicProxyConfig {
            local_addr: "127.0.0.1:1080".to_string(),
            local_forward_port: Some(5000),
            remote_user: None,
            remote_ip: "inner".to_string(),
            remote_port: None,
            heart_beat_interval: None,
            forward_ip: "hop".to_string(),
            forward_port: None,
            forward_user: None,
        }),
        probe_failed_times_when_exit: None,
        probe_check_interval: None,
    };
    assert_eq!(proxy.choose_forward_port(&config, 49152), 5000);
    config.multi_proxy.as_mut().unwrap().local_forward_port = None;
    assert_eq!(proxy.choose_forward_port(&config, 49152), 49152);
}

#[test]
fn log_lines_carry_timestamp_message_and_newline() {
    assert_eq!(
        sshp::display::log_line("2020-01-02 03:04:05 ", "127.0.0.1:1080 start ..."),
        "2020-01-02 03:04:05 127.0.0.1:1080 start ...\n"
    );
}

#[test]
fn color_text_frames_with_ansi_escapes() {
    assert_eq!(color_text("text", 31, true), "\x1b[1m\x1b[31mtext\x1b[0m");
    assert_eq!(color_text("text", 32, false), "\x1b[32mtext\x1b[0m");
    assert_eq!(color_text("text", 99, false), "text\x1b[0m");
    assert_eq!(color_text("text", 99, true), "\x1b[1mtext\x1b[0m");
}
