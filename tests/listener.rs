use simpleweb::listener::{
    ukl_main, AcceptOutcome, BindOutcome, Listener, ListenerAction, ListenerPhase, ServerConfig,
    DEFAULT_PORT,
};

#[test]
fn default_config_is_all_interfaces_port_8080() {
    let c = ServerConfig::default();
    assert_eq!(c.host, [0, 0, 0, 0]);
    assert_eq!(c.port, 8080);
    assert_eq!(DEFAULT_PORT, 8080);
}

#[test]
fn entry_point_asks_to_bind_default_address() {
    let (l, a) = ukl_main();
    assert_eq!(l.phase(), ListenerPhase::Binding);
    assert_eq!(l.config().port, 8080);
    match a {
        ListenerAction::Bind { config } => {
            assert_eq!(config.host, [0, 0, 0, 0]);
            assert_eq!(config.port, 8080);
        }
        _ => panic!("the first action is the bind"),
    }
}

#[test]
fn bound_listener_announces_its_port_and_accepts() {
    let config = ServerConfig { host: [127, 0, 0, 1], port: 9000 };
    let (mut l, _) = Listener::start(config);
    let a = l.handle_bind(BindOutcome::Bound);
    assert!(matches!(a, ListenerAction::Announce { port: 9000 }));
    assert_eq!(l.phase(), ListenerPhase::Accepting);
    assert_eq!(l.config().host, [127, 0, 0, 1]);
}

#[test]
fn bind_failure_aborts() {
    let (mut l, _) = ukl_main();
    let a = l.handle_bind(BindOutcome::Failed);
    assert!(matches!(a, ListenerAction::Abort));
    assert_eq!(l.phase(), ListenerPhase::Stopped);
}

#[test]
fn accept_loop_keeps_going_on_both_outcomes() {
    let (mut l, _) = ukl_main();
    l.handle_bind(BindOutcome::Bound);
    let a = l.handle_accept(AcceptOutcome::Accepted);
    assert!(matches!(a, ListenerAction::Spawn));
    let b = l.handle_accept(AcceptOutcome::Failed);
    assert!(matches!(b, ListenerAction::ReportAcceptFailure));
    let c = l.handle_accept(AcceptOutcome::Failed);
    assert!(matches!(c, ListenerAction::ReportAcceptFailure));
    let d = l.handle_accept(AcceptOutcome::Accepted);
    assert!(matches!(d, ListenerAction::Spawn));
    assert_eq!(l.phase(), ListenerPhase::Accepting);
    assert_eq!(l.config().port, 8080);
}
