use echosrv::error::{AddressFamily, FdCheckFailure, SocketKind};
use echosrv::fd_inheritance::FdInheritanceConfig;
use echosrv::socket_builder::{
    check_bind_target, plan_socket, validate_inherited_fd, validate_socket_family, validate_socket_type, BindStrategy,
    BindTarget, BuildPlan, FdProbe, IpAddress, SocketAddress, SocketBuilder, SocketSource, TargetKind,
};
use echosrv::text::{parse_u32, push_decimal, split_str};
use echosrv::transport::{TcpSocketBuilder, UdpSocketBuilder, UnixDatagramSocketBuilder, UnixStreamSocketBuilder};
use echosrv::EchoError;

fn loopback(port: u16) -> SocketAddress {
    SocketAddress { ip: IpAddress::V4([127, 0, 0, 1]), port }
}

#[test]
fn one_named_descriptor_for_this_process() {
    let config = FdInheritanceConfig::from_env_values(Some("1"), Some("4242"), Some("tcp-echo"), 4242).unwrap();
    assert!(config.is_enabled());
    assert!(config.has_inherited_fds());
    assert_eq!(config.get_fd("tcp-echo"), Some(3));
    assert_eq!(config.inherited_service_names(), vec!["tcp-echo".to_string()]);
}

#[test]
fn single_descriptor_named_svc() {
    let config = FdInheritanceConfig::from_env_values(Some("1"), Some("77"), Some("svc"), 77).unwrap();
    assert!(config.is_enabled());
    assert_eq!(config.get_fd("svc"), Some(3));
    assert_eq!(config.inherited_service_names().len(), 1);
}

#[test]
fn descriptors_for_another_process_are_ignored() {
    let config = FdInheritanceConfig::from_env_values(Some("1"), Some("77"), Some("svc"), 78).unwrap();
    assert!(!config.is_enabled());
    assert!(!config.has_inherited_fds());
    assert_eq!(config.get_fd("svc"), None);
    assert!(config.inherited_service_names().is_empty());
}

#[test]
fn no_descriptors_passed() {
    for count in [None, Some("0"), Some("abc"), Some(""), Some("-1")] {
        let config = FdInheritanceConfig::from_env_values(count, None, Some("svc"), 1).unwrap();
        assert!(!config.is_enabled());
        assert!(config.inherited_service_names().is_empty());
    }
}

#[test]
fn two_named_descriptors() {
    let config = FdInheritanceConfig::from_env_values(Some("2"), None, Some("tcp-echo:udp-echo"), 9).unwrap();
    assert_eq!(config.get_fd("tcp-echo"), Some(3));
    assert_eq!(config.get_fd("udp-echo"), Some(4));
}

#[test]
fn missing_names_become_generic() {
    let config = FdInheritanceConfig::from_env_values(Some("3"), None, Some("web"), 9).unwrap();
    assert_eq!(config.get_fd("web"), Some(3));
    assert_eq!(config.get_fd("fd_1"), Some(4));
    assert_eq!(config.get_fd("fd_2"), Some(5));

    let config = FdInheritanceConfig::from_env_values(Some("12"), None, None, 9).unwrap();
    assert_eq!(config.get_fd("fd_0"), Some(3));
    assert_eq!(config.get_fd("fd_11"), Some(14));
    assert_eq!(config.inherited_service_names().len(), 12);
}

#[test]
fn empty_name_list_gives_one_empty_name() {
    let config = FdInheritanceConfig::from_env_values(Some("1"), Some("4242"), Some(""), 4242).unwrap();
    assert!(config.is_enabled());
    assert_eq!(config.get_fd(""), Some(3));
    assert_eq!(config.get_fd("fd_0"), None);
    assert_eq!(config.inherited_service_names(), vec![String::new()]);
}

#[test]
fn short_name_list_filled_with_generic_names() {
    let config = FdInheritanceConfig::from_env_values(Some("2"), None, Some(""), 9).unwrap();
    assert_eq!(config.get_fd(""), Some(3));
    assert_eq!(config.get_fd("fd_1"), Some(4));
}

#[test]
fn unreadable_pid_does_not_disable() {
    let config = FdInheritanceConfig::from_env_values(Some("1"), Some("not-a-pid"), Some("svc"), 5).unwrap();
    assert!(config.is_enabled());
    assert_eq!(config.get_fd("svc"), Some(3));
}

#[test]
fn repeated_name_keeps_latest_descriptor() {
    let config = FdInheritanceConfig::from_env_values(Some("2"), None, Some("a:a"), 5).unwrap();
    assert_eq!(config.get_fd("a"), Some(4));
    assert_eq!(config.inherited_service_names(), vec!["a".to_string()]);
}

#[test]
fn descriptor_count_out_of_range() {
    let r = FdInheritanceConfig::from_env_values(Some("4294967295"), None, None, 5);
    assert!(matches!(r, Err(EchoError::Config(_))));
}

#[test]
fn parse_u32_follows_std() {
    for s in ["0", "7", "+12", "4294967295", "", "+", "4294967296", "12a", " 1", "-0", "00042"] {
        assert_eq!(parse_u32(s), s.parse::<u32>().ok(), "{}", s);
    }
}

#[test]
fn decimal_and_split_helpers() {
    let mut s = String::from("fd_");
    push_decimal(&mut s, 1_234_567);
    assert_eq!(s, "fd_1234567");
    assert_eq!(split_str("a::b", ':'), vec!["a".to_string(), String::new(), "b".to_string()]);
    assert_eq!(split_str("", ':'), vec![String::new()]);
}

#[test]
fn resolve_bind_ignores_inheritance() {
    let mut fds = FdInheritanceConfig::new(true);
    fds.insert("svc".to_string(), 3);
    let source = SocketBuilder::resolve_fd(&BindStrategy::Bind(BindTarget::Network(loopback(80))), "svc", &fds);
    assert!(matches!(source, SocketSource::Bind(BindTarget::Network(a)) if a == loopback(80)));
}

#[test]
fn resolve_inherit_or_bind_prefers_explicit_then_named_then_fallback() {
    let mut fds = FdInheritanceConfig::new(true);
    fds.insert("svc".to_string(), 5);
    let explicit = BindStrategy::InheritOrBind { fd: Some(9), fallback_target: BindTarget::Unix("/tmp/x".to_string()) };
    assert!(matches!(SocketBuilder::resolve_fd(&explicit, "svc", &fds), SocketSource::Inherit(9)));
    let named = BindStrategy::InheritOrBind { fd: None, fallback_target: BindTarget::Unix("/tmp/x".to_string()) };
    assert!(matches!(SocketBuilder::resolve_fd(&named, "svc", &fds), SocketSource::Inherit(5)));
    match SocketBuilder::resolve_fd(&named, "other", &fds) {
        SocketSource::Bind(BindTarget::Unix(p)) => assert_eq!(p, "/tmp/x"),
        other => panic!("unexpected {:?}", other),
    }
    assert!(matches!(SocketBuilder::resolve_fd(&BindStrategy::Inherit(8), "svc", &fds), SocketSource::Inherit(8)));
}

fn probe(kind: SocketKind, family: AddressFamily) -> FdProbe {
    FdProbe { kind: Ok(Some(kind)), family: Ok(Some(family)) }
}

#[test]
fn datagram_descriptor_refused_for_stream_protocol() {
    let req = TcpSocketBuilder::requirements();
    let r = validate_inherited_fd(3, &req, &probe(SocketKind::Datagram, AddressFamily::Inet));
    assert!(matches!(
        r,
        Err(EchoError::FdInheritance(FdCheckFailure::WrongKind { fd: 3, expected: SocketKind::Stream }))
    ));
}

#[test]
fn unix_descriptor_refused_for_network_protocol() {
    let req = UdpSocketBuilder::requirements();
    let r = validate_inherited_fd(4, &req, &probe(SocketKind::Datagram, AddressFamily::Unix));
    assert!(matches!(
        r,
        Err(EchoError::FdInheritance(FdCheckFailure::WrongFamily { fd: 4, expected: AddressFamily::Inet6 }))
    ));
}

#[test]
fn matching_descriptors_accepted() {
    assert!(validate_inherited_fd(3, &TcpSocketBuilder::requirements(), &probe(SocketKind::Stream, AddressFamily::Inet6)).is_ok());
    assert!(validate_inherited_fd(3, &UnixStreamSocketBuilder::requirements(), &probe(SocketKind::Stream, AddressFamily::Unix)).is_ok());
    assert!(validate_inherited_fd(3, &UnixDatagramSocketBuilder::requirements(), &probe(SocketKind::Datagram, AddressFamily::Unix)).is_ok());
}

#[test]
fn failed_os_queries_reported() {
    assert!(matches!(
        validate_socket_type(3, Err(9), SocketKind::Stream),
        Err(EchoError::FdInheritance(FdCheckFailure::KindQueryFailed { fd: 3, os_error: 9 }))
    ));
    assert!(matches!(
        validate_socket_family(3, Err(88), AddressFamily::Unix),
        Err(EchoError::FdInheritance(FdCheckFailure::FamilyQueryFailed { fd: 3, os_error: 88 }))
    ));
    assert!(matches!(
        validate_socket_type(3, Ok(None), SocketKind::Datagram),
        Err(EchoError::FdInheritance(FdCheckFailure::WrongKind { .. }))
    ));
    let mut req = UnixStreamSocketBuilder::requirements();
    req.families.clear();
    assert!(matches!(
        validate_inherited_fd(3, &req, &probe(SocketKind::Stream, AddressFamily::Unix)),
        Err(EchoError::FdInheritance(FdCheckFailure::NoFamilies { fd: 3 }))
    ));
}

#[test]
fn invalid_inherited_descriptor_falls_back_to_binding() {
    let strategy = BindStrategy::InheritOrBind { fd: Some(3), fallback_target: BindTarget::Network(loopback(9000)) };
    let plan = plan_socket(
        &strategy,
        &SocketSource::Inherit(3),
        &TcpSocketBuilder::requirements(),
        &probe(SocketKind::Datagram, AddressFamily::Inet),
    )
    .unwrap();
    assert!(matches!(plan, BuildPlan::BindFresh { target: BindTarget::Network(a) } if a == loopback(9000)));
}

#[test]
fn invalid_forced_descriptor_is_fatal() {
    let r = plan_socket(
        &BindStrategy::Inherit(3),
        &SocketSource::Inherit(3),
        &TcpSocketBuilder::requirements(),
        &probe(SocketKind::Datagram, AddressFamily::Inet),
    );
    assert!(matches!(r, Err(EchoError::FdInheritance(_))));
}

#[test]
fn valid_descriptor_adopted() {
    let r = plan_socket(
        &BindStrategy::Inherit(6),
        &SocketSource::Inherit(6),
        &TcpSocketBuilder::requirements(),
        &probe(SocketKind::Stream, AddressFamily::Inet),
    );
    assert!(matches!(r, Ok(BuildPlan::Adopt { fd: 6 })));
}

#[test]
fn binding_to_wrong_kind_of_target_is_config_error() {
    assert!(matches!(
        check_bind_target(TargetKind::Path, &BindTarget::Network(loopback(1))),
        Err(EchoError::Config(_))
    ));
    assert!(check_bind_target(TargetKind::Network, &BindTarget::Network(loopback(1))).is_ok());
    let plan = plan_socket(
        &BindStrategy::Bind(BindTarget::Network(loopback(1))),
        &SocketSource::Bind(BindTarget::Network(loopback(1))),
        &UnixStreamSocketBuilder::requirements(),
        &probe(SocketKind::Stream, AddressFamily::Unix),
    );
    assert!(matches!(plan, Err(EchoError::Config(_))));
}
