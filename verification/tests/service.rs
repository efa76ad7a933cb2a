use port_registry::access::IpAddress;
use port_registry::error::RegistryError;
use port_registry::registry::{resolve_service_info, Registry, ServiceInfo};
use port_registry::service::{
    begin_get_port, finish_get_port, get_port_handler, status_handler, stop_handler, GetPortStep,
    Reply, SHUTDOWN_GRACE_SECS,
};
use port_registry::status::StatusReport;

const LOOPBACK: Option<IpAddress> = Some(IpAddress::V4([127, 0, 0, 1]));
const PUBLIC: Option<IpAddress> = Some(IpAddress::V4([203, 0, 113, 7]));

fn web_only() -> Registry {
    Registry::from_entries(&vec![("web".to_string(), ServiceInfo { ip: None, port: 8080 })])
}

fn get_port(
    registry: &mut Registry,
    peer: Option<IpAddress>,
    name: &str,
    ip: &str,
    written: Result<(), String>,
) -> Reply {
    get_port_handler(peer, registry, name, ip, |_| written)
}

fn get_port_in_two_halves(
    registry: &mut Registry,
    peer: Option<IpAddress>,
    name: &str,
    ip: &str,
    written: Result<(), String>,
) -> Reply {
    match begin_get_port(peer, registry, name, ip) {
        GetPortStep::Done(reply) => reply,
        GetPortStep::Persist(update) => finish_get_port(registry, update, written),
    }
}

#[test]
fn lookup_from_loopback_returns_port_and_stores_ip() {
    let mut registry = web_only();
    let reply = get_port(&mut registry, LOOPBACK, "web", "10.0.0.5", Ok(()));
    assert_eq!(reply, Reply::Port(8080));
    assert!(reply.success());
    assert_eq!(reply.status_code(), 200);
    assert_eq!(
        resolve_service_info(&registry, "web"),
        Ok(ServiceInfo { ip: Some("10.0.0.5".to_string()), port: 8080 })
    );
}

#[test]
fn lookup_from_public_address_is_forbidden_and_changes_nothing() {
    let mut registry = web_only();
    let before = registry.entries();
    let reply = get_port(&mut registry, PUBLIC, "web", "10.0.0.5", Ok(()));
    assert_eq!(reply, Reply::Failure(RegistryError::AccessDenied));
    assert!(!reply.success());
    assert_eq!(reply.status_code(), 403);
    assert_eq!(registry.entries(), before);
    assert_eq!(resolve_service_info(&registry, "web"), Ok(ServiceInfo { ip: None, port: 8080 }));
}

#[test]
fn untrusted_caller_learns_nothing_about_names() {
    let registry = web_only();
    for name in ["web", "ghost", ""] {
        for peer in [PUBLIC, None, Some(IpAddress::V6([0x2001, 0xdb8, 0, 0, 0, 0, 0, 1]))] {
            match begin_get_port(peer, &registry, name, "1.2.3.4") {
                GetPortStep::Done(reply) => {
                    assert_eq!(reply, Reply::Failure(RegistryError::AccessDenied))
                }
                GetPortStep::Persist(_) => panic!("an update was staged for an untrusted caller"),
            }
        }
    }
}

#[test]
fn lookup_of_unknown_name_is_not_found() {
    let mut registry = web_only();
    let before = registry.entries();
    let reply = get_port(&mut registry, LOOPBACK, "ghost", "1.2.3.4", Ok(()));
    assert_eq!(reply, Reply::Failure(RegistryError::NotFound("ghost".to_string())));
    assert!(!reply.success());
    assert_eq!(reply.status_code(), 404);
    match &reply {
        Reply::Failure(e) => assert!(e.message().contains("not found")),
        _ => unreachable!(),
    }
    assert_eq!(registry.entries(), before);
}

#[test]
fn failed_write_is_a_server_error_and_changes_nothing() {
    let mut registry = web_only();
    let before = registry.entries();
    let reply = get_port(
        &mut registry,
        LOOPBACK,
        "web",
        "10.0.0.5",
        Err("Can't write ports.json: permission denied".to_string()),
    );
    assert_eq!(
        reply,
        Reply::Failure(RegistryError::Persistence(
            "Can't write ports.json: permission denied".to_string()
        ))
    );
    assert!(!reply.success());
    assert_eq!(reply.status_code(), 500);
    assert_eq!(registry.entries(), before);
}

#[test]
fn first_step_stages_without_changing_the_registry() {
    let registry = web_only();
    match begin_get_port(LOOPBACK, &registry, "web", "10.0.0.5") {
        GetPortStep::Persist(update) => {
            assert_eq!(update.port(), 8080);
            assert_eq!(
                update.document(),
                vec![(
                    "web".to_string(),
                    ServiceInfo { ip: Some("10.0.0.5".to_string()), port: 8080 }
                )]
            );
        }
        GetPortStep::Done(_) => panic!("nothing was staged for a registered name"),
    }
    assert_eq!(resolve_service_info(&registry, "web"), Ok(ServiceInfo { ip: None, port: 8080 }));
}

#[test]
fn private_network_callers_are_served() {
    for peer in [
        Some(IpAddress::V4([10, 1, 2, 3])),
        Some(IpAddress::V4([172, 16, 0, 1])),
        Some(IpAddress::V4([192, 168, 0, 1])),
        Some(IpAddress::V6([0, 0, 0, 0, 0, 0, 0, 1])),
    ] {
        let mut registry = web_only();
        assert_eq!(get_port(&mut registry, peer, "web", "10.9.9.9", Ok(())), Reply::Port(8080));
    }
}

#[test]
fn status_is_given_to_trusted_callers_only() {
    let report = StatusReport { uptime: 12, cpu: 3, ram: 45, disk: 67 };
    let reply = status_handler(LOOPBACK, report);
    assert_eq!(reply, Reply::Status(report));
    assert!(reply.success());
    assert_eq!(reply.status_code(), 200);
    let refused = status_handler(PUBLIC, report);
    assert_eq!(refused, Reply::Failure(RegistryError::AccessDenied));
    assert_eq!(refused.status_code(), 403);
    assert_eq!(status_handler(None, report), Reply::Failure(RegistryError::AccessDenied));
}

#[test]
fn stop_is_scheduled_for_trusted_callers_only() {
    assert_eq!(SHUTDOWN_GRACE_SECS, 1);
    let (reply, delay) = stop_handler(LOOPBACK);
    assert_eq!(reply, Reply::Stopping);
    assert!(reply.success());
    assert_eq!(reply.status_code(), 200);
    assert_eq!(delay, Some(1));
    let (refused, nothing) = stop_handler(PUBLIC);
    assert_eq!(refused, Reply::Failure(RegistryError::AccessDenied));
    assert_eq!(nothing, None);
}

#[test]
fn body_of_a_port_reply() {
    assert_eq!(Reply::Port(8080).body().unwrap(), "{\"success\":true,\"data\":8080}");
    assert_eq!(Reply::Port(0).body().unwrap(), "{\"success\":true,\"data\":0}");
    assert_eq!(Reply::Port(65535).body().unwrap(), "{\"success\":true,\"data\":65535}");
    assert_eq!(Reply::Port(7).body().unwrap(), "{\"success\":true,\"data\":7}");
    assert_eq!(Reply::Port(100).body().unwrap(), "{\"success\":true,\"data\":100}");
}

#[test]
fn body_of_a_status_reply() {
    let report = StatusReport { uptime: 3601, cpu: 0, ram: 45, disk: 100 };
    assert_eq!(
        Reply::Status(report).body().unwrap(),
        "{\"success\":true,\"data\":{\"uptime\":3601,\"cpu\":0,\"ram\":45,\"disk\":100}}"
    );
    let large = StatusReport { uptime: u64::MAX, cpu: 10, ram: 9, disk: 19 };
    assert_eq!(
        Reply::Status(large).body().unwrap(),
        "{\"success\":true,\"data\":{\"uptime\":18446744073709551615,\"cpu\":10,\"ram\":9,\"disk\":19}}"
    );
}

#[test]
fn body_of_a_stop_reply() {
    assert_eq!(Reply::Stopping.body().unwrap(), "{\"success\":true,\"data\":null}");
}

#[test]
fn body_of_a_failure_carries_its_message() {
    assert_eq!(
        Reply::Failure(RegistryError::NotFound("ghost".to_string())).body().unwrap(),
        "{\"success\":false,\"error\":\"Service 'ghost' not found in ports.json\"}"
    );
    assert_eq!(
        Reply::Failure(RegistryError::AccessDenied).body().unwrap(),
        "{\"success\":false,\"error\":\"Access denied: only local network allowed\"}"
    );
}

#[test]
fn body_of_a_failure_escapes_its_message() {
    let reply = Reply::Failure(RegistryError::Persistence("no \"disk\"\n\\here\u{1}".to_string()));
    assert_eq!(
        reply.body().unwrap(),
        "{\"success\":false,\"error\":\"no \\\"disk\\\"\\n\\\\here\\u0001\"}"
    );
    let odd = Reply::Failure(RegistryError::NotFound("a\"b".to_string()));
    assert_eq!(
        odd.body().unwrap(),
        "{\"success\":false,\"error\":\"Service 'a\\\"b' not found in ports.json\"}"
    );
}

#[test]
fn bodies_are_json_documents() {
    let replies = [
        Reply::Port(8080),
        Reply::Stopping,
        Reply::Status(StatusReport { uptime: 1, cpu: 2, ram: 3, disk: 4 }),
        Reply::Failure(RegistryError::NotFound("sv\u{e9}c \"x\"\t".to_string())),
        Reply::Failure(RegistryError::Persistence("Can't write ports.json: \\".to_string())),
    ];
    for reply in replies {
        let body = reply.body().unwrap();
        let value: serde_json::Value = serde_json::from_str(&body).unwrap();
        assert_eq!(value.get("success").and_then(|v| v.as_bool()), Some(reply.success()));
        match &reply {
            Reply::Failure(e) => {
                assert_eq!(value.get("error").and_then(|v| v.as_str()), Some(e.message().as_str()))
            }
            Reply::Port(port) => {
                assert_eq!(value.get("data").and_then(|v| v.as_u64()), Some(*port as u64))
            }
            Reply::Stopping => assert!(value.get("data").unwrap().is_null()),
            Reply::Status(report) => {
                let data = value.get("data").unwrap();
                assert_eq!(data.get("uptime").and_then(|v| v.as_u64()), Some(report.uptime));
                assert_eq!(data.get("cpu").and_then(|v| v.as_u64()), Some(report.cpu));
                assert_eq!(data.get("ram").and_then(|v| v.as_u64()), Some(report.ram));
                assert_eq!(data.get("disk").and_then(|v| v.as_u64()), Some(report.disk));
            }
        }
    }
}

#[test]
fn lookup_scenario_bodies() {
    let mut registry = web_only();
    let found = get_port(&mut registry, LOOPBACK, "web", "10.0.0.5", Ok(()));
    assert_eq!(found.body().unwrap(), "{\"success\":true,\"data\":8080}");
    let missing = get_port(&mut registry, LOOPBACK, "ghost", "1.2.3.4", Ok(()));
    let body = missing.body().unwrap();
    assert!(body.starts_with("{\"success\":false,\"error\":\""));
    assert!(body.contains("not found"));
}

#[test]
fn writer_is_called_once_for_a_served_lookup() {
    let mut registry = web_only();
    let mut written: Vec<Vec<(String, ServiceInfo)>> = Vec::new();
    let reply = get_port_handler(LOOPBACK, &mut registry, "web", "10.0.0.5", |doc| {
        written.push(doc);
        Ok(())
    });
    assert_eq!(reply, Reply::Port(8080));
    assert_eq!(
        written,
        vec![vec![("web".to_string(), ServiceInfo { ip: Some("10.0.0.5".to_string()), port: 8080 })]]
    );
}

#[test]
fn writer_is_never_called_for_a_refused_or_unknown_lookup() {
    let mut registry = web_only();
    let mut calls = 0;
    let refused = get_port_handler(PUBLIC, &mut registry, "web", "10.0.0.5", |_| {
        calls += 1;
        Ok(())
    });
    assert_eq!(refused, Reply::Failure(RegistryError::AccessDenied));
    let nameless = get_port_handler(None, &mut registry, "web", "10.0.0.5", |_| {
        calls += 1;
        Ok(())
    });
    assert_eq!(nameless, Reply::Failure(RegistryError::AccessDenied));
    let unknown = get_port_handler(LOOPBACK, &mut registry, "ghost", "1.2.3.4", |_| {
        calls += 1;
        Ok(())
    });
    assert_eq!(unknown, Reply::Failure(RegistryError::NotFound("ghost".to_string())));
    assert_eq!(calls, 0);
    assert_eq!(resolve_service_info(&registry, "web"), Ok(ServiceInfo { ip: None, port: 8080 }));
}

#[test]
fn two_halves_agree_with_the_whole() {
    let cases: [(Option<IpAddress>, &str, Result<(), String>); 5] = [
        (LOOPBACK, "web", Ok(())),
        (LOOPBACK, "web", Err("Can't write ports.json: full".to_string())),
        (LOOPBACK, "ghost", Ok(())),
        (PUBLIC, "web", Ok(())),
        (None, "ghost", Ok(())),
    ];
    for (peer, name, written) in cases {
        let mut whole = web_only();
        let mut halves = web_only();
        let a = get_port(&mut whole, peer, name, "10.0.0.5", written.clone());
        let b = get_port_in_two_halves(&mut halves, peer, name, "10.0.0.5", written);
        assert_eq!(a, b);
        assert_eq!(whole.entries(), halves.entries());
    }
}
