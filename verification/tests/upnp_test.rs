use webpad::net::SocketAddrV4;
use webpad::upnp::mapper::{
    find_gateway, mapping_settings, probe_result, MappingSettings, ProbeOutput, ProbeReply, Transport,
};
use webpad::upnp::{PortMapper, PortMapperError};

#[test]
fn port_mapper_created_with_correct_port() {
    let mapper = PortMapper::new(8080);
    assert_eq!(mapper.port(), 8080);
    assert!(mapper.is_active());
}

#[test]
fn port_mapper_display_contains_port() {
    let mapper = PortMapper::new(8080);
    let display = mapper.to_string();
    assert!(display.contains("8080"));
}

#[test]
fn port_mapper_deactivate_sets_inactive() {
    let mut mapper = PortMapper::new(8080);
    assert!(mapper.is_active());
    mapper.deactivate();
    assert!(!mapper.is_active());
}

#[test]
fn port_mapper_update_port_changes_port() {
    let mapper = PortMapper::new(8080);
    assert_eq!(mapper.port(), 8080);
    assert_eq!(mapper.update_port(9090), Some(9090));
    assert_eq!(mapper.port(), 8080);
}

#[test]
fn port_mapper_error_display() {
    let err = PortMapperError::NoGateway;
    assert_eq!(err.to_string(), "No UPnP gateway found");

    let err = PortMapperError::ProbeFailed("timeout".into());
    assert_eq!(err.to_string(), "Probe failed: timeout");

    let err = PortMapperError::MappingFailed("rejected".into());
    assert_eq!(err.to_string(), "Mapping failed: rejected");
}

#[test]
fn port_mapper_debug_output() {
    let mapper = PortMapper::new(8080);
    let debug = format!("{:?}", mapper);
    assert!(debug.contains("port: 8080"));
    assert!(debug.contains("active: true"));
}

#[test]
fn port_mapper_zero_port_not_used() {
    let mapper = PortMapper::new(0);
    assert_eq!(mapper.port(), 0);
    assert!(mapper.is_active());
    assert_eq!(mapper.update_port(0), None);
}

#[test]
fn mapper_summary_is_exact() {
    let mut mapper = PortMapper::new(8443);
    assert_eq!(mapper.to_string(), "PortMapper(port=8443, active=true, external=unknown)");
    assert_eq!(mapper.current_external_address(), None);
    let addr = SocketAddrV4 { octets: (203, 0, 113, 9), port: 61000 };
    mapper.external_address_changed(Some(addr));
    mapper.deactivate();
    assert_eq!(mapper.current_external_address(), Some(addr));
    assert_eq!(
        mapper.to_string(),
        "PortMapper(port=8443, active=false, external=203.0.113.9:61000)"
    );
    mapper.external_address_changed(None);
    assert_eq!(mapper.current_external_address(), None);
}

#[test]
fn only_upnp_over_tcp_is_spoken() {
    assert_eq!(
        mapping_settings(),
        MappingSettings {
            enable_upnp: true,
            enable_pcp: false,
            enable_nat_pmp: false,
            protocol: Transport::Tcp,
        }
    );
}

#[test]
fn probe_replies_become_results() {
    let output = ProbeOutput { upnp: true, pcp: false, nat_pmp: true };
    assert_eq!(probe_result(&ProbeReply::Done(output)).unwrap(), output);
    assert_eq!(
        probe_result(&ProbeReply::Failed("timeout".to_string())).unwrap_err().to_string(),
        "Probe failed: timeout"
    );
    assert_eq!(
        probe_result(&ProbeReply::ChannelClosed).unwrap_err().to_string(),
        "Probe failed: probe channel closed"
    );
}

#[test]
fn gateway_must_know_upnp() {
    let with = ProbeOutput { upnp: true, pcp: false, nat_pmp: false };
    let without = ProbeOutput { upnp: false, pcp: true, nat_pmp: true };
    assert!(find_gateway(&Ok(with)).is_ok());
    let message = |r: Result<(), PortMapperError>| r.unwrap_err().to_string();
    assert_eq!(message(find_gateway(&Ok(without))), "No UPnP gateway found");
    assert_eq!(
        message(find_gateway(&Err(PortMapperError::ProbeFailed("t".to_string())))),
        "Probe failed: t"
    );
    assert_eq!(
        message(find_gateway(&Err(PortMapperError::MappingFailed("m".to_string())))),
        "Mapping failed: m"
    );
}
