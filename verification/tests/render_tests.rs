use lau_construct_cli::{CircuitState, DeployError, EnsignState, PortStatus, Render, Tile};

#[test]
fn test_ensign_state_render_active() {
    assert_eq!(EnsignState::Active.render(), "[ACTIVE]");
}

#[test]
fn test_ensign_state_render_standby() {
    assert_eq!(EnsignState::Standby.render(), "[STANDBY]");
}

#[test]
fn test_ensign_state_render_error() {
    assert_eq!(EnsignState::Error.render(), "[ERROR!]");
}

#[test]
fn test_ensign_state_render_offline() {
    assert_eq!(EnsignState::Offline.render(), "[OFFLINE]");
}

#[test]
fn test_port_status_render_connected() {
    let ps = PortStatus {
        name: "port-1".to_string(),
        connected: true,
        messages_pending: 5,
    };
    let rendered = ps.render();
    assert!(rendered.contains("port-1"));
    assert!(rendered.contains("CONNECTED"));
    assert!(rendered.contains('5'));
}

#[test]
fn test_port_status_render_disconnected() {
    let ps = PortStatus {
        name: "port-2".to_string(),
        connected: false,
        messages_pending: 0,
    };
    let rendered = ps.render();
    assert!(rendered.contains("DISCONNECTED"));
}

#[test]
fn test_port_status_messages_pending() {
    let ps = PortStatus {
        name: "p".to_string(),
        connected: false,
        messages_pending: 42,
    };
    assert_eq!(ps.messages_pending, 42);
}

#[test]
fn test_tile_render() {
    let t = Tile {
        id: "t1".to_string(),
        content: "hello".to_string(),
        timestamp: 42,
    };
    assert!(t.render().contains("t1"));
    assert!(t.render().contains("hello"));
}

#[test]
fn test_circuit_state_render() {
    assert_eq!(CircuitState::Open.render(), "OPEN");
    assert_eq!(CircuitState::Closed.render(), "CLOSED");
    assert_eq!(CircuitState::Tripped.render(), "TRIPPED");
    assert_eq!(CircuitState::Maintenance.render(), "MAINTENANCE");
}

#[test]
fn test_deploy_error_display_room_not_found() {
    let e = DeployError::RoomNotFound("r1".to_string());
    assert_eq!(e.to_string(), "Room not found: r1");
}

#[test]
fn test_deploy_error_display_invalid_config() {
    let e = DeployError::InvalidConfig("bad".to_string());
    assert_eq!(e.to_string(), "Invalid config: bad");
}

#[test]
fn test_deploy_error_display_deployment_failed() {
    let e = DeployError::DeploymentFailed("oops".to_string());
    assert_eq!(e.to_string(), "Deployment failed: oops");
}

#[test]
fn test_deploy_error_display_already_exists() {
    let e = DeployError::AlreadyExists("r1".to_string());
    assert_eq!(e.to_string(), "Already exists: r1");
}

#[test]
fn test_deploy_error_is_error() {
    let e = DeployError::RoomNotFound("r".to_string());
    assert!(e.to_string().contains("Room not found"));
}
