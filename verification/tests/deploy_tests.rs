use lau_construct_cli::{
    ConstructDeployer, DeployError, Deployment, EnsignProfile, Render, RoomManifest,
};

fn bits(x: f64) -> u64 {
    x.to_bits()
}

fn manifest(id: &str, side: f64, max_tiles: usize) -> RoomManifest {
    RoomManifest {
        room_id: id.to_string(),
        dimensions: [bits(side), bits(side), bits(side)],
        max_tiles,
        gravity_setting: bits(side),
        ensign_profile: None,
    }
}

#[test]
fn test_deployment_render() {
    let d = Deployment {
        room_id: "r1".to_string(),
        manifest: RoomManifest {
            room_id: "r1".to_string(),
            dimensions: [bits(1.0), bits(1.0), bits(1.0)],
            max_tiles: 10,
            gravity_setting: bits(1.0),
            ensign_profile: Some(EnsignProfile {
                profile_name: "p1".to_string(),
                model: "m1".to_string(),
                priority: 1,
                flags: vec![],
            }),
        },
        deployed_at: "now".to_string(),
    };
    let rendered = d.render();
    assert!(rendered.contains("r1"));
    assert!(rendered.contains("p1"));
}

#[test]
fn test_construct_deployer_deploy_room_ok() {
    let mut deployer = ConstructDeployer::new();
    let id = deployer.deploy_room(manifest("r1", 1.0, 10)).unwrap();
    assert_eq!(id, "r1");
}

#[test]
fn test_construct_deployer_deploy_room_empty_id() {
    let mut deployer = ConstructDeployer::new();
    let err = deployer.deploy_room(manifest("", 1.0, 10)).unwrap_err();
    assert!(matches!(err, DeployError::InvalidConfig(_)));
}

#[test]
fn test_construct_deployer_deploy_room_already_exists() {
    let mut deployer = ConstructDeployer::new();
    let m = manifest("r1", 1.0, 10);
    deployer.deploy_room(m.clone()).unwrap();
    let err = deployer.deploy_room(m).unwrap_err();
    assert!(matches!(err, DeployError::AlreadyExists(_)));
}

#[test]
fn test_construct_deployer_deploy_ensign_ok() {
    let mut deployer = ConstructDeployer::new();
    deployer.deploy_room(manifest("r1", 1.0, 10)).unwrap();
    let profile = EnsignProfile {
        profile_name: "fast".to_string(),
        model: "v2".to_string(),
        priority: 1,
        flags: vec![],
    };
    let id = deployer.deploy_ensign("r1", profile).unwrap();
    assert_eq!(id, "r1");
}

#[test]
fn test_construct_deployer_deploy_ensign_not_found() {
    let mut deployer = ConstructDeployer::new();
    let profile = EnsignProfile {
        profile_name: "fast".to_string(),
        model: "v2".to_string(),
        priority: 1,
        flags: vec![],
    };
    let err = deployer.deploy_ensign("missing", profile).unwrap_err();
    assert!(matches!(err, DeployError::RoomNotFound(_)));
}

#[test]
fn test_construct_deployer_remove_room_ok() {
    let mut deployer = ConstructDeployer::new();
    deployer.deploy_room(manifest("r1", 1.0, 10)).unwrap();
    deployer.remove_room("r1").unwrap();
    assert!(deployer.list_deployments().is_empty());
}

#[test]
fn test_construct_deployer_remove_room_not_found() {
    let mut deployer = ConstructDeployer::new();
    let err = deployer.remove_room("missing").unwrap_err();
    assert!(matches!(err, DeployError::RoomNotFound(_)));
}

#[test]
fn test_construct_deployer_list_deployments() {
    let mut deployer = ConstructDeployer::new();
    deployer.deploy_room(manifest("r1", 1.0, 10)).unwrap();
    deployer.deploy_room(manifest("r2", 2.0, 20)).unwrap();
    let list = deployer.list_deployments();
    assert_eq!(list.len(), 2);
}

#[test]
fn test_construct_deployer_multiple_rooms() {
    let mut deployer = ConstructDeployer::new();
    for i in 0..5 {
        deployer.deploy_room(manifest(&format!("r{i}"), 1.0, 10)).unwrap();
    }
    assert_eq!(deployer.list_deployments().len(), 5);
}

#[test]
fn test_construct_deployer_default() {
    let deployer: ConstructDeployer = Default::default();
    assert!(deployer.list_deployments().is_empty());
}

#[test]
fn deploy_room_error_messages() {
    let mut deployer = ConstructDeployer::new();
    let err = deployer.deploy_room(manifest("", 1.0, 10)).unwrap_err();
    assert_eq!(err, DeployError::InvalidConfig("room_id cannot be empty".to_string()));
    assert_eq!(err.to_string(), "Invalid config: room_id cannot be empty");
    deployer.deploy_room(manifest("bay", 1.0, 10)).unwrap();
    let err = deployer.deploy_room(manifest("bay", 2.0, 3)).unwrap_err();
    assert_eq!(err, DeployError::AlreadyExists("bay".to_string()));
    let err = deployer.remove_room("deck").unwrap_err();
    assert_eq!(err, DeployError::RoomNotFound("deck".to_string()));
}

#[test]
fn refused_deploy_keeps_first_manifest() {
    let mut deployer = ConstructDeployer::new();
    deployer.deploy_room(manifest("bay", 1.0, 10)).unwrap();
    assert!(deployer.deploy_room(manifest("bay", 2.0, 3)).is_err());
    let list = deployer.list_deployments();
    assert_eq!(list.len(), 1);
    assert_eq!(list[0].manifest, manifest("bay", 1.0, 10));
    assert_eq!(list[0].deployed_at, "now");
    assert_eq!(list[0].room_id, "bay");
}

#[test]
fn remove_undoes_deploy_on_values() {
    let mut deployer = ConstructDeployer::new();
    deployer.deploy_room(manifest("a", 1.0, 1)).unwrap();
    let before = deployer.list_deployments();
    deployer.deploy_room(manifest("b", 2.0, 2)).unwrap();
    deployer.remove_room("b").unwrap();
    assert_eq!(deployer.list_deployments(), before);
    assert!(matches!(deployer.remove_room("b"), Err(DeployError::RoomNotFound(_))));
    deployer.deploy_room(manifest("b", 3.0, 3)).unwrap();
    assert_eq!(deployer.list_deployments().len(), 2);
}

#[test]
fn deploy_ensign_replaces_profile_only() {
    let mut deployer = ConstructDeployer::new();
    deployer.deploy_room(manifest("r1", 1.0, 10)).unwrap();
    let first = EnsignProfile {
        profile_name: "first".to_string(),
        model: "v1".to_string(),
        priority: 1,
        flags: vec!["x".to_string()],
    };
    let second = EnsignProfile {
        profile_name: "second".to_string(),
        model: "v2".to_string(),
        priority: 2,
        flags: vec![],
    };
    deployer.deploy_ensign("r1", first).unwrap();
    deployer.deploy_ensign("r1", second.clone()).unwrap();
    let list = deployer.list_deployments();
    assert_eq!(list.len(), 1);
    let mut expected = manifest("r1", 1.0, 10);
    expected.ensign_profile = Some(second);
    assert_eq!(list[0].manifest, expected);
    assert!(list[0].render().contains("second"));
}

#[test]
fn deployment_render_exact() {
    let d = Deployment {
        room_id: "bridge-1".to_string(),
        manifest: manifest("bridge-1", 1.0, 10),
        deployed_at: "now".to_string(),
    };
    let expected = format!(
        "+------------------------------+\n\
         | Deployment: {:<16} |\n\
         | Room: {:<22} |\n\
         | Ensign: {:<20} |\n\
         | At: {:<24} |\n\
         +------------------------------+",
        "bridge-1", "bridge-1", "none", "now"
    );
    assert_eq!(d.render(), expected);
}

#[test]
fn cloned_deployer_keeps_deployments() {
    let mut deployer = ConstructDeployer::new();
    deployer.deploy_room(manifest("a", 1.0, 1)).unwrap();
    let copy = deployer.clone();
    deployer.remove_room("a").unwrap();
    assert_eq!(copy.list_deployments().len(), 1);
    assert!(deployer.list_deployments().is_empty());
}
