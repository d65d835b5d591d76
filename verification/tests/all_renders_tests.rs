use lau_construct_cli::{
    CircuitState, CircuitStatus, ConservationReport, ConservationStatus, ConstructStatus,
    DeadbandStatus, Deployment, EnsignState, PenroseCorrelation, PortStatus, ProviderStatus,
    Render, RoomConfig, RoomInspection, RoomManifest, RoomStatus, Tile, TraceStep,
};

fn bits(x: f64) -> u64 {
    x.to_bits()
}

fn two(x: f64) -> String {
    format!("{:.2}", x)
}

#[test]
fn test_all_renders_are_non_empty() {
    let rs = RoomStatus {
        id: "r".to_string(),
        ensign_state: EnsignState::Active,
        gravity: bits(0.0),
        deadband: bits(0.0),
        tile_count: 0,
    };
    assert!(!rs.render_with(&two(0.0), &two(0.0)).is_empty());

    let cs = ConservationStatus::new(bits(1.0), bits(0.5), bits(0.1));
    assert!(!cs.render_with(&two(1.0), &two(0.5), 10, &two(10.0)).is_empty());

    let ps = ProviderStatus {
        name: "p".to_string(),
        available: true,
        models: vec![],
        budget_remaining: bits(0.0),
    };
    assert!(!ps.render_with(&two(0.0)).is_empty());

    let port = PortStatus {
        name: "p".to_string(),
        connected: true,
        messages_pending: 0,
    };
    assert!(!port.render().is_empty());

    let cons = ConstructStatus::new();
    assert!(!cons
        .render_with(&vec![], &vec![], &two(0.0), &two(0.0), 0, &two(0.0), &vec![])
        .is_empty());

    let tile = Tile {
        id: "t".to_string(),
        content: "c".to_string(),
        timestamp: 0,
    };
    assert!(!tile.render().is_empty());

    let db = DeadbandStatus {
        active: false,
        lower_bound: bits(0.0),
        upper_bound: bits(0.0),
        current_value: bits(0.0),
    };
    assert!(!db.render_with(&two(0.0), &two(0.0), &two(0.0)).is_empty());

    let circ = CircuitStatus {
        state: CircuitState::Open,
        load: bits(0.0),
        temperature: bits(0.0),
    };
    assert!(!circ.render_with(&two(0.0), &two(0.0)).is_empty());

    let pc = PenroseCorrelation {
        tile_a: "a".to_string(),
        tile_b: "b".to_string(),
        correlation: bits(0.0),
    };
    assert!(!pc.render_with(&format!("{:.4}", 0.0)).is_empty());

    let ri = RoomInspection {
        room_config: RoomConfig {
            room_id: "r".to_string(),
            dimensions: [bits(0.0); 3],
            max_tiles: 0,
            gravity_setting: bits(0.0),
        },
        ensign_status: EnsignState::Active,
        recent_tiles: vec![],
        gravity_vector: [bits(0.0); 3],
        deadband_status: db,
        provenance_entries: vec![],
        circuit_status: circ,
        penrose_correlations: vec![],
    };
    let z = two(0.0);
    assert!(!ri.render_with(&z, &z, &z, &z, &z, &z, &z, &z, &vec![]).is_empty());

    let d = Deployment {
        room_id: "r".to_string(),
        manifest: RoomManifest {
            room_id: "r".to_string(),
            dimensions: [bits(0.0); 3],
            max_tiles: 0,
            gravity_setting: bits(0.0),
            ensign_profile: None,
        },
        deployed_at: "now".to_string(),
    };
    assert!(!d.render().is_empty());

    let ts = TraceStep {
        timestamp: 0,
        agent: "a".to_string(),
        action: "a".to_string(),
        duration_ms: 0,
        energy_cost: bits(0.0),
    };
    assert!(!ts.render_with(&two(0.0)).is_empty());

    let cr = ConservationReport {
        law_holds: true,
        total_in: bits(0.0),
        total_out: bits(0.0),
        discrepancy: bits(0.0),
        tolerance: bits(0.0),
    };
    let f4 = format!("{:.4}", 0.0);
    let f6 = format!("{:.6}", 0.0);
    assert!(!cr.render_with(&f4, &f4, &f6, &f6).is_empty());
}

#[test]
fn empty_dashboard_shape() {
    let cs = ConstructStatus::new();
    let r = cs.render_with(&vec![], &vec![], &two(0.0), &two(0.0), 0, &two(0.0), &vec![]);
    assert_eq!(r.lines().filter(|l| l.starts_with("|  (none)")).count(), 3);
    assert_eq!(r.lines().count(), 23);
    assert!(r.ends_with('\n'));
}

#[test]
fn inspection_shape_follows_its_fields() {
    let z = two(0.0);
    let mut ri = RoomInspection::offline("r1");
    ri.ensign_status = EnsignState::Active;
    let r = ri.render_with(&z, &z, &z, &z, &z, &z, &z, &z, &vec![]);
    assert!(r.contains("[ACTIVE]"));
    assert_eq!(r.lines().count(), 26);
    assert_eq!(r.lines().filter(|l| l.starts_with("|  (none)")).count(), 2);
    ri.penrose_correlations.push(PenroseCorrelation {
        tile_a: "a".to_string(),
        tile_b: "b".to_string(),
        correlation: bits(0.5),
    });
    let r = ri.render_with(&z, &z, &z, &z, &z, &z, &z, &z, &vec![format!("{:.4}", 0.5)]);
    assert_eq!(r.lines().filter(|l| l.starts_with("|  (none)")).count(), 1);
    assert!(r.contains("a <-> b : 0.5000"));
}
