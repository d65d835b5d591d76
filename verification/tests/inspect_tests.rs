use lau_construct_cli::{
    CircuitState, CircuitStatus, ConstructInspector, DeadbandStatus, EnsignState,
    PenroseCorrelation, ProvenanceEntry, Render, RoomConfig, RoomInspection, Tile,
};

fn bits(x: f64) -> u64 {
    x.to_bits()
}

fn two(x: f64) -> String {
    format!("{:.2}", x)
}

fn plain_inspection(id: &str, state: EnsignState) -> RoomInspection {
    RoomInspection {
        room_config: RoomConfig {
            room_id: id.to_string(),
            dimensions: [bits(1.0), bits(1.0), bits(1.0)],
            max_tiles: 50,
            gravity_setting: bits(1.0),
        },
        ensign_status: state,
        recent_tiles: vec![],
        gravity_vector: [0, 0, 0],
        deadband_status: DeadbandStatus {
            active: false,
            lower_bound: 0,
            upper_bound: 0,
            current_value: 0,
        },
        provenance_entries: vec![],
        circuit_status: CircuitStatus {
            state: CircuitState::Open,
            load: 0,
            temperature: 0,
        },
        penrose_correlations: vec![],
    }
}

fn render_inspection(ri: &RoomInspection) -> String {
    let g = ri.gravity_vector.map(f64::from_bits);
    let db = &ri.deadband_status;
    let cs = &ri.circuit_status;
    let corr: Vec<String> = ri
        .penrose_correlations
        .iter()
        .map(|c| format!("{:.4}", f64::from_bits(c.correlation)))
        .collect();
    ri.render_with(
        &two(g[0]),
        &two(g[1]),
        &two(g[2]),
        &two(f64::from_bits(db.lower_bound)),
        &two(f64::from_bits(db.upper_bound)),
        &two(f64::from_bits(db.current_value)),
        &two(f64::from_bits(cs.load)),
        &two(f64::from_bits(cs.temperature)),
        &corr,
    )
}

#[test]
fn test_deadband_status_render() {
    let d = DeadbandStatus {
        active: true,
        lower_bound: bits(-1.0),
        upper_bound: bits(1.0),
        current_value: bits(0.5),
    };
    let rendered = d.render_with(&two(-1.0), &two(1.0), &two(0.5));
    assert!(rendered.contains("ACTIVE"));
    assert!(rendered.contains("-1.00"));
    assert!(rendered.contains("1.00"));
}

#[test]
fn test_circuit_status_render() {
    let cs = CircuitStatus {
        state: CircuitState::Closed,
        load: bits(50.0),
        temperature: bits(75.5),
    };
    let rendered = cs.render_with(&two(50.0), &two(75.5));
    assert!(rendered.contains("CLOSED"));
    assert!(rendered.contains("50"));
    assert!(rendered.contains("75.5"));
}

#[test]
fn test_penrose_correlation_render() {
    let pc = PenroseCorrelation {
        tile_a: "a".to_string(),
        tile_b: "b".to_string(),
        correlation: bits(0.95),
    };
    assert!(pc.render_with(&format!("{:.4}", 0.95)).contains("0.9500"));
}

#[test]
fn test_room_inspection_render() {
    let mut ri = plain_inspection("r1", EnsignState::Active);
    ri.room_config.max_tiles = 100;
    let rendered = render_inspection(&ri);
    assert!(rendered.contains("ROOM INSPECTION"));
    assert!(rendered.contains("r1"));
}

#[test]
fn test_construct_inspector_inspect_known() {
    let mut inspector = ConstructInspector::new();
    let ri = plain_inspection("room-1", EnsignState::Active);
    inspector.register_room(ri.clone());
    let found = inspector.inspect_room("room-1");
    assert_eq!(found.room_config.room_id, "room-1");
    assert_eq!(found.ensign_status, EnsignState::Active);
}

#[test]
fn test_construct_inspector_inspect_unknown() {
    let inspector = ConstructInspector::new();
    let found = inspector.inspect_room("missing");
    assert_eq!(found.room_config.room_id, "missing");
    assert_eq!(found.ensign_status, EnsignState::Offline);
}

#[test]
fn test_construct_inspector_default() {
    let inspector: ConstructInspector = Default::default();
    let found = inspector.inspect_room("x");
    assert_eq!(found.ensign_status, EnsignState::Offline);
}

#[test]
fn inspector_reads_back_and_replaces() {
    let mut inspector = ConstructInspector::new();
    let a = plain_inspection("a", EnsignState::Active);
    let b = plain_inspection("b", EnsignState::Standby);
    inspector.register_room(a.clone());
    inspector.register_room(b.clone());
    assert_eq!(inspector.inspect_room("a"), a);
    assert_eq!(inspector.inspect_room("b"), b);
    let a2 = plain_inspection("a", EnsignState::Error);
    inspector.register_room(a2.clone());
    assert_eq!(inspector.inspect_room("a"), a2);
    assert_eq!(inspector.inspect_room("b"), b);
}

#[test]
fn offline_inspection_is_all_zero() {
    let found = ConstructInspector::new().inspect_room("ghost");
    assert_eq!(found, RoomInspection::offline("ghost"));
    assert_eq!(found.room_config.dimensions, [0, 0, 0]);
    assert_eq!(found.room_config.max_tiles, 0);
    assert_eq!(f64::from_bits(found.room_config.gravity_setting), 0.0);
    assert!(found.recent_tiles.is_empty());
    assert!(found.provenance_entries.is_empty());
    assert!(found.penrose_correlations.is_empty());
    assert_eq!(found.circuit_status.state, CircuitState::Open);
    assert!(!found.deadband_status.active);
}

#[test]
fn tile_render_exact() {
    let t = Tile {
        id: "t1".to_string(),
        content: "hello".to_string(),
        timestamp: 42,
    };
    assert_eq!(t.render(), format!("[{:>8}] {:<20} | {}", 42, "t1", "hello"));
}

#[test]
fn deadband_render_exact() {
    let d = DeadbandStatus {
        active: false,
        lower_bound: bits(-12.5),
        upper_bound: bits(3.0),
        current_value: bits(1.25),
    };
    let expected = format!(
        "+------------------------------+\n\
         | Deadband: {:<18} |\n\
         | Bounds: [{:>6.2}, {:>6.2}]          |\n\
         | Current: {:<19.2} |\n\
         +------------------------------+",
        "INACTIVE", -12.5, 3.0, 1.25
    );
    assert_eq!(d.render_with(&two(-12.5), &two(3.0), &two(1.25)), expected);
}

#[test]
fn room_inspection_render_exact() {
    let mut ri = plain_inspection("deck-7", EnsignState::Standby);
    ri.gravity_vector = [bits(0.0), bits(-9.81), bits(1.5)];
    ri.recent_tiles = vec![
        Tile {
            id: "t1".to_string(),
            content: "alpha".to_string(),
            timestamp: 7,
        },
        Tile {
            id: "t2".to_string(),
            content: "beta".to_string(),
            timestamp: 12345678,
        },
    ];
    ri.provenance_entries = vec![ProvenanceEntry {
        source: "s".to_string(),
        action: "a".to_string(),
        timestamp: 1,
        checksum: "x".to_string(),
    }];
    ri.penrose_correlations = vec![PenroseCorrelation {
        tile_a: "t1".to_string(),
        tile_b: "t2".to_string(),
        correlation: bits(-0.25),
    }];
    let mut out = String::new();
    out.push_str("+========================================+\n");
    out.push_str(&format!("| ROOM INSPECTION: {:<22}|\n", "deck-7"));
    out.push_str("+========================================+\n");
    out.push_str(&format!("| Ensign: {:<30}|\n", "[STANDBY]"));
    out.push_str(&format!(
        "| Gravity: [{:>6.2}, {:>6.2}, {:>6.2}]       |\n",
        0.0, -9.81, 1.5
    ));
    out.push_str("+----------------------------------------+\n");
    out.push_str("| Recent Tiles                           |\n");
    for t in &ri.recent_tiles {
        out.push_str(&format!("|  {:<38}|\n", t.render()));
    }
    out.push_str("+----------------------------------------+\n");
    out.push_str("| Deadband                               |\n");
    let deadband = ri.deadband_status.render_with("0.00", "0.00", "0.00");
    for line in deadband.lines() {
        out.push_str(&format!("|  {}\n", line));
    }
    out.push_str("+----------------------------------------+\n");
    out.push_str("| Circuit                                |\n");
    let circuit = ri.circuit_status.render_with("0.00", "0.00");
    for line in circuit.lines() {
        out.push_str(&format!("|  {}\n", line));
    }
    out.push_str("+----------------------------------------+\n");
    out.push_str("| Penrose Correlations                   |\n");
    out.push_str(&format!("|  {:<38}|\n", "t1 <-> t2 : -0.2500"));
    out.push_str("+========================================+\n");
    assert_eq!(render_inspection(&ri), out);
}

#[test]
fn cloned_inspector_keeps_rooms() {
    let mut inspector = ConstructInspector::new();
    inspector.register_room(plain_inspection("a", EnsignState::Active));
    let copy = inspector.clone();
    inspector.register_room(plain_inspection("a", EnsignState::Error));
    assert_eq!(copy.inspect_room("a").ensign_status, EnsignState::Active);
    assert_eq!(inspector.inspect_room("a").ensign_status, EnsignState::Error);
}
