use lau_construct_cli::{
    CircuitState, CircuitStatus, ConservationReport, ConservationStatus, ConstructStatus,
    Deployment, EnsignState, RoomInspection, RoomManifest, RoomStatus,
};

fn report(x: f64) -> ConservationReport {
    ConservationReport {
        law_holds: true,
        total_in: x.to_bits(),
        total_out: 1.0f64.to_bits(),
        discrepancy: 0.0f64.to_bits(),
        tolerance: 0.0f64.to_bits(),
    }
}

#[test]
fn real_fields_compare_as_floats() {
    let values = [
        0.0,
        -0.0,
        1.0,
        -1.0,
        0.1,
        f64::INFINITY,
        f64::NEG_INFINITY,
        f64::NAN,
        -f64::NAN,
        f64::MIN_POSITIVE,
        5e-324,
    ];
    for a in values {
        for b in values {
            assert_eq!(report(a) == report(b), a == b, "{:?} vs {:?}", a, b);
        }
    }
}

#[test]
fn signed_zeros_are_equal_and_nan_is_not() {
    let room = |g: f64| RoomStatus {
        id: "r".to_string(),
        ensign_state: EnsignState::Active,
        gravity: g.to_bits(),
        deadband: 0.0f64.to_bits(),
        tile_count: 1,
    };
    assert_eq!(room(0.0), room(-0.0));
    assert_ne!(room(f64::NAN), room(f64::NAN));
    let mut a = ConstructStatus::new();
    let mut b = ConstructStatus::new();
    a.rooms.push(room(0.0));
    b.rooms.push(room(-0.0));
    assert_eq!(a, b);
    b.conservation = ConservationStatus::new(f64::NAN.to_bits(), 0, 0);
    assert_ne!(a, b);
}

#[test]
fn nested_records_compare_real_values_as_floats() {
    let mut a = RoomInspection::offline("r");
    let mut b = RoomInspection::offline("r");
    a.gravity_vector = [0.0f64.to_bits(); 3];
    b.gravity_vector = [(-0.0f64).to_bits(); 3];
    assert_eq!(a, b);
    b.circuit_status = CircuitStatus {
        state: CircuitState::Open,
        load: f64::NAN.to_bits(),
        temperature: 0,
    };
    assert_ne!(a, b);

    let manifest = |g: f64| RoomManifest {
        room_id: "r".to_string(),
        dimensions: [1.0f64.to_bits(); 3],
        max_tiles: 1,
        gravity_setting: g.to_bits(),
        ensign_profile: None,
    };
    let dep = |g: f64| Deployment {
        room_id: "r".to_string(),
        manifest: manifest(g),
        deployed_at: "now".to_string(),
    };
    assert_eq!(dep(0.0), dep(-0.0));
    assert_ne!(dep(1.0), dep(2.0));
}
