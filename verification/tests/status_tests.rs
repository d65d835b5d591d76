use lau_construct_cli::status::render_bar_cells;
use lau_construct_cli::{
    ConservationStatus, ConstructStatus, EnsignState, PortStatus, ProviderStatus, Render,
    RoomStatus,
};

fn bits(x: f64) -> u64 {
    x.to_bits()
}

fn two(x: f64) -> String {
    format!("{:.2}", x)
}

fn room_panel(rs: &RoomStatus) -> String {
    rs.render_with(
        &two(f64::from_bits(rs.gravity)),
        &two(f64::from_bits(rs.deadband)),
    )
}

fn filled_cells(fraction: f64, width: usize) -> usize {
    let fraction = fraction.clamp(0.0, 1.0);
    (fraction * width as f64).round() as usize
}

fn conservation_panel(cs: &ConservationStatus) -> String {
    let budget = f64::from_bits(cs.total_budget);
    let spent = f64::from_bits(cs.total_spent);
    let pct = if budget > 0.0 { spent / budget } else { 0.0 };
    cs.render_with(
        &two(budget),
        &two(spent),
        filled_cells(pct, 20),
        &two(f64::from_bits(cs.degradation_level) * 100.0),
    )
}

fn provider_panel(ps: &ProviderStatus) -> String {
    ps.render_with(&two(f64::from_bits(ps.budget_remaining)))
}

fn dashboard(cs: &ConstructStatus) -> String {
    let gravity: Vec<String> = cs.rooms.iter().map(|r| two(f64::from_bits(r.gravity))).collect();
    let deadband: Vec<String> = cs.rooms.iter().map(|r| two(f64::from_bits(r.deadband))).collect();
    let budgets: Vec<String> = cs
        .providers
        .iter()
        .map(|p| two(f64::from_bits(p.budget_remaining)))
        .collect();
    let c = &cs.conservation;
    let budget = f64::from_bits(c.total_budget);
    let spent = f64::from_bits(c.total_spent);
    let pct = if budget > 0.0 { spent / budget } else { 0.0 };
    cs.render_with(
        &gravity,
        &deadband,
        &two(budget),
        &two(spent),
        filled_cells(pct, 20),
        &two(f64::from_bits(c.degradation_level) * 100.0),
        &budgets,
    )
}

#[test]
fn test_room_status_render() {
    let rs = RoomStatus {
        id: "alpha".to_string(),
        ensign_state: EnsignState::Active,
        gravity: bits(9.81),
        deadband: bits(0.05),
        tile_count: 42,
    };
    let rendered = room_panel(&rs);
    assert!(rendered.contains("alpha"));
    assert!(rendered.contains("[ACTIVE]"));
    assert!(rendered.contains("9.81"));
    assert!(rendered.contains("42"));
}

#[test]
fn test_room_status_gravity_deadband() {
    let rs = RoomStatus {
        id: "g".to_string(),
        ensign_state: EnsignState::Active,
        gravity: bits(2.5),
        deadband: bits(0.01),
        tile_count: 0,
    };
    assert!((f64::from_bits(rs.gravity) - 2.5).abs() < f64::EPSILON);
    assert!((f64::from_bits(rs.deadband) - 0.01).abs() < f64::EPSILON);
}

#[test]
fn test_conservation_status_render() {
    let cs = ConservationStatus::new(bits(1000.0), bits(500.0), bits(0.05));
    let rendered = conservation_panel(&cs);
    assert!(rendered.contains("CONSERVATION"));
    assert!(rendered.contains("1000"));
    assert!(rendered.contains("500"));
    assert!(rendered.contains("5.00"));
    assert!(rendered.contains('%'));
    assert!(rendered.contains("##########----------"));
}

#[test]
fn test_conservation_status_render_half() {
    let cs = ConservationStatus::new(bits(100.0), bits(50.0), bits(0.1));
    let rendered = conservation_panel(&cs);
    assert!(rendered.contains("##########----------"));
    assert!(rendered.contains("10.00"));
    assert!(rendered.contains('%'));
}

#[test]
fn test_provider_status_render_available() {
    let ps = ProviderStatus {
        name: "provider-a".to_string(),
        available: true,
        models: vec!["m1".to_string(), "m2".to_string()],
        budget_remaining: bits(1234.56),
    };
    let rendered = provider_panel(&ps);
    assert!(rendered.contains("provider-a"));
    assert!(rendered.contains("AVAILABLE"));
    assert!(rendered.contains("1234.56"));
    assert!(rendered.contains("m1, m2"));
}

#[test]
fn test_provider_status_render_unavailable() {
    let ps = ProviderStatus {
        name: "provider-b".to_string(),
        available: false,
        models: vec![],
        budget_remaining: bits(0.0),
    };
    let rendered = provider_panel(&ps);
    assert!(rendered.contains("OFFLINE"));
}

#[test]
fn test_provider_status_models() {
    let ps = ProviderStatus {
        name: "p".to_string(),
        available: true,
        models: vec!["a".to_string(), "b".to_string()],
        budget_remaining: bits(0.0),
    };
    assert_eq!(ps.models.len(), 2);
}

#[test]
fn test_construct_status_render_empty() {
    let cs = ConstructStatus::new();
    let rendered = dashboard(&cs);
    assert!(rendered.contains("PLATO CONSTRUCT STATUS DASHBOARD"));
    assert!(rendered.contains("(none)"));
}

#[test]
fn test_construct_status_render_with_data() {
    let cs = ConstructStatus {
        rooms: vec![RoomStatus {
            id: "r1".to_string(),
            ensign_state: EnsignState::Active,
            gravity: bits(1.0),
            deadband: bits(0.1),
            tile_count: 5,
        }],
        conservation: ConservationStatus::new(bits(100.0), bits(50.0), bits(0.05)),
        providers: vec![ProviderStatus {
            name: "p1".to_string(),
            available: true,
            models: vec!["m1".to_string()],
            budget_remaining: bits(10.0),
        }],
        ports: vec![PortStatus {
            name: "port1".to_string(),
            connected: true,
            messages_pending: 0,
        }],
        uptime_seconds: 3600,
        total_ticks: 1_000_000,
    };
    let rendered = dashboard(&cs);
    assert!(rendered.contains("r1"));
    assert!(rendered.contains("3600"));
    assert!(rendered.contains("1000000"));
    assert!(rendered.contains("p1"));
    assert!(rendered.contains("port1"));
}

#[test]
fn test_construct_status_rooms_count() {
    let cs = ConstructStatus {
        rooms: vec![
            RoomStatus {
                id: "a".to_string(),
                ensign_state: EnsignState::Active,
                gravity: bits(0.0),
                deadband: bits(0.0),
                tile_count: 0,
            },
            RoomStatus {
                id: "b".to_string(),
                ensign_state: EnsignState::Standby,
                gravity: bits(0.0),
                deadband: bits(0.0),
                tile_count: 0,
            },
        ],
        conservation: ConservationStatus::new(bits(0.0), bits(0.0), bits(0.0)),
        providers: vec![],
        ports: vec![],
        uptime_seconds: 0,
        total_ticks: 0,
    };
    assert_eq!(cs.rooms.len(), 2);
}

#[test]
fn test_construct_status_default() {
    let cs: ConstructStatus = Default::default();
    assert!(cs.rooms.is_empty());
}

#[test]
fn port_render_exact() {
    let ps = PortStatus {
        name: "telegram".to_string(),
        connected: false,
        messages_pending: 1234567,
    };
    let expected = format!(
        "+------------------------------+\n\
         | Port: {:<22} |\n\
         | State: {:<21} |\n\
         | Pending: {:<19} |\n\
         +------------------------------+",
        "telegram", "DISCONNECTED", 1234567u64
    );
    assert_eq!(ps.render(), expected);
}

#[test]
fn port_render_long_name_is_not_cut() {
    let name = "a-port-name-longer-than-twenty-two";
    let ps = PortStatus {
        name: name.to_string(),
        connected: true,
        messages_pending: u64::MAX,
    };
    let rendered = ps.render();
    assert!(rendered.contains(&format!("| Port: {} |", name)));
    assert!(rendered.contains("18446744073709551615"));
}

#[test]
fn room_status_render_exact() {
    let rs = RoomStatus {
        id: "engineering-bay".to_string(),
        ensign_state: EnsignState::Error,
        gravity: bits(9.81),
        deadband: bits(0.05),
        tile_count: 42,
    };
    let expected = format!(
        "+------------------------------+\n\
         | Room: {:<22} |\n\
         | Ensign: {:<20} |\n\
         | Gravity: {:<19.2} |\n\
         | Deadband: {:<18.2} |\n\
         | Tiles: {:<21} |\n\
         +------------------------------+",
        "engineering-bay", "[ERROR!]", 9.81, 0.05, 42
    );
    assert_eq!(room_panel(&rs), expected);
}

#[test]
fn provider_render_exact() {
    let ps = ProviderStatus {
        name: "openai".to_string(),
        available: false,
        models: vec!["gpt-4".to_string(), "gpt-3".to_string(), "x".to_string()],
        budget_remaining: bits(550.0),
    };
    let expected = format!(
        "+------------------------------+\n\
         | Provider: {:<18} |\n\
         | Status: {:<20} |\n\
         | Budget: {:<20.2} |\n\
         | Models: {:<20} |\n\
         +------------------------------+",
        "openai", "OFFLINE  ", 550.0, "gpt-4, gpt-3, x"
    );
    assert_eq!(provider_panel(&ps), expected);
}

#[test]
fn conservation_render_exact() {
    let cs = ConservationStatus::new(bits(1000.0), bits(450.0), bits(0.05));
    let expected = format!(
        "+------------------------------+\n\
         | CONSERVATION                 |\n\
         | Budget:  {:<19.2} |\n\
         | Spent:   {:<19.2} |\n\
         | {} |\n\
         | Degradation: {:<15.2}% |\n\
         +------------------------------+",
        1000.0, 450.0, "[#########-----------]", 5.0
    );
    assert_eq!(conservation_panel(&cs), expected);
}

#[test]
fn bar_cells_exact() {
    assert_eq!(render_bar_cells(10, 20), "[##########----------]");
    assert_eq!(render_bar_cells(0, 3), "[---]");
    assert_eq!(render_bar_cells(3, 3), "[###]");
    assert_eq!(render_bar_cells(5, 3), "[#####]");
    assert_eq!(render_bar_cells(0, 0), "[]");
}

#[test]
fn dashboard_render_exact() {
    let cs = ConstructStatus {
        rooms: vec![RoomStatus {
            id: "r1".to_string(),
            ensign_state: EnsignState::Active,
            gravity: bits(1.0),
            deadband: bits(0.1),
            tile_count: 5,
        }],
        conservation: ConservationStatus::new(bits(100.0), bits(50.0), bits(0.05)),
        providers: vec![],
        ports: vec![PortStatus {
            name: "port1".to_string(),
            connected: true,
            messages_pending: 3,
        }],
        uptime_seconds: 42,
        total_ticks: 7,
    };
    let mut out = String::new();
    out.push_str("+========================================+\n");
    out.push_str("|     PLATO CONSTRUCT STATUS DASHBOARD   |\n");
    out.push_str("+========================================+\n");
    out.push_str(&format!("| Uptime: {:>6}s | Ticks: {:>12}   |\n", 42, 7));
    out.push_str("+----------------------------------------+\n");
    out.push_str("| ROOMS                                  |\n");
    for line in room_panel(&cs.rooms[0]).lines() {
        out.push_str(&format!("|  {}\n", line));
    }
    out.push_str("+----------------------------------------+\n");
    out.push_str("| CONSERVATION                           |\n");
    for line in conservation_panel(&cs.conservation).lines() {
        out.push_str(&format!("|  {}\n", line));
    }
    out.push_str("+----------------------------------------+\n");
    out.push_str("| PROVIDERS                              |\n");
    out.push_str("|  (none)                                |\n");
    out.push_str("+----------------------------------------+\n");
    out.push_str("| PORTS                                  |\n");
    for line in cs.ports[0].render().lines() {
        out.push_str(&format!("|  {}\n", line));
    }
    out.push_str("+========================================+\n");
    assert_eq!(dashboard(&cs), out);
}
