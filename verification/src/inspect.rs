//! Room inspection types and the inspector that keeps one inspection per room.
use vstd::prelude::*;
use crate::bits::{real_eq, reals3_eq, same_real, same_reals3};
use crate::equality::{pairwise_equal, vec_eq};
use crate::render::Render;
use crate::status::EnsignState;
use crate::text::{
    decimal, embedded_panel, pad_left, pad_right, push_decimal_pad_left, push_embedded_panel,
    push_pad_left, push_pad_right, push_row_section, row_section, views,
};

verus! {

/// Configuration for a room.
///
/// Real-valued quantities are held as the bit patterns of `f64` values.
#[derive(Debug)]
pub struct RoomConfig {
    /// Room identifier.
    pub room_id: String,
    /// Spatial dimensions [x, y, z] (bits of `f64` values).
    pub dimensions: [u64; 3],
    /// Maximum number of tiles.
    pub max_tiles: usize,
    /// Gravity setting value (bits of an `f64`).
    pub gravity_setting: u64,
}

impl RoomConfig {
    /// The two configurations have equal fields, real values compared as `f64`.
    pub open spec fn same_as(&self, other: &Self) -> bool {
        &&& self.room_id@ == other.room_id@
        &&& same_reals3(self.dimensions, other.dimensions)
        &&& self.max_tiles == other.max_tiles
        &&& same_real(self.gravity_setting, other.gravity_setting)
    }
}

impl PartialEq for RoomConfig {
    fn eq(&self, other: &Self) -> (r: bool) {
        self.room_id == other.room_id && reals3_eq(&self.dimensions, &other.dimensions)
            && self.max_tiles == other.max_tiles && real_eq(
            self.gravity_setting,
            other.gravity_setting,
        )
    }
}

impl vstd::std_specs::cmp::PartialEqSpecImpl for RoomConfig {
    open spec fn obeys_eq_spec() -> bool {
        true
    }

    open spec fn eq_spec(&self, other: &Self) -> bool {
        self.same_as(other)
    }
}

impl Clone for RoomConfig {
    fn clone(&self) -> (r: Self)
        ensures
            r == *self,
    {
        RoomConfig {
            room_id: self.room_id.clone(),
            dimensions: self.dimensions,
            max_tiles: self.max_tiles,
            gravity_setting: self.gravity_setting,
        }
    }
}

/// A single tile within a room.
#[derive(Debug)]
pub struct Tile {
    /// Tile identifier.
    pub id: String,
    /// Tile content payload.
    pub content: String,
    /// Timestamp of creation.
    pub timestamp: u64,
}

impl Tile {
    /// The two tiles have equal fields.
    pub open spec fn same_as(&self, other: &Self) -> bool {
        &&& self.id@ == other.id@
        &&& self.content@ == other.content@
        &&& self.timestamp == other.timestamp
    }
}

impl PartialEq for Tile {
    fn eq(&self, other: &Self) -> (r: bool) {
        self.id == other.id && self.content == other.content && self.timestamp == other.timestamp
    }
}

impl vstd::std_specs::cmp::PartialEqSpecImpl for Tile {
    open spec fn obeys_eq_spec() -> bool {
        true
    }

    open spec fn eq_spec(&self, other: &Self) -> bool {
        self.same_as(other)
    }
}

impl Clone for Tile {
    fn clone(&self) -> (r: Self)
        ensures
            r == *self,
    {
        Tile { id: self.id.clone(), content: self.content.clone(), timestamp: self.timestamp }
    }
}

impl Tile {
    /// The line that `render` writes: `[timestamp] id | content`.
    pub open spec fn line(self) -> Seq<char> {
        "["@ + pad_left(decimal(self.timestamp as nat), 8) + "] "@ + pad_right(self.id@, 20)
            + " | "@ + self.content@
    }
}

impl Render for Tile {
    fn render(&self) -> (r: String)
        ensures
            r@ == self.line(),
    {
        let mut out = String::new();
        out.append("[");
        push_decimal_pad_left(&mut out, self.timestamp, 8);
        out.append("] ");
        push_pad_right(&mut out, self.id.as_str(), 20);
        out.append(" | ");
        out.append(self.content.as_str());
        out
    }
}

/// Deadband controller status.
///
/// Real-valued quantities are held as the bit patterns of `f64` values.
#[derive(Debug, Clone, Copy)]
pub struct DeadbandStatus {
    /// Whether the deadband controller is active.
    pub active: bool,
    /// Lower bound of the deadband (bits of an `f64`).
    pub lower_bound: u64,
    /// Upper bound of the deadband (bits of an `f64`).
    pub upper_bound: u64,
    /// Current value being controlled (bits of an `f64`).
    pub current_value: u64,
}

impl DeadbandStatus {
    /// The two statuses have equal fields, real values compared as `f64`.
    pub open spec fn same_as(&self, other: &Self) -> bool {
        &&& self.active == other.active
        &&& same_real(self.lower_bound, other.lower_bound)
        &&& same_real(self.upper_bound, other.upper_bound)
        &&& same_real(self.current_value, other.current_value)
    }
}

impl PartialEq for DeadbandStatus {
    fn eq(&self, other: &Self) -> (r: bool) {
        self.active == other.active && real_eq(self.lower_bound, other.lower_bound) && real_eq(
            self.upper_bound,
            other.upper_bound,
        ) && real_eq(self.current_value, other.current_value)
    }
}

impl vstd::std_specs::cmp::PartialEqSpecImpl for DeadbandStatus {
    open spec fn obeys_eq_spec() -> bool {
        true
    }

    open spec fn eq_spec(&self, other: &Self) -> bool {
        self.same_as(other)
    }
}

impl DeadbandStatus {
    /// The state word of the panel.
    pub open spec fn state_word(self) -> Seq<char> {
        if self.active { "ACTIVE"@ } else { "INACTIVE"@ }
    }

    /// The panel, given the bounds and the current value written with two decimals.
    pub open spec fn panel(self, lower: Seq<char>, upper: Seq<char>, current: Seq<char>) -> Seq<
        char,
    > {
        "+------------------------------+\n| Deadband: "@
            + pad_right(self.state_word(), 18)
            + " |\n| Bounds: ["@
            + pad_left(lower, 6)
            + ", "@
            + pad_left(upper, 6)
            + "]          |\n| Current: "@
            + pad_right(current, 19)
            + " |\n+------------------------------+"@
    }

    /// Renders the deadband panel from the bounds and the current value, each
    /// already written with two decimals.
    pub fn render_with(&self, lower: &str, upper: &str, current: &str) -> (r: String)
        ensures
            r@ == self.panel(lower@, upper@, current@),
    {
        let state = if self.active { "ACTIVE" } else { "INACTIVE" };
        let mut out = String::new();
        out.append("+------------------------------+\n| Deadband: ");
        push_pad_right(&mut out, state, 18);
        out.append(" |\n| Bounds: [");
        push_pad_left(&mut out, lower, 6);
        out.append(", ");
        push_pad_left(&mut out, upper, 6);
        out.append("]          |\n| Current: ");
        push_pad_right(&mut out, current, 19);
        out.append(" |\n+------------------------------+");
        out
    }
}

/// A provenance audit entry.
#[derive(Debug)]
pub struct ProvenanceEntry {
    /// Source system.
    pub source: String,
    /// Action performed.
    pub action: String,
    /// Timestamp of the action.
    pub timestamp: u64,
    /// Checksum of the data at this point.
    pub checksum: String,
}

impl ProvenanceEntry {
    /// The two entries have equal fields.
    pub open spec fn same_as(&self, other: &Self) -> bool {
        &&& self.source@ == other.source@
        &&& self.action@ == other.action@
        &&& self.timestamp == other.timestamp
        &&& self.checksum@ == other.checksum@
    }
}

impl PartialEq for ProvenanceEntry {
    fn eq(&self, other: &Self) -> (r: bool) {
        self.source == other.source && self.action == other.action && self.timestamp
            == other.timestamp && self.checksum == other.checksum
    }
}

impl vstd::std_specs::cmp::PartialEqSpecImpl for ProvenanceEntry {
    open spec fn obeys_eq_spec() -> bool {
        true
    }

    open spec fn eq_spec(&self, other: &Self) -> bool {
        self.same_as(other)
    }
}

impl Clone for ProvenanceEntry {
    fn clone(&self) -> (r: Self)
        ensures
            r == *self,
    {
        ProvenanceEntry {
            source: self.source.clone(),
            action: self.action.clone(),
            timestamp: self.timestamp,
            checksum: self.checksum.clone(),
        }
    }
}

/// State of a circuit breaker.
#[derive(Debug, Clone, Copy, PartialEq, Eq, Structural)]
pub enum CircuitState {
    /// Circuit is open (no current).
    Open,
    /// Circuit is closed (current flowing).
    Closed,
    /// Circuit has tripped.
    Tripped,
    /// Circuit is under maintenance.
    Maintenance,
}

impl CircuitState {
    /// The word that `render` writes for this state.
    pub open spec fn word(self) -> Seq<char> {
        match self {
            CircuitState::Open => "OPEN"@,
            CircuitState::Closed => "CLOSED"@,
            CircuitState::Tripped => "TRIPPED"@,
            CircuitState::Maintenance => "MAINTENANCE"@,
        }
    }
}

impl Render for CircuitState {
    fn render(&self) -> (r: String)
        ensures
            r@ == self.word(),
    {
        match self {
            CircuitState::Open => String::from_str("OPEN"),
            CircuitState::Closed => String::from_str("CLOSED"),
            CircuitState::Tripped => String::from_str("TRIPPED"),
            CircuitState::Maintenance => String::from_str("MAINTENANCE"),
        }
    }
}

/// Status of a circuit.
///
/// Real-valued quantities are held as the bit patterns of `f64` values.
#[derive(Debug, Clone, Copy)]
pub struct CircuitStatus {
    /// Current state.
    pub state: CircuitState,
    /// Current load (bits of an `f64`).
    pub load: u64,
    /// Temperature reading (bits of an `f64`).
    pub temperature: u64,
}

impl CircuitStatus {
    /// The two statuses have equal fields, real values compared as `f64`.
    pub open spec fn same_as(&self, other: &Self) -> bool {
        &&& self.state == other.state
        &&& same_real(self.load, other.load)
        &&& same_real(self.temperature, other.temperature)
    }
}

impl PartialEq for CircuitStatus {
    fn eq(&self, other: &Self) -> (r: bool) {
        self.state == other.state && real_eq(self.load, other.load) && real_eq(
            self.temperature,
            other.temperature,
        )
    }
}

impl vstd::std_specs::cmp::PartialEqSpecImpl for CircuitStatus {
    open spec fn obeys_eq_spec() -> bool {
        true
    }

    open spec fn eq_spec(&self, other: &Self) -> bool {
        self.same_as(other)
    }
}

impl CircuitStatus {
    /// The panel, given load and temperature written with two decimals.
    pub open spec fn panel(self, load: Seq<char>, temperature: Seq<char>) -> Seq<char> {
        "+------------------------------+\n| Circuit: "@
            + pad_right(self.state.word(), 19)
            + " |\n| Load: "@
            + pad_right(load, 22)
            + " |\n| Temp: "@
            + pad_right(temperature, 22)
            + " |\n+------------------------------+"@
    }

    /// Renders the circuit panel from load and temperature, each already
    /// written with two decimals.
    pub fn render_with(&self, load: &str, temperature: &str) -> (r: String)
        ensures
            r@ == self.panel(load@, temperature@),
    {
        let state = self.state.render();
        let mut out = String::new();
        out.append("+------------------------------+\n| Circuit: ");
        push_pad_right(&mut out, state.as_str(), 19);
        out.append(" |\n| Load: ");
        push_pad_right(&mut out, load, 22);
        out.append(" |\n| Temp: ");
        push_pad_right(&mut out, temperature, 22);
        out.append(" |\n+------------------------------+");
        out
    }
}

/// Penrose tile correlation record.
///
/// The coefficient is held as the bit pattern of an `f64` value.
#[derive(Debug)]
pub struct PenroseCorrelation {
    /// First tile identifier.
    pub tile_a: String,
    /// Second tile identifier.
    pub tile_b: String,
    /// Correlation coefficient (bits of an `f64`).
    pub correlation: u64,
}

impl PenroseCorrelation {
    /// The two records have equal fields, the coefficient compared as `f64`.
    pub open spec fn same_as(&self, other: &Self) -> bool {
        &&& self.tile_a@ == other.tile_a@
        &&& self.tile_b@ == other.tile_b@
        &&& same_real(self.correlation, other.correlation)
    }
}

impl PartialEq for PenroseCorrelation {
    fn eq(&self, other: &Self) -> (r: bool) {
        self.tile_a == other.tile_a && self.tile_b == other.tile_b && real_eq(
            self.correlation,
            other.correlation,
        )
    }
}

impl vstd::std_specs::cmp::PartialEqSpecImpl for PenroseCorrelation {
    open spec fn obeys_eq_spec() -> bool {
        true
    }

    open spec fn eq_spec(&self, other: &Self) -> bool {
        self.same_as(other)
    }
}

impl Clone for PenroseCorrelation {
    fn clone(&self) -> (r: Self)
        ensures
            r == *self,
    {
        PenroseCorrelation {
            tile_a: self.tile_a.clone(),
            tile_b: self.tile_b.clone(),
            correlation: self.correlation,
        }
    }
}

impl PenroseCorrelation {
    /// The line, given the coefficient written with four decimals.
    pub open spec fn line(self, correlation: Seq<char>) -> Seq<char> {
        self.tile_a@ + " <-> "@ + self.tile_b@ + " : "@ + correlation
    }

    /// Renders `tile_a <-> tile_b : coefficient`, the coefficient already
    /// written with four decimals.
    pub fn render_with(&self, correlation: &str) -> (r: String)
        ensures
            r@ == self.line(correlation@),
    {
        let mut out = String::new();
        out.append(self.tile_a.as_str());
        out.append(" <-> ");
        out.append(self.tile_b.as_str());
        out.append(" : ");
        out.append(correlation);
        out
    }
}

/// Deep inspection result for a single room.
///
/// Real-valued quantities are held as the bit patterns of `f64` values.
#[derive(Debug)]
pub struct RoomInspection {
    /// Room configuration.
    pub room_config: RoomConfig,
    /// Current ensign status.
    pub ensign_status: EnsignState,
    /// Last 10 tiles (or fewer).
    pub recent_tiles: Vec<Tile>,
    /// Gravity vector [x, y, z] (bits of `f64` values).
    pub gravity_vector: [u64; 3],
    /// Deadband controller status.
    pub deadband_status: DeadbandStatus,
    /// Provenance audit trail.
    pub provenance_entries: Vec<ProvenanceEntry>,
    /// Circuit breaker status.
    pub circuit_status: CircuitStatus,
    /// Penrose tile correlations.
    pub penrose_correlations: Vec<PenroseCorrelation>,
}

impl RoomInspection {
    /// The two inspections have equal parts, as their own `==` compares them.
    pub open spec fn same_as(&self, other: &Self) -> bool {
        &&& self.room_config.same_as(&other.room_config)
        &&& self.ensign_status == other.ensign_status
        &&& pairwise_equal(self.recent_tiles@, other.recent_tiles@)
        &&& same_reals3(self.gravity_vector, other.gravity_vector)
        &&& self.deadband_status.same_as(&other.deadband_status)
        &&& pairwise_equal(self.provenance_entries@, other.provenance_entries@)
        &&& self.circuit_status.same_as(&other.circuit_status)
        &&& pairwise_equal(self.penrose_correlations@, other.penrose_correlations@)
    }
}

impl PartialEq for RoomInspection {
    fn eq(&self, other: &Self) -> (r: bool) {
        self.room_config == other.room_config && self.ensign_status == other.ensign_status
            && vec_eq(&self.recent_tiles, &other.recent_tiles) && reals3_eq(
            &self.gravity_vector,
            &other.gravity_vector,
        ) && self.deadband_status == other.deadband_status && vec_eq(
            &self.provenance_entries,
            &other.provenance_entries,
        ) && self.circuit_status == other.circuit_status && vec_eq(
            &self.penrose_correlations,
            &other.penrose_correlations,
        )
    }
}

impl vstd::std_specs::cmp::PartialEqSpecImpl for RoomInspection {
    open spec fn obeys_eq_spec() -> bool {
        true
    }

    open spec fn eq_spec(&self, other: &Self) -> bool {
        self.same_as(other)
    }
}

/// The contents of a room inspection, its lists taken as sequences.
pub struct RoomInspectionView {
    pub room_config: RoomConfig,
    pub ensign_status: EnsignState,
    pub recent_tiles: Seq<Tile>,
    pub gravity_vector: [u64; 3],
    pub deadband_status: DeadbandStatus,
    pub provenance_entries: Seq<ProvenanceEntry>,
    pub circuit_status: CircuitStatus,
    pub penrose_correlations: Seq<PenroseCorrelation>,
}

impl View for RoomInspection {
    type V = RoomInspectionView;

    open spec fn view(&self) -> RoomInspectionView {
        RoomInspectionView {
            room_config: self.room_config,
            ensign_status: self.ensign_status,
            recent_tiles: self.recent_tiles@,
            gravity_vector: self.gravity_vector,
            deadband_status: self.deadband_status,
            provenance_entries: self.provenance_entries@,
            circuit_status: self.circuit_status,
            penrose_correlations: self.penrose_correlations@,
        }
    }
}

impl Clone for RoomInspection {
    fn clone(&self) -> (r: Self)
        ensures
            r@ == self@,
    {
        let recent_tiles = self.recent_tiles.clone();
        let provenance_entries = self.provenance_entries.clone();
        let penrose_correlations = self.penrose_correlations.clone();
        assert(recent_tiles@ =~= self.recent_tiles@);
        assert(provenance_entries@ =~= self.provenance_entries@);
        assert(penrose_correlations@ =~= self.penrose_correlations@);
        RoomInspection {
            room_config: self.room_config.clone(),
            ensign_status: self.ensign_status,
            recent_tiles,
            gravity_vector: self.gravity_vector,
            deadband_status: self.deadband_status,
            provenance_entries,
            circuit_status: self.circuit_status,
            penrose_correlations,
        }
    }
}

/// The inspection of a room that nothing is known about: the given identifier,
/// an offline ensign, every number zero, every list empty and an open circuit.
pub open spec fn is_offline_inspection(v: RoomInspectionView, room_id: Seq<char>) -> bool {
    &&& v.room_config.room_id@ == room_id
    &&& v.room_config.dimensions@ == seq![0u64, 0u64, 0u64]
    &&& v.room_config.max_tiles == 0
    &&& v.room_config.gravity_setting == 0
    &&& v.ensign_status == EnsignState::Offline
    &&& v.recent_tiles.len() == 0
    &&& v.gravity_vector@ == seq![0u64, 0u64, 0u64]
    &&& v.deadband_status == (DeadbandStatus {
        active: false,
        lower_bound: 0,
        upper_bound: 0,
        current_value: 0,
    })
    &&& v.provenance_entries.len() == 0
    &&& v.circuit_status == (CircuitStatus { state: CircuitState::Open, load: 0, temperature: 0 })
    &&& v.penrose_correlations.len() == 0
}

/// The lines of the tiles, in order.
pub open spec fn tile_lines(tiles: Seq<Tile>) -> Seq<Seq<char>> {
    tiles.map_values(|t: Tile| t.line())
}

/// Renders each tile.
fn render_tiles(tiles: &Vec<Tile>) -> (r: Vec<String>)
    ensures
        views(r@) == tile_lines(tiles@),
{
    let mut r: Vec<String> = Vec::new();
    let mut i: usize = 0;
    while i < tiles.len()
        invariant
            i <= tiles.len(),
            views(r@) == tile_lines(tiles@.take(i as int)),
        decreases tiles.len() - i,
    {
        let ghost old_r = r@;
        let t = tiles[i].render();
        r.push(t);
        assert(tiles@.take(i + 1) =~= tiles@.take(i as int).push(tiles@[i as int]));
        assert(views(r@) =~= views(old_r).push(t@));
        i = i + 1;
        assert(views(r@) =~= tile_lines(tiles@.take(i as int)));
    }
    assert(tiles@.take(tiles.len() as int) =~= tiles@);
    r
}

/// The lines of the correlations, correlation `i` with the `i`-th coefficient text.
pub open spec fn correlation_lines(
    correlations: Seq<PenroseCorrelation>,
    texts: Seq<Seq<char>>,
) -> Seq<Seq<char>> {
    Seq::new(correlations.len(), |i: int| correlations[i].line(texts[i]))
}

/// Renders each correlation with its coefficient text.
fn render_correlations(correlations: &Vec<PenroseCorrelation>, texts: &Vec<String>) -> (r: Vec<
    String,
>)
    requires
        texts@.len() == correlations@.len(),
    ensures
        views(r@) == correlation_lines(correlations@, views(texts@)),
{
    let mut r: Vec<String> = Vec::new();
    let mut i: usize = 0;
    while i < correlations.len()
        invariant
            i <= correlations.len(),
            texts@.len() == correlations@.len(),
            r@.len() == i,
            forall|j: int| 0 <= j < i ==> #[trigger] r@[j]@ == correlations@[j].line(texts@[j]@),
        decreases correlations.len() - i,
    {
        let l = correlations[i].render_with(texts[i].as_str());
        r.push(l);
        i = i + 1;
    }
    assert(views(r@) =~= correlation_lines(correlations@, views(texts@)));
    r
}

impl RoomInspection {
    /// The inspection of a room that nothing is known about.
    pub fn offline(room_id: &str) -> (r: Self)
        ensures
            is_offline_inspection(r@, room_id@),
    {
        let r = RoomInspection {
            room_config: RoomConfig {
                room_id: String::from_str(room_id),
                dimensions: [0, 0, 0],
                max_tiles: 0,
                gravity_setting: 0,
            },
            ensign_status: EnsignState::Offline,
            recent_tiles: Vec::new(),
            gravity_vector: [0, 0, 0],
            deadband_status: DeadbandStatus {
                active: false,
                lower_bound: 0,
                upper_bound: 0,
                current_value: 0,
            },
            provenance_entries: Vec::new(),
            circuit_status: CircuitStatus { state: CircuitState::Open, load: 0, temperature: 0 },
            penrose_correlations: Vec::new(),
        };
        assert(r.room_config.dimensions@ =~= seq![0u64, 0u64, 0u64]);
        assert(r.gravity_vector@ =~= seq![0u64, 0u64, 0u64]);
        r
    }

    /// The inspection panel laid out around the gravity components written
    /// with two decimals, already rendered deadband and circuit panels and
    /// already rendered correlation lines.
    pub open spec fn panel_of_parts(
        self,
        gravity: (Seq<char>, Seq<char>, Seq<char>),
        deadband_panel: Seq<char>,
        circuit_panel: Seq<char>,
        correlation_lines: Seq<Seq<char>>,
    ) -> Seq<char> {
        "+========================================+\n| ROOM INSPECTION: "@
            + pad_right(self.room_config.room_id@, 22)
            + "|\n+========================================+\n| Ensign: "@
            + pad_right(self.ensign_status.badge(), 30)
            + "|\n| Gravity: ["@
            + pad_left(gravity.0, 6)
            + ", "@
            + pad_left(gravity.1, 6)
            + ", "@
            + pad_left(gravity.2, 6)
            + "]       |\n+----------------------------------------+\n| Recent Tiles                           |\n"@
            + row_section(tile_lines(self.recent_tiles@))
            + "+----------------------------------------+\n| Deadband                               |\n"@
            + embedded_panel(deadband_panel)
            + "+----------------------------------------+\n| Circuit                                |\n"@
            + embedded_panel(circuit_panel)
            + "+----------------------------------------+\n| Penrose Correlations                   |\n"@
            + row_section(correlation_lines)
            + "+========================================+\n"@
    }

    /// The inspection panel of this inspection: its own deadband panel,
    /// circuit panel and one line per correlation, given the written forms of
    /// its real values (the gravity components, the deadband bounds and current
    /// value, the circuit load and temperature with two decimals each, and per
    /// correlation its coefficient with four).
    pub open spec fn panel(
        self,
        gravity: (Seq<char>, Seq<char>, Seq<char>),
        deadband: (Seq<char>, Seq<char>, Seq<char>),
        circuit: (Seq<char>, Seq<char>),
        correlations: Seq<Seq<char>>,
    ) -> Seq<char> {
        self.panel_of_parts(
            gravity,
            self.deadband_status.panel(deadband.0, deadband.1, deadband.2),
            self.circuit_status.panel(circuit.0, circuit.1),
            correlation_lines(self.penrose_correlations@, correlations),
        )
    }

    /// Renders the inspection panel of this inspection from the written forms
    /// of its real values: the three gravity components, the deadband's lower
    /// bound, upper bound and current value, the circuit's load and temperature,
    /// and one coefficient text per correlation.
    pub fn render_with(
        &self,
        gravity_x: &str,
        gravity_y: &str,
        gravity_z: &str,
        deadband_lower: &str,
        deadband_upper: &str,
        deadband_current: &str,
        circuit_load: &str,
        circuit_temperature: &str,
        correlations: &Vec<String>,
    ) -> (r: String)
        requires
            correlations@.len() == self.penrose_correlations@.len(),
        ensures
            r@ == self.panel(
                (gravity_x@, gravity_y@, gravity_z@),
                (deadband_lower@, deadband_upper@, deadband_current@),
                (circuit_load@, circuit_temperature@),
                views(correlations@),
            ),
    {
        let deadband_panel = self.deadband_status.render_with(
            deadband_lower,
            deadband_upper,
            deadband_current,
        );
        let circuit_panel = self.circuit_status.render_with(circuit_load, circuit_temperature);
        let correlation_lines = render_correlations(&self.penrose_correlations, correlations);
        let badge = self.ensign_status.render();
        let tiles = render_tiles(&self.recent_tiles);
        let mut out = String::new();
        out.append("+========================================+\n| ROOM INSPECTION: ");
        push_pad_right(&mut out, self.room_config.room_id.as_str(), 22);
        out.append("|\n+========================================+\n| Ensign: ");
        push_pad_right(&mut out, badge.as_str(), 30);
        out.append("|\n| Gravity: [");
        push_pad_left(&mut out, gravity_x, 6);
        out.append(", ");
        push_pad_left(&mut out, gravity_y, 6);
        out.append(", ");
        push_pad_left(&mut out, gravity_z, 6);
        out.append(
            "]       |\n+----------------------------------------+\n| Recent Tiles                           |\n",
        );
        push_row_section(&mut out, &tiles);
        out.append(
            "+----------------------------------------+\n| Deadband                               |\n",
        );
        push_embedded_panel(&mut out, deadband_panel.as_str());
        out.append(
            "+----------------------------------------+\n| Circuit                                |\n",
        );
        push_embedded_panel(&mut out, circuit_panel.as_str());
        out.append(
            "+----------------------------------------+\n| Penrose Correlations                   |\n",
        );
        push_row_section(&mut out, &correlation_lines);
        out.append("+========================================+\n");
        out
    }
}

/// No two of the inspections name the same room.
pub open spec fn unique_rooms(s: Seq<RoomInspection>) -> bool {
    forall|i: int, j: int|
        0 <= i < s.len() && 0 <= j < s.len() && i != j ==> s[i].room_config.room_id@
            != s[j].room_config.room_id@
}

/// Some inspection of `s` names the room `k`.
pub open spec fn names_room(s: Seq<RoomInspection>, k: Seq<char>) -> bool {
    exists|i: int| 0 <= i < s.len() && #[trigger] s[i].room_config.room_id@ == k
}

/// The inspections of `s` keyed by the room they name.
pub open spec fn rooms_by_id(s: Seq<RoomInspection>) -> Map<Seq<char>, RoomInspectionView> {
    Map::new(
        |k: Seq<char>| names_room(s, k),
        |k: Seq<char>| s[choose|i: int| 0 <= i < s.len() && #[trigger] s[i].room_config.room_id@ == k]@,
    )
}

proof fn lemma_rooms_by_id_at(s: Seq<RoomInspection>, i: int)
    requires
        unique_rooms(s),
        0 <= i < s.len(),
    ensures
        rooms_by_id(s).contains_key(s[i].room_config.room_id@),
        rooms_by_id(s)[s[i].room_config.room_id@] == s[i]@,
{
    let k = s[i].room_config.room_id@;
    assert(names_room(s, k));
    let j = choose|j: int| 0 <= j < s.len() && #[trigger] s[j].room_config.room_id@ == k;
    assert(j == i);
}

/// Putting `value` at position `pos` (in place of the inspection of the same
/// room, or at the end) makes the map hold `value` for that room and leaves
/// every other room as it was.
proof fn lemma_rooms_by_id_put(
    before: Seq<RoomInspection>,
    after: Seq<RoomInspection>,
    pos: int,
    key: Seq<char>,
    value: RoomInspectionView,
)
    requires
        unique_rooms(before),
        0 <= pos < after.len(),
        after.len() == before.len() || (after.len() == before.len() + 1 && pos == before.len()),
        pos < before.len() ==> before[pos].room_config.room_id@ == key,
        pos == before.len() ==> !names_room(before, key),
        after[pos].room_config.room_id@ == key,
        after[pos]@ == value,
        forall|j: int| 0 <= j < after.len() && j != pos ==> after[j] == before[j],
    ensures
        unique_rooms(after),
        rooms_by_id(after) == rooms_by_id(before).insert(key, value),
{
    assert(unique_rooms(after)) by {
        assert forall|i: int, j: int|
            0 <= i < after.len() && 0 <= j < after.len() && i != j implies after[i].room_config.room_id@
            != after[j].room_config.room_id@ by {
            if i != pos && j != pos {
                assert(after[i] == before[i] && after[j] == before[j]);
            } else if i == pos {
                assert(after[j] == before[j]);
                if pos == before.len() {
                    assert(!(before[j].room_config.room_id@ == key));
                }
            } else {
                assert(after[i] == before[i]);
                if pos == before.len() {
                    assert(!(before[i].room_config.room_id@ == key));
                }
            }
        }
    }
    assert forall|k: Seq<char>|
        #[trigger] rooms_by_id(after).contains_key(k) == rooms_by_id(before).insert(
            key,
            value,
        ).contains_key(k) && (rooms_by_id(after).contains_key(k) ==> rooms_by_id(after)[k]
            == rooms_by_id(before).insert(key, value)[k]) by {
        if k == key {
            lemma_rooms_by_id_at(after, pos);
        } else if names_room(before, k) {
            let j = choose|j: int| 0 <= j < before.len() && #[trigger] before[j].room_config.room_id@ == k;
            lemma_rooms_by_id_at(before, j);
            assert(after[j] == before[j]);
            lemma_rooms_by_id_at(after, j);
        } else if names_room(after, k) {
            let j = choose|j: int| 0 <= j < after.len() && #[trigger] after[j].room_config.room_id@ == k;
            assert(after[j] == before[j]);
        }
    }
    assert(rooms_by_id(after) =~= rooms_by_id(before).insert(key, value));
}

/// Two sequences of inspections with the same contents, position by
/// position, give the same map.
proof fn lemma_rooms_by_id_same_contents(s: Seq<RoomInspection>, t: Seq<RoomInspection>)
    requires
        unique_rooms(s),
        s.len() == t.len(),
        forall|i: int| 0 <= i < s.len() ==> #[trigger] t[i]@ == s[i]@,
    ensures
        unique_rooms(t),
        rooms_by_id(t) == rooms_by_id(s),
{
    assert forall|i: int, j: int|
        0 <= i < t.len() && 0 <= j < t.len() && i != j implies t[i].room_config.room_id@
        != t[j].room_config.room_id@ by {
        assert(t[i]@ == s[i]@);
        assert(t[j]@ == s[j]@);
    }
    assert forall|k: Seq<char>|
        #[trigger] rooms_by_id(t).contains_key(k) == rooms_by_id(s).contains_key(k) && (
        rooms_by_id(t).contains_key(k) ==> rooms_by_id(t)[k] == rooms_by_id(s)[k]) by {
        if names_room(s, k) {
            let j = choose|j: int| 0 <= j < s.len() && #[trigger] s[j].room_config.room_id@ == k;
            assert(t[j]@ == s[j]@);
            lemma_rooms_by_id_at(s, j);
            lemma_rooms_by_id_at(t, j);
        } else if names_room(t, k) {
            let j = choose|j: int| 0 <= j < t.len() && #[trigger] t[j].room_config.room_id@ == k;
            assert(t[j]@ == s[j]@);
        }
    }
    assert(rooms_by_id(t) =~= rooms_by_id(s));
}

/// Deep inspection of a specific room.
#[derive(Debug)]
pub struct ConstructInspector {
    known_rooms: Vec<RoomInspection>,
}

impl ConstructInspector {
    #[verifier::type_invariant]
    spec fn rooms_are_unique(self) -> bool {
        unique_rooms(self.known_rooms@)
    }
}

impl View for ConstructInspector {
    type V = Map<Seq<char>, RoomInspectionView>;

    closed spec fn view(&self) -> Map<Seq<char>, RoomInspectionView> {
        rooms_by_id(self.known_rooms@)
    }
}

/// The index of the inspection that names `room_id`, if any.
fn find_room(rooms: &Vec<RoomInspection>, room_id: &String) -> (r: Option<usize>)
    ensures
        match r {
            Some(i) => i < rooms@.len() && rooms@[i as int].room_config.room_id@ == room_id@,
            None => !names_room(rooms@, room_id@),
        },
{
    let mut i: usize = 0;
    while i < rooms.len()
        invariant
            i <= rooms.len(),
            forall|j: int| 0 <= j < i ==> rooms@[j].room_config.room_id@ != room_id@,
        decreases rooms.len() - i,
    {
        if rooms[i].room_config.room_id == *room_id {
            return Some(i);
        }
        i = i + 1;
    }
    None
}

impl ConstructInspector {
    /// Create a new inspector.
    pub fn new() -> (r: Self)
        ensures
            r@ == Map::<Seq<char>, RoomInspectionView>::empty(),
    {
        let r = ConstructInspector { known_rooms: Vec::new() };
        assert(r@ =~= Map::<Seq<char>, RoomInspectionView>::empty());
        r
    }

    /// Register a room inspection for later retrieval; it replaces any earlier
    /// inspection of the same room.
    pub fn register_room(&mut self, inspection: RoomInspection)
        ensures
            final(self)@ == old(self)@.insert(inspection.room_config.room_id@, inspection@),
    {
        proof {
            use_type_invariant(&*self);
        }
        let ghost before = self.known_rooms@;
        let ghost key = inspection.room_config.room_id@;
        let ghost value = inspection@;
        let mut rooms: Vec<RoomInspection> = Vec::new();
        std::mem::swap(&mut rooms, &mut self.known_rooms);
        let ghost mut pos: int = 0;
        match find_room(&rooms, &inspection.room_config.room_id) {
            Some(i) => {
                rooms.set(i, inspection);
                proof {
                    pos = i as int;
                }
            },
            None => {
                rooms.push(inspection);
                proof {
                    pos = before.len() as int;
                }
            },
        }
        proof {
            lemma_rooms_by_id_put(before, rooms@, pos, key, value);
        }
        self.known_rooms = rooms;
    }

    /// Inspect a room by ID.
    ///
    /// If the room is not known, returns a default offline inspection.
    pub fn inspect_room(&self, room_id: &str) -> (r: RoomInspection)
        ensures
            self@.contains_key(room_id@) ==> r@ == self@[room_id@],
            !self@.contains_key(room_id@) ==> is_offline_inspection(r@, room_id@),
    {
        proof {
            use_type_invariant(self);
        }
        let key = String::from_str(room_id);
        match find_room(&self.known_rooms, &key) {
            Some(i) => {
                proof {
                    lemma_rooms_by_id_at(self.known_rooms@, i as int);
                }
                self.known_rooms[i].clone()
            },
            None => RoomInspection::offline(room_id),
        }
    }
}

impl Clone for ConstructInspector {
    fn clone(&self) -> (r: Self)
        ensures
            r@ == self@,
    {
        proof {
            use_type_invariant(self);
        }
        let mut rooms: Vec<RoomInspection> = Vec::new();
        let mut i: usize = 0;
        while i < self.known_rooms.len()
            invariant
                i <= self.known_rooms.len(),
                rooms@.len() == i,
                forall|j: int| 0 <= j < i ==> #[trigger] rooms@[j]@ == self.known_rooms@[j]@,
            decreases self.known_rooms.len() - i,
        {
            rooms.push(self.known_rooms[i].clone());
            i = i + 1;
        }
        proof {
            lemma_rooms_by_id_same_contents(self.known_rooms@, rooms@);
        }
        ConstructInspector { known_rooms: rooms }
    }
}

impl Default for ConstructInspector {
    fn default() -> (r: Self)
        ensures
            r@ == Map::<Seq<char>, RoomInspectionView>::empty(),
    {
        Self::new()
    }
}

} // verus!
