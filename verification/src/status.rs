//! Status dashboard types: ensigns, rooms, conservation, providers, ports and
//! the whole construct.
use vstd::prelude::*;
use crate::bits::{real_eq, same_real};
use crate::equality::{pairwise_equal, strings_eq, vec_eq};
use crate::render::Render;
use crate::text::{
    decimal, joined, pad_left, pad_right, panel_section, embedded_panel, push_decimal_pad_left,
    push_decimal_pad_right, push_embedded_panel, push_joined, push_pad_right, push_panel_section,
    push_repeat, repeat_char, views,
};

verus! {

/// State of an ensign subsystem.
#[derive(Debug, Clone, Copy, PartialEq, Eq, Structural)]
pub enum EnsignState {
    /// Fully operational.
    Active,
    /// Waiting for activation.
    Standby,
    /// Fault condition detected.
    Error,
    /// Powered down.
    Offline,
}

impl EnsignState {
    /// The badge that `render` writes for this state.
    pub open spec fn badge(self) -> Seq<char> {
        match self {
            EnsignState::Active => "[ACTIVE]"@,
            EnsignState::Standby => "[STANDBY]"@,
            EnsignState::Error => "[ERROR!]"@,
            EnsignState::Offline => "[OFFLINE]"@,
        }
    }
}

impl Render for EnsignState {
    fn render(&self) -> (r: String)
        ensures
            r@ == self.badge(),
    {
        match self {
            EnsignState::Active => String::from_str("[ACTIVE]"),
            EnsignState::Standby => String::from_str("[STANDBY]"),
            EnsignState::Error => String::from_str("[ERROR!]"),
            EnsignState::Offline => String::from_str("[OFFLINE]"),
        }
    }
}

/// Status of a communication port.
#[derive(Debug, Clone)]
pub struct PortStatus {
    /// Port name.
    pub name: String,
    /// Whether the port is connected.
    pub connected: bool,
    /// Messages waiting in the queue.
    pub messages_pending: u64,
}

impl PortStatus {
    /// The connection word of the panel.
    pub open spec fn connection_word(self) -> Seq<char> {
        if self.connected { "CONNECTED"@ } else { "DISCONNECTED"@ }
    }

    /// The panel that `render` writes.
    pub open spec fn panel(self) -> Seq<char> {
        "+------------------------------+\n| Port: "@
            + pad_right(self.name@, 22)
            + " |\n| State: "@
            + pad_right(self.connection_word(), 21)
            + " |\n| Pending: "@
            + pad_right(decimal(self.messages_pending as nat), 19)
            + " |\n+------------------------------+"@
    }
}

impl PortStatus {
    /// The two ports have equal fields.
    pub open spec fn same_as(&self, other: &Self) -> bool {
        &&& self.name@ == other.name@
        &&& self.connected == other.connected
        &&& self.messages_pending == other.messages_pending
    }
}

impl PartialEq for PortStatus {
    fn eq(&self, other: &Self) -> (r: bool) {
        self.name == other.name && self.connected == other.connected && self.messages_pending
            == other.messages_pending
    }
}

impl vstd::std_specs::cmp::PartialEqSpecImpl for PortStatus {
    open spec fn obeys_eq_spec() -> bool {
        true
    }

    open spec fn eq_spec(&self, other: &Self) -> bool {
        self.same_as(other)
    }
}

impl Render for PortStatus {
    fn render(&self) -> (r: String)
        ensures
            r@ == self.panel(),
    {
        let conn = if self.connected { "CONNECTED" } else { "DISCONNECTED" };
        let mut out = String::new();
        out.append("+------------------------------+\n| Port: ");
        push_pad_right(&mut out, self.name.as_str(), 22);
        out.append(" |\n| State: ");
        push_pad_right(&mut out, conn, 21);
        out.append(" |\n| Pending: ");
        push_decimal_pad_right(&mut out, self.messages_pending, 19);
        out.append(" |\n+------------------------------+");
        out
    }
}

/// Status of a single room in the construct.
///
/// Real-valued quantities are held as the bit patterns of `f64` values
/// (`f64::to_bits`); they are carried, and compared as `f64` values compare,
/// never computed with.
#[derive(Debug, Clone)]
pub struct RoomStatus {
    /// Room identifier.
    pub id: String,
    /// Current ensign state.
    pub ensign_state: EnsignState,
    /// Gravity level (bits of an `f64`).
    pub gravity: u64,
    /// Deadband threshold (bits of an `f64`).
    pub deadband: u64,
    /// Number of tiles in the room.
    pub tile_count: usize,
}

impl RoomStatus {
    /// The panel of the room, given its gravity and deadband written with two
    /// decimals.
    pub open spec fn panel(self, gravity: Seq<char>, deadband: Seq<char>) -> Seq<char> {
        "+------------------------------+\n| Room: "@
            + pad_right(self.id@, 22)
            + " |\n| Ensign: "@
            + pad_right(self.ensign_state.badge(), 20)
            + " |\n| Gravity: "@
            + pad_right(gravity, 19)
            + " |\n| Deadband: "@
            + pad_right(deadband, 18)
            + " |\n| Tiles: "@
            + pad_right(decimal(self.tile_count as nat), 21)
            + " |\n+------------------------------+"@
    }

    /// Renders the room panel; `gravity` and `deadband` are the two real values
    /// already written with two decimals.
    pub fn render_with(&self, gravity: &str, deadband: &str) -> (r: String)
        ensures
            r@ == self.panel(gravity@, deadband@),
    {
        let badge = self.ensign_state.render();
        let mut out = String::new();
        out.append("+------------------------------+\n| Room: ");
        push_pad_right(&mut out, self.id.as_str(), 22);
        out.append(" |\n| Ensign: ");
        push_pad_right(&mut out, badge.as_str(), 20);
        out.append(" |\n| Gravity: ");
        push_pad_right(&mut out, gravity, 19);
        out.append(" |\n| Deadband: ");
        push_pad_right(&mut out, deadband, 18);
        out.append(" |\n| Tiles: ");
        push_decimal_pad_right(&mut out, self.tile_count as u64, 21);
        out.append(" |\n+------------------------------+");
        out
    }
}

impl RoomStatus {
    /// The two rooms have equal fields, real values compared as `f64`.
    pub open spec fn same_as(&self, other: &Self) -> bool {
        &&& self.id@ == other.id@
        &&& self.ensign_state == other.ensign_state
        &&& same_real(self.gravity, other.gravity)
        &&& same_real(self.deadband, other.deadband)
        &&& self.tile_count == other.tile_count
    }
}

impl PartialEq for RoomStatus {
    fn eq(&self, other: &Self) -> (r: bool) {
        self.id == other.id && self.ensign_state == other.ensign_state && real_eq(
            self.gravity,
            other.gravity,
        ) && real_eq(self.deadband, other.deadband) && self.tile_count == other.tile_count
    }
}

impl vstd::std_specs::cmp::PartialEqSpecImpl for RoomStatus {
    open spec fn obeys_eq_spec() -> bool {
        true
    }

    open spec fn eq_spec(&self, other: &Self) -> bool {
        self.same_as(other)
    }
}

/// Conservation status for the entire construct.
///
/// Real-valued quantities are held as the bit patterns of `f64` values.
#[derive(Debug, Clone)]
pub struct ConservationStatus {
    /// Total energy budget (bits of an `f64`).
    pub total_budget: u64,
    /// Energy spent so far (bits of an `f64`).
    pub total_spent: u64,
    /// System degradation level, between 0 and 1 (bits of an `f64`).
    pub degradation_level: u64,
}

impl ConservationStatus {
    /// The two statuses hold equal values, their real values compared as `f64`.
    pub open spec fn same_as(&self, other: &Self) -> bool {
        &&& same_real(self.total_budget, other.total_budget)
        &&& same_real(self.total_spent, other.total_spent)
        &&& same_real(self.degradation_level, other.degradation_level)
    }
}

impl PartialEq for ConservationStatus {
    fn eq(&self, other: &Self) -> (r: bool) {
        real_eq(self.total_budget, other.total_budget) && real_eq(
            self.total_spent,
            other.total_spent,
        ) && real_eq(self.degradation_level, other.degradation_level)
    }
}

impl vstd::std_specs::cmp::PartialEqSpecImpl for ConservationStatus {
    open spec fn obeys_eq_spec() -> bool {
        true
    }

    open spec fn eq_spec(&self, other: &Self) -> bool {
        self.same_as(other)
    }
}

/// A progress bar of `width` cells of which the first `filled` are full:
/// `[`, `filled` times `#`, the remaining cells as `-`, then `]`.
pub open spec fn bar(filled: nat, width: nat) -> Seq<char> {
    let empty: nat = if width > filled { (width - filled) as nat } else { 0 };
    "["@ + repeat_char('#', filled) + repeat_char('-', empty) + "]"@
}

/// Renders a progress bar with `filled` full cells out of `width`; cells
/// beyond the width are never shown empty.
pub fn render_bar_cells(filled: usize, width: usize) -> (r: String)
    ensures
        r@ == bar(filled as nat, width as nat),
{
    proof {
        reveal_strlit("#");
        reveal_strlit("-");
    }
    let empty = width.saturating_sub(filled);
    let mut out = String::new();
    out.append("[");
    push_repeat(&mut out, "#", filled);
    push_repeat(&mut out, "-", empty);
    out.append("]");
    out
}

impl ConservationStatus {
    /// Create a new conservation status.
    pub fn new(total_budget: u64, total_spent: u64, degradation_level: u64) -> (r: Self)
        ensures
            r.total_budget == total_budget,
            r.total_spent == total_spent,
            r.degradation_level == degradation_level,
    {
        ConservationStatus { total_budget, total_spent, degradation_level }
    }

    /// The panel, given budget and spending written with two decimals, the
    /// number of full cells of the 20-cell spending bar, and the degradation
    /// percentage written with two decimals.
    pub open spec fn panel(
        self,
        budget: Seq<char>,
        spent: Seq<char>,
        filled: nat,
        degradation: Seq<char>,
    ) -> Seq<char> {
        "+------------------------------+\n| CONSERVATION                 |\n| Budget:  "@
            + pad_right(budget, 19)
            + " |\n| Spent:   "@
            + pad_right(spent, 19)
            + " |\n| "@
            + bar(filled, 20)
            + " |\n| Degradation: "@
            + pad_right(degradation, 15)
            + "% |\n+------------------------------+"@
    }

    /// Renders the conservation panel from the written forms of its real values
    /// and the number of full cells of its spending bar.
    pub fn render_with(&self, budget: &str, spent: &str, filled: usize, degradation: &str) -> (r:
        String)
        ensures
            r@ == self.panel(budget@, spent@, filled as nat, degradation@),
    {
        let b = render_bar_cells(filled, 20);
        let mut out = String::new();
        out.append("+------------------------------+\n| CONSERVATION                 |\n| Budget:  ");
        push_pad_right(&mut out, budget, 19);
        out.append(" |\n| Spent:   ");
        push_pad_right(&mut out, spent, 19);
        out.append(" |\n| ");
        out.append(b.as_str());
        out.append(" |\n| Degradation: ");
        push_pad_right(&mut out, degradation, 15);
        out.append("% |\n+------------------------------+");
        out
    }
}

/// Status of an external provider.
#[derive(Debug, Clone)]
pub struct ProviderStatus {
    /// Provider name.
    pub name: String,
    /// Whether the provider is currently available.
    pub available: bool,
    /// Supported model names.
    pub models: Vec<String>,
    /// Remaining budget (bits of an `f64`).
    pub budget_remaining: u64,
}

impl ProviderStatus {
    /// The availability word of the panel.
    pub open spec fn availability_word(self) -> Seq<char> {
        if self.available { "AVAILABLE"@ } else { "OFFLINE  "@ }
    }

    /// The panel, given the remaining budget written with two decimals.
    pub open spec fn panel(self, budget: Seq<char>) -> Seq<char> {
        "+------------------------------+\n| Provider: "@
            + pad_right(self.name@, 18)
            + " |\n| Status: "@
            + pad_right(self.availability_word(), 20)
            + " |\n| Budget: "@
            + pad_right(budget, 20)
            + " |\n| Models: "@
            + pad_right(joined(views(self.models@), ", "@), 20)
            + " |\n+------------------------------+"@
    }

    /// Renders the provider panel; `budget` is the remaining budget already
    /// written with two decimals.
    pub fn render_with(&self, budget: &str) -> (r: String)
        ensures
            r@ == self.panel(budget@),
    {
        let avail = if self.available { "AVAILABLE" } else { "OFFLINE  " };
        let mut models = String::new();
        push_joined(&mut models, &self.models, ", ");
        assert(models@ =~= joined(views(self.models@), ", "@));
        let mut out = String::new();
        out.append("+------------------------------+\n| Provider: ");
        push_pad_right(&mut out, self.name.as_str(), 18);
        out.append(" |\n| Status: ");
        push_pad_right(&mut out, avail, 20);
        out.append(" |\n| Budget: ");
        push_pad_right(&mut out, budget, 20);
        out.append(" |\n| Models: ");
        push_pad_right(&mut out, models.as_str(), 20);
        out.append(" |\n+------------------------------+");
        out
    }
}

impl ProviderStatus {
    /// The two providers have equal fields, the budget compared as `f64`.
    pub open spec fn same_as(&self, other: &Self) -> bool {
        &&& self.name@ == other.name@
        &&& self.available == other.available
        &&& views(self.models@) == views(other.models@)
        &&& same_real(self.budget_remaining, other.budget_remaining)
    }
}

impl PartialEq for ProviderStatus {
    fn eq(&self, other: &Self) -> (r: bool) {
        self.name == other.name && self.available == other.available && strings_eq(
            &self.models,
            &other.models,
        ) && real_eq(self.budget_remaining, other.budget_remaining)
    }
}

impl vstd::std_specs::cmp::PartialEqSpecImpl for ProviderStatus {
    open spec fn obeys_eq_spec() -> bool {
        true
    }

    open spec fn eq_spec(&self, other: &Self) -> bool {
        self.same_as(other)
    }
}

/// Overall construct status aggregating all subsystems.
#[derive(Debug, Clone)]
pub struct ConstructStatus {
    /// All room statuses.
    pub rooms: Vec<RoomStatus>,
    /// Conservation summary.
    pub conservation: ConservationStatus,
    /// All provider statuses.
    pub providers: Vec<ProviderStatus>,
    /// All port statuses.
    pub ports: Vec<PortStatus>,
    /// Uptime in seconds.
    pub uptime_seconds: u64,
    /// Total simulation ticks processed.
    pub total_ticks: u64,
}

/// The panels of the ports, in order.
pub open spec fn port_panels(ports: Seq<PortStatus>) -> Seq<Seq<char>> {
    ports.map_values(|p: PortStatus| p.panel())
}

/// Renders each port.
fn render_ports(ports: &Vec<PortStatus>) -> (r: Vec<String>)
    ensures
        views(r@) == port_panels(ports@),
{
    let mut r: Vec<String> = Vec::new();
    let mut i: usize = 0;
    while i < ports.len()
        invariant
            i <= ports.len(),
            views(r@) == port_panels(ports@.take(i as int)),
        decreases ports.len() - i,
    {
        let ghost old_r = r@;
        let p = ports[i].render();
        r.push(p);
        assert(ports@.take(i + 1) =~= ports@.take(i as int).push(ports@[i as int]));
        assert(views(r@) =~= views(old_r).push(p@));
        i = i + 1;
        assert(views(r@) =~= port_panels(ports@.take(i as int)));
    }
    assert(ports@.take(ports.len() as int) =~= ports@);
    r
}

/// The panels of the rooms, room `i` with the `i`-th gravity and deadband texts.
pub open spec fn room_panels(
    rooms: Seq<RoomStatus>,
    gravity: Seq<Seq<char>>,
    deadband: Seq<Seq<char>>,
) -> Seq<Seq<char>> {
    Seq::new(rooms.len(), |i: int| rooms[i].panel(gravity[i], deadband[i]))
}

/// The panels of the providers, provider `i` with the `i`-th budget text.
pub open spec fn provider_panels(providers: Seq<ProviderStatus>, budgets: Seq<Seq<char>>) -> Seq<
    Seq<char>,
> {
    Seq::new(providers.len(), |i: int| providers[i].panel(budgets[i]))
}

/// Renders each room with its gravity and deadband texts.
fn render_rooms(rooms: &Vec<RoomStatus>, gravity: &Vec<String>, deadband: &Vec<String>) -> (r: Vec<
    String,
>)
    requires
        gravity@.len() == rooms@.len(),
        deadband@.len() == rooms@.len(),
    ensures
        views(r@) == room_panels(rooms@, views(gravity@), views(deadband@)),
{
    let mut r: Vec<String> = Vec::new();
    let mut i: usize = 0;
    while i < rooms.len()
        invariant
            i <= rooms.len(),
            gravity@.len() == rooms@.len(),
            deadband@.len() == rooms@.len(),
            r@.len() == i,
            forall|j: int| 0 <= j < i ==> #[trigger] r@[j]@ == rooms@[j].panel(gravity@[j]@, deadband@[j]@),
        decreases rooms.len() - i,
    {
        let p = rooms[i].render_with(gravity[i].as_str(), deadband[i].as_str());
        r.push(p);
        i = i + 1;
    }
    assert(views(r@) =~= room_panels(rooms@, views(gravity@), views(deadband@)));
    r
}

/// Renders each provider with its budget text.
fn render_providers(providers: &Vec<ProviderStatus>, budgets: &Vec<String>) -> (r: Vec<String>)
    requires
        budgets@.len() == providers@.len(),
    ensures
        views(r@) == provider_panels(providers@, views(budgets@)),
{
    let mut r: Vec<String> = Vec::new();
    let mut i: usize = 0;
    while i < providers.len()
        invariant
            i <= providers.len(),
            budgets@.len() == providers@.len(),
            r@.len() == i,
            forall|j: int| 0 <= j < i ==> #[trigger] r@[j]@ == providers@[j].panel(budgets@[j]@),
        decreases providers.len() - i,
    {
        let p = providers[i].render_with(budgets[i].as_str());
        r.push(p);
        i = i + 1;
    }
    assert(views(r@) =~= provider_panels(providers@, views(budgets@)));
    r
}

impl ConstructStatus {
    /// Create a new empty construct status.
    pub fn new() -> (r: Self)
        ensures
            r.rooms@.len() == 0,
            r.conservation == (ConservationStatus {
                total_budget: 0,
                total_spent: 0,
                degradation_level: 0,
            }),
            r.providers@.len() == 0,
            r.ports@.len() == 0,
            r.uptime_seconds == 0,
            r.total_ticks == 0,
    {
        ConstructStatus {
            rooms: Vec::new(),
            conservation: ConservationStatus::new(0, 0, 0),
            providers: Vec::new(),
            ports: Vec::new(),
            uptime_seconds: 0,
            total_ticks: 0,
        }
    }

    /// The dashboard laid out around already rendered panels of the rooms, of
    /// the conservation status and of the providers; the ports are its own.
    pub open spec fn dashboard_of_panels(
        self,
        room_panels: Seq<Seq<char>>,
        conservation_panel: Seq<char>,
        provider_panels: Seq<Seq<char>>,
    ) -> Seq<char> {
        "+========================================+\n|     PLATO CONSTRUCT STATUS DASHBOARD   |\n+========================================+\n| Uptime: "@
            + pad_left(decimal(self.uptime_seconds as nat), 6)
            + "s | Ticks: "@
            + pad_left(decimal(self.total_ticks as nat), 12)
            + "   |\n+----------------------------------------+\n| ROOMS                                  |\n"@
            + panel_section(room_panels)
            + "+----------------------------------------+\n| CONSERVATION                           |\n"@
            + embedded_panel(conservation_panel)
            + "+----------------------------------------+\n| PROVIDERS                              |\n"@
            + panel_section(provider_panels)
            + "+----------------------------------------+\n| PORTS                                  |\n"@
            + panel_section(port_panels(self.ports@))
            + "+========================================+\n"@
    }

    /// The dashboard of this status: the panels of its own rooms, conservation
    /// status, providers and ports, given the written forms of their real
    /// values (per room its gravity and deadband, the conservation budget,
    /// spending, full bar cells and degradation percentage, per provider its
    /// budget).
    pub open spec fn dashboard(
        self,
        room_gravity: Seq<Seq<char>>,
        room_deadband: Seq<Seq<char>>,
        budget: Seq<char>,
        spent: Seq<char>,
        filled: nat,
        degradation: Seq<char>,
        provider_budgets: Seq<Seq<char>>,
    ) -> Seq<char> {
        self.dashboard_of_panels(
            room_panels(self.rooms@, room_gravity, room_deadband),
            self.conservation.panel(budget, spent, filled, degradation),
            provider_panels(self.providers@, provider_budgets),
        )
    }

    /// Renders the dashboard of this status from the written forms of its real
    /// values: one gravity and one deadband text per room, the conservation
    /// budget, spending and degradation texts with the number of full cells of
    /// its bar, and one budget text per provider.
    pub fn render_with(
        &self,
        room_gravity: &Vec<String>,
        room_deadband: &Vec<String>,
        budget: &str,
        spent: &str,
        filled: usize,
        degradation: &str,
        provider_budgets: &Vec<String>,
    ) -> (r: String)
        requires
            room_gravity@.len() == self.rooms@.len(),
            room_deadband@.len() == self.rooms@.len(),
            provider_budgets@.len() == self.providers@.len(),
        ensures
            r@ == self.dashboard(
                views(room_gravity@),
                views(room_deadband@),
                budget@,
                spent@,
                filled as nat,
                degradation@,
                views(provider_budgets@),
            ),
    {
        let rooms = render_rooms(&self.rooms, room_gravity, room_deadband);
        let conservation = self.conservation.render_with(budget, spent, filled, degradation);
        let providers = render_providers(&self.providers, provider_budgets);
        let ports = render_ports(&self.ports);
        let mut out = String::new();
        out.append(
            "+========================================+\n|     PLATO CONSTRUCT STATUS DASHBOARD   |\n+========================================+\n| Uptime: ",
        );
        push_decimal_pad_left(&mut out, self.uptime_seconds, 6);
        out.append("s | Ticks: ");
        push_decimal_pad_left(&mut out, self.total_ticks, 12);
        out.append(
            "   |\n+----------------------------------------+\n| ROOMS                                  |\n",
        );
        push_panel_section(&mut out, &rooms);
        out.append(
            "+----------------------------------------+\n| CONSERVATION                           |\n",
        );
        push_embedded_panel(&mut out, conservation.as_str());
        out.append(
            "+----------------------------------------+\n| PROVIDERS                              |\n",
        );
        push_panel_section(&mut out, &providers);
        out.append(
            "+----------------------------------------+\n| PORTS                                  |\n",
        );
        push_panel_section(&mut out, &ports);
        out.append("+========================================+\n");
        out
    }
}

impl ConstructStatus {
    /// The two statuses have equal parts, as their own `==` compares them.
    pub open spec fn same_as(&self, other: &Self) -> bool {
        &&& pairwise_equal(self.rooms@, other.rooms@)
        &&& self.conservation.same_as(&other.conservation)
        &&& pairwise_equal(self.providers@, other.providers@)
        &&& pairwise_equal(self.ports@, other.ports@)
        &&& self.uptime_seconds == other.uptime_seconds
        &&& self.total_ticks == other.total_ticks
    }
}

impl PartialEq for ConstructStatus {
    fn eq(&self, other: &Self) -> (r: bool) {
        vec_eq(&self.rooms, &other.rooms) && self.conservation == other.conservation && vec_eq(
            &self.providers,
            &other.providers,
        ) && vec_eq(&self.ports, &other.ports) && self.uptime_seconds == other.uptime_seconds
            && self.total_ticks == other.total_ticks
    }
}

impl vstd::std_specs::cmp::PartialEqSpecImpl for ConstructStatus {
    open spec fn obeys_eq_spec() -> bool {
        true
    }

    open spec fn eq_spec(&self, other: &Self) -> bool {
        self.same_as(other)
    }
}

impl Default for ConstructStatus {
    fn default() -> (r: Self)
        ensures
            r.rooms@.len() == 0,
            r.conservation == (ConservationStatus {
                total_budget: 0,
                total_spent: 0,
                degradation_level: 0,
            }),
            r.providers@.len() == 0,
            r.ports@.len() == 0,
            r.uptime_seconds == 0,
            r.total_ticks == 0,
    {
        Self::new()
    }
}

} // verus!
