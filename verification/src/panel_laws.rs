//! What each panel shows on its labelled lines, stated over the panel's
//! inputs.
use vstd::prelude::*;
use crate::laws::holds_whole;
use crate::debug::ConservationReport;
use crate::deploy::DeploymentView;
use crate::inspect::{CircuitStatus, DeadbandStatus};
use crate::status::{bar, ConservationStatus, PortStatus, ProviderStatus, RoomStatus};
use crate::text::{decimal, joined, pad_left, pad_right, views};

verus! {

/// A port panel shows the port's name, `CONNECTED` exactly when the port is
/// connected (`DISCONNECTED` otherwise), and the number of pending messages,
/// each on its own labelled line.
pub proof fn port_panel_lines(p: PortStatus)
    ensures
        holds_whole(p.panel(), "| Port: "@ + pad_right(p.name@, 22) + " |\n"@),
        p.connected ==> holds_whole(p.panel(), "| State: "@ + pad_right("CONNECTED"@, 21) + " |\n"@),
        !p.connected ==> holds_whole(
            p.panel(),
            "| State: "@ + pad_right("DISCONNECTED"@, 21) + " |\n"@,
        ),
        holds_whole(
            p.panel(),
            "| Pending: "@ + pad_right(decimal(p.messages_pending as nat), 19) + " |\n"@,
        ),
{
    reveal_strlit("+------------------------------+\n| Port: ");
    reveal_strlit("+------------------------------+\n");
    reveal_strlit("| Port: ");
    reveal_strlit(" |\n| State: ");
    reveal_strlit(" |\n");
    reveal_strlit("| State: ");
    reveal_strlit(" |\n| Pending: ");
    reveal_strlit("| Pending: ");
    reveal_strlit(" |\n+------------------------------+");
    reveal_strlit("+------------------------------+");
    let top = "+------------------------------+\n"@;
    let bottom = "+------------------------------+"@;
    let nl = " |\n"@;
    let name = pad_right(p.name@, 22);
    let state = pad_right(p.connection_word(), 21);
    let pending = pad_right(decimal(p.messages_pending as nat), 19);
    let l1 = "| Port: "@ + name + nl;
    let l2 = "| State: "@ + state + nl;
    let l3 = "| Pending: "@ + pending + nl;
    assert(p.panel() =~= top + l1 + l2 + l3 + bottom);
    assert(p.panel() =~= top + l1 + (l2 + l3 + bottom));
    assert(p.panel() =~= (top + l1) + l2 + (l3 + bottom));
    assert(p.panel() =~= (top + l1 + l2) + l3 + bottom);
}

/// A provider panel shows the provider's name, `AVAILABLE` exactly when the
/// provider is available (`OFFLINE` otherwise), the budget text and the model
/// names joined by commas, each on its own labelled line.
pub proof fn provider_panel_lines(p: ProviderStatus, budget: Seq<char>)
    ensures
        holds_whole(p.panel(budget), "| Provider: "@ + pad_right(p.name@, 18) + " |\n"@),
        holds_whole(p.panel(budget), "| Budget: "@ + pad_right(budget, 20) + " |\n"@),
        holds_whole(p.panel(budget), "| Models: "@ + pad_right(joined(views(p.models@), ", "@), 20) + " |\n"@),
        p.available ==> holds_whole(p.panel(budget), "| Status: "@ + pad_right("AVAILABLE"@, 20) + " |\n"@),
        !p.available ==> holds_whole(p.panel(budget), "| Status: "@ + pad_right("OFFLINE  "@, 20) + " |\n"@),
{
    reveal_strlit(" |\n");
    reveal_strlit(" |\n+------------------------------+");
    reveal_strlit(" |\n| Budget: ");
    reveal_strlit(" |\n| Models: ");
    reveal_strlit(" |\n| Status: ");
    reveal_strlit("+------------------------------+");
    reveal_strlit("+------------------------------+\n");
    reveal_strlit("+------------------------------+\n| Provider: ");
    reveal_strlit("AVAILABLE");
    reveal_strlit("OFFLINE  ");
    reveal_strlit("| Budget: ");
    reveal_strlit("| Models: ");
    reveal_strlit("| Provider: ");
    reveal_strlit("| Status: ");
    let top = "+------------------------------+\n"@;
    let bottom = "+------------------------------+"@;
    let l0 = "| Provider: "@ + pad_right(p.name@, 18) + " |\n"@;
    let l1 = "| Status: "@ + pad_right(p.availability_word(), 20) + " |\n"@;
    let l2 = "| Budget: "@ + pad_right(budget, 20) + " |\n"@;
    let l3 = "| Models: "@ + pad_right(joined(views(p.models@), ", "@), 20) + " |\n"@;
    let whole = p.panel(budget);
    assert(whole =~= top + l0 + l1 + l2 + l3 + bottom);
    assert(whole =~= (top) + l0 + (l1 + l2 + l3 + bottom));
    assert(whole =~= (top + l0) + l1 + (l2 + l3 + bottom));
    assert(whole =~= (top + l0 + l1) + l2 + (l3 + bottom));
    assert(whole =~= (top + l0 + l1 + l2) + l3 + (bottom));
}

/// A circuit panel shows the circuit's state word, the load text on the `Load`
/// line and the temperature text on the `Temp` line.
pub proof fn circuit_panel_lines(c: CircuitStatus, load: Seq<char>, temperature: Seq<char>)
    ensures
        holds_whole(c.panel(load, temperature), "| Load: "@ + pad_right(load, 22) + " |\n"@),
        holds_whole(c.panel(load, temperature), "| Temp: "@ + pad_right(temperature, 22) + " |\n"@),
        c.state is Open ==> holds_whole(c.panel(load, temperature), "| Circuit: "@ + pad_right("OPEN"@, 19) + " |\n"@),
        c.state is Closed ==> holds_whole(c.panel(load, temperature), "| Circuit: "@ + pad_right("CLOSED"@, 19) + " |\n"@),
        c.state is Tripped ==> holds_whole(c.panel(load, temperature), "| Circuit: "@ + pad_right("TRIPPED"@, 19) + " |\n"@),
        c.state is Maintenance ==> holds_whole(c.panel(load, temperature), "| Circuit: "@ + pad_right("MAINTENANCE"@, 19) + " |\n"@),
{
    reveal_strlit(" |\n");
    reveal_strlit(" |\n+------------------------------+");
    reveal_strlit(" |\n| Load: ");
    reveal_strlit(" |\n| Temp: ");
    reveal_strlit("+------------------------------+");
    reveal_strlit("+------------------------------+\n");
    reveal_strlit("+------------------------------+\n| Circuit: ");
    reveal_strlit("CLOSED");
    reveal_strlit("MAINTENANCE");
    reveal_strlit("OPEN");
    reveal_strlit("TRIPPED");
    reveal_strlit("| Circuit: ");
    reveal_strlit("| Load: ");
    reveal_strlit("| Temp: ");
    let top = "+------------------------------+\n"@;
    let bottom = "+------------------------------+"@;
    let l0 = "| Circuit: "@ + pad_right(c.state.word(), 19) + " |\n"@;
    let l1 = "| Load: "@ + pad_right(load, 22) + " |\n"@;
    let l2 = "| Temp: "@ + pad_right(temperature, 22) + " |\n"@;
    let whole = c.panel(load, temperature);
    assert(whole =~= top + l0 + l1 + l2 + bottom);
    assert(whole =~= (top) + l0 + (l1 + l2 + bottom));
    assert(whole =~= (top + l0) + l1 + (l2 + bottom));
    assert(whole =~= (top + l0 + l1) + l2 + (bottom));
}

/// A room panel shows the room's id, its ensign's badge, the gravity and
/// deadband texts and the number of tiles, each on its own labelled line.
pub proof fn room_panel_lines(r: RoomStatus, gravity: Seq<char>, deadband: Seq<char>)
    ensures
        holds_whole(r.panel(gravity, deadband), "| Room: "@ + pad_right(r.id@, 22) + " |\n"@),
        holds_whole(r.panel(gravity, deadband), "| Gravity: "@ + pad_right(gravity, 19) + " |\n"@),
        holds_whole(r.panel(gravity, deadband), "| Deadband: "@ + pad_right(deadband, 18) + " |\n"@),
        holds_whole(r.panel(gravity, deadband), "| Tiles: "@ + pad_right(decimal(r.tile_count as nat), 21) + " |\n"@),
        r.ensign_state is Active ==> holds_whole(r.panel(gravity, deadband), "| Ensign: "@ + pad_right("[ACTIVE]"@, 20) + " |\n"@),
        r.ensign_state is Standby ==> holds_whole(r.panel(gravity, deadband), "| Ensign: "@ + pad_right("[STANDBY]"@, 20) + " |\n"@),
        r.ensign_state is Error ==> holds_whole(r.panel(gravity, deadband), "| Ensign: "@ + pad_right("[ERROR!]"@, 20) + " |\n"@),
        r.ensign_state is Offline ==> holds_whole(r.panel(gravity, deadband), "| Ensign: "@ + pad_right("[OFFLINE]"@, 20) + " |\n"@),
{
    reveal_strlit(" |\n");
    reveal_strlit(" |\n+------------------------------+");
    reveal_strlit(" |\n| Deadband: ");
    reveal_strlit(" |\n| Ensign: ");
    reveal_strlit(" |\n| Gravity: ");
    reveal_strlit(" |\n| Tiles: ");
    reveal_strlit("+------------------------------+");
    reveal_strlit("+------------------------------+\n");
    reveal_strlit("+------------------------------+\n| Room: ");
    reveal_strlit("[ACTIVE]");
    reveal_strlit("[ERROR!]");
    reveal_strlit("[OFFLINE]");
    reveal_strlit("[STANDBY]");
    reveal_strlit("| Deadband: ");
    reveal_strlit("| Ensign: ");
    reveal_strlit("| Gravity: ");
    reveal_strlit("| Room: ");
    reveal_strlit("| Tiles: ");
    let top = "+------------------------------+\n"@;
    let bottom = "+------------------------------+"@;
    let l0 = "| Room: "@ + pad_right(r.id@, 22) + " |\n"@;
    let l1 = "| Ensign: "@ + pad_right(r.ensign_state.badge(), 20) + " |\n"@;
    let l2 = "| Gravity: "@ + pad_right(gravity, 19) + " |\n"@;
    let l3 = "| Deadband: "@ + pad_right(deadband, 18) + " |\n"@;
    let l4 = "| Tiles: "@ + pad_right(decimal(r.tile_count as nat), 21) + " |\n"@;
    let whole = r.panel(gravity, deadband);
    assert(whole =~= top + l0 + l1 + l2 + l3 + l4 + bottom);
    assert(whole =~= (top) + l0 + (l1 + l2 + l3 + l4 + bottom));
    assert(whole =~= (top + l0) + l1 + (l2 + l3 + l4 + bottom));
    assert(whole =~= (top + l0 + l1) + l2 + (l3 + l4 + bottom));
    assert(whole =~= (top + l0 + l1 + l2) + l3 + (l4 + bottom));
    assert(whole =~= (top + l0 + l1 + l2 + l3) + l4 + (bottom));
}

/// A deadband panel shows `ACTIVE` exactly when the deadband is active
/// (`INACTIVE` otherwise), the lower and upper bound texts in that order, and
/// the current value text.
pub proof fn deadband_panel_lines(d: DeadbandStatus, lower: Seq<char>, upper: Seq<char>, current: Seq<char>)
    ensures
        holds_whole(d.panel(lower, upper, current), "| Bounds: ["@ + pad_left(lower, 6) + ", "@ + pad_left(upper, 6) + "]          |\n"@),
        holds_whole(d.panel(lower, upper, current), "| Current: "@ + pad_right(current, 19) + " |\n"@),
        d.active ==> holds_whole(d.panel(lower, upper, current), "| Deadband: "@ + pad_right("ACTIVE"@, 18) + " |\n"@),
        !d.active ==> holds_whole(d.panel(lower, upper, current), "| Deadband: "@ + pad_right("INACTIVE"@, 18) + " |\n"@),
{
    reveal_strlit(" |\n");
    reveal_strlit(" |\n+------------------------------+");
    reveal_strlit(" |\n| Bounds: [");
    reveal_strlit("+------------------------------+");
    reveal_strlit("+------------------------------+\n");
    reveal_strlit("+------------------------------+\n| Deadband: ");
    reveal_strlit(", ");
    reveal_strlit("ACTIVE");
    reveal_strlit("INACTIVE");
    reveal_strlit("]          |\n");
    reveal_strlit("]          |\n| Current: ");
    reveal_strlit("| Bounds: [");
    reveal_strlit("| Current: ");
    reveal_strlit("| Deadband: ");
    let top = "+------------------------------+\n"@;
    let bottom = "+------------------------------+"@;
    let l0 = "| Deadband: "@ + pad_right(d.state_word(), 18) + " |\n"@;
    let l1 = "| Bounds: ["@ + pad_left(lower, 6) + ", "@ + pad_left(upper, 6) + "]          |\n"@;
    let l2 = "| Current: "@ + pad_right(current, 19) + " |\n"@;
    let whole = d.panel(lower, upper, current);
    assert(whole =~= top + l0 + l1 + l2 + bottom);
    assert(whole =~= (top) + l0 + (l1 + l2 + bottom));
    assert(whole =~= (top + l0) + l1 + (l2 + bottom));
    assert(whole =~= (top + l0 + l1) + l2 + (bottom));
}

/// A conservation panel shows the budget text, the spending text, the spending
/// bar of 20 cells with `filled` full ones and the degradation percentage text,
/// each on its own line.
pub proof fn conservation_panel_lines(c: ConservationStatus, budget: Seq<char>, spent: Seq<char>, filled: nat, degradation: Seq<char>)
    ensures
        holds_whole(c.panel(budget, spent, filled, degradation), "| Budget:  "@ + pad_right(budget, 19) + " |\n"@),
        holds_whole(c.panel(budget, spent, filled, degradation), "| Spent:   "@ + pad_right(spent, 19) + " |\n"@),
        holds_whole(c.panel(budget, spent, filled, degradation), "| "@ + bar(filled, 20) + " |\n"@),
        holds_whole(c.panel(budget, spent, filled, degradation), "| Degradation: "@ + pad_right(degradation, 15) + "% |\n"@),
{
    reveal_strlit(" |\n");
    reveal_strlit(" |\n| ");
    reveal_strlit(" |\n| Degradation: ");
    reveal_strlit(" |\n| Spent:   ");
    reveal_strlit("% |\n");
    reveal_strlit("% |\n+------------------------------+");
    reveal_strlit("+------------------------------+");
    reveal_strlit("+------------------------------+\n| CONSERVATION                 |\n");
    reveal_strlit("+------------------------------+\n| CONSERVATION                 |\n| Budget:  ");
    reveal_strlit("| ");
    reveal_strlit("| Budget:  ");
    reveal_strlit("| Degradation: ");
    reveal_strlit("| Spent:   ");
    let top = "+------------------------------+\n| CONSERVATION                 |\n"@;
    let bottom = "+------------------------------+"@;
    let l0 = "| Budget:  "@ + pad_right(budget, 19) + " |\n"@;
    let l1 = "| Spent:   "@ + pad_right(spent, 19) + " |\n"@;
    let l2 = "| "@ + bar(filled, 20) + " |\n"@;
    let l3 = "| Degradation: "@ + pad_right(degradation, 15) + "% |\n"@;
    let whole = c.panel(budget, spent, filled, degradation);
    assert(whole =~= top + l0 + l1 + l2 + l3 + bottom);
    assert(whole =~= (top) + l0 + (l1 + l2 + l3 + bottom));
    assert(whole =~= (top + l0) + l1 + (l2 + l3 + bottom));
    assert(whole =~= (top + l0 + l1) + l2 + (l3 + bottom));
    assert(whole =~= (top + l0 + l1 + l2) + l3 + (bottom));
}

/// A conservation report panel shows `PASS` exactly when the law holds (`FAIL`
/// otherwise), then the energy in, the energy out, the discrepancy and the
/// tolerance texts, each on its own labelled line.
pub proof fn report_panel_lines(r: ConservationReport, total_in: Seq<char>, total_out: Seq<char>, discrepancy: Seq<char>, tolerance: Seq<char>)
    ensures
        holds_whole(r.panel(total_in, total_out, discrepancy, tolerance), "| Total In:  "@ + pad_right(total_in, 18) + " |\n"@),
        holds_whole(r.panel(total_in, total_out, discrepancy, tolerance), "| Total Out: "@ + pad_right(total_out, 18) + " |\n"@),
        holds_whole(r.panel(total_in, total_out, discrepancy, tolerance), "| Discrepancy: "@ + pad_right(discrepancy, 16) + " |\n"@),
        holds_whole(r.panel(total_in, total_out, discrepancy, tolerance), "| Tolerance: "@ + pad_right(tolerance, 18) + " |\n"@),
        r.law_holds ==> holds_whole(r.panel(total_in, total_out, discrepancy, tolerance), "| CONSERVATION REPORT: "@ + pad_right("PASS"@, 9) + " |\n"@),
        !r.law_holds ==> holds_whole(r.panel(total_in, total_out, discrepancy, tolerance), "| CONSERVATION REPORT: "@ + pad_right("FAIL"@, 9) + " |\n"@),
{
    reveal_strlit(" |\n");
    reveal_strlit(" |\n+------------------------------+");
    reveal_strlit(" |\n| Discrepancy: ");
    reveal_strlit(" |\n| Tolerance: ");
    reveal_strlit(" |\n| Total In:  ");
    reveal_strlit(" |\n| Total Out: ");
    reveal_strlit("+------------------------------+");
    reveal_strlit("+------------------------------+\n");
    reveal_strlit("+------------------------------+\n| CONSERVATION REPORT: ");
    reveal_strlit("FAIL");
    reveal_strlit("PASS");
    reveal_strlit("| CONSERVATION REPORT: ");
    reveal_strlit("| Discrepancy: ");
    reveal_strlit("| Tolerance: ");
    reveal_strlit("| Total In:  ");
    reveal_strlit("| Total Out: ");
    let top = "+------------------------------+\n"@;
    let bottom = "+------------------------------+"@;
    let l0 = "| CONSERVATION REPORT: "@ + pad_right(r.verdict(), 9) + " |\n"@;
    let l1 = "| Total In:  "@ + pad_right(total_in, 18) + " |\n"@;
    let l2 = "| Total Out: "@ + pad_right(total_out, 18) + " |\n"@;
    let l3 = "| Discrepancy: "@ + pad_right(discrepancy, 16) + " |\n"@;
    let l4 = "| Tolerance: "@ + pad_right(tolerance, 18) + " |\n"@;
    let whole = r.panel(total_in, total_out, discrepancy, tolerance);
    assert(whole =~= top + l0 + l1 + l2 + l3 + l4 + bottom);
    assert(whole =~= (top) + l0 + (l1 + l2 + l3 + l4 + bottom));
    assert(whole =~= (top + l0) + l1 + (l2 + l3 + l4 + bottom));
    assert(whole =~= (top + l0 + l1) + l2 + (l3 + l4 + bottom));
    assert(whole =~= (top + l0 + l1 + l2) + l3 + (l4 + bottom));
    assert(whole =~= (top + l0 + l1 + l2 + l3) + l4 + (bottom));
}

/// A deployment panel shows the room's id (as the deployment and as the room),
/// the attached ensign profile's name or `none` when there is none, and the
/// deployment time, each on its own labelled line.
pub proof fn deployment_panel_lines(d: DeploymentView)
    ensures
        holds_whole(d.panel(), "| Deployment: "@ + pad_right(d.room_id, 16) + " |\n"@),
        holds_whole(d.panel(), "| Room: "@ + pad_right(d.room_id, 22) + " |\n"@),
        holds_whole(d.panel(), "| At: "@ + pad_right(d.deployed_at, 24) + " |\n"@),
        d.manifest.ensign_profile is None ==> holds_whole(d.panel(), "| Ensign: "@ + pad_right("none"@, 20) + " |\n"@),
        d.manifest.ensign_profile is Some ==> holds_whole(d.panel(), "| Ensign: "@ + pad_right(d.manifest.ensign_profile->0.profile_name, 20) + " |\n"@),
{
    reveal_strlit(" |\n");
    reveal_strlit(" |\n+------------------------------+");
    reveal_strlit(" |\n| At: ");
    reveal_strlit(" |\n| Ensign: ");
    reveal_strlit(" |\n| Room: ");
    reveal_strlit("+------------------------------+");
    reveal_strlit("+------------------------------+\n");
    reveal_strlit("+------------------------------+\n| Deployment: ");
    reveal_strlit("none");
    reveal_strlit("| At: ");
    reveal_strlit("| Deployment: ");
    reveal_strlit("| Ensign: ");
    reveal_strlit("| Room: ");
    let top = "+------------------------------+\n"@;
    let bottom = "+------------------------------+"@;
    let l0 = "| Deployment: "@ + pad_right(d.room_id, 16) + " |\n"@;
    let l1 = "| Room: "@ + pad_right(d.room_id, 22) + " |\n"@;
    let l2 = "| Ensign: "@ + pad_right(d.ensign_name(), 20) + " |\n"@;
    let l3 = "| At: "@ + pad_right(d.deployed_at, 24) + " |\n"@;
    let whole = d.panel();
    assert(whole =~= top + l0 + l1 + l2 + l3 + bottom);
    assert(whole =~= (top) + l0 + (l1 + l2 + l3 + bottom));
    assert(whole =~= (top + l0) + l1 + (l2 + l3 + bottom));
    assert(whole =~= (top + l0 + l1) + l2 + (l3 + bottom));
    assert(whole =~= (top + l0 + l1 + l2) + l3 + (bottom));
}

} // verus!
