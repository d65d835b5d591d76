//! Properties of the library that relate several operations.
use vstd::prelude::*;
use crate::debug::{ConservationReport, TraceStep};
use crate::deploy::{DeploymentView, EnsignProfileView, RoomManifestView};
use crate::error::DeployError;
use crate::text::{embedded_panel, embedded_panels, panel_section};
use crate::inspect::{
    CircuitStatus, DeadbandStatus, PenroseCorrelation, RoomInspection, RoomInspectionView, Tile,
};
use crate::status::{
    bar, ConservationStatus, ConstructStatus, EnsignState, PortStatus, ProviderStatus, RoomStatus,
};

verus! {

/// Removing a room right after deploying it leaves the deployments as they
/// were before the deployment.
pub proof fn remove_undoes_deploy(
    rooms: Map<Seq<char>, DeploymentView>,
    manifest: RoomManifestView,
)
    requires
        !rooms.contains_key(manifest.room_id),
    ensures
        rooms.insert(manifest.room_id, DeploymentView::fresh(manifest)).remove(manifest.room_id)
            == rooms,
{
    assert(rooms.insert(manifest.room_id, DeploymentView::fresh(manifest)).remove(
        manifest.room_id,
    ) =~= rooms);
}

/// Once a room is deployed it is present, so deploying it again is refused,
/// and its record is the manifest it was deployed with, recorded `now`.
pub proof fn deployed_room_is_present(
    rooms: Map<Seq<char>, DeploymentView>,
    manifest: RoomManifestView,
)
    ensures
        rooms.insert(manifest.room_id, DeploymentView::fresh(manifest)).contains_key(
            manifest.room_id,
        ),
        rooms.insert(manifest.room_id, DeploymentView::fresh(manifest))[manifest.room_id].room_id
            == manifest.room_id,
        rooms.insert(manifest.room_id, DeploymentView::fresh(manifest))[manifest.room_id].manifest
            == manifest,
        rooms.insert(
            manifest.room_id,
            DeploymentView::fresh(manifest),
        )[manifest.room_id].deployed_at == "now"@,
{
}

/// Attaching an ensign to a deployed room keeps the set of deployed rooms.
pub proof fn ensign_keeps_rooms(
    rooms: Map<Seq<char>, DeploymentView>,
    room_id: Seq<char>,
    profile: EnsignProfileView,
)
    requires
        rooms.contains_key(room_id),
    ensures
        rooms.insert(room_id, rooms[room_id].with_ensign(profile)).dom() == rooms.dom(),
{
    assert(rooms.insert(room_id, rooms[room_id].with_ensign(profile)).dom() =~= rooms.dom());
}

/// Attaching an ensign changes nothing of a deployment but its profile, and a
/// later profile replaces an earlier one.
pub proof fn ensign_replaces_profile_only(
    d: DeploymentView,
    first: EnsignProfileView,
    second: EnsignProfileView,
)
    ensures
        d.with_ensign(first).room_id == d.room_id,
        d.with_ensign(first).deployed_at == d.deployed_at,
        d.with_ensign(first).manifest.room_id == d.manifest.room_id,
        d.with_ensign(first).manifest.dimensions == d.manifest.dimensions,
        d.with_ensign(first).manifest.max_tiles == d.manifest.max_tiles,
        d.with_ensign(first).manifest.gravity_setting == d.manifest.gravity_setting,
        d.with_ensign(first).manifest.ensign_profile == Some(first),
        d.with_ensign(first).with_ensign(second) == d.with_ensign(second),
{
}

/// Inspecting a room right after registering its inspection gives that
/// inspection back, and registering one room leaves every other room as it was.
pub proof fn inspection_reads_back(
    rooms: Map<Seq<char>, RoomInspectionView>,
    inspection: RoomInspectionView,
    other: Seq<char>,
)
    ensures
        rooms.insert(inspection.room_config.room_id@, inspection).contains_key(
            inspection.room_config.room_id@,
        ),
        rooms.insert(inspection.room_config.room_id@, inspection)[inspection.room_config.room_id@]
            == inspection,
        other != inspection.room_config.room_id@ ==> {
            &&& rooms.insert(inspection.room_config.room_id@, inspection).contains_key(other)
                == rooms.contains_key(other)
            &&& rooms.contains_key(other) ==> rooms.insert(
                inspection.room_config.room_id@,
                inspection,
            )[other] == rooms[other]
        },
{
}

/// A bar whose full cells fit in its width shows exactly `width` cells
/// between its brackets.
pub proof fn bar_shows_width_cells(filled: nat, width: nat)
    requires
        filled <= width,
    ensures
        bar(filled, width).len() == width + 2,
{
    reveal_strlit("[");
    reveal_strlit("]");
}

/// Every rendering is non-empty.
pub proof fn renders_are_nonempty()
    ensures
        forall|s: EnsignState| #[trigger] s.badge().len() > 0,
        forall|p: PortStatus| #[trigger] p.panel().len() > 0,
        forall|t: Tile| #[trigger] t.line().len() > 0,
        forall|d: DeploymentView| #[trigger] d.panel().len() > 0,
        forall|e: DeployError| #[trigger] e.message().len() > 0,
        forall|r: RoomStatus, g: Seq<char>, b: Seq<char>| #[trigger] r.panel(g, b).len() > 0,
        forall|c: ConservationStatus, b: Seq<char>, s: Seq<char>, f: nat, d: Seq<char>|
            #[trigger] c.panel(b, s, f, d).len() > 0,
        forall|p: ProviderStatus, b: Seq<char>| #[trigger] p.panel(b).len() > 0,
        forall|d: DeadbandStatus, l: Seq<char>, u: Seq<char>, c: Seq<char>|
            #[trigger] d.panel(l, u, c).len() > 0,
        forall|c: CircuitStatus, l: Seq<char>, t: Seq<char>| #[trigger] c.panel(l, t).len() > 0,
        forall|c: PenroseCorrelation, v: Seq<char>| #[trigger] c.line(v).len() > 0,
        forall|t: TraceStep, e: Seq<char>| #[trigger] t.line(e).len() > 0,
        forall|c: ConstructStatus, r: Seq<Seq<char>>, k: Seq<char>, p: Seq<Seq<char>>|
            #[trigger] c.dashboard_of_panels(r, k, p).len() > 0,
        forall|c: ConservationReport, a: Seq<char>, b: Seq<char>, d: Seq<char>, t: Seq<char>|
            #[trigger] c.panel(a, b, d, t).len() > 0,
        forall|
            i: RoomInspection,
            g: (Seq<char>, Seq<char>, Seq<char>),
            d: Seq<char>,
            c: Seq<char>,
            l: Seq<Seq<char>>,
        |
            #[trigger] i.panel_of_parts(g, d, c, l).len() > 0,
{
    reveal_strlit("+------------------------------+\n| CONSERVATION REPORT: ");
    reveal_strlit("+========================================+\n| ROOM INSPECTION: ");
    reveal_strlit("[ACTIVE]");
    reveal_strlit("[STANDBY]");
    reveal_strlit("[ERROR!]");
    reveal_strlit("[OFFLINE]");
    reveal_strlit("[");
    reveal_strlit("Room not found: ");
    reveal_strlit("Invalid config: ");
    reveal_strlit("Deployment failed: ");
    reveal_strlit("Already exists: ");
    reveal_strlit("+------------------------------+\n| Port: ");
    reveal_strlit("+------------------------------+\n| Deployment: ");
    reveal_strlit("+------------------------------+\n| Room: ");
    reveal_strlit("+------------------------------+\n| CONSERVATION                 |\n| Budget:  ");
    reveal_strlit("+------------------------------+\n| Provider: ");
    reveal_strlit("+------------------------------+\n| Deadband: ");
    reveal_strlit("+------------------------------+\n| Circuit: ");
    reveal_strlit(" <-> ");
    reveal_strlit(
        "+========================================+\n|     PLATO CONSTRUCT STATUS DASHBOARD   |\n+========================================+\n| Uptime: ",
    );
}

/// `text` holds `part` whole: some text before it, then `part`, then some text
/// after it.
pub open spec fn holds_whole(text: Seq<char>, part: Seq<char>) -> bool {
    exists|before: Seq<char>, after: Seq<char>| text == before + part + after
}

/// A sequence of embedded panels holds each panel's embedding whole.
pub proof fn embedded_panels_hold_each(panels: Seq<Seq<char>>, i: int)
    requires
        0 <= i < panels.len(),
    ensures
        holds_whole(embedded_panels(panels), embedded_panel(panels[i])),
    decreases panels.len(),
{
    let rest = panels.drop_last();
    if i == panels.len() - 1 {
        let before = embedded_panels(rest);
        let after = Seq::<char>::empty();
        assert(embedded_panels(panels) =~= before + embedded_panel(panels[i]) + after);
    } else {
        embedded_panels_hold_each(rest, i);
        let (before, after) = choose|before: Seq<char>, after: Seq<char>|
            embedded_panels(rest) == before + embedded_panel(rest[i]) + after;
        let after2 = after + embedded_panel(panels.last());
        assert(embedded_panels(panels) =~= before + embedded_panel(panels[i]) + after2);
    }
}

/// The dashboard laid out around given panels holds each of them whole.
proof fn dashboard_of_panels_holds_each(
    status: ConstructStatus,
    room_ps: Seq<Seq<char>>,
    cons_panel: Seq<char>,
    prov_ps: Seq<Seq<char>>,
)
    ensures
        forall|i: int|
            0 <= i < room_ps.len() ==> holds_whole(
                status.dashboard_of_panels(room_ps, cons_panel, prov_ps),
                embedded_panel(#[trigger] room_ps[i]),
            ),
        forall|i: int|
            0 <= i < prov_ps.len() ==> holds_whole(
                status.dashboard_of_panels(room_ps, cons_panel, prov_ps),
                embedded_panel(#[trigger] prov_ps[i]),
            ),
        forall|i: int|
            0 <= i < status.ports@.len() ==> holds_whole(
                status.dashboard_of_panels(room_ps, cons_panel, prov_ps),
                embedded_panel((#[trigger] status.ports@[i]).panel()),
            ),
        holds_whole(
            status.dashboard_of_panels(room_ps, cons_panel, prov_ps),
            embedded_panel(cons_panel),
        ),
{
    let d = status.dashboard_of_panels(room_ps, cons_panel, prov_ps);
    let ports = crate::status::port_panels(status.ports@);
    let head = "+========================================+\n|     PLATO CONSTRUCT STATUS DASHBOARD   |\n+========================================+\n| Uptime: "@
        + crate::text::pad_left(crate::text::decimal(status.uptime_seconds as nat), 6)
        + "s | Ticks: "@
        + crate::text::pad_left(crate::text::decimal(status.total_ticks as nat), 12)
        + "   |\n+----------------------------------------+\n| ROOMS                                  |\n"@;
    let cons_head = "+----------------------------------------+\n| CONSERVATION                           |\n"@;
    let prov_head = "+----------------------------------------+\n| PROVIDERS                              |\n"@;
    let port_head = "+----------------------------------------+\n| PORTS                                  |\n"@;
    let tail = "+========================================+\n"@;
    let rooms = panel_section(room_ps);
    let cons = embedded_panel(cons_panel);
    let provs = panel_section(prov_ps);
    let port_sec = panel_section(ports);
    assert(d == head + rooms + cons_head + cons + prov_head + provs + port_head + port_sec + tail);
    assert forall|i: int| 0 <= i < room_ps.len() implies holds_whole(
        d,
        embedded_panel(#[trigger] room_ps[i]),
    ) by {
        embedded_panels_hold_each(room_ps, i);
        let (b, a) = choose|b: Seq<char>, a: Seq<char>|
            embedded_panels(room_ps) == b + embedded_panel(room_ps[i]) + a;
        let before = head + b;
        let after = a + cons_head + cons + prov_head + provs + port_head + port_sec + tail;
        assert(d =~= before + embedded_panel(room_ps[i]) + after);
    }
    assert forall|i: int| 0 <= i < prov_ps.len() implies holds_whole(
        d,
        embedded_panel(#[trigger] prov_ps[i]),
    ) by {
        embedded_panels_hold_each(prov_ps, i);
        let (b, a) = choose|b: Seq<char>, a: Seq<char>|
            embedded_panels(prov_ps) == b + embedded_panel(prov_ps[i]) + a;
        let before = head + rooms + cons_head + cons + prov_head + b;
        let after = a + port_head + port_sec + tail;
        assert(d =~= before + embedded_panel(prov_ps[i]) + after);
    }
    assert forall|i: int| 0 <= i < status.ports@.len() implies holds_whole(
        d,
        embedded_panel((#[trigger] status.ports@[i]).panel()),
    ) by {
        assert(ports[i] == status.ports@[i].panel());
        embedded_panels_hold_each(ports, i);
        let (b, a) = choose|b: Seq<char>, a: Seq<char>|
            embedded_panels(ports) == b + embedded_panel(ports[i]) + a;
        let before = head + rooms + cons_head + cons + prov_head + provs + port_head + b;
        let after = a + tail;
        assert(d =~= before + embedded_panel(ports[i]) + after);
    }
    let before = head + rooms + cons_head;
    let after = prov_head + provs + port_head + port_sec + tail;
    assert(d =~= before + cons + after);
}

/// The dashboard of a status holds, each whole, the embedded panel of every
/// one of its rooms, of its conservation status, of every one of its
/// providers and of every one of its ports.
pub proof fn dashboard_embeds_every_panel(
    status: ConstructStatus,
    room_gravity: Seq<Seq<char>>,
    room_deadband: Seq<Seq<char>>,
    budget: Seq<char>,
    spent: Seq<char>,
    filled: nat,
    degradation: Seq<char>,
    provider_budgets: Seq<Seq<char>>,
)
    ensures
        forall|i: int|
            0 <= i < status.rooms@.len() ==> holds_whole(
                status.dashboard(
                    room_gravity,
                    room_deadband,
                    budget,
                    spent,
                    filled,
                    degradation,
                    provider_budgets,
                ),
                embedded_panel(
                    (#[trigger] status.rooms@[i]).panel(room_gravity[i], room_deadband[i]),
                ),
            ),
        forall|i: int|
            0 <= i < status.providers@.len() ==> holds_whole(
                status.dashboard(
                    room_gravity,
                    room_deadband,
                    budget,
                    spent,
                    filled,
                    degradation,
                    provider_budgets,
                ),
                embedded_panel((#[trigger] status.providers@[i]).panel(provider_budgets[i])),
            ),
        forall|i: int|
            0 <= i < status.ports@.len() ==> holds_whole(
                status.dashboard(
                    room_gravity,
                    room_deadband,
                    budget,
                    spent,
                    filled,
                    degradation,
                    provider_budgets,
                ),
                embedded_panel((#[trigger] status.ports@[i]).panel()),
            ),
        holds_whole(
            status.dashboard(
                room_gravity,
                room_deadband,
                budget,
                spent,
                filled,
                degradation,
                provider_budgets,
            ),
            embedded_panel(status.conservation.panel(budget, spent, filled, degradation)),
        ),
{
    let room_ps = crate::status::room_panels(status.rooms@, room_gravity, room_deadband);
    let prov_ps = crate::status::provider_panels(status.providers@, provider_budgets);
    let cons_panel = status.conservation.panel(budget, spent, filled, degradation);
    dashboard_of_panels_holds_each(status, room_ps, cons_panel, prov_ps);
    let d = status.dashboard(
        room_gravity,
        room_deadband,
        budget,
        spent,
        filled,
        degradation,
        provider_budgets,
    );
    assert(d == status.dashboard_of_panels(room_ps, cons_panel, prov_ps));
    assert forall|i: int| 0 <= i < status.rooms@.len() implies holds_whole(
        d,
        embedded_panel((#[trigger] status.rooms@[i]).panel(room_gravity[i], room_deadband[i])),
    ) by {
        assert(room_ps[i] == status.rooms@[i].panel(room_gravity[i], room_deadband[i]));
        assert(holds_whole(d, embedded_panel(room_ps[i])));
    }
    assert forall|i: int| 0 <= i < status.providers@.len() implies holds_whole(
        d,
        embedded_panel((#[trigger] status.providers@[i]).panel(provider_budgets[i])),
    ) by {
        assert(prov_ps[i] == status.providers@[i].panel(provider_budgets[i]));
        assert(holds_whole(d, embedded_panel(prov_ps[i])));
    }
}

/// In the dashboard of a status, the line `| ROOMS ...|` is directly followed
/// by the embedded panels of its rooms in order (or the `(none)` row), then the
/// conservation header and the embedded conservation panel, then the
/// providers' header and their panels in order, then the ports' header and
/// their panels in order, then the closing border.
pub proof fn dashboard_sections_follow_headers(
    status: ConstructStatus,
    room_gravity: Seq<Seq<char>>,
    room_deadband: Seq<Seq<char>>,
    budget: Seq<char>,
    spent: Seq<char>,
    filled: nat,
    degradation: Seq<char>,
    provider_budgets: Seq<Seq<char>>,
)
    ensures
        exists|head: Seq<char>|
            status.dashboard(
                room_gravity,
                room_deadband,
                budget,
                spent,
                filled,
                degradation,
                provider_budgets,
            ) == head + "| ROOMS                                  |\n"@ + panel_section(
                crate::status::room_panels(status.rooms@, room_gravity, room_deadband),
            ) + "+----------------------------------------+\n| CONSERVATION                           |\n"@
                + embedded_panel(status.conservation.panel(budget, spent, filled, degradation))
                + "+----------------------------------------+\n| PROVIDERS                              |\n"@
                + panel_section(crate::status::provider_panels(status.providers@, provider_budgets))
                + "+----------------------------------------+\n| PORTS                                  |\n"@
                + panel_section(crate::status::port_panels(status.ports@))
                + "+========================================+\n"@,
{
    reveal_strlit(
        "   |\n+----------------------------------------+\n| ROOMS                                  |\n",
    );
    reveal_strlit("   |\n+----------------------------------------+\n");
    reveal_strlit("| ROOMS                                  |\n");
    let rooms_literal =
        "   |\n+----------------------------------------+\n| ROOMS                                  |\n"@;
    let border = "   |\n+----------------------------------------+\n"@;
    let header = "| ROOMS                                  |\n"@;
    assert(rooms_literal =~= border + header);
    let head = "+========================================+\n|     PLATO CONSTRUCT STATUS DASHBOARD   |\n+========================================+\n| Uptime: "@
        + crate::text::pad_left(crate::text::decimal(status.uptime_seconds as nat), 6)
        + "s | Ticks: "@
        + crate::text::pad_left(crate::text::decimal(status.total_ticks as nat), 12) + border;
    let d = status.dashboard(
        room_gravity,
        room_deadband,
        budget,
        spent,
        filled,
        degradation,
        provider_budgets,
    );
    assert(d =~= head + header + panel_section(
        crate::status::room_panels(status.rooms@, room_gravity, room_deadband),
    ) + "+----------------------------------------+\n| CONSERVATION                           |\n"@
        + embedded_panel(status.conservation.panel(budget, spent, filled, degradation))
        + "+----------------------------------------+\n| PROVIDERS                              |\n"@
        + panel_section(crate::status::provider_panels(status.providers@, provider_budgets))
        + "+----------------------------------------+\n| PORTS                                  |\n"@
        + panel_section(crate::status::port_panels(status.ports@))
        + "+========================================+\n"@);
}

/// The inspection panel of an inspection holds its own deadband and circuit
/// panels, embedded, each whole.
pub proof fn inspection_embeds_subpanels(
    inspection: RoomInspection,
    gravity: (Seq<char>, Seq<char>, Seq<char>),
    deadband: (Seq<char>, Seq<char>, Seq<char>),
    circuit: (Seq<char>, Seq<char>),
    correlations: Seq<Seq<char>>,
)
    ensures
        holds_whole(
            inspection.panel(gravity, deadband, circuit, correlations),
            embedded_panel(inspection.deadband_status.panel(deadband.0, deadband.1, deadband.2)),
        ),
        holds_whole(
            inspection.panel(gravity, deadband, circuit, correlations),
            embedded_panel(inspection.circuit_status.panel(circuit.0, circuit.1)),
        ),
{
    let p = inspection.panel(gravity, deadband, circuit, correlations);
    let head = "+========================================+\n| ROOM INSPECTION: "@
        + crate::text::pad_right(inspection.room_config.room_id@, 22)
        + "|\n+========================================+\n| Ensign: "@
        + crate::text::pad_right(inspection.ensign_status.badge(), 30)
        + "|\n| Gravity: ["@
        + crate::text::pad_left(gravity.0, 6)
        + ", "@
        + crate::text::pad_left(gravity.1, 6)
        + ", "@
        + crate::text::pad_left(gravity.2, 6)
        + "]       |\n+----------------------------------------+\n| Recent Tiles                           |\n"@
        + crate::text::row_section(crate::inspect::tile_lines(inspection.recent_tiles@))
        + "+----------------------------------------+\n| Deadband                               |\n"@;
    let mid = "+----------------------------------------+\n| Circuit                                |\n"@;
    let tail = "+----------------------------------------+\n| Penrose Correlations                   |\n"@
        + crate::text::row_section(
        crate::inspect::correlation_lines(inspection.penrose_correlations@, correlations),
    ) + "+========================================+\n"@;
    let dp = embedded_panel(inspection.deadband_status.panel(deadband.0, deadband.1, deadband.2));
    let cp = embedded_panel(inspection.circuit_status.panel(circuit.0, circuit.1));
    assert(p =~= head + dp + (mid + cp + tail));
    assert(p =~= (head + dp + mid) + cp + tail);
}

/// The inspection panel shows neither the provenance trail nor the room's
/// dimensions, tile capacity or gravity setting: two inspections that differ
/// only there render alike.
pub proof fn inspection_panel_ignores_unshown_fields(
    a: RoomInspection,
    b: RoomInspection,
    gravity: (Seq<char>, Seq<char>, Seq<char>),
    deadband: (Seq<char>, Seq<char>, Seq<char>),
    circuit: (Seq<char>, Seq<char>),
    correlations: Seq<Seq<char>>,
)
    requires
        a.room_config.room_id@ == b.room_config.room_id@,
        a.ensign_status == b.ensign_status,
        a.recent_tiles@ == b.recent_tiles@,
        a.gravity_vector == b.gravity_vector,
        a.deadband_status == b.deadband_status,
        a.circuit_status == b.circuit_status,
        a.penrose_correlations@ == b.penrose_correlations@,
    ensures
        a.panel(gravity, deadband, circuit, correlations) == b.panel(
            gravity,
            deadband,
            circuit,
            correlations,
        ),
{
}

} // verus!
