//! How the listed sections of the dashboard and of the inspection panel grow
//! with what they list: one panel or one row per entry, in order.
use vstd::prelude::*;
use crate::inspect::{correlation_lines, tile_lines, PenroseCorrelation, RoomInspection, Tile};
use crate::laws::holds_whole;
use crate::status::{
    port_panels, provider_panels, room_panels, ConstructStatus, PortStatus, ProviderStatus,
    RoomStatus,
};
use crate::text::{
    decimal, embedded_panel, embedded_panels, framed, pad_left, pad_right, panel_section,
    row_section,
};

verus! {

/// Each room, provider and port of the dashboard gets exactly one panel, in
/// order: room `i` with its `i`-th gravity and deadband texts, provider `i`
/// with its `i`-th budget text.
pub proof fn one_panel_per_entry(
    rooms: Seq<RoomStatus>,
    gravity: Seq<Seq<char>>,
    deadband: Seq<Seq<char>>,
    providers: Seq<ProviderStatus>,
    budgets: Seq<Seq<char>>,
    ports: Seq<PortStatus>,
)
    ensures
        room_panels(rooms, gravity, deadband).len() == rooms.len(),
        forall|i: int|
            0 <= i < rooms.len() ==> #[trigger] room_panels(rooms, gravity, deadband)[i]
                == rooms[i].panel(gravity[i], deadband[i]),
        provider_panels(providers, budgets).len() == providers.len(),
        forall|i: int|
            0 <= i < providers.len() ==> #[trigger] provider_panels(providers, budgets)[i]
                == providers[i].panel(budgets[i]),
        port_panels(ports).len() == ports.len(),
        forall|i: int| 0 <= i < ports.len() ==> #[trigger] port_panels(ports)[i] == ports[i].panel(),
{
}

/// Each correlation of an inspection gets exactly one row, in order:
/// `tile_a <-> tile_b : coefficient` with its `i`-th coefficient text; each
/// tile gets exactly one row too.
pub proof fn one_row_per_entry(
    correlations: Seq<PenroseCorrelation>,
    texts: Seq<Seq<char>>,
    tiles: Seq<Tile>,
)
    ensures
        correlation_lines(correlations, texts).len() == correlations.len(),
        forall|i: int|
            0 <= i < correlations.len() ==> #[trigger] correlation_lines(correlations, texts)[i]
                == correlations[i].tile_a@ + " <-> "@ + correlations[i].tile_b@ + " : "@ + texts[i],
        tile_lines(tiles).len() == tiles.len(),
        forall|i: int| 0 <= i < tiles.len() ==> #[trigger] tile_lines(tiles)[i] == tiles[i].line(),
{
}

/// What a section of embedded panels is before and after one more panel: the
/// earlier panels, then either the `(none)` row (when there were none) or
/// nothing, and after the new panel's embedding.
proof fn panel_section_push(panels: Seq<Seq<char>>, panel: Seq<char>)
    ensures
        panel_section(panels) == embedded_panels(panels) + (if panels.len() == 0 {
            "|  (none)                                |\n"@
        } else {
            Seq::<char>::empty()
        }),
        panel_section(panels.push(panel)) == embedded_panels(panels) + embedded_panel(panel),
{
    assert(panels.push(panel).drop_last() =~= panels);
    if panels.len() == 0 {
        assert(embedded_panels(panels) =~= Seq::<char>::empty());
        assert(panel_section(panels) =~= embedded_panels(panels)
            + "|  (none)                                |\n"@);
    } else {
        assert(panel_section(panels) =~= embedded_panels(panels) + Seq::<char>::empty());
    }
}

/// Adding one provider to a status (with its budget text) adds exactly its
/// embedded panel to the dashboard, after the earlier providers' panels, in
/// place of the `(none)` row if there was no provider before; nothing else of
/// the dashboard changes.
pub proof fn dashboard_adds_one_provider_panel(
    before: ConstructStatus,
    after: ConstructStatus,
    provider: ProviderStatus,
    room_gravity: Seq<Seq<char>>,
    room_deadband: Seq<Seq<char>>,
    budget: Seq<char>,
    spent: Seq<char>,
    filled: nat,
    degradation: Seq<char>,
    provider_budgets: Seq<Seq<char>>,
    provider_budget: Seq<char>,
)
    requires
        provider_budgets.len() == before.providers@.len(),
        after.providers@ == before.providers@.push(provider),
        after.rooms@ == before.rooms@,
        after.conservation == before.conservation,
        after.ports@ == before.ports@,
        after.uptime_seconds == before.uptime_seconds,
        after.total_ticks == before.total_ticks,
    ensures
        exists|x: Seq<char>, y: Seq<char>|
            {
                &&& before.dashboard(
                    room_gravity,
                    room_deadband,
                    budget,
                    spent,
                    filled,
                    degradation,
                    provider_budgets,
                ) == x + (if before.providers@.len() == 0 {
                    "|  (none)                                |\n"@
                } else {
                    Seq::<char>::empty()
                }) + y
                &&& after.dashboard(
                    room_gravity,
                    room_deadband,
                    budget,
                    spent,
                    filled,
                    degradation,
                    provider_budgets.push(provider_budget),
                ) == x + embedded_panel(provider.panel(provider_budget)) + y
            },
{
    let pp = provider_panels(before.providers@, provider_budgets);
    let q = provider.panel(provider_budget);
    assert(provider_panels(after.providers@, provider_budgets.push(provider_budget)) =~= pp.push(
        q,
    ));
    panel_section_push(pp, q);
    let gap = if before.providers@.len() == 0 {
        "|  (none)                                |\n"@
    } else {
        Seq::<char>::empty()
    };
    let cons = before.conservation.panel(budget, spent, filled, degradation);
    let rooms = room_panels(before.rooms@, room_gravity, room_deadband);
    assert(room_panels(after.rooms@, room_gravity, room_deadband) == rooms);
    assert(port_panels(after.ports@) == port_panels(before.ports@));
    let head = "+========================================+\n|     PLATO CONSTRUCT STATUS DASHBOARD   |\n+========================================+\n| Uptime: "@
        + crate::text::pad_left(crate::text::decimal(before.uptime_seconds as nat), 6)
        + "s | Ticks: "@
        + crate::text::pad_left(crate::text::decimal(before.total_ticks as nat), 12)
        + "   |\n+----------------------------------------+\n| ROOMS                                  |\n"@
        + panel_section(rooms)
        + "+----------------------------------------+\n| CONSERVATION                           |\n"@
        + embedded_panel(cons)
        + "+----------------------------------------+\n| PROVIDERS                              |\n"@;
    let tail = "+----------------------------------------+\n| PORTS                                  |\n"@
        + panel_section(port_panels(before.ports@)) + "+========================================+\n"@;
    let x = head + embedded_panels(pp);
    let d1 = before.dashboard(
        room_gravity,
        room_deadband,
        budget,
        spent,
        filled,
        degradation,
        provider_budgets,
    );
    let d2 = after.dashboard(
        room_gravity,
        room_deadband,
        budget,
        spent,
        filled,
        degradation,
        provider_budgets.push(provider_budget),
    );
    assert(d1 =~= x + gap + tail);
    assert(d2 =~= x + embedded_panel(q) + tail);
}

/// What a section of one-line rows is before and after one more row: the
/// earlier rows, then either the `(none)` row (when there were none) or
/// nothing, and after the new row padded to 38 characters inside the frame.
proof fn row_section_push(rows: Seq<Seq<char>>, row: Seq<char>)
    ensures
        row_section(rows) == framed(
            "|  "@,
            rows.map_values(|r: Seq<char>| pad_right(r, 38)),
            "|\n"@,
        ) + (if rows.len() == 0 {
            "|  (none)                                |\n"@
        } else {
            Seq::<char>::empty()
        }),
        row_section(rows.push(row)) == framed(
            "|  "@,
            rows.map_values(|r: Seq<char>| pad_right(r, 38)),
            "|\n"@,
        ) + "|  "@ + pad_right(row, 38) + "|\n"@,
{
    let padded = rows.map_values(|r: Seq<char>| pad_right(r, 38));
    let padded2 = rows.push(row).map_values(|r: Seq<char>| pad_right(r, 38));
    assert(padded2 =~= padded.push(pad_right(row, 38)));
    assert(padded2.drop_last() =~= padded);
    if rows.len() == 0 {
        assert(framed("|  "@, padded, "|\n"@) =~= Seq::<char>::empty());
        assert(row_section(rows) =~= framed("|  "@, padded, "|\n"@)
            + "|  (none)                                |\n"@);
    } else {
        assert(row_section(rows) =~= framed("|  "@, padded, "|\n"@) + Seq::<char>::empty());
    }
}

/// A framed sequence of lines holds each line, framed, whole.
proof fn framed_holds_each(prefix: Seq<char>, ls: Seq<Seq<char>>, suffix: Seq<char>, i: int)
    requires
        0 <= i < ls.len(),
    ensures
        holds_whole(framed(prefix, ls, suffix), prefix + ls[i] + suffix),
    decreases ls.len(),
{
    let rest = ls.drop_last();
    if i == ls.len() - 1 {
        let before = framed(prefix, rest, suffix);
        assert(framed(prefix, ls, suffix) =~= before + (prefix + ls[i] + suffix)
            + Seq::<char>::empty());
    } else {
        framed_holds_each(prefix, rest, suffix, i);
        let (before, after) = choose|before: Seq<char>, after: Seq<char>|
            framed(prefix, rest, suffix) == before + (prefix + rest[i] + suffix) + after;
        let after2 = after + prefix + ls.last() + suffix;
        assert(framed(prefix, ls, suffix) =~= before + (prefix + ls[i] + suffix) + after2);
    }
}

/// The inspection panel around the given tile and correlation rows: the part
/// before the tile rows, the part between the tile rows and the correlation
/// rows, and the closing border.
proof fn inspection_layout(
    inspection: RoomInspection,
    gravity: (Seq<char>, Seq<char>, Seq<char>),
    deadband: (Seq<char>, Seq<char>, Seq<char>),
    circuit: (Seq<char>, Seq<char>),
    correlations: Seq<Seq<char>>,
) -> (parts: (Seq<char>, Seq<char>))
    ensures
        inspection.panel(gravity, deadband, circuit, correlations) == parts.0 + row_section(
            tile_lines(inspection.recent_tiles@),
        ) + parts.1 + row_section(
            correlation_lines(inspection.penrose_correlations@, correlations),
        ) + "+========================================+\n"@,
        parts.0 == inspection_head(inspection, gravity),
        parts.1 == inspection_middle(inspection, deadband, circuit),
{
    let head = inspection_head(inspection, gravity);
    let mid = inspection_middle(inspection, deadband, circuit);
    assert(inspection.panel(gravity, deadband, circuit, correlations) =~= head + row_section(
        tile_lines(inspection.recent_tiles@),
    ) + mid + row_section(correlation_lines(inspection.penrose_correlations@, correlations))
        + "+========================================+\n"@);
    (head, mid)
}

/// The inspection panel up to its tile rows.
spec fn inspection_head(
    inspection: RoomInspection,
    gravity: (Seq<char>, Seq<char>, Seq<char>),
) -> Seq<char> {
    "+========================================+\n| ROOM INSPECTION: "@ + pad_right(
        inspection.room_config.room_id@,
        22,
    ) + "|\n+========================================+\n| Ensign: "@ + pad_right(
        inspection.ensign_status.badge(),
        30,
    ) + "|\n| Gravity: ["@ + pad_left(gravity.0, 6) + ", "@ + pad_left(gravity.1, 6) + ", "@
        + pad_left(gravity.2, 6)
        + "]       |\n+----------------------------------------+\n| Recent Tiles                           |\n"@
}

/// The inspection panel between its tile rows and its correlation rows.
spec fn inspection_middle(
    inspection: RoomInspection,
    deadband: (Seq<char>, Seq<char>, Seq<char>),
    circuit: (Seq<char>, Seq<char>),
) -> Seq<char> {
    "+----------------------------------------+\n| Deadband                               |\n"@
        + embedded_panel(inspection.deadband_status.panel(deadband.0, deadband.1, deadband.2))
        + "+----------------------------------------+\n| Circuit                                |\n"@
        + embedded_panel(inspection.circuit_status.panel(circuit.0, circuit.1))
        + "+----------------------------------------+\n| Penrose Correlations                   |\n"@
}

/// The inspection panel shows every correlation on a row of its own:
/// `tile_a <-> tile_b : coefficient`, padded to 38 characters inside the frame.
pub proof fn inspection_shows_every_correlation(
    inspection: RoomInspection,
    gravity: (Seq<char>, Seq<char>, Seq<char>),
    deadband: (Seq<char>, Seq<char>, Seq<char>),
    circuit: (Seq<char>, Seq<char>),
    correlations: Seq<Seq<char>>,
)
    requires
        correlations.len() == inspection.penrose_correlations@.len(),
    ensures
        forall|k: int|
            0 <= k < correlations.len() ==> holds_whole(
                inspection.panel(gravity, deadband, circuit, correlations),
                "|  "@ + pad_right(
                    (#[trigger] inspection.penrose_correlations@[k]).tile_a@ + " <-> "@
                        + inspection.penrose_correlations@[k].tile_b@ + " : "@ + correlations[k],
                    38,
                ) + "|\n"@,
            ),
{
    let (head, mid) = inspection_layout(inspection, gravity, deadband, circuit, correlations);
    let tiles = row_section(tile_lines(inspection.recent_tiles@));
    let ls = correlation_lines(inspection.penrose_correlations@, correlations);
    let padded = ls.map_values(|r: Seq<char>| pad_right(r, 38));
    let p = inspection.panel(gravity, deadband, circuit, correlations);
    assert forall|k: int| 0 <= k < correlations.len() implies holds_whole(
        p,
        "|  "@ + pad_right(
            (#[trigger] inspection.penrose_correlations@[k]).tile_a@ + " <-> "@
                + inspection.penrose_correlations@[k].tile_b@ + " : "@ + correlations[k],
            38,
        ) + "|\n"@,
    ) by {
        assert(ls.len() > 0);
        assert(row_section(ls) == framed("|  "@, padded, "|\n"@));
        framed_holds_each("|  "@, padded, "|\n"@, k);
        let (b, a) = choose|b: Seq<char>, a: Seq<char>|
            framed("|  "@, padded, "|\n"@) == b + ("|  "@ + padded[k] + "|\n"@) + a;
        assert(p =~= (head + tiles + mid + b) + ("|  "@ + padded[k] + "|\n"@) + (a
            + "+========================================+\n"@));
    }
}

/// Adding one correlation to an inspection (with its coefficient text) adds
/// exactly its row to the inspection panel, after the earlier correlations'
/// rows, in place of the `(none)` row if there was no correlation before;
/// nothing else of the panel changes.
pub proof fn inspection_adds_one_correlation_row(
    before: RoomInspection,
    after: RoomInspection,
    correlation: PenroseCorrelation,
    gravity: (Seq<char>, Seq<char>, Seq<char>),
    deadband: (Seq<char>, Seq<char>, Seq<char>),
    circuit: (Seq<char>, Seq<char>),
    correlations: Seq<Seq<char>>,
    coefficient: Seq<char>,
)
    requires
        correlations.len() == before.penrose_correlations@.len(),
        after.penrose_correlations@ == before.penrose_correlations@.push(correlation),
        after.room_config.room_id@ == before.room_config.room_id@,
        after.ensign_status == before.ensign_status,
        after.recent_tiles@ == before.recent_tiles@,
        after.deadband_status == before.deadband_status,
        after.circuit_status == before.circuit_status,
    ensures
        exists|x: Seq<char>, y: Seq<char>|
            {
                &&& before.panel(gravity, deadband, circuit, correlations) == x + (if correlations.len()
                    == 0 {
                    "|  (none)                                |\n"@
                } else {
                    Seq::<char>::empty()
                }) + y
                &&& after.panel(gravity, deadband, circuit, correlations.push(coefficient)) == x
                    + ("|  "@ + pad_right(
                    correlation.tile_a@ + " <-> "@ + correlation.tile_b@ + " : "@ + coefficient,
                    38,
                ) + "|\n"@) + y
            },
{
    let (head1, mid1) = inspection_layout(before, gravity, deadband, circuit, correlations);
    let (head2, mid2) = inspection_layout(
        after,
        gravity,
        deadband,
        circuit,
        correlations.push(coefficient),
    );
    assert(head1 == head2);
    assert(mid1 == mid2);
    let ls = correlation_lines(before.penrose_correlations@, correlations);
    let row = correlation.tile_a@ + " <-> "@ + correlation.tile_b@ + " : "@ + coefficient;
    assert(correlation_lines(after.penrose_correlations@, correlations.push(coefficient)) =~= ls.push(
        row,
    ));
    row_section_push(ls, row);
    let tiles = row_section(tile_lines(before.recent_tiles@));
    assert(tiles == row_section(tile_lines(after.recent_tiles@)));
    let x = head1 + tiles + mid1 + framed(
        "|  "@,
        ls.map_values(|r: Seq<char>| pad_right(r, 38)),
        "|\n"@,
    );
    let y = "+========================================+\n"@;
    let gap = if correlations.len() == 0 {
        "|  (none)                                |\n"@
    } else {
        Seq::<char>::empty()
    };
    assert(before.panel(gravity, deadband, circuit, correlations) =~= x + gap + y);
    assert(after.panel(gravity, deadband, circuit, correlations.push(coefficient)) =~= x + (
    "|  "@ + pad_right(row, 38) + "|\n"@) + y);
}

/// The dashboard's first lines, up to and with the `ROOMS` header.
spec fn dashboard_head(status: ConstructStatus) -> Seq<char> {
    "+========================================+\n|     PLATO CONSTRUCT STATUS DASHBOARD   |\n+========================================+\n| Uptime: "@
        + pad_left(decimal(status.uptime_seconds as nat), 6) + "s | Ticks: "@ + pad_left(
        decimal(status.total_ticks as nat),
        12,
    ) + "   |\n+----------------------------------------+\n| ROOMS                                  |\n"@
}

/// The dashboard around its three listed sections.
proof fn dashboard_layout(
    status: ConstructStatus,
    room_ps: Seq<Seq<char>>,
    cons_panel: Seq<char>,
    prov_ps: Seq<Seq<char>>,
)
    ensures
        status.dashboard_of_panels(room_ps, cons_panel, prov_ps) == dashboard_head(status)
            + panel_section(room_ps)
            + ("+----------------------------------------+\n| CONSERVATION                           |\n"@
            + embedded_panel(cons_panel)
            + "+----------------------------------------+\n| PROVIDERS                              |\n"@)
            + panel_section(prov_ps)
            + "+----------------------------------------+\n| PORTS                                  |\n"@
            + panel_section(port_panels(status.ports@)) + "+========================================+\n"@,
{
    assert(status.dashboard_of_panels(room_ps, cons_panel, prov_ps) =~= dashboard_head(status)
        + panel_section(room_ps)
        + ("+----------------------------------------+\n| CONSERVATION                           |\n"@
        + embedded_panel(cons_panel)
        + "+----------------------------------------+\n| PROVIDERS                              |\n"@)
        + panel_section(prov_ps)
        + "+----------------------------------------+\n| PORTS                                  |\n"@
        + panel_section(port_panels(status.ports@)) + "+========================================+\n"@);
}

/// Adding one room to a status (with its gravity and deadband texts) adds
/// exactly its embedded panel to the dashboard, after the earlier rooms'
/// panels, in place of the `(none)` row if there was no room before; nothing
/// else of the dashboard changes.
pub proof fn dashboard_adds_one_room_panel(
    before: ConstructStatus,
    after: ConstructStatus,
    room: RoomStatus,
    room_gravity: Seq<Seq<char>>,
    room_deadband: Seq<Seq<char>>,
    gravity: Seq<char>,
    deadband: Seq<char>,
    budget: Seq<char>,
    spent: Seq<char>,
    filled: nat,
    degradation: Seq<char>,
    provider_budgets: Seq<Seq<char>>,
)
    requires
        room_gravity.len() == before.rooms@.len(),
        room_deadband.len() == before.rooms@.len(),
        after.rooms@ == before.rooms@.push(room),
        after.conservation == before.conservation,
        after.providers@ == before.providers@,
        after.ports@ == before.ports@,
        after.uptime_seconds == before.uptime_seconds,
        after.total_ticks == before.total_ticks,
    ensures
        exists|x: Seq<char>, y: Seq<char>|
            {
                &&& before.dashboard(
                    room_gravity,
                    room_deadband,
                    budget,
                    spent,
                    filled,
                    degradation,
                    provider_budgets,
                ) == x + (if before.rooms@.len() == 0 {
                    "|  (none)                                |\n"@
                } else {
                    Seq::<char>::empty()
                }) + y
                &&& after.dashboard(
                    room_gravity.push(gravity),
                    room_deadband.push(deadband),
                    budget,
                    spent,
                    filled,
                    degradation,
                    provider_budgets,
                ) == x + embedded_panel(room.panel(gravity, deadband)) + y
            },
{
    let rp = room_panels(before.rooms@, room_gravity, room_deadband);
    let q = room.panel(gravity, deadband);
    assert(room_panels(after.rooms@, room_gravity.push(gravity), room_deadband.push(deadband))
        =~= rp.push(q));
    panel_section_push(rp, q);
    let gap = if before.rooms@.len() == 0 {
        "|  (none)                                |\n"@
    } else {
        Seq::<char>::empty()
    };
    let cons = before.conservation.panel(budget, spent, filled, degradation);
    let pp = provider_panels(before.providers@, provider_budgets);
    assert(provider_panels(after.providers@, provider_budgets) == pp);
    assert(port_panels(after.ports@) == port_panels(before.ports@));
    assert(dashboard_head(after) == dashboard_head(before));
    dashboard_layout(before, rp, cons, pp);
    dashboard_layout(after, rp.push(q), cons, pp);
    let mid = "+----------------------------------------+\n| CONSERVATION                           |\n"@
        + embedded_panel(cons)
        + "+----------------------------------------+\n| PROVIDERS                              |\n"@;
    let x = dashboard_head(before) + embedded_panels(rp);
    let y = mid + panel_section(pp)
        + "+----------------------------------------+\n| PORTS                                  |\n"@
        + panel_section(port_panels(before.ports@)) + "+========================================+\n"@;
    assert(before.dashboard(
        room_gravity,
        room_deadband,
        budget,
        spent,
        filled,
        degradation,
        provider_budgets,
    ) =~= x + gap + y);
    assert(after.dashboard(
        room_gravity.push(gravity),
        room_deadband.push(deadband),
        budget,
        spent,
        filled,
        degradation,
        provider_budgets,
    ) =~= x + embedded_panel(q) + y);
}

/// Adding one port to a status adds exactly its embedded panel to the
/// dashboard, after the earlier ports' panels, in place of the `(none)` row if
/// there was no port before; nothing else of the dashboard changes.
pub proof fn dashboard_adds_one_port_panel(
    before: ConstructStatus,
    after: ConstructStatus,
    port: PortStatus,
    room_gravity: Seq<Seq<char>>,
    room_deadband: Seq<Seq<char>>,
    budget: Seq<char>,
    spent: Seq<char>,
    filled: nat,
    degradation: Seq<char>,
    provider_budgets: Seq<Seq<char>>,
)
    requires
        after.ports@ == before.ports@.push(port),
        after.rooms@ == before.rooms@,
        after.conservation == before.conservation,
        after.providers@ == before.providers@,
        after.uptime_seconds == before.uptime_seconds,
        after.total_ticks == before.total_ticks,
    ensures
        exists|x: Seq<char>, y: Seq<char>|
            {
                &&& before.dashboard(
                    room_gravity,
                    room_deadband,
                    budget,
                    spent,
                    filled,
                    degradation,
                    provider_budgets,
                ) == x + (if before.ports@.len() == 0 {
                    "|  (none)                                |\n"@
                } else {
                    Seq::<char>::empty()
                }) + y
                &&& after.dashboard(
                    room_gravity,
                    room_deadband,
                    budget,
                    spent,
                    filled,
                    degradation,
                    provider_budgets,
                ) == x + embedded_panel(port.panel()) + y
            },
{
    let tp = port_panels(before.ports@);
    let q = port.panel();
    assert(port_panels(after.ports@) =~= tp.push(q));
    panel_section_push(tp, q);
    let gap = if before.ports@.len() == 0 {
        "|  (none)                                |\n"@
    } else {
        Seq::<char>::empty()
    };
    let cons = before.conservation.panel(budget, spent, filled, degradation);
    let rp = room_panels(before.rooms@, room_gravity, room_deadband);
    let pp = provider_panels(before.providers@, provider_budgets);
    assert(room_panels(after.rooms@, room_gravity, room_deadband) == rp);
    assert(provider_panels(after.providers@, provider_budgets) == pp);
    assert(dashboard_head(after) == dashboard_head(before));
    dashboard_layout(before, rp, cons, pp);
    dashboard_layout(after, rp, cons, pp);
    let mid = "+----------------------------------------+\n| CONSERVATION                           |\n"@
        + embedded_panel(cons)
        + "+----------------------------------------+\n| PROVIDERS                              |\n"@;
    let x = dashboard_head(before) + panel_section(rp) + mid + panel_section(pp)
        + "+----------------------------------------+\n| PORTS                                  |\n"@
        + embedded_panels(tp);
    let y = "+========================================+\n"@;
    assert(before.dashboard(
        room_gravity,
        room_deadband,
        budget,
        spent,
        filled,
        degradation,
        provider_budgets,
    ) =~= x + gap + y);
    assert(after.dashboard(
        room_gravity,
        room_deadband,
        budget,
        spent,
        filled,
        degradation,
        provider_budgets,
    ) =~= x + embedded_panel(q) + y);
}

/// The dashboard shows the uptime in seconds and the tick count on its
/// `Uptime` line.
pub proof fn dashboard_shows_uptime_and_ticks(
    status: ConstructStatus,
    room_ps: Seq<Seq<char>>,
    cons_panel: Seq<char>,
    prov_ps: Seq<Seq<char>>,
)
    ensures
        holds_whole(
            status.dashboard_of_panels(room_ps, cons_panel, prov_ps),
            "| Uptime: "@ + pad_left(decimal(status.uptime_seconds as nat), 6) + "s | Ticks: "@
                + pad_left(decimal(status.total_ticks as nat), 12) + "   |\n"@,
        ),
{
    reveal_strlit(
        "+========================================+\n|     PLATO CONSTRUCT STATUS DASHBOARD   |\n+========================================+\n| Uptime: ",
    );
    reveal_strlit(
        "+========================================+\n|     PLATO CONSTRUCT STATUS DASHBOARD   |\n+========================================+\n",
    );
    reveal_strlit("| Uptime: ");
    reveal_strlit(
        "   |\n+----------------------------------------+\n| ROOMS                                  |\n",
    );
    reveal_strlit("   |\n");
    reveal_strlit("+----------------------------------------+\n| ROOMS                                  |\n");
    let top =
        "+========================================+\n|     PLATO CONSTRUCT STATUS DASHBOARD   |\n+========================================+\n"@;
    let line = "| Uptime: "@ + pad_left(decimal(status.uptime_seconds as nat), 6) + "s | Ticks: "@
        + pad_left(decimal(status.total_ticks as nat), 12) + "   |\n"@;
    let rest = "+----------------------------------------+\n| ROOMS                                  |\n"@
        + panel_section(room_ps)
        + ("+----------------------------------------+\n| CONSERVATION                           |\n"@
        + embedded_panel(cons_panel)
        + "+----------------------------------------+\n| PROVIDERS                              |\n"@)
        + panel_section(prov_ps)
        + "+----------------------------------------+\n| PORTS                                  |\n"@
        + panel_section(port_panels(status.ports@)) + "+========================================+\n"@;
    dashboard_layout(status, room_ps, cons_panel, prov_ps);
    assert(dashboard_head(status) =~= top + line
        + "+----------------------------------------+\n| ROOMS                                  |\n"@);
    assert(status.dashboard_of_panels(room_ps, cons_panel, prov_ps) =~= top + line + rest);
}

/// Adding one tile to an inspection adds exactly its row to the inspection
/// panel, after the earlier tiles' rows, in place of the `(none)` row if there
/// was no tile before; nothing else of the panel changes.
pub proof fn inspection_adds_one_tile_row(
    before: RoomInspection,
    after: RoomInspection,
    tile: Tile,
    gravity: (Seq<char>, Seq<char>, Seq<char>),
    deadband: (Seq<char>, Seq<char>, Seq<char>),
    circuit: (Seq<char>, Seq<char>),
    correlations: Seq<Seq<char>>,
)
    requires
        after.recent_tiles@ == before.recent_tiles@.push(tile),
        after.room_config.room_id@ == before.room_config.room_id@,
        after.ensign_status == before.ensign_status,
        after.deadband_status == before.deadband_status,
        after.circuit_status == before.circuit_status,
        after.penrose_correlations@ == before.penrose_correlations@,
    ensures
        exists|x: Seq<char>, y: Seq<char>|
            {
                &&& before.panel(gravity, deadband, circuit, correlations) == x + (
                if before.recent_tiles@.len() == 0 {
                    "|  (none)                                |\n"@
                } else {
                    Seq::<char>::empty()
                }) + y
                &&& after.panel(gravity, deadband, circuit, correlations) == x + ("|  "@
                    + pad_right(tile.line(), 38) + "|\n"@) + y
            },
{
    let (head1, mid1) = inspection_layout(before, gravity, deadband, circuit, correlations);
    let (head2, mid2) = inspection_layout(after, gravity, deadband, circuit, correlations);
    assert(head1 == head2);
    assert(mid1 == mid2);
    let ls = tile_lines(before.recent_tiles@);
    assert(tile_lines(after.recent_tiles@) =~= ls.push(tile.line()));
    row_section_push(ls, tile.line());
    let cs = row_section(correlation_lines(before.penrose_correlations@, correlations));
    assert(cs == row_section(correlation_lines(after.penrose_correlations@, correlations)));
    let x = head1 + framed("|  "@, ls.map_values(|r: Seq<char>| pad_right(r, 38)), "|\n"@);
    let y = mid1 + cs + "+========================================+\n"@;
    let gap = if before.recent_tiles@.len() == 0 {
        "|  (none)                                |\n"@
    } else {
        Seq::<char>::empty()
    };
    assert(before.panel(gravity, deadband, circuit, correlations) =~= x + gap + y);
    assert(after.panel(gravity, deadband, circuit, correlations) =~= x + ("|  "@ + pad_right(
        tile.line(),
        38,
    ) + "|\n"@) + y);
}

/// The inspection panel's first part, line by line.
proof fn inspection_head_lines(inspection: RoomInspection, gravity: (Seq<char>, Seq<char>, Seq<char>))
    ensures
        inspection_head(inspection, gravity) == "+========================================+\n"@ + (
        "| ROOM INSPECTION: "@ + pad_right(inspection.room_config.room_id@, 22) + "|\n"@)
            + "+========================================+\n"@ + ("| Ensign: "@ + pad_right(
            inspection.ensign_status.badge(),
            30,
        ) + "|\n"@) + ("| Gravity: ["@ + pad_left(gravity.0, 6) + ", "@ + pad_left(gravity.1, 6)
            + ", "@ + pad_left(gravity.2, 6) + "]       |\n"@)
            + "+----------------------------------------+\n| Recent Tiles                           |\n"@,
{
    let border = "+========================================+\n"@;
    let tiles_head = "+----------------------------------------+\n| Recent Tiles                           |\n"@;
    assert("+========================================+\n| ROOM INSPECTION: "@ =~= border
        + "| ROOM INSPECTION: "@) by {
        reveal_strlit("+========================================+\n| ROOM INSPECTION: ");
        reveal_strlit("+========================================+\n");
        reveal_strlit("| ROOM INSPECTION: ");
    }
    assert("|\n+========================================+\n| Ensign: "@ =~= "|\n"@ + border
        + "| Ensign: "@) by {
        reveal_strlit("|\n+========================================+\n| Ensign: ");
        reveal_strlit("+========================================+\n");
        reveal_strlit("|\n");
        reveal_strlit("| Ensign: ");
    }
    assert("|\n| Gravity: ["@ =~= "|\n"@ + "| Gravity: ["@) by {
        reveal_strlit("|\n| Gravity: [");
        reveal_strlit("|\n");
        reveal_strlit("| Gravity: [");
    }
    assert("]       |\n+----------------------------------------+\n| Recent Tiles                           |\n"@
        =~= "]       |\n"@ + tiles_head) by {
        reveal_strlit(
            "]       |\n+----------------------------------------+\n| Recent Tiles                           |\n",
        );
        reveal_strlit("]       |\n");
        reveal_strlit(
            "+----------------------------------------+\n| Recent Tiles                           |\n",
        );
    }
    regroup_head(
        border,
        "| ROOM INSPECTION: "@,
        pad_right(inspection.room_config.room_id@, 22),
        "|\n"@,
        "| Ensign: "@,
        pad_right(inspection.ensign_status.badge(), 30),
        "| Gravity: ["@,
        pad_left(gravity.0, 6),
        ", "@,
        pad_left(gravity.1, 6),
        pad_left(gravity.2, 6),
        "]       |\n"@,
        tiles_head,
    );
}

/// Regrouping the pieces of the inspection panel's first part into its lines.
proof fn regroup_head(
    b: Seq<char>,
    ri: Seq<char>,
    id: Seq<char>,
    nl: Seq<char>,
    e: Seq<char>,
    badge: Seq<char>,
    g: Seq<char>,
    g0: Seq<char>,
    c: Seq<char>,
    g1: Seq<char>,
    g2: Seq<char>,
    r: Seq<char>,
    th: Seq<char>,
)
    ensures
        (b + ri) + id + (nl + b + e) + badge + (nl + g) + g0 + c + g1 + c + g2 + (r + th) == b + (ri
            + id + nl) + b + (e + badge + nl) + (g + g0 + c + g1 + c + g2 + r) + th,
{
    assert((b + ri) + id + (nl + b + e) + badge + (nl + g) + g0 + c + g1 + c + g2 + (r + th) =~= b
        + (ri + id + nl) + b + (e + badge + nl) + (g + g0 + c + g1 + c + g2 + r) + th);
}

/// The inspection panel shows the room's id, its ensign's badge and the three
/// gravity components in order, each on its own labelled line.
pub proof fn inspection_header_lines(
    inspection: RoomInspection,
    gravity: (Seq<char>, Seq<char>, Seq<char>),
    deadband: (Seq<char>, Seq<char>, Seq<char>),
    circuit: (Seq<char>, Seq<char>),
    correlations: Seq<Seq<char>>,
)
    ensures
        holds_whole(
            inspection.panel(gravity, deadband, circuit, correlations),
            "| ROOM INSPECTION: "@ + pad_right(inspection.room_config.room_id@, 22) + "|\n"@,
        ),
        holds_whole(
            inspection.panel(gravity, deadband, circuit, correlations),
            "| Ensign: "@ + pad_right(inspection.ensign_status.badge(), 30) + "|\n"@,
        ),
        holds_whole(
            inspection.panel(gravity, deadband, circuit, correlations),
            "| Gravity: ["@ + pad_left(gravity.0, 6) + ", "@ + pad_left(gravity.1, 6) + ", "@
                + pad_left(gravity.2, 6) + "]       |\n"@,
        ),
{
    let (head, mid) = inspection_layout(inspection, gravity, deadband, circuit, correlations);
    inspection_head_lines(inspection, gravity);
    let border = "+========================================+\n"@;
    let tiles_head = "+----------------------------------------+\n| Recent Tiles                           |\n"@;
    let l0 = "| ROOM INSPECTION: "@ + pad_right(inspection.room_config.room_id@, 22) + "|\n"@;
    let l1 = "| Ensign: "@ + pad_right(inspection.ensign_status.badge(), 30) + "|\n"@;
    let l2 = "| Gravity: ["@ + pad_left(gravity.0, 6) + ", "@ + pad_left(gravity.1, 6) + ", "@
        + pad_left(gravity.2, 6) + "]       |\n"@;
    let rest = row_section(tile_lines(inspection.recent_tiles@)) + mid + row_section(
        correlation_lines(inspection.penrose_correlations@, correlations),
    ) + "+========================================+\n"@;
    let p = inspection.panel(gravity, deadband, circuit, correlations);
    assert(p =~= head + rest);
    assert(p =~= border + l0 + (border + l1 + l2 + tiles_head + rest));
    assert(p =~= (border + l0 + border) + l1 + (l2 + tiles_head + rest));
    assert(p =~= (border + l0 + border + l1) + l2 + (tiles_head + rest));
}

} // verus!
