//! Debug tools: message traces and the conservation check.
use vstd::prelude::*;
use crate::bits::{real_eq, same_real};
use crate::text::{
    decimal, pad_left, pad_right, push_decimal_pad_left, push_pad_left, push_pad_right,
};

verus! {

/// A single step in a message trace.
///
/// The energy cost is held as the bit pattern of an `f64` value.
#[derive(Debug)]
pub struct TraceStep {
    /// Timestamp of the step.
    pub timestamp: u64,
    /// Agent that performed the action.
    pub agent: String,
    /// Action performed.
    pub action: String,
    /// Duration in milliseconds.
    pub duration_ms: u64,
    /// Energy cost of the step (bits of an `f64`).
    pub energy_cost: u64,
}

impl TraceStep {
    /// The two steps have equal fields, the energy cost compared as `f64`.
    pub open spec fn same_as(&self, other: &Self) -> bool {
        &&& self.timestamp == other.timestamp
        &&& self.agent@ == other.agent@
        &&& self.action@ == other.action@
        &&& self.duration_ms == other.duration_ms
        &&& same_real(self.energy_cost, other.energy_cost)
    }
}

impl PartialEq for TraceStep {
    fn eq(&self, other: &Self) -> (r: bool) {
        self.timestamp == other.timestamp && self.agent == other.agent && self.action
            == other.action && self.duration_ms == other.duration_ms && real_eq(
            self.energy_cost,
            other.energy_cost,
        )
    }
}

impl vstd::std_specs::cmp::PartialEqSpecImpl for TraceStep {
    open spec fn obeys_eq_spec() -> bool {
        true
    }

    open spec fn eq_spec(&self, other: &Self) -> bool {
        self.same_as(other)
    }
}

impl Clone for TraceStep {
    fn clone(&self) -> (r: Self)
        ensures
            r == *self,
    {
        TraceStep {
            timestamp: self.timestamp,
            agent: self.agent.clone(),
            action: self.action.clone(),
            duration_ms: self.duration_ms,
            energy_cost: self.energy_cost,
        }
    }
}

impl TraceStep {
    /// The line, given the energy cost written with two decimals.
    pub open spec fn line(self, energy: Seq<char>) -> Seq<char> {
        "["@ + pad_left(decimal(self.timestamp as nat), 8) + "] "@ + pad_right(self.agent@, 12)
            + " "@ + pad_right(self.action@, 16) + " "@ + pad_left(
            decimal(self.duration_ms as nat),
            4,
        ) + "ms "@ + pad_left(energy, 6) + "J"@
    }

    /// Renders `[timestamp] agent action Nms X.XXJ`, the energy cost already
    /// written with two decimals.
    pub fn render_with(&self, energy: &str) -> (r: String)
        ensures
            r@ == self.line(energy@),
    {
        let mut out = String::new();
        out.append("[");
        push_decimal_pad_left(&mut out, self.timestamp, 8);
        out.append("] ");
        push_pad_right(&mut out, self.agent.as_str(), 12);
        out.append(" ");
        push_pad_right(&mut out, self.action.as_str(), 16);
        out.append(" ");
        push_decimal_pad_left(&mut out, self.duration_ms, 4);
        out.append("ms ");
        push_pad_left(&mut out, energy, 6);
        out.append("J");
        out
    }
}

/// Report from a conservation law verification.
///
/// Real-valued quantities are held as the bit patterns of `f64` values.
#[derive(Debug, Clone, Copy)]
pub struct ConservationReport {
    /// Whether the conservation law holds within tolerance.
    pub law_holds: bool,
    /// Total energy in (bits of an `f64`).
    pub total_in: u64,
    /// Total energy out (bits of an `f64`).
    pub total_out: u64,
    /// Measured discrepancy (bits of an `f64`).
    pub discrepancy: u64,
    /// Allowed tolerance (bits of an `f64`).
    pub tolerance: u64,
}

impl ConservationReport {
    /// The two reports have equal fields, real values compared as `f64`.
    pub open spec fn same_as(&self, other: &Self) -> bool {
        &&& self.law_holds == other.law_holds
        &&& same_real(self.total_in, other.total_in)
        &&& same_real(self.total_out, other.total_out)
        &&& same_real(self.discrepancy, other.discrepancy)
        &&& same_real(self.tolerance, other.tolerance)
    }
}

impl PartialEq for ConservationReport {
    fn eq(&self, other: &Self) -> (r: bool) {
        self.law_holds == other.law_holds && real_eq(self.total_in, other.total_in) && real_eq(
            self.total_out,
            other.total_out,
        ) && real_eq(self.discrepancy, other.discrepancy) && real_eq(
            self.tolerance,
            other.tolerance,
        )
    }
}

impl vstd::std_specs::cmp::PartialEqSpecImpl for ConservationReport {
    open spec fn obeys_eq_spec() -> bool {
        true
    }

    open spec fn eq_spec(&self, other: &Self) -> bool {
        self.same_as(other)
    }
}

impl ConservationReport {
    /// The verdict word of the panel.
    pub open spec fn verdict(self) -> Seq<char> {
        if self.law_holds { "PASS"@ } else { "FAIL"@ }
    }

    /// The panel, given the energies written with four decimals and the
    /// discrepancy and tolerance written with six.
    pub open spec fn panel(
        self,
        total_in: Seq<char>,
        total_out: Seq<char>,
        discrepancy: Seq<char>,
        tolerance: Seq<char>,
    ) -> Seq<char> {
        "+------------------------------+\n| CONSERVATION REPORT: "@
            + pad_right(self.verdict(), 9)
            + " |\n| Total In:  "@
            + pad_right(total_in, 18)
            + " |\n| Total Out: "@
            + pad_right(total_out, 18)
            + " |\n| Discrepancy: "@
            + pad_right(discrepancy, 16)
            + " |\n| Tolerance: "@
            + pad_right(tolerance, 18)
            + " |\n+------------------------------+"@
    }

    /// Renders the report panel from the written forms of its real values.
    pub fn render_with(
        &self,
        total_in: &str,
        total_out: &str,
        discrepancy: &str,
        tolerance: &str,
    ) -> (r: String)
        ensures
            r@ == self.panel(total_in@, total_out@, discrepancy@, tolerance@),
    {
        let verdict = if self.law_holds { "PASS" } else { "FAIL" };
        let mut out = String::new();
        out.append("+------------------------------+\n| CONSERVATION REPORT: ");
        push_pad_right(&mut out, verdict, 9);
        out.append(" |\n| Total In:  ");
        push_pad_right(&mut out, total_in, 18);
        out.append(" |\n| Total Out: ");
        push_pad_right(&mut out, total_out, 18);
        out.append(" |\n| Discrepancy: ");
        push_pad_right(&mut out, discrepancy, 16);
        out.append(" |\n| Tolerance: ");
        push_pad_right(&mut out, tolerance, 18);
        out.append(" |\n+------------------------------+");
        out
    }
}

/// Bits of the `f64` 0.1, the energy cost of routing a message.
pub const ROUTE_ENERGY_BITS: u64 = 0x3fb9_9999_9999_999a;

/// Bits of the `f64` 0.5, the energy cost of transforming a message.
pub const TRANSFORM_ENERGY_BITS: u64 = 0x3fe0_0000_0000_0000;

/// Bits of the `f64` 0.05, the energy cost of dispatching a message.
pub const DISPATCH_ENERGY_BITS: u64 = 0x3fa9_9999_9999_999a;

/// Bits of the `f64` 1000.0, the energy taken in.
pub const ENERGY_IN_BITS: u64 = 0x408f_4000_0000_0000;

/// Bits of the `f64` 999.999, the energy given out.
pub const ENERGY_OUT_BITS: u64 = 0x408f_3ffd_f3b6_45a2;

/// Bits of the `f64` 0.001, the measured discrepancy.
pub const DISCREPANCY_BITS: u64 = 0x3f50_624d_d2f1_a9fc;

/// Bits of the `f64` 0.01, the allowed tolerance.
pub const TOLERANCE_BITS: u64 = 0x3f84_7ae1_47ae_147b;

/// `step` is the step with the given fields.
pub open spec fn is_step(
    step: TraceStep,
    timestamp: u64,
    agent: Seq<char>,
    action: Seq<char>,
    duration_ms: u64,
    energy_cost: u64,
) -> bool {
    &&& step.timestamp == timestamp
    &&& step.agent@ == agent
    &&& step.action@ == action
    &&& step.duration_ms == duration_ms
    &&& step.energy_cost == energy_cost
}

/// Debug tools for the construct.
#[derive(Debug, Clone, Copy)]
pub struct ConstructDebug;

impl ConstructDebug {
    /// Create a new debug toolkit.
    pub fn new() -> (r: Self)
        ensures
            r == ConstructDebug,
    {
        ConstructDebug
    }

    /// Trace a message through the system: no step for an empty message
    /// identifier, otherwise router, processor and emitter in turn.
    pub fn trace_message(&self, msg_id: &str) -> (r: Vec<TraceStep>)
        ensures
            msg_id@.len() == 0 ==> r@.len() == 0,
            msg_id@.len() > 0 ==> {
                &&& r@.len() == 3
                &&& is_step(r@[0], 1000, "router"@, "receive"@, 5, ROUTE_ENERGY_BITS)
                &&& is_step(r@[1], 1001, "processor"@, "transform"@, 12, TRANSFORM_ENERGY_BITS)
                &&& is_step(r@[2], 1002, "emitter"@, "dispatch"@, 3, DISPATCH_ENERGY_BITS)
            },
    {
        if msg_id.is_empty() {
            return Vec::new();
        }
        let mut r: Vec<TraceStep> = Vec::new();
        r.push(
            TraceStep {
                timestamp: 1000,
                agent: String::from_str("router"),
                action: String::from_str("receive"),
                duration_ms: 5,
                energy_cost: ROUTE_ENERGY_BITS,
            },
        );
        r.push(
            TraceStep {
                timestamp: 1001,
                agent: String::from_str("processor"),
                action: String::from_str("transform"),
                duration_ms: 12,
                energy_cost: TRANSFORM_ENERGY_BITS,
            },
        );
        r.push(
            TraceStep {
                timestamp: 1002,
                agent: String::from_str("emitter"),
                action: String::from_str("dispatch"),
                duration_ms: 3,
                energy_cost: DISPATCH_ENERGY_BITS,
            },
        );
        r
    }

    /// Verify conservation laws.
    pub fn verify_conservation(&self) -> (r: ConservationReport)
        ensures
            r == (ConservationReport {
                law_holds: true,
                total_in: ENERGY_IN_BITS,
                total_out: ENERGY_OUT_BITS,
                discrepancy: DISCREPANCY_BITS,
                tolerance: TOLERANCE_BITS,
            }),
    {
        ConservationReport {
            law_holds: true,
            total_in: ENERGY_IN_BITS,
            total_out: ENERGY_OUT_BITS,
            discrepancy: DISCREPANCY_BITS,
            tolerance: TOLERANCE_BITS,
        }
    }
}

impl Default for ConstructDebug {
    fn default() -> (r: Self)
        ensures
            r == ConstructDebug,
    {
        ConstructDebug
    }
}

} // verus!
