//! The request dispatcher.
//!
//! One function takes the shared brightness state and one decoded request,
//! mutates the state as the request asks, and says what the surrounding
//! program must now do: answer with the current value, or run the restart
//! cycle with freshly derived arguments. The web layer and the process
//! spawning stay outside; they hand plain values in and carry the computed
//! argument text out.

use vstd::prelude::*;

use crate::brightness::{
    Brightness, POINT_UNITS, BASE_UNITS, MIN_UNITS, clamped, light_level, blend_factor,
};
use crate::format::{scaled_decimal, scaled_string};

verus! {

/// How far one `/brighter` or `/darker` request moves the value: 5 points.
pub const STEP_UNITS: i64 = 500_000;

/// One HTTP request, after the web layer has decoded its path and query.
pub enum Request {
    /// `/get`: report the current value.
    Get,
    /// `/set?brightness=..`: store the given value, in stored units.
    SetValue(i64),
    /// `/brighter`: move the value up one step.
    Brighter,
    /// `/darker`: move the value down one step.
    Darker,
}

/// The arguments of one restart cycle: the level for the one-shot
/// backlight invocation and the blend factor for the daemon, each both as
/// a number and as the exact text to place on the command line.
pub struct RestartPlan {
    /// Backlight level, in hundred-thousandths of a point.
    pub light_units: i64,
    /// Blend factor, in ten-millionths of one.
    pub blend: i64,
    /// `light_units` as decimal text, in points.
    pub light_arg: String,
    /// `blend` as decimal text, as a factor of one.
    pub blend_arg: String,
}

/// The plan `p` carries exactly the signals derived from a stored value
/// `v`, and their exact decimal renderings.
pub open spec fn plan_matches(p: RestartPlan, v: int) -> bool {
    &&& p.light_units as int == light_level(v)
    &&& p.blend as int == blend_factor(v)
    &&& p.light_arg@ == scaled_decimal(p.light_units as nat, POINT_UNITS as nat, 5)
    &&& p.blend_arg@ == scaled_decimal(p.blend as nat, BASE_UNITS as nat, 7)
}

/// What the surrounding program must do after one request.
pub enum Action {
    /// Send this text back; nothing external runs.
    Reply(String),
    /// Run the restart cycle with these arguments, then send an empty
    /// reply.
    Restart(RestartPlan),
}

/// Derives both control signals from the current value and renders their
/// command-line text.
pub fn restart_plan(b: &Brightness) -> (p: RestartPlan)
    requires
        b.wf(),
    ensures
        plan_matches(p, b.units_spec()),
{
    let light = b.to_light();
    let blend = b.to_redshift();
    RestartPlan {
        light_units: light,
        blend: blend,
        light_arg: scaled_string(light as u64, POINT_UNITS as u64, 5),
        blend_arg: scaled_string(blend as u64, BASE_UNITS as u64, 7),
    }
}

/// Applies one request to the shared state and returns what to do next:
/// `/get` leaves the value alone and replies with its decimal text; the
/// three mutating requests clamp the value into range and demand a
/// restart cycle with the signals derived from the new value.
pub fn handle(b: &mut Brightness, req: Request) -> (a: Action)
    requires
        old(b).wf(),
    ensures
        final(b).wf(),
        match req {
            Request::Get => {
                &&& final(b).units_spec() == old(b).units_spec()
                &&& a matches Action::Reply(body) && body@ == scaled_decimal(
                    old(b).units_spec() as nat,
                    POINT_UNITS as nat,
                    5,
                )
            },
            Request::SetValue(units) => {
                &&& final(b).units_spec() == clamped(units as int)
                &&& a matches Action::Restart(p) && plan_matches(p, final(b).units_spec())
            },
            Request::Brighter => {
                &&& final(b).units_spec() == clamped(old(b).units_spec() + STEP_UNITS as int)
                &&& a matches Action::Restart(p) && plan_matches(p, final(b).units_spec())
            },
            Request::Darker => {
                &&& final(b).units_spec() == clamped(old(b).units_spec() - STEP_UNITS as int)
                &&& a matches Action::Restart(p) && plan_matches(p, final(b).units_spec())
            },
        },
{
    match req {
        Request::Get => {
            let units = b.value_units();
            proof {
                assert(units >= MIN_UNITS);
            }
            Action::Reply(scaled_string(units as u64, POINT_UNITS as u64, 5))
        },
        Request::SetValue(units) => {
            b.set(units);
            Action::Restart(restart_plan(b))
        },
        Request::Brighter => {
            b.change(STEP_UNITS);
            Action::Restart(restart_plan(b))
        },
        Request::Darker => {
            b.change(-STEP_UNITS);
            Action::Restart(restart_plan(b))
        },
    }
}

} // verus!
