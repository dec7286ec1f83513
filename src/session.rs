use vstd::prelude::*;
use crate::pump::{Direction, PumpError};
use crate::relay::Relay;

verus! {

/// What a session has to report to the log.
#[derive(Debug)]
pub enum Report {
    /// A pump ended well after copying `count` bytes in `direction`.
    Transferred { direction: Direction, count: usize },
    /// A pump in `direction` ended in error.
    TransferFailed { direction: Direction, error: PumpError },
    /// The upstream connection could not be opened; no pump ran.
    UpstreamUnreachable { detail: String },
}

/// The report on one pump's outcome: failures always, byte counts only in
/// verbose mode.
pub open spec fn report_of(direction: Direction, outcome: Result<usize, PumpError>, verbose: bool) -> Option<Report> {
    match outcome {
        Ok(count) => if verbose {
            Some(Report::Transferred { direction, count })
        } else {
            None
        },
        Err(error) => Some(Report::TransferFailed { direction, error }),
    }
}

pub open spec fn option_seq(r: Option<Report>) -> Seq<Report> {
    match r {
        Some(x) => seq![x],
        None => Seq::empty(),
    }
}

/// The reports on a finished pair, client to upstream first.
pub open spec fn reports_of(
    to_upstream: Result<usize, PumpError>,
    to_client: Result<usize, PumpError>,
    verbose: bool,
) -> Seq<Report> {
    option_seq(report_of(Direction::ClientToUpstream, to_upstream, verbose)) + option_seq(
        report_of(Direction::UpstreamToClient, to_client, verbose),
    )
}

/// Starts a session once the upstream connection attempt has resolved: on
/// success, a fresh pump pair; on failure (the target did not resolve or
/// did not accept), the session is abandoned with a report and no pump runs.
pub fn open_session(upstream: Result<(), String>) -> (r: Result<Relay, Report>)
    ensures
        upstream is Ok <==> r is Ok,
        r matches Ok(relay) ==> {
            &&& relay.wf()
            &&& !relay.cancelled()
            &&& relay.pump(Direction::ClientToUpstream).is_fresh(Direction::ClientToUpstream)
            &&& relay.pump(Direction::UpstreamToClient).is_fresh(Direction::UpstreamToClient)
        },
        upstream matches Err(detail) ==> r == Err::<Relay, Report>(
            Report::UpstreamUnreachable { detail },
        ),
{
    match upstream {
        Ok(()) => Ok(Relay::new()),
        Err(detail) => Err(Report::UpstreamUnreachable { detail }),
    }
}

/// The report on one pump's outcome: a failure is always reported, with
/// its direction and error; a byte count only in verbose mode.
pub fn pump_report(direction: Direction, outcome: Result<usize, PumpError>, verbose: bool) -> (r:
    Option<Report>)
    ensures
        r == report_of(direction, outcome, verbose),
{
    match outcome {
        Ok(count) => if verbose {
            Some(Report::Transferred { direction, count })
        } else {
            None
        },
        Err(error) => Some(Report::TransferFailed { direction, error }),
    }
}

/// Ends a session whose two pumps have both ended, with the reports on
/// their outcomes, client to upstream first.
pub fn close_session(relay: Relay, verbose: bool) -> (r: Vec<Report>)
    requires
        relay.is_done(),
    ensures
        r@ == reports_of(
            relay.pump(Direction::ClientToUpstream).phase()->Done_0,
            relay.pump(Direction::UpstreamToClient).phase()->Done_0,
            verbose,
        ),
{
    let (to_upstream, to_client) = relay.into_outcomes();
    let ghost a = to_upstream;
    let ghost b = to_client;
    let mut r: Vec<Report> = Vec::new();
    if let Some(x) = pump_report(Direction::ClientToUpstream, to_upstream, verbose) {
        r.push(x);
    }
    if let Some(x) = pump_report(Direction::UpstreamToClient, to_client, verbose) {
        r.push(x);
    }
    assert(r@ =~= reports_of(a, b, verbose));
    r
}

} // verus!
