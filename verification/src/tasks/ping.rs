//! The keep-alive ping: three tries, shared between sending the PINGREQ and
//! waiting for the PINGRESP, each try bounded by a timeout that the caller
//! keeps.
use crate::tasks::hub_data::HubMsg;
use vstd::prelude::*;

verus! {

/// Where a ping stands: sending, with the tries left; waiting, with the
/// tries left; or over.
#[derive(Debug, Clone, Copy, PartialEq, Eq, Structural)]
pub enum PingPhase {
    Sending(u8),
    Waiting(u8),
    Done,
}

/// What the ping tells the hub.
#[derive(Debug, Clone, Copy, PartialEq, Eq, Structural)]
pub enum PingReport {
    Success,
    Fail,
}

/// The phase a ping starts in: sending, with three tries.
pub fn ping_start() -> (r: PingPhase)
    ensures
        r == PingPhase::Sending(3),
{
    PingPhase::Sending(3)
}

/// One try of the ping and its outcome (`ok`: the PINGREQ went out, or the
/// PINGRESP came, in time). A sent PINGREQ leads to waiting with the tries
/// left; a failed try uses one up, and failing the last send reports a
/// failure. A PINGRESP reports success. Running out of tries while waiting,
/// or with none left to wait, reports a failure.
pub fn ping_step(phase: PingPhase, ok: bool) -> (r: (PingPhase, Vec<PingReport>))
    ensures
        match phase {
            PingPhase::Sending(left) => if ok {
                if left > 0 {
                    r.0 == PingPhase::Waiting(left) && r.1@.len() == 0
                } else {
                    r.0 == PingPhase::Done && r.1@ == seq![PingReport::Fail]
                }
            } else if left <= 1 {
                r.0 == PingPhase::Done && r.1@ == seq![PingReport::Fail, PingReport::Fail]
            } else {
                r.0 == PingPhase::Sending((left - 1) as u8) && r.1@.len() == 0
            },
            PingPhase::Waiting(left) => if ok && left > 0 {
                r.0 == PingPhase::Done && r.1@ == seq![PingReport::Success]
            } else if left <= 1 {
                r.0 == PingPhase::Done && r.1@ == seq![PingReport::Fail]
            } else {
                r.0 == PingPhase::Waiting((left - 1) as u8) && r.1@.len() == 0
            },
            PingPhase::Done => r.0 == PingPhase::Done && r.1@.len() == 0,
        },
{
    match phase {
        PingPhase::Sending(left) => {
            if ok {
                if left > 0 {
                    (PingPhase::Waiting(left), Vec::new())
                } else {
                    (PingPhase::Done, vec![PingReport::Fail])
                }
            } else if left <= 1 {
                (PingPhase::Done, vec![PingReport::Fail, PingReport::Fail])
            } else {
                (PingPhase::Sending(left - 1), Vec::new())
            }
        },
        PingPhase::Waiting(left) => {
            if ok && left > 0 {
                (PingPhase::Done, vec![PingReport::Success])
            } else if left <= 1 {
                (PingPhase::Done, vec![PingReport::Fail])
            } else {
                (PingPhase::Waiting(left - 1), Vec::new())
            }
        },
        PingPhase::Done => (PingPhase::Done, Vec::new()),
    }
}

/// The hub message that a ping report is.
pub fn ping_report_msg(report: PingReport) -> (r: HubMsg)
    ensures
        match report {
            PingReport::Success => r is PingSuccess,
            PingReport::Fail => r is PingFail,
        },
{
    match report {
        PingReport::Success => HubMsg::PingSuccess,
        PingReport::Fail => HubMsg::PingFail,
    }
}

} // verus!
