//! The interface between a monitor and its alerting channels.

pub mod pagerduty;
pub mod postgresql;
pub mod slack;
pub mod splunk;
pub mod template;
pub mod util;

use crate::db::bytes_view;
use crate::monitor::{MonitorResult, MonitorResultView};
use vstd::prelude::*;

verus! {

/// What a monitor told a reporter, or handed to it.
pub enum Heard {
    /// A result to report.
    Reported(MonitorResultView),
    /// A result with which the alert is to be cleared.
    Cleared(MonitorResultView),
    /// A state to take back.
    Loaded(Seq<u8>),
}

/// An alerting channel. A monitor tells it of a run to report and of an alert
/// to clear, and carries its private state across restarts as opaque bytes.
/// Delivery is best effort: a monitor learns nothing from either call.
///
/// The two spec functions are the record by which a monitor's contracts
/// say what was asked of a reporter. Their bodies here say nothing; an
/// implementation in verified code gives its own.
pub trait Reporter: Send + Sync {
    /// Everything the reporter was told and handed so far, oldest first.
    open spec fn heard(&self) -> Seq<Heard> {
        arbitrary()
    }

    /// The state that the reporter hands out when asked now.
    open spec fn snapshot(&self) -> Option<Seq<u8>> {
        arbitrary()
    }

    /// Delivers the result of a run.
    fn report(&mut self, result: &MonitorResult)
        ensures
            final(self).heard() == old(self).heard().push(Heard::Reported(result@)),
    ;

    /// Withdraws an alert raised earlier.
    fn clear(&mut self, result: &MonitorResult)
        ensures
            final(self).heard() == old(self).heard().push(Heard::Cleared(result@)),
    ;

    /// The state to keep across a restart; `None` when there is nothing to keep.
    fn get_state(&self) -> (state: Option<Vec<u8>>)
        ensures
            bytes_view(state) == self.snapshot(),
    ;

    /// Takes back a state that `get_state` handed out before a restart.
    fn load_state(&mut self, state: Vec<u8>)
        ensures
            final(self).heard() == old(self).heard().push(Heard::Loaded(state@)),
    ;
}

} // verus!
