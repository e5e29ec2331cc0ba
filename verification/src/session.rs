//! What to do when the chat platform reports that the connection stands.

use vstd::prelude::*;

verus! {

/// The step to take on a report that the connection stands.
#[derive(Clone, Copy, Debug, PartialEq, Eq, Structural)]
pub enum ReadyAction {
    /// The first report: mark the session connected, announce the start and
    /// register the commands.
    Start,
    /// A later report, after a reconnect: nothing is to be set up again.
    Resume,
}

/// The step to take on a report that the connection stands, given whether
/// the session was marked connected before.
pub fn on_ready(connected: bool) -> (action: ReadyAction)
    ensures
        action == if connected {
            ReadyAction::Resume
        } else {
            ReadyAction::Start
        },
{
    if connected {
        ReadyAction::Resume
    } else {
        ReadyAction::Start
    }
}

} // verus!
