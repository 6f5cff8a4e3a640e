//! The four dial-out modes and the decision that all of them make for each
//! received message.
//!
//! - `normal`: gRPC 2-layer dial-out (stream of DialoutMsg)
//! - `gpb_v3`: gRPC 3-layer dial-out (GPB/Telemetry)
//! - `gnmi`: gNMI dial-out (Publish)
//! - `udp`: UDP 2-layer dial-out

use vstd::prelude::*;

pub mod gnmi;
pub mod gpb_v3;
pub mod normal;
pub mod udp;

verus! {

/// A line of output and whether it reports an error.
#[derive(Debug, Clone)]
pub struct Report {
    pub is_error: bool,
    pub text: String,
}

/// What a handler does with its `count`-th message.
#[derive(Debug, Clone, Copy, PartialEq, Eq)]
pub enum MessageAction {
    /// Performance mode: only count; report the count on every 1000th message.
    Count { report: bool },
    /// Print the message as received.
    Original,
    /// Decode and print the message's content.
    Parse,
}

/// The action for the `count`-th message: performance mode wins over
/// original mode, which wins over parsing.
pub open spec fn spec_message_action(performance_mode: bool, orignal: bool, count: u64) -> MessageAction {
    if performance_mode {
        MessageAction::Count { report: count % 1000 == 0 }
    } else if orignal {
        MessageAction::Original
    } else {
        MessageAction::Parse
    }
}

/// Decide what to do with the `count`-th message of a stream.
pub fn message_action(performance_mode: bool, orignal: bool, count: u64) -> (a: MessageAction)
    ensures
        a == spec_message_action(performance_mode, orignal, count),
{
    if performance_mode {
        MessageAction::Count { report: count % 1000 == 0 }
    } else if orignal {
        MessageAction::Original
    } else {
        MessageAction::Parse
    }
}

} // verus!
