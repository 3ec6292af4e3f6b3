use vstd::prelude::*;

use crate::event::Event;

verus! {

/// A message of the dispatch queue. Produced by any producer task, consumed
/// only by the loop; a payload is moved once and never mutated afterwards.
#[derive(Debug, Clone, Copy, PartialEq, Eq, Structural)]
pub enum Msg {
    /// A hardware event relayed by the SDK callback.
    InkviewEvent(Event),
    /// The periodic tick of the network keepalive ticker.
    WifiKeepAlive,
    /// An RPC request asked the daemon to print its status locally.
    PrintStatus,
    /// Terminal message: the loop exits.
    Quit,
}

impl Msg {
    /// The message's name as it appears in the loop's log line.
    pub open spec fn label_spec(self) -> Seq<char> {
        match self {
            Msg::InkviewEvent(_) => "InkviewEvent"@,
            Msg::WifiKeepAlive => "WifiKeepAlive"@,
            Msg::PrintStatus => "PrintStatus"@,
            Msg::Quit => "Quit"@,
        }
    }

    /// The message's name as it appears in the loop's log line.
    pub fn label(&self) -> (r: &'static str)
        ensures
            r@ == self.label_spec(),
    {
        match self {
            Msg::InkviewEvent(_) => "InkviewEvent",
            Msg::WifiKeepAlive => "WifiKeepAlive",
            Msg::PrintStatus => "PrintStatus",
            Msg::Quit => "Quit",
        }
    }

    /// Messages on which the loop terminates.
    pub open spec fn is_terminal(self) -> bool {
        self == Msg::Quit || self == Msg::InkviewEvent(Event::Exit)
    }
}

} // verus!
