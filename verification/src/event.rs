//! The events that flow from the appender facade to the worker.

use vstd::prelude::*;

verus! {

/// One entry of the appender's queue: either an encoded log record, or the
/// signal that tells the worker to stop.
pub enum AsyncEvent {
    /// An encoded log record, produced by the caller-side encoder.
    Log(Vec<u8>),
    /// The teardown signal; the worker stops as soon as it reads it.
    Terminate,
}

impl AsyncEvent {
    /// True of a `Log` event.
    pub open spec fn is_log(self) -> bool {
        matches!(self, AsyncEvent::Log(_))
    }

    /// The payload of a `Log` event.
    pub open spec fn payload(self) -> Seq<u8>
        recommends
            self.is_log(),
    {
        match self {
            AsyncEvent::Log(msg) => msg@,
            AsyncEvent::Terminate => Seq::empty(),
        }
    }
}

} // verus!
