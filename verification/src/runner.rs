//! The queues between the single-threaded core and whoever runs it: the
//! command queue the actors feed the data engine through, and the event
//! queue external I/O funnels results back in through.

use vstd::prelude::*;
use crate::market::Data;
use crate::messages::DataCommand;
use crate::responses::DataResponse;
use crate::uuid4::Uuid4;

verus! {

/// An inbound event for the data subsystem.
pub enum DataEvent {
    Data(Data),
    Response(DataResponse),
}

/// A timer firing, dispatched to the component that registered it.
pub struct TimeEvent {
    pub name: String,
    pub event_id: Uuid4,
    pub ts_event: u64,
    pub ts_init: u64,
}

/// An event the run loop pumps: either inbound data or a timer firing.
pub enum RunnerEvent {
    Data(DataEvent),
    Timer(TimeEvent),
}

/// A sink for inbound data events.
pub trait DataQueue {
    /// Appends an event; nothing is ever dropped.
    fn push(&mut self, event: DataEvent);
}

/// The synchronous event queue of a single-threaded (backtest) run.
pub struct SyncDataQueue {
    pub events: Vec<DataEvent>,
}

impl SyncDataQueue {
    /// An empty queue.
    pub fn new() -> (r: Self)
        ensures
            r.events@.len() == 0,
    {
        SyncDataQueue { events: Vec::new() }
    }

    /// Removes and returns the oldest event, if any.
    pub fn pop_next(&mut self) -> (r: Option<DataEvent>)
        ensures
            match r {
                Some(e) => old(self).events@.len() > 0 && e == old(self).events@[0]
                    && final(self).events@ == old(self).events@.drop_first(),
                None => old(self).events@.len() == 0 && *final(self) == *old(self),
            },
    {
        if self.events.len() == 0 {
            return None;
        }
        let e = self.events.remove(0);
        proof {
            assert(self.events@ =~= old(self).events@.drop_first());
        }
        Some(e)
    }
}

impl DataQueue for SyncDataQueue {
    fn push(&mut self, event: DataEvent) {
        self.events.push(event);
    }
}

/// The queue of commands awaiting the data engine.
pub struct DataCommandQueue {
    pub commands: Vec<DataCommand>,
}

impl DataCommandQueue {
    /// An empty queue.
    pub fn new() -> (r: Self)
        ensures
            r.commands@.len() == 0,
    {
        DataCommandQueue { commands: Vec::new() }
    }

    /// Appends a command for the engine.
    pub fn push(&mut self, command: DataCommand)
        ensures
            final(self).commands@ == old(self).commands@.push(command),
    {
        self.commands.push(command);
    }

    /// Removes and returns the oldest command, if any.
    pub fn pop_next(&mut self) -> (r: Option<DataCommand>)
        ensures
            match r {
                Some(c) => old(self).commands@.len() > 0 && c == old(self).commands@[0]
                    && final(self).commands@ == old(self).commands@.drop_first(),
                None => old(self).commands@.len() == 0 && *final(self) == *old(self),
            },
    {
        if self.commands.len() == 0 {
            return None;
        }
        let c = self.commands.remove(0);
        proof {
            assert(self.commands@ =~= old(self).commands@.drop_first());
        }
        Some(c)
    }
}

} // verus!
