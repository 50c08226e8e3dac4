//! The end-of-stream probe: an inspection point on the sink's input that
//! watches what flows by and tells the session's observer when the stream
//! has ended.

use crate::handle::{guard_mut, WeakRef};
use crate::registry::PipelineObserver;
use vstd::prelude::*;

verus! {

/// The kinds of control event that travel through the graph.
#[derive(Clone, Copy, Debug, PartialEq, Eq, Structural)]
pub enum EventKind {
    FlushStart,
    FlushStop,
    StreamStart,
    Caps,
    Segment,
    Tag,
    Gap,
    /// No further data will come on this path.
    Eos,
    Other,
}

/// What passes the probe's point in the graph.
#[derive(Clone, Copy, Debug, PartialEq, Eq, Structural)]
pub enum ProbeData {
    Buffer,
    BufferList,
    Query,
    Event(EventKind),
}

/// What the probe tells the runtime to do with what it has just seen.
#[derive(Clone, Copy, Debug, PartialEq, Eq, Structural)]
pub enum PadProbeReturn {
    /// Discard the item.
    Discard,
    /// Let the item travel on and keep the probe in place.
    Proceed,
    /// Let the item travel on and take the probe away.
    Remove,
    /// Let the item travel on, skipping the probes that follow.
    Pass,
    /// The probe has dealt with the item itself.
    Handled,
}

/// Whether `data` is the end-of-stream control event.
pub open spec fn signals_eos(data: ProbeData) -> bool {
    data == ProbeData::Event(EventKind::Eos)
}

/// Whether `data` is the end-of-stream control event.
pub fn is_eos(data: ProbeData) -> (eos: bool)
    ensures
        eos == signals_eos(data),
{
    match data {
        ProbeData::Event(EventKind::Eos) => true,
        _ => false,
    }
}

/// One step of the probe, for session `ssrc`, with the observer as it was
/// found: `None` where its owner is gone.
///
/// An end-of-stream event is reported to the observer that is still there;
/// anything else leaves the observer alone. Without an observer nothing is
/// done. In every case the item travels on unchanged.
pub fn notify<O: PipelineObserver>(data: ProbeData, ssrc: u32, observer: Option<&mut O>) -> (verdict:
    PadProbeReturn)
    ensures
        verdict == PadProbeReturn::Proceed,
        observer is Some ==> if signals_eos(data) {
            O::eos_effect(*(observer->0), ssrc, *final(observer->0))
        } else {
            *final(observer->0) == *(observer->0)
        },
{
    match observer {
        Some(o) => {
            if is_eos(data) {
                o.on_eos(ssrc);
            }
        },
        None => {},
    }
    PadProbeReturn::Proceed
}

/// The probe of one session. It holds no more than a weak reference to the
/// observer, so it never keeps the observer's owner alive.
#[verifier::reject_recursive_types(O)]
pub struct EosProbe<O> {
    observer: WeakRef<O>,
    ssrc: u32,
}

impl<O: PipelineObserver> EosProbe<O> {
    /// The session that the probe reports for.
    pub closed spec fn session(&self) -> u32 {
        self.ssrc
    }

    /// The observer that the probe reports to.
    pub closed spec fn observer(&self) -> WeakRef<O> {
        self.observer
    }

    /// A probe that reports the end of session `ssrc` to `observer`.
    pub fn new(observer: WeakRef<O>, ssrc: u32) -> (probe: EosProbe<O>)
        ensures
            probe.session() == ssrc,
            probe.observer() == observer,
    {
        EosProbe { observer, ssrc }
    }

    /// The session that the probe reports for.
    pub fn ssrc(&self) -> (ssrc: u32)
        ensures
            ssrc == self.session(),
    {
        self.ssrc
    }

    /// One step of the probe, with the observer as it was found: `None`
    /// where its owner is gone.
    ///
    /// An end-of-stream event is reported to the observer that is still
    /// there, as the end of the probe's own session; anything else leaves
    /// the observer alone. Without an observer nothing is done. In every
    /// case the item travels on unchanged.
    pub fn report(&self, data: ProbeData, observer: Option<&mut O>) -> (verdict: PadProbeReturn)
        ensures
            verdict == PadProbeReturn::Proceed,
            observer is Some ==> if signals_eos(data) {
                O::eos_effect(*(observer->0), self.session(), *final(observer->0))
            } else {
                *final(observer->0) == *(observer->0)
            },
    {
        notify(data, self.ssrc, observer)
    }

    /// Looks at one item that passes the probe's point. It runs on the
    /// thread that carries the item.
    ///
    /// On end-of-stream the observer is looked up; where its owner still
    /// lives, the observer is handed to [`EosProbe::report`] under its lock,
    /// before this returns. Where the owner is gone the notification is
    /// dropped. The item always travels on.
    pub fn inspect(&self, data: ProbeData) -> (verdict: PadProbeReturn)
        ensures
            verdict == PadProbeReturn::Proceed,
    {
        if !is_eos(data) {
            return self.report(data, None);
        }
        match self.observer.upgrade() {
            Some(owner) => {
                let mut guard = owner.lock();
                self.report(data, Some(guard_mut(&mut guard)))
            },
            None => self.report(data, None),
        }
    }
}

} // verus!
