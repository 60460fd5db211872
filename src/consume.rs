use vstd::prelude::*;
use crate::document::Document;
use crate::envelope::{decode, envelope_error, reads_as, BloodbankEvent, DecodeError};

verus! {

/// What one pull from the subscription produced.
#[derive(Debug)]
pub enum Delivery {
    /// A message whose body was read as a document.
    Message(Document),
    /// A message whose body is not UTF-8 text holding one well-formed document.
    Unreadable,
    /// The subscription's stream reported an error.
    Failed,
    /// The subscription's stream ended.
    Ended,
}

/// Where the consume loop stands.
#[derive(Clone, Copy, Debug, PartialEq, Eq, Structural)]
pub enum LoopPhase {
    Running,
    /// Told to stop by a disconnect.
    Cancelled,
    /// Stopped on its own: the stream ended or failed.
    Finished,
}

/// Why the loop stops.
#[derive(Clone, Copy, Debug, PartialEq, Eq, Structural)]
pub enum StopReason {
    /// A disconnect cancelled it: no lifecycle signal follows.
    Cancelled,
    /// The stream ended: the sink hears that the bridge disconnected.
    Ended,
    /// The stream failed: logged, and the sink hears that the bridge
    /// disconnected.
    Failed,
}

/// What the loop does with one delivery.
#[derive(Debug)]
pub enum Step {
    /// Hand the event to the sink, then acknowledge the message.
    Deliver(BloodbankEvent),
    /// Log the failure and acknowledge the message: it is dropped, not
    /// redelivered.
    Discard(DecodeError),
    /// Leave the loop without touching the message.
    Stop(StopReason),
}

/// The message is acknowledged after this step.
pub open spec fn acknowledges(s: Step) -> bool {
    !(s is Stop)
}

pub open spec fn next_phase(p: LoopPhase, d: Delivery) -> LoopPhase {
    match p {
        LoopPhase::Running => match d {
            Delivery::Failed => LoopPhase::Finished,
            Delivery::Ended => LoopPhase::Finished,
            _ => LoopPhase::Running,
        },
        _ => p,
    }
}

/// The delivery reaches the sink as an event.
pub open spec fn delivers(p: LoopPhase, d: Delivery) -> bool {
    &&& p == LoopPhase::Running
    &&& d matches Delivery::Message(doc) && envelope_error(doc) is None
}

/// The phase after handling each of `ds` in turn.
pub open spec fn phase_after(p: LoopPhase, ds: Seq<Delivery>) -> LoopPhase
    decreases ds.len(),
{
    if ds.len() == 0 {
        p
    } else {
        phase_after(next_phase(p, ds[0]), ds.drop_first())
    }
}

/// A delivery that carries a message, readable or not.
pub open spec fn is_message(d: Delivery) -> bool {
    d is Message || d is Unreadable
}

/// The consume loop's state, shared between the task that pulls deliveries
/// and the controller that may cancel it.
pub struct ConsumeLoop {
    phase: LoopPhase,
}

impl ConsumeLoop {
    pub closed spec fn spec_phase(&self) -> LoopPhase {
        self.phase
    }

    pub fn new() -> (r: Self)
        ensures
            r.spec_phase() == LoopPhase::Running,
    {
        ConsumeLoop { phase: LoopPhase::Running }
    }

    pub fn phase(&self) -> (r: LoopPhase)
        ensures
            r == self.spec_phase(),
    {
        self.phase
    }

    /// Asks the loop to stop before its next delivery. A loop that already
    /// finished stays finished.
    pub fn cancel(&mut self)
        ensures
            final(self).spec_phase() == (if old(self).spec_phase() == LoopPhase::Finished {
                LoopPhase::Finished
            } else {
                LoopPhase::Cancelled
            }),
    {
        if self.phase == LoopPhase::Running {
            self.phase = LoopPhase::Cancelled;
        }
    }

    /// Decides what to do with one delivery. A running loop decodes each
    /// message: an envelope goes to the sink, anything else is discarded with
    /// the reason, and either way the loop keeps running. An error or the end
    /// of the stream finishes it. A loop that is not running hands nothing on.
    pub fn step(&mut self, d: Delivery) -> (r: Step)
        ensures
            final(self).spec_phase() == next_phase(old(self).spec_phase(), d),
            r is Deliver <==> delivers(old(self).spec_phase(), d),
            r matches Step::Deliver(e) ==> d matches Delivery::Message(doc) && reads_as(doc, e),
            r matches Step::Discard(x) ==> old(self).spec_phase() == LoopPhase::Running && match d {
                Delivery::Message(doc) => envelope_error(doc) == Some(x),
                Delivery::Unreadable => x == DecodeError::Malformed,
                _ => false,
            },
            r matches Step::Stop(reason) ==> match old(self).spec_phase() {
                LoopPhase::Running => (d is Failed && reason == StopReason::Failed) || (d is Ended
                    && reason == StopReason::Ended),
                LoopPhase::Cancelled => reason == StopReason::Cancelled,
                LoopPhase::Finished => reason == StopReason::Ended,
            },
            acknowledges(r) <==> old(self).spec_phase() == LoopPhase::Running && is_message(d),
    {
        match self.phase {
            LoopPhase::Cancelled => Step::Stop(StopReason::Cancelled),
            LoopPhase::Finished => Step::Stop(StopReason::Ended),
            LoopPhase::Running => match d {
                Delivery::Message(doc) => match decode(doc) {
                    Ok(e) => Step::Deliver(e),
                    Err(x) => Step::Discard(x),
                },
                Delivery::Unreadable => Step::Discard(DecodeError::Malformed),
                Delivery::Failed => {
                    self.phase = LoopPhase::Finished;
                    Step::Stop(StopReason::Failed)
                },
                Delivery::Ended => {
                    self.phase = LoopPhase::Finished;
                    Step::Stop(StopReason::Ended)
                },
            },
        }
    }
}

/// A message that does not decode leaves a running loop running, and every
/// later message that is an envelope still reaches the sink, as long as the
/// stream neither fails nor ends in between.
pub proof fn lemma_failures_do_not_stop_delivery(ds: Seq<Delivery>, i: int)
    requires
        0 <= i < ds.len(),
        forall|j: int| 0 <= j < i ==> is_message(#[trigger] ds[j]),
        ds[i] matches Delivery::Message(doc) && envelope_error(doc) is None,
    ensures
        phase_after(LoopPhase::Running, ds.take(i)) == LoopPhase::Running,
        delivers(phase_after(LoopPhase::Running, ds.take(i)), ds[i]),
    decreases i,
{
    if i > 0 {
        let rest = ds.drop_first();
        assert forall|j: int| 0 <= j < i - 1 implies is_message(#[trigger] rest[j]) by {
            assert(rest[j] == ds[j + 1]);
        }
        lemma_failures_do_not_stop_delivery(rest, i - 1);
        assert(ds.take(i).drop_first() =~= rest.take(i - 1));
        assert(is_message(ds[0]));
    }
}

/// Once cancelled, the loop stays cancelled and hands no further delivery
/// to the sink, whatever the transport still had buffered.
pub proof fn lemma_no_delivery_after_cancel(ds: Seq<Delivery>)
    ensures
        phase_after(LoopPhase::Cancelled, ds) == LoopPhase::Cancelled,
        forall|i: int| 0 <= i < ds.len() ==> !delivers(
            #[trigger] phase_after(LoopPhase::Cancelled, ds.take(i)),
            ds[i],
        ),
    decreases ds.len(),
{
    lemma_cancelled_stays(ds);
    assert forall|i: int| 0 <= i < ds.len() implies !delivers(
        #[trigger] phase_after(LoopPhase::Cancelled, ds.take(i)),
        ds[i],
    ) by {
        lemma_cancelled_stays(ds.take(i));
    }
}

proof fn lemma_cancelled_stays(ds: Seq<Delivery>)
    ensures
        phase_after(LoopPhase::Cancelled, ds) == LoopPhase::Cancelled,
    decreases ds.len(),
{
    if ds.len() > 0 {
        lemma_cancelled_stays(ds.drop_first());
    }
}

} // verus!
