//! What the reader of the adapter's output does with each message: a
//! readiness signal makes a starting process ready, a reply takes its
//! command out of flight, and every message is passed on.

use crate::envelope::{envelope_of, error_text, is_error_report, is_ready_signal, Envelope, EnvelopeView};
use crate::failure::Failure;
use crate::supervisor::{
    after_ready, after_release, inv, is_starting, waiter_of, State, Supervisor,
};
use crate::text::{chars_of, lines, lines_of, lossy_text, string_of, texts, utf8_lossy};
use crate::wire::{json_parse, parse_value};
use vstd::prelude::*;

verus! {

/// What became of one message from the adapter.
pub struct Delivery<W> {
    /// The message, to be passed on to whoever listens.
    pub message: serde_json::Value,
    /// Whether the message made the process ready.
    pub became_ready: bool,
    /// The waiter of the command that the message replies to, if it
    /// replies to one in flight: the message is owed to it.
    pub waiter: Option<W>,
}

/// The state after a message with this envelope from the process with this
/// number.
pub open spec fn after_message<W>(s: State<W>, generation: u64, envelope: EnvelopeView) -> State<
    W,
> {
    let signalled = if is_ready_signal(envelope) {
        after_ready(s, generation)
    } else {
        s
    };
    match envelope.id {
        Some(id) => after_release(signalled, id),
        None => signalled,
    }
}

/// Whether a message with this envelope from the process with this number
/// makes the process ready.
pub open spec fn makes_ready<W>(s: State<W>, generation: u64, envelope: EnvelopeView) -> bool {
    is_ready_signal(envelope) && is_starting(s, generation)
}

/// The waiter that a message with this envelope is owed to.
pub open spec fn addressee<W>(s: State<W>, envelope: EnvelopeView) -> Option<W> {
    match envelope.id {
        Some(id) => waiter_of(s, id),
        None => None,
    }
}

/// The state after a line of the output of the process with this number: a
/// line that is not JSON changes nothing.
pub open spec fn after_line<W>(s: State<W>, generation: u64, line: Seq<char>) -> State<W> {
    match json_parse(line) {
        Some(value) => after_message(s, generation, envelope_of(value)),
        None => s,
    }
}

/// What becomes of a line of the output of the process with this number:
/// nothing where it is not JSON.
pub open spec fn delivery_of<W>(s: State<W>, generation: u64, line: Seq<char>) -> Option<
    Delivery<W>,
> {
    match json_parse(line) {
        Some(value) => Some(
            Delivery {
                message: value,
                became_ready: makes_ready(s, generation, envelope_of(value)),
                waiter: addressee(s, envelope_of(value)),
            },
        ),
        None => None,
    }
}

/// The state after lines of the output of the process with this number, the
/// first one first.
pub open spec fn after_lines<W>(s: State<W>, generation: u64, lines: Seq<Seq<char>>) -> State<W>
    decreases lines.len(),
{
    if lines.len() == 0 {
        s
    } else {
        after_line(after_lines(s, generation, lines.drop_last()), generation, lines.last())
    }
}

/// What becomes of lines of the output of the process with this number: one
/// delivery for each line that is JSON, in the order of the lines.
pub open spec fn deliveries_of<W>(s: State<W>, generation: u64, lines: Seq<Seq<char>>) -> Seq<
    Delivery<W>,
>
    decreases lines.len(),
{
    if lines.len() == 0 {
        Seq::empty()
    } else {
        let earlier = deliveries_of(s, generation, lines.drop_last());
        match delivery_of(
            after_lines(s, generation, lines.drop_last()),
            generation,
            lines.last(),
        ) {
            Some(delivery) => earlier.push(delivery),
            None => earlier,
        }
    }
}

impl<W> Supervisor<W> {
    /// Takes in a message with this envelope from the process with this
    /// number: a readiness signal makes the process ready if it is the one
    /// that is starting, and a reply takes its command out of flight.
    /// Answers whether the process became ready, and hands out the waiter
    /// that the message is owed to.
    pub fn accept(&mut self, generation: u64, envelope: &Envelope) -> (outcome: (bool, Option<W>))
        ensures
            final(self)@ == after_message(old(self)@, generation, envelope@),
            inv(old(self)@) ==> inv(final(self)@),
            outcome.0 == makes_ready(old(self)@, generation, envelope@),
            outcome.1 == addressee(old(self)@, envelope@),
    {
        let became_ready = if envelope.announces_ready() {
            self.ready(generation)
        } else {
            false
        };
        let waiter = match envelope.id {
            Some(id) => self.release(id),
            None => None,
        };
        (became_ready, waiter)
    }

    /// Takes in one line of the output of the process with this number. A
    /// line that is not JSON is dropped and changes nothing.
    pub fn route_line(&mut self, generation: u64, line: &str) -> (delivery: Option<Delivery<W>>)
        ensures
            final(self)@ == after_line(old(self)@, generation, line@),
            inv(old(self)@) ==> inv(final(self)@),
            delivery == delivery_of(old(self)@, generation, line@),
    {
        match parse_value(line) {
            Some(value) => {
                let envelope = Envelope::of_value(&value);
                let (became_ready, waiter) = self.accept(generation, &envelope);
                Some(Delivery { message: value, became_ready, waiter })
            },
            None => None,
        }
    }

    /// Takes in a chunk of the output of the process with this number: reads
    /// it as text, and takes in each of its lines in turn.
    pub fn route_chunk(&mut self, generation: u64, bytes: &[u8]) -> (deliveries: Vec<Delivery<W>>)
        ensures
            final(self)@ == after_lines(old(self)@, generation, lines_of(utf8_lossy(bytes@))),
            inv(old(self)@) ==> inv(final(self)@),
            deliveries@ == deliveries_of(old(self)@, generation, lines_of(utf8_lossy(bytes@))),
    {
        let text = lossy_text(bytes);
        let chars = chars_of(text.as_str());
        let all = lines(&chars);
        let ghost wanted = lines_of(utf8_lossy(bytes@));
        let mut deliveries: Vec<Delivery<W>> = Vec::new();
        let mut i: usize = 0;
        proof {
            assert(wanted.take(0) =~= Seq::<Seq<char>>::empty());
        }
        while i < all.len()
            invariant
                i <= all.len(),
                texts(all@) == wanted,
                inv(old(self)@) ==> inv(self@),
                self@ == after_lines(old(self)@, generation, wanted.take(i as int)),
                deliveries@ == deliveries_of(old(self)@, generation, wanted.take(i as int)),
            decreases all.len() - i,
        {
            let line = string_of(&all[i]);
            proof {
                assert(line@ == wanted[i as int]);
                assert(wanted.take(i + 1).drop_last() =~= wanted.take(i as int));
                assert(wanted.take(i + 1).last() == wanted[i as int]);
            }
            match self.route_line(generation, line.as_str()) {
                Some(delivery) => {
                    deliveries.push(delivery);
                },
                None => {},
            }
            i += 1;
        }
        proof {
            assert(wanted.take(all.len() as int) =~= wanted);
        }
        deliveries
    }
}

/// What came back at a waiter.
pub enum Arrival {
    /// A reply from the adapter.
    Reply(serde_json::Value),
    /// Word that the process ended while the command was in flight.
    Crashed,
    /// Nothing: the waiter was given up.
    Dropped,
    /// Nothing within the deadline.
    TimedOut,
}

/// Decides what the caller of a command gets for what came back at its
/// waiter: the reply, unless it reports an error of the adapter; the
/// adapter's error with its message; or the failure of the transport or of
/// the deadline.
pub fn settle(arrival: Arrival) -> (outcome: Result<serde_json::Value, Failure>)
    ensures
        match arrival {
            Arrival::Reply(value) => if is_error_report(envelope_of(value)) {
                outcome matches Err(Failure::Logical(text)) && text@ == error_text(
                    envelope_of(value),
                )
            } else {
                outcome == Ok::<serde_json::Value, Failure>(value)
            },
            Arrival::Crashed => outcome == Err::<serde_json::Value, Failure>(Failure::Crashed),
            Arrival::Dropped => outcome == Err::<serde_json::Value, Failure>(
                Failure::ChannelClosed,
            ),
            Arrival::TimedOut => outcome == Err::<serde_json::Value, Failure>(
                Failure::RequestTimeout,
            ),
        },
{
    match arrival {
        Arrival::Reply(value) => {
            let envelope = Envelope::of_value(&value);
            match envelope.reported_failure() {
                Some(failure) => Err(failure),
                None => Ok(value),
            }
        },
        Arrival::Crashed => Err(Failure::Crashed),
        Arrival::Dropped => Err(Failure::ChannelClosed),
        Arrival::TimedOut => Err(Failure::RequestTimeout),
    }
}

} // verus!
