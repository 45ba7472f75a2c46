//! Signals: the instructions a screen's input handler emits, and the channel
//! that queues them for the driver.
//!
//! A signal is either primitive (quit, switch the active screen, deliver a
//! message to a screen) or a composite of two signals.  A composite stands
//! for the ordered list of its primitive parts; `Signal::parts` gives that
//! list, and `Channel::send` enqueues exactly it, in order.

use vstd::prelude::*;

verus! {

/// Identity of a screen: the registry key and the payload of switch and
/// message signals.  Exactly one live screen exists per identity.
#[derive(Clone, Copy, PartialEq, Eq, Debug)]
pub enum CtxId {
    Main,
    Tagging,
}

/// A message carried between screens.
#[derive(Clone, PartialEq, Debug)]
pub enum Msg {
    /// The user chose this file for tagging.
    File(String),
}

/// The result of handling one input event.
#[derive(PartialEq, Debug)]
pub enum Signal {
    /// Terminate the driver loop.
    Quit,
    /// Make the given screen the active one.
    Change(CtxId),
    /// Deliver the message to the given screen.
    Message(CtxId, Msg),
    /// Two signals, applied in order.
    And(Box<Signal>, Box<Signal>),
}

impl Signal {
    /// True of every signal but a composite.
    pub open spec fn is_primitive(self) -> bool {
        !(self matches Signal::And(_, _))
    }

    /// The ordered list of primitive signals this signal stands for.
    pub open spec fn parts(self) -> Seq<Signal>
        decreases self,
    {
        match self {
            Signal::And(a, b) => a.parts() + b.parts(),
            s => seq![s],
        }
    }

    /// Compose two signals; the result stands for the parts of `self`
    /// followed by the parts of `other`.
    pub fn and(self, other: Signal) -> (r: Signal)
        ensures
            r.parts() == self.parts() + other.parts(),
    {
        Signal::And(Box::new(self), Box::new(other))
    }
}

/// The driver's signal queue.  The original design put an in-process channel
/// here; a single-threaded driver needs only the queue itself.  Sending a
/// composite signal enqueues its primitive parts in order.
pub struct Channel {
    queue: Vec<Signal>,
}

impl View for Channel {
    type V = Seq<Signal>;

    closed spec fn view(&self) -> Seq<Signal> {
        self.queue@
    }
}

impl Channel {
    /// An empty queue.
    pub fn new() -> (c: Channel)
        ensures
            c@ == Seq::<Signal>::empty(),
    {
        Channel { queue: Vec::new() }
    }

    /// Enqueue the primitive parts of `signal`, in order.
    pub fn send(&mut self, signal: Signal)
        ensures
            final(self)@ == old(self)@ + signal.parts(),
        decreases signal,
    {
        match signal {
            Signal::And(a, b) => {
                let ghost q0 = self@;
                let ghost pa = a.parts();
                let ghost pb = b.parts();
                self.send(*a);
                self.send(*b);
                proof {
                    assert(self@ == (q0 + pa) + pb);
                    assert((q0 + pa) + pb == q0 + (pa + pb));
                }
            },
            s => {
                self.queue.push(s);
            },
        }
    }

    /// Dequeue the oldest signal, if any.
    pub fn recv(&mut self) -> (r: Option<Signal>)
        ensures
            old(self)@.len() == 0 ==> r is None && final(self)@ == old(self)@,
            old(self)@.len() > 0 ==> r == Some(old(self)@[0]) && final(self)@ == old(
                self,
            )@.drop_first(),
    {
        if self.queue.len() == 0 {
            None
        } else {
            let s = self.queue.remove(0);
            proof {
                assert(self@ =~= old(self)@.drop_first());
            }
            Some(s)
        }
    }
}

} // verus!
