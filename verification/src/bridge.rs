//! The sole crossing point between the core and the UI layer.
//!
//! Outbound events are fire-and-forget: when no UI receiver is attached the
//! event is dropped — no buffering, no replay, no error. The model records
//! the events a receiver actually got, so that delivery (and dropping) is
//! observable in contracts and tests. Inbound, the bridge forwards a
//! `type_text` command to the injector without further validation and hands
//! the caller success or a human-readable error description.

use vstd::prelude::*;

use crate::injector::OsSendReport;
use crate::injector::error_message;
use crate::injector::error_message_spec;
use crate::injector::inject;
use crate::injector::injection_outcome;

verus! {

/// The bridge to the UI layer, with the events a receiver has got so far.
pub struct EventBridge {
    receiver_attached: bool,
    delivered: Vec<String>,
}

impl EventBridge {
    /// Whether a UI receiver is attached.
    pub closed spec fn spec_receiver_attached(self) -> bool {
        self.receiver_attached
    }

    /// The names of the events a receiver has got, oldest first.
    pub closed spec fn delivered_names(self) -> Seq<Seq<char>> {
        self.delivered@.map_values(|s: String| s@)
    }

    /// A bridge with no events delivered yet.
    pub fn new(receiver_attached: bool) -> (b: Self)
        ensures
            b.spec_receiver_attached() == receiver_attached,
            b.delivered_names() == Seq::<Seq<char>>::empty(),
    {
        let b = EventBridge { receiver_attached, delivered: Vec::new() };
        proof {
            assert(b.delivered_names() =~= Seq::<Seq<char>>::empty());
        }
        b
    }

    /// Whether a UI receiver is attached.
    pub fn receiver_attached(&self) -> (r: bool)
        ensures
            r == self.spec_receiver_attached(),
    {
        self.receiver_attached
    }

    /// How many events a receiver has got.
    pub fn delivered_count(&self) -> (n: usize)
        ensures
            n == self.delivered_names().len(),
    {
        self.delivered.len()
    }

    /// The name of the `i`-th delivered event, oldest first.
    pub fn delivered_event(&self, i: usize) -> (name: &String)
        requires
            i < self.delivered_names().len(),
        ensures
            name@ == self.delivered_names()[i as int],
    {
        &self.delivered[i]
    }

    /// Emits `name` to the UI, fire-and-forget: with a receiver attached the
    /// event is delivered once; with none it is dropped and the call
    /// completes as a no-op. Either way the call returns, never blocks.
    pub fn emit(&mut self, name: &str)
        ensures
            final(self).spec_receiver_attached() == old(self).spec_receiver_attached(),
            old(self).spec_receiver_attached() ==> final(self).delivered_names() == old(
                self,
            ).delivered_names().push(name@),
            !old(self).spec_receiver_attached() ==> *final(self) == *old(self),
    {
        if self.receiver_attached {
            let ghost pre = *self;
            self.delivered.push(name.to_owned());
            proof {
                assert(self.delivered_names() =~= pre.delivered_names().push(name@));
            }
        }
    }

    /// Handles the inbound `type_text` command: forwards the text and the
    /// OS injection report to the injector and describes any failure as a
    /// string for the UI caller. No validation beyond forwarding.
    pub fn handle_type_text(&self, text: &str, report: OsSendReport) -> (r: Result<(), String>)
        ensures
            injection_outcome(text@, report) matches Ok(_) ==> r matches Ok(_),
            injection_outcome(text@, report) matches Err(e) ==> r matches Err(msg) && msg@
                == error_message_spec(e),
    {
        match inject(text, report) {
            Ok(()) => Ok(()),
            Err(e) => Err(error_message(e).to_owned()),
        }
    }
}

} // verus!
