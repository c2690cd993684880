//! Per-connection assembly of one mail into a [`Message`], and the hand-off
//! to the relay queue at the end of the DATA phase.

use vstd::prelude::*;
use vstd::utf8::{decode_utf8, valid_utf8};
use crate::queue;

verus! {

/// One completed mail: the envelope sender, the recipients in the order they
/// were named, and the body as UTF-8 text.
#[derive(Debug)]
pub struct Message {
    pub sender: String,
    pub recipients: Vec<String>,
    pub text: String,
}

impl Message {
    pub fn new(sender: String, recipients: Vec<String>, text: String) -> (r: Self)
        ensures
            r.sender == sender,
            r.recipients == recipients,
            r.text == text,
    {
        Self { sender, recipients, text }
    }
}

impl Default for Message {
    fn default() -> (r: Self)
        ensures
            r.sender@.len() == 0,
            r.recipients@.len() == 0,
            r.text@.len() == 0,
    {
        Message { sender: String::new(), recipients: Vec::new(), text: String::new() }
    }
}

/// The reply a lifecycle callback asks the protocol engine to send.
#[derive(Debug, Clone, Copy, PartialEq, Eq, Structural)]
pub enum HandlerReply {
    /// Accept and continue (a success reply on the wire).
    Accepted,
    /// Abort this transaction with an internal-error reply.
    InternalError,
}

/// Relies on `String::from_utf8`: succeeds exactly on valid UTF-8 and then
/// decodes the bytes (vstd's own model of UTF-8 gives the meaning).
#[verifier::external_body]
fn decode_utf8_vec(bytes: &Vec<u8>) -> (r: Option<String>)
    ensures
        r is Some <==> valid_utf8(bytes@),
        r matches Some(s) ==> s@ == decode_utf8(bytes@),
{
    match String::from_utf8(bytes.clone()) {
        Ok(s) => Some(s),
        Err(_) => None,
    }
}

/// Per-connection state: the in-progress sender, recipient list and body
/// buffer, and the producer handle of the relay queue. Owned by exactly one
/// connection; never shared.
pub struct TelegramMailHandler {
    pub from: String,
    pub recipients: Vec<String>,
    pub data: Vec<u8>,
    pub sender: async_std::channel::Sender<Message>,
}

impl TelegramMailHandler {
    pub fn new(sender: async_std::channel::Sender<Message>) -> (r: Self)
        ensures
            r.from@.len() == 0,
            r.recipients@.len() == 0,
            r.data@.len() == 0,
            r.sender == sender,
    {
        Self { data: Vec::new(), recipients: Vec::new(), from: String::new(), sender }
    }

    /// Every peer greeting is accepted.
    pub fn helo(&self) -> (r: HandlerReply)
        ensures
            r == HandlerReply::Accepted,
    {
        HandlerReply::Accepted
    }

    /// Start of the DATA phase: reset the body buffer and capture the
    /// envelope sender and recipients from the command arguments.
    pub fn data_start(&mut self, from: &str, to: &[String]) -> (r: HandlerReply)
        ensures
            final(self).data@.len() == 0,
            final(self).from@ == from@,
            final(self).recipients@ == to@,
            final(self).sender == old(self).sender,
            r == HandlerReply::Accepted,
    {
        self.data = Vec::new();
        self.from = String::from_str(from);
        let mut recipients: Vec<String> = Vec::new();
        let mut i: usize = 0;
        while i < to.len()
            invariant
                i <= to.len(),
                recipients@ =~= to@.subrange(0, i as int),
            decreases to.len() - i,
        {
            recipients.push(to[i].clone());
            i += 1;
        }
        proof {
            assert(recipients@ =~= to@);
        }
        self.recipients = recipients;
        HandlerReply::Accepted
    }

    /// One raw chunk of the body: appended whole, with no size cap (a known
    /// resource limitation, kept on purpose).
    pub fn data(&mut self, buf: &[u8])
        ensures
            final(self).data@ == old(self).data@ + buf@,
            final(self).from == old(self).from,
            final(self).recipients == old(self).recipients,
            final(self).sender == old(self).sender,
    {
        self.data.extend_from_slice(buf);
    }

    /// Decode the accumulated body. On valid UTF-8, build the envelope and
    /// clear the in-progress sender and recipient list (the buffer itself is
    /// reset by the next `data_start`); on invalid UTF-8, change nothing.
    pub fn take_envelope(&mut self) -> (r: Option<Message>)
        ensures
            r is Some <==> valid_utf8(old(self).data@),
            r matches Some(m) ==> {
                &&& m.sender == old(self).from
                &&& m.recipients == old(self).recipients
                &&& m.text@ == decode_utf8(old(self).data@)
                &&& final(self).from@.len() == 0
                &&& final(self).recipients@.len() == 0
            },
            r is None ==> *final(self) == *old(self),
            final(self).data == old(self).data,
            final(self).sender == old(self).sender,
    {
        match decode_utf8_vec(&self.data) {
            Some(text) => {
                let mut from = String::new();
                let mut recipients: Vec<String> = Vec::new();
                std::mem::swap(&mut from, &mut self.from);
                std::mem::swap(&mut recipients, &mut self.recipients);
                Some(Message::new(from, recipients, text))
            },
            None => None,
        }
    }

    /// The engine reply for the outcome of the queue hand-off: an
    /// internal-error reply exactly when the relay consumer is gone.
    pub fn reply_for_enqueue(outcome: &Result<(), Message>) -> (r: HandlerReply)
        ensures
            r == HandlerReply::InternalError <==> outcome is Err,
    {
        match outcome {
            Ok(_) => HandlerReply::Accepted,
            Err(_) => HandlerReply::InternalError,
        }
    }

    /// End of the DATA phase: decode the body, enqueue the envelope, reply.
    /// A body that is not UTF-8 is dropped silently with a success reply
    /// (best-effort policy, kept on purpose); a failed hand-off — the relay
    /// consumer is gone — earns an internal-error reply instead.
    pub fn data_end(&mut self) -> (r: HandlerReply)
        ensures
            !valid_utf8(old(self).data@) ==> r == HandlerReply::Accepted && *final(self) == *old(self),
            valid_utf8(old(self).data@) ==> final(self).from@.len() == 0
                && final(self).recipients@.len() == 0,
            final(self).data == old(self).data,
            final(self).sender == old(self).sender,
    {
        match self.take_envelope() {
            Some(envelope) => {
                let outcome = queue::send_blocking(&self.sender, envelope);
                Self::reply_for_enqueue(&outcome)
            },
            None => HandlerReply::Accepted,
        }
    }
}

} // verus!
