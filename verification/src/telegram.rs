//! The relay side: destination resolution per recipient, the choice between
//! a text message and a document attachment by body size, and the payloads
//! and endpoint URLs the worker hands to the HTTP edge.

use vstd::prelude::*;
use vstd::utf8::encode_utf8;
use crate::handler::Message;
use crate::json::{json_text_message, json_text_payload};
use crate::queue;
use crate::resolver::{parse_chat_id, resolve_spec};

verus! {

/// A body of fewer bytes than this goes as a text message; from this size
/// up it goes as a document, so nothing is truncated.
pub const TEXT_SIZE_LIMIT: usize = 4096;

/// One text message to one destination.
pub struct TelegramSendMessage {
    pub chat_id: u64,
    pub text: String,
}

impl TelegramSendMessage {
    pub fn new(chat_id: u64, text: String) -> (r: Self)
        ensures
            r.chat_id == chat_id,
            r.text == text,
    {
        Self { chat_id, text }
    }

    /// The JSON payload of this message.
    pub fn to_json(&self) -> (r: String)
        ensures
            r@ == json_text_message(self.chat_id, self.text@),
    {
        json_text_payload(self.chat_id, self.text.as_str())
    }
}

/// What the relay worker does for one recipient of one envelope.
pub enum DeliveryPlan {
    /// No destination: skip this recipient, with a warning.
    Skip { recipient: String },
    /// Send the body as one formatted text message.
    Text { chat_id: u64, payload: String },
    /// Send the body as a plain-text file attachment.
    Document { chat_id: u64, filename: String, caption: String, text: String },
}

/// Does a plan fit a recipient, a body and a fallback? Skipped exactly when
/// no destination resolves; otherwise a text message below the size bound,
/// carrying the exact JSON payload, and a document named `mail.txt` from the
/// bound up.
pub open spec fn plan_ok(
    p: DeliveryPlan,
    recipient: Seq<char>,
    text: Seq<char>,
    fallback: Option<u64>,
) -> bool {
    match resolve_spec(recipient, fallback) {
        None => p matches DeliveryPlan::Skip { recipient: rec } && rec@ == recipient,
        Some(id) => if encode_utf8(text).len() < TEXT_SIZE_LIMIT {
            p matches DeliveryPlan::Text { chat_id, payload } && chat_id == id && payload@
                == json_text_message(id, text)
        } else {
            p matches DeliveryPlan::Document { chat_id, filename, caption, text: body }
                && chat_id == id && filename@ == "mail.txt"@ && caption@
                == "Mail was too large, sent as text file"@ && body@ == text
        },
    }
}

/// A plan that actually attempts a delivery.
pub open spec fn is_attempt(p: DeliveryPlan) -> bool {
    !(p is Skip)
}

/// The single relay consumer's state: the two handles of the hand-off
/// queue, the endpoint URLs with the credential embedded, the pacing delay
/// between envelopes, and the fallback destination.
pub struct TelegramBroker {
    pub sen: async_std::channel::Sender<Message>,
    pub recv: async_std::channel::Receiver<Message>,
    pub message_url: String,
    pub document_url: String,
    pub api_call_delay_ms: u64,
    pub standard_chat_id: Option<u64>,
}

impl TelegramBroker {
    /// A broker with a fresh hand-off queue — FIFO, blocking producers at
    /// `queue_capacity` entries, zero meaning unbounded — and the endpoint
    /// URLs built from the credential.
    pub fn new(
        api_token: String,
        api_call_delay_ms: u64,
        standard_chat_id: Option<u64>,
        queue_capacity: usize,
    ) -> (r: Self)
        ensures
            r.message_url@ == "https://api.telegram.org/bot"@ + api_token@ + "/sendMessage"@,
            r.document_url@ == "https://api.telegram.org/bot"@ + api_token@ + "/sendDocument"@,
            r.api_call_delay_ms == api_call_delay_ms,
            r.standard_chat_id == standard_chat_id,
    {
        let (sen, recv) = if queue_capacity == 0 {
            queue::channel_unbounded()
        } else {
            queue::channel_bounded(queue_capacity)
        };
        let mut base = String::from_str("https://api.telegram.org/bot");
        base.append(api_token.as_str());
        let mut message_url = base.clone();
        let mut document_url = base;
        message_url.append("/sendMessage");
        document_url.append("/sendDocument");
        proof {
            assert(message_url@ =~= "https://api.telegram.org/bot"@ + api_token@
                + "/sendMessage"@);
            assert(document_url@ =~= "https://api.telegram.org/bot"@ + api_token@
                + "/sendDocument"@);
        }
        Self { sen, recv, message_url, document_url, api_call_delay_ms, standard_chat_id }
    }

    /// One more producer handle of the hand-off queue, for one connection.
    pub fn get_sender(&self) -> async_std::channel::Sender<Message> {
        queue::clone_sender(&self.sen)
    }

    /// The next envelope, in hand-off order; `None` once every producer
    /// handle is gone and the queue is drained.
    pub fn recv_message(&self) -> Option<Message> {
        queue::recv_blocking(&self.recv)
    }

    /// The plan for one recipient of one body.
    pub fn plan_recipient(&self, recipient: &String, text: &String) -> (r: DeliveryPlan)
        ensures
            plan_ok(r, recipient@, text@, self.standard_chat_id),
    {
        match parse_chat_id(recipient.as_str(), self.standard_chat_id) {
            None => DeliveryPlan::Skip { recipient: recipient.clone() },
            Some(chat_id) => {
                if text.as_str().as_bytes().len() < TEXT_SIZE_LIMIT {
                    let tmsg = TelegramSendMessage::new(chat_id, text.clone());
                    DeliveryPlan::Text { chat_id, payload: tmsg.to_json() }
                } else {
                    DeliveryPlan::Document {
                        chat_id,
                        filename: String::from_str("mail.txt"),
                        caption: String::from_str("Mail was too large, sent as text file"),
                        text: text.clone(),
                    }
                }
            },
        }
    }

    /// The plans for one envelope: exactly one per recipient, in the
    /// envelope's own recipient order.
    pub fn plan_message(&self, msg: &Message) -> (r: Vec<DeliveryPlan>)
        ensures
            r@.len() == msg.recipients@.len(),
            forall|i: int|
                0 <= i < r@.len() ==> plan_ok(
                    #[trigger] r@[i],
                    msg.recipients@[i]@,
                    msg.text@,
                    self.standard_chat_id,
                ),
    {
        let mut plans: Vec<DeliveryPlan> = Vec::new();
        let mut i: usize = 0;
        while i < msg.recipients.len()
            invariant
                i <= msg.recipients@.len(),
                plans@.len() == i,
                forall|k: int|
                    0 <= k < i ==> plan_ok(
                        #[trigger] plans@[k],
                        msg.recipients@[k]@,
                        msg.text@,
                        self.standard_chat_id,
                    ),
            decreases msg.recipients@.len() - i,
        {
            let p = self.plan_recipient(&msg.recipients[i], &msg.text);
            plans.push(p);
            i += 1;
        }
        plans
    }
}

/// Every resolvable recipient of an envelope gets exactly one delivery
/// attempt and every unresolvable one gets none: a valid plan sequence has
/// one entry per recipient, and that entry is an attempt exactly where the
/// destination resolves, a skip exactly where it does not.
pub proof fn lemma_delivery_attempts(
    plans: Seq<DeliveryPlan>,
    recipients: Seq<Seq<char>>,
    text: Seq<char>,
    fallback: Option<u64>,
)
    requires
        plans.len() == recipients.len(),
        forall|i: int|
            0 <= i < plans.len() ==> plan_ok(#[trigger] plans[i], recipients[i], text, fallback),
    ensures
        forall|i: int|
            0 <= i < plans.len() ==> (is_attempt(#[trigger] plans[i]) <==> resolve_spec(
                recipients[i],
                fallback,
            ) is Some),
        forall|i: int|
            0 <= i < plans.len() ==> ((#[trigger] plans[i]) is Skip <==> resolve_spec(
                recipients[i],
                fallback,
            ) is None),
{
}

/// Fault isolation: what is planned for one recipient is fixed by that
/// recipient, the body and the fallback alone. Two valid plans for the same
/// recipient agree on whether and what to deliver — so no outcome for any
/// other recipient, and no earlier envelope, can change it.
pub proof fn lemma_fault_isolation(
    first: DeliveryPlan,
    second: DeliveryPlan,
    recipient: Seq<char>,
    text: Seq<char>,
    fallback: Option<u64>,
)
    requires
        plan_ok(first, recipient, text, fallback),
        plan_ok(second, recipient, text, fallback),
    ensures
        is_attempt(first) == is_attempt(second),
        first matches DeliveryPlan::Text { chat_id: c1, payload: pl1 } ==> (second matches
            DeliveryPlan::Text { chat_id: c2, payload: pl2 } && c1 == c2 && pl1@ == pl2@),
        first matches DeliveryPlan::Document { chat_id: c1, filename: f1, caption: ca1, text: t1 }
            ==> (second matches DeliveryPlan::Document {
            chat_id: c2,
            filename: f2,
            caption: ca2,
            text: t2,
        } && c1 == c2 && f1@ == f2@ && ca1@ == ca2@ && t1@ == t2@),
{
}

} // verus!
