//! The tower's side of the handshake: what it answers to a message, and the
//! queue in which the answers wait to be sent.

use crate::errors::{DecodeError, ProtocolError};
use crate::messages::{Register, SubscriptionDetails, TowerMessage};
use crate::node::NodeId;
use vstd::prelude::*;

verus! {

/// The largest appointment, in bytes, that the tower accepts.
pub const APPOINTMENT_MAX_SIZE: u16 = 30;

/// The fee for `slots` appointments over `period`: their product in msat,
/// storage times time. The fee field has 32 bits; a product that does not fit
/// is quoted as the largest fee that does.
pub open spec fn subscription_fee(slots: u32, period: u32) -> u32 {
    if slots * period <= u32::MAX {
        (slots * period) as u32
    } else {
        u32::MAX
    }
}

/// The terms that the tower offers for a register message.
pub open spec fn subscription_terms(msg: Register) -> SubscriptionDetails {
    SubscriptionDetails {
        appointment_max_size: APPOINTMENT_MAX_SIZE,
        amount_msat: subscription_fee(msg.appointment_slots, msg.subscription_period),
    }
}

/// Computes the fee for `slots` appointments over `period`.
pub fn compute_fee(slots: u32, period: u32) -> (fee: u32)
    ensures
        fee == subscription_fee(slots, period),
{
    assert(slots * period <= 0xffff_ffff * 0xffff_ffff) by (nonlinear_arith)
        requires
            slots <= 0xffff_ffff,
            period <= 0xffff_ffff,
    ;
    let product: u64 = (slots as u64) * (period as u64);
    if product <= 0xffff_ffff {
        product as u32
    } else {
        u32::MAX
    }
}

/// One message that waits to be sent, with the peer that it is for.
pub type PendingMessage = (NodeId, TowerMessage);

/// The queue after `msg` for `peer` was put at its end.
pub open spec fn enqueued(queue: Seq<PendingMessage>, peer: NodeId, msg: TowerMessage) -> Seq<
    PendingMessage,
> {
    queue.push((peer, msg))
}

/// The queue after each of `entries` was put at its end, the first one first.
pub open spec fn enqueued_all(queue: Seq<PendingMessage>, entries: Seq<PendingMessage>) -> Seq<
    PendingMessage,
>
    decreases entries.len(),
{
    if entries.len() == 0 {
        queue
    } else {
        enqueued(enqueued_all(queue, entries.drop_last()), entries.last().0, entries.last().1)
    }
}

/// The queue after `msg` from `sender` was handled: the answer to a register
/// message stands at its end; a refused message leaves it as it was.
pub open spec fn queue_after(queue: Seq<PendingMessage>, msg: TowerMessage, sender: NodeId) -> Seq<
    PendingMessage,
> {
    match msg {
        TowerMessage::Register(request) => enqueued(
            queue,
            sender,
            TowerMessage::SubscriptionDetails(subscription_terms(request)),
        ),
        TowerMessage::SubscriptionDetails(_) => queue,
    }
}

/// Messages wait in the order in which they were put into the queue: after
/// `a` and then `b`, the queue holds what it held, then `a`, then `b`.
pub proof fn lemma_queue_keeps_order(queue: Seq<PendingMessage>, a: PendingMessage, b: PendingMessage)
    ensures
        enqueued(enqueued(queue, a.0, a.1), b.0, b.1) == queue + seq![a, b],
        enqueued(enqueued(Seq::empty(), a.0, a.1), b.0, b.1) == seq![a, b],
{
    assert(enqueued(enqueued(queue, a.0, a.1), b.0, b.1) =~= queue + seq![a, b]);
    assert(enqueued(enqueued(Seq::empty(), a.0, a.1), b.0, b.1) =~= seq![a, b]);
}

/// Nothing is lost and nothing comes twice: after any number of messages
/// were put into the queue it holds what it held and then each of them once,
/// in the order of the calls.
pub proof fn lemma_queue_holds_each_once(queue: Seq<PendingMessage>, entries: Seq<PendingMessage>)
    ensures
        enqueued_all(queue, entries) == queue + entries,
        enqueued_all(Seq::empty(), entries) == entries,
        enqueued_all(queue, entries).to_multiset() == queue.to_multiset().add(
            entries.to_multiset(),
        ),
    decreases entries.len(),
{
    if entries.len() == 0 {
        assert(queue + entries =~= queue);
    } else {
        lemma_queue_holds_each_once(queue, entries.drop_last());
        assert(enqueued_all(queue, entries) =~= queue + entries);
    }
    if entries.len() > 0 {
        lemma_queue_holds_each_once(Seq::empty(), entries.drop_last());
    }
    assert(enqueued_all(Seq::empty(), entries) =~= entries);
    vstd::seq_lib::lemma_multiset_commutative(queue, entries);
}

/// A handler to handle the incoming [`TowerMessage`]s.
///
/// It owns the queue of outbound messages. Its view is the queue: the
/// messages in the order in which they were put there.
pub struct TowerMessageHandler {
    msg_q: Vec<(NodeId, TowerMessage)>,
}

impl View for TowerMessageHandler {
    type V = Seq<(NodeId, TowerMessage)>;

    closed spec fn view(&self) -> Seq<(NodeId, TowerMessage)> {
        self.msg_q@
    }
}

impl TowerMessageHandler {
    /// A handler with nothing to send.
    pub fn new() -> (handler: TowerMessageHandler)
        ensures
            handler@ == Seq::<(NodeId, TowerMessage)>::empty(),
    {
        TowerMessageHandler { msg_q: Vec::new() }
    }

    /// What the tower answers to `msg`.
    ///
    /// To a register message it answers with the terms of the subscription:
    /// the fixed size limit and the fee, which is capped at the largest value
    /// of its field where slots times period is more. A subscription-details
    /// message is one that only a tower sends, so a tower that receives it
    /// refuses it with a warning for the sender.
    pub fn handle_tower_message(msg: TowerMessage) -> (r: Result<TowerMessage, ProtocolError>)
        ensures
            match msg {
                TowerMessage::Register(request) => r == Ok::<TowerMessage, ProtocolError>(
                    TowerMessage::SubscriptionDetails(subscription_terms(request)),
                ),
                TowerMessage::SubscriptionDetails(_) => r matches Err(e) && e.is_unexpected_details(),
            },
    {
        match msg {
            TowerMessage::Register(msg) => {
                let appointment_max_size = APPOINTMENT_MAX_SIZE;
                // Pay for the Storage * Time.
                let amount_msat = compute_fee(msg.appointment_slots, msg.subscription_period);
                Ok(
                    TowerMessage::SubscriptionDetails(
                        SubscriptionDetails { appointment_max_size, amount_msat },
                    ),
                )
            },
            TowerMessage::SubscriptionDetails(_) => {
                // A tower shouldn't normally receive this message.
                Err(ProtocolError::unexpected_details())
            },
        }
    }

    /// Puts `msg` at the end of the queue, to be sent to `pubkey`.
    pub fn send_message(&mut self, pubkey: &NodeId, msg: TowerMessage)
        ensures
            final(self)@ == enqueued(old(self)@, *pubkey, msg),
    {
        self.msg_q.push((*pubkey, msg));
    }

    /// Reads the payload of a message of type `message_type` from the start
    /// of `buffer`. A type that is none of the tower's gives `Ok(None)`, so
    /// that another reader may try it.
    pub fn read(&self, message_type: u16, buffer: &[u8]) -> (r: Result<
        Option<TowerMessage>,
        DecodeError,
    >)
        ensures
            r == TowerMessage::decode(message_type, buffer@),
            r matches Ok(Some(msg)) ==> msg.wf() && msg.spec_type_id() == message_type,
    {
        TowerMessage::read(message_type, buffer)
    }

    /// Handles a message that `sender_node_id` sent: the answer, where there
    /// is one, is put at the end of the queue for that peer; where the
    /// message is refused, the queue stays as it is and the error goes to the
    /// caller.
    pub fn handle_custom_message(&mut self, msg: TowerMessage, sender_node_id: &NodeId) -> (r:
        Result<(), ProtocolError>)
        ensures
            final(self)@ == queue_after(old(self)@, msg, *sender_node_id),
            match msg {
                TowerMessage::Register(_) => r is Ok,
                TowerMessage::SubscriptionDetails(_) => r matches Err(e) && e.is_unexpected_details(),
            },
    {
        match TowerMessageHandler::handle_tower_message(msg) {
            Ok(reply) => {
                self.msg_q.push((*sender_node_id, reply));
                Ok(())
            },
            Err(e) => Err(e),
        }
    }

    /// Takes everything out of the queue, in the order in which it was put
    /// there, and leaves the queue empty.
    pub fn get_and_clear_pending_msg(&mut self) -> (pending: Vec<(NodeId, TowerMessage)>)
        ensures
            pending@ == old(self)@,
            final(self)@ == Seq::<(NodeId, TowerMessage)>::empty(),
    {
        let mut pending: Vec<(NodeId, TowerMessage)> = Vec::new();
        core::mem::swap(&mut self.msg_q, &mut pending);
        pending
    }
}

} // verus!
