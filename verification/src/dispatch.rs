//! What a server worker does with each datagram: the arithmetic, and the
//! decision that follows every socket event. A worker keeps nothing from one
//! request to the next, so each decision is a function of the event alone.

use crate::codec::{
    be_value, decode_request, encode_response, lemma_request_round_trip,
    lemma_response_round_trip, request_bytes, request_of, response_bytes, Operation, REQUEST_LEN,
};
use vstd::prelude::*;

verus! {

/// The result sent back for invalid opcodes.
pub const INVALID_OPCODE_RESULT: i64 = 0;

/// `x` clamped to the range of a signed 64-bit integer.
pub open spec fn saturate(x: int) -> i64 {
    if x > i64::MAX {
        i64::MAX
    } else if x < i64::MIN {
        i64::MIN
    } else {
        x as i64
    }
}

/// The result of a request: the operand plus or minus one, saturating at the
/// ends of the range, or the fallback where the opcode selects no operation.
pub open spec fn result_of(opcode: u8, operand: i64) -> i64 {
    match Operation::of_opcode(opcode) {
        Some(Operation::Increment) => saturate(operand + 1),
        Some(Operation::Decrement) => saturate(operand - 1),
        None => INVALID_OPCODE_RESULT,
    }
}

/// Computes the result of a request. Never fails: the sum saturates, and an
/// unrecognized opcode gives the fallback.
pub fn process_request(opcode: u8, operand: i64) -> (r: i64)
    ensures
        r == result_of(opcode, operand),
        opcode == 0 && operand < i64::MAX ==> r == operand + 1,
        opcode == 0 && operand == i64::MAX ==> r == i64::MAX,
        opcode == 1 && operand > i64::MIN ==> r == operand - 1,
        opcode == 1 && operand == i64::MIN ==> r == i64::MIN,
        opcode != 0 && opcode != 1 ==> r == 0,
{
    match Operation::from_opcode(opcode) {
        Some(Operation::Increment) => match operand.checked_add(1) {
            Some(sum) => sum,
            None => i64::MAX,
        },
        Some(Operation::Decrement) => match operand.checked_sub(1) {
            Some(difference) => difference,
            None => i64::MIN,
        },
        None => INVALID_OPCODE_RESULT,
    }
}

/// What the socket layer reports to a worker. `P` is the peer address as the
/// socket layer has it; a worker only hands it back.
#[derive(Debug)]
pub enum Event<P> {
    /// A datagram arrived from `peer`.
    Received { payload: Vec<u8>, peer: P },
    /// Receiving failed; `fatal` says that the socket is no longer usable.
    ReceiveFailed { fatal: bool },
    /// The reply was sent.
    Sent,
    /// Sending the reply failed; `fatal` says that the socket is no longer
    /// usable.
    SendFailed { fatal: bool },
}

/// What a worker asks the socket layer to do next.
#[derive(Debug, PartialEq, Eq)]
pub enum Action<P> {
    /// Wait for the next datagram.
    Receive,
    /// Send `payload` to `peer`, and to nobody else.
    Send { payload: Vec<u8>, peer: P },
    /// Leave the loop: the socket is unusable.
    Stop,
}

/// Something to report locally; a peer never sees it.
#[derive(Clone, Copy, Debug, PartialEq, Eq, Structural)]
pub enum Notice {
    /// The datagram was too short to be a request and was dropped.
    Malformed,
    /// The request carried this unrecognized opcode and was answered with the
    /// fallback.
    InvalidOpcode(u8),
    /// A datagram could not be received.
    ReceiveFailed,
    /// A reply could not be sent; it is not sent again.
    SendFailed,
}

/// A worker's answer to one event.
#[derive(Debug, PartialEq, Eq)]
pub struct Decision<P> {
    pub action: Action<P>,
    pub notice: Option<Notice>,
}

/// An event with its payload as a sequence of bytes.
pub ghost enum EventView<P> {
    Received { payload: Seq<u8>, peer: P },
    ReceiveFailed { fatal: bool },
    Sent,
    SendFailed { fatal: bool },
}

/// An action with its payload as a sequence of bytes.
pub ghost enum ActionView<P> {
    Receive,
    Send { payload: Seq<u8>, peer: P },
    Stop,
}

/// A decision with its payload as a sequence of bytes.
pub ghost struct DecisionView<P> {
    pub action: ActionView<P>,
    pub notice: Option<Notice>,
}

impl<P> View for Event<P> {
    type V = EventView<P>;

    open spec fn view(&self) -> EventView<P> {
        match *self {
            Event::Received { payload, peer } => EventView::Received { payload: payload@, peer },
            Event::ReceiveFailed { fatal } => EventView::ReceiveFailed { fatal },
            Event::Sent => EventView::Sent,
            Event::SendFailed { fatal } => EventView::SendFailed { fatal },
        }
    }
}

impl<P> View for Action<P> {
    type V = ActionView<P>;

    open spec fn view(&self) -> ActionView<P> {
        match *self {
            Action::Receive => ActionView::Receive,
            Action::Send { payload, peer } => ActionView::Send { payload: payload@, peer },
            Action::Stop => ActionView::Stop,
        }
    }
}

impl<P> View for Decision<P> {
    type V = DecisionView<P>;

    open spec fn view(&self) -> DecisionView<P> {
        DecisionView { action: self.action@, notice: self.notice }
    }
}

/// The action after a failed socket call: stop where the socket is unusable,
/// else go on receiving.
pub open spec fn after_failure<P>(fatal: bool) -> ActionView<P> {
    if fatal {
        ActionView::Stop
    } else {
        ActionView::Receive
    }
}

/// The reply to a datagram and the notice that goes with it. A payload too
/// short to be a request is dropped without a reply; every other payload is
/// answered, to its sender, with the result of the request it carries.
pub open spec fn answer<P>(payload: Seq<u8>, peer: P) -> DecisionView<P> {
    if payload.len() < REQUEST_LEN {
        DecisionView { action: ActionView::Receive, notice: Some(Notice::Malformed) }
    } else {
        let request = request_of(payload);
        DecisionView {
            action: ActionView::Send {
                payload: response_bytes(result_of(request.opcode, request.operand)),
                peer,
            },
            notice: if Operation::of_opcode(request.opcode) is None {
                Some(Notice::InvalidOpcode(request.opcode))
            } else {
                None
            },
        }
    }
}

/// The decision that each event calls for.
pub open spec fn decision_for<P>(event: EventView<P>) -> DecisionView<P> {
    match event {
        EventView::Received { payload, peer } => answer(payload, peer),
        EventView::ReceiveFailed { fatal } => DecisionView {
            action: after_failure(fatal),
            notice: Some(Notice::ReceiveFailed),
        },
        EventView::Sent => DecisionView { action: ActionView::Receive, notice: None },
        EventView::SendFailed { fatal } => DecisionView {
            action: after_failure(fatal),
            notice: Some(Notice::SendFailed),
        },
    }
}

/// Answers one datagram from `peer`.
pub fn handle_datagram<P>(payload: &[u8], peer: P) -> (d: Decision<P>)
    ensures
        d@ == answer(payload@, peer),
{
    match decode_request(payload) {
        Err(_) => Decision { action: Action::Receive, notice: Some(Notice::Malformed) },
        Ok(request) => {
            let result: i64 = process_request(request.opcode, request.operand);
            let notice: Option<Notice> = match request.operation() {
                Some(_) => None,
                None => Some(Notice::InvalidOpcode(request.opcode)),
            };
            Decision { action: Action::Send { payload: encode_response(result), peer }, notice }
        },
    }
}

/// Decides what a worker does after `event`.
pub fn worker_step<P>(event: Event<P>) -> (d: Decision<P>)
    ensures
        d@ == decision_for(event@),
{
    match event {
        Event::Received { payload, peer } => handle_datagram(payload.as_slice(), peer),
        Event::ReceiveFailed { fatal } => Decision {
            action: if fatal {
                Action::Stop
            } else {
                Action::Receive
            },
            notice: Some(Notice::ReceiveFailed),
        },
        Event::Sent => Decision { action: Action::Receive, notice: None },
        Event::SendFailed { fatal } => Decision {
            action: if fatal {
                Action::Stop
            } else {
                Action::Receive
            },
            notice: Some(Notice::SendFailed),
        },
    }
}

/// A worker holds no state: the reply to a payload is the same whoever sent
/// it and whatever was served before, and differs between two senders only
/// in where it goes.
pub proof fn lemma_same_request_same_reply<P>(payload: Seq<u8>, first: P, second: P)
    ensures
        answer(payload, first).notice == answer(payload, second).notice,
        answer(payload, first).action is Send <==> answer(payload, second).action is Send,
        answer(payload, first).action is Send ==> answer(payload, first).action->payload
            == answer(payload, second).action->payload,
        first == second ==> answer(payload, first) == answer(payload, second),
{
}

/// Replies are routed to their origin: a worker sends only in answer to a
/// datagram long enough to be a request, only to the peer that the datagram
/// came from, and every such datagram is answered.
pub proof fn lemma_reply_goes_to_sender<P>(event: EventView<P>)
    ensures
        decision_for(event).action is Send <==> event is Received && event->payload.len()
            >= REQUEST_LEN,
        decision_for(event).action is Send ==> decision_for(event).action->peer == event->peer,
{
}

/// An encoded request is answered with the encoding of its result, which the
/// sender decodes to that result.
pub proof fn lemma_request_is_served<P>(opcode: u8, operand: i64, peer: P)
    ensures
        answer(request_bytes(opcode, operand), peer).action == (ActionView::Send {
            payload: response_bytes(result_of(opcode, operand)),
            peer,
        }),
        be_value(response_bytes(result_of(opcode, operand))) == result_of(opcode, operand),
{
    lemma_request_round_trip(opcode, operand);
    lemma_response_round_trip(result_of(opcode, operand));
}

/// A malformed datagram does not stop a worker: it goes on receiving, and a
/// request that follows is served as any other.
pub proof fn lemma_malformed_is_survived<P>(malformed: Seq<u8>, from: P, opcode: u8, operand: i64, peer: P)
    requires
        malformed.len() < REQUEST_LEN,
    ensures
        answer(malformed, from).action is Receive,
        answer(request_bytes(opcode, operand), peer).action == (ActionView::Send {
            payload: response_bytes(result_of(opcode, operand)),
            peer,
        }),
{
    lemma_request_is_served(opcode, operand, peer);
}

/// A worker stops only where the socket has become unusable: no datagram,
/// whatever it holds, and no passing failure makes it stop.
pub proof fn lemma_stops_only_on_fatal_failure<P>(event: EventView<P>)
    ensures
        decision_for(event).action is Stop <==> (event matches EventView::ReceiveFailed { fatal }
            && fatal) || (event matches EventView::SendFailed { fatal } && fatal),
{
}

} // verus!
