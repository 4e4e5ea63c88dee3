//! The session slot: at most one live consumer session, and the rule that
//! every operation but `start` fails fast while the slot is empty.
//!
//! The slot is a state machine. [`step`] is its transition function;
//! each method of [`PulsarConsumerWrapper`] performs one transition. The one
//! who performs the I/O first asks the slot whether and how to proceed
//! ([`PulsarConsumerWrapper::ensure_initialized`],
//! [`PulsarConsumerWrapper::acknowledgment`] and the two plans), then does
//! the broker's part, then hands the outcome to the operation.

use crate::consumer::{
    failure_detail, message_of, Acknowledgment, BuildOutcome, ConfigView, ConnectionPlan,
    Delivery, InitialPosition, PulsarConsumer, PulsarConsumerConfig, SubType, SubscriptionPlan,
    retry_policy, UNACKED_RESEND_DELAY_SECS,
};
use crate::error::{debug_quoted, Failure, PulsarError};
use crate::types::{decode_id, MessageContent, PulsarMessage, PulsarMessageId};
use vstd::prelude::*;
use vstd::string::*;

verus! {

/// The operations of the slot.
#[derive(Clone, Copy, Debug, PartialEq, Eq)]
pub enum Operation {
    Start,
    Next,
    Ack,
    Nack,
    Close,
}

impl Operation {
    /// The text that introduces a session's error when the slot passes it on.
    pub open spec fn prefix(self) -> Seq<char> {
        match self {
            Operation::Start => "Error creating Pulsar consumer: "@,
            Operation::Next => "Error getting next message: "@,
            Operation::Ack => "Error acknowledging message: "@,
            Operation::Nack => "Error negative acknowledging message: "@,
            Operation::Close => "Error closing consumer: "@,
        }
    }

    /// The text of [`Operation::prefix`].
    pub fn prefix_str(self) -> (r: &'static str)
        ensures
            r@ == self.prefix(),
    {
        match self {
            Operation::Start => "Error creating Pulsar consumer: ",
            Operation::Next => "Error getting next message: ",
            Operation::Ack => "Error acknowledging message: ",
            Operation::Nack => "Error negative acknowledging message: ",
            Operation::Close => "Error closing consumer: ",
        }
    }
}

/// The detail of the error that every operation but `start` gives while the
/// slot is empty.
pub open spec fn not_initialized() -> Seq<char> {
    "Consumer not initialized"@
}

/// The detail of the error with which the slot passes on a session's error
/// of detail `inner`: the operation's introduction, then the session's error
/// as `{:?}` writes it.
pub open spec fn passed_on(op: Operation, inner: Seq<char>) -> Seq<char> {
    op.prefix() + ("ConsumerError("@ + debug_quoted(inner) + ")"@)
}

/// One call of an operation, with what the broker client answered.
pub ghost enum Call {
    Start(BuildOutcome),
    Next(Option<Result<Delivery, String>>),
    Ack(Result<(), String>),
    Nack(Result<(), String>),
    Close(Result<(), String>),
}

/// What a call gives back.
pub ghost enum Reply {
    /// The operation succeeded and has nothing to hand over.
    Done,
    /// The operation succeeded and hands over a message.
    Message(MessageContent),
    /// The operation failed with an error of this detail.
    Failed(Seq<char>),
}

/// What a live session answers to a call's outcome, before the slot passes
/// it on: the detail of its error, or nothing if it succeeds.
pub open spec fn session_failure(call: Call) -> Option<Seq<char>> {
    match call {
        Call::Start(BuildOutcome::Built) => None,
        Call::Start(BuildOutcome::ClientFailed(cause)) => Some(
            failure_detail(Failure::BuildingClient, cause@),
        ),
        Call::Start(BuildOutcome::ConsumerFailed(cause)) => Some(
            failure_detail(Failure::BuildingConsumer, cause@),
        ),
        Call::Next(Some(Ok(_))) => None,
        Call::Next(Some(Err(cause))) => Some(failure_detail(Failure::Consuming, cause@)),
        Call::Next(None) => Some("No message"@),
        Call::Ack(Ok(_)) => None,
        Call::Ack(Err(cause)) => Some(failure_detail(Failure::Acknowledging, cause@)),
        Call::Nack(Ok(_)) => None,
        Call::Nack(Err(cause)) => Some(failure_detail(Failure::NegativeAcknowledging, cause@)),
        Call::Close(Ok(_)) => None,
        Call::Close(Err(cause)) => Some(failure_detail(Failure::Closing, cause@)),
    }
}

/// The operation that a call is a call of.
pub open spec fn operation_of(call: Call) -> Operation {
    match call {
        Call::Start(_) => Operation::Start,
        Call::Next(_) => Operation::Next,
        Call::Ack(_) => Operation::Ack,
        Call::Nack(_) => Operation::Nack,
        Call::Close(_) => Operation::Close,
    }
}

/// What a call gives back when a session takes it.
pub open spec fn session_reply(call: Call) -> Reply {
    match session_failure(call) {
        Some(detail) => Reply::Failed(passed_on(operation_of(call), detail)),
        None => match call {
            Call::Next(Some(Ok(d))) => Reply::Message(message_of(d@)),
            _ => Reply::Done,
        },
    }
}

/// The transition function of the slot. `live` says whether the slot holds
/// a session; the result is whether it does afterwards, and the reply.
///
/// `start` needs no session: it fills the slot when the build succeeded and
/// leaves the slot as it was when the build failed. Every other operation
/// fails with [`not_initialized`] on an empty slot. On a live slot it gives
/// the session's answer; `close` also empties the slot, whatever the answer.
pub open spec fn step(live: bool, call: Call) -> (bool, Reply) {
    match call {
        Call::Start(_) => (live || session_failure(call) is None, session_reply(call)),
        Call::Close(_) => if live {
            (false, session_reply(call))
        } else {
            (false, Reply::Failed(not_initialized()))
        },
        _ => if live {
            (true, session_reply(call))
        } else {
            (false, Reply::Failed(not_initialized()))
        },
    }
}

/// The reply that a result with a message stands for.
pub open spec fn reply_of_message(r: Result<PulsarMessage, PulsarError>) -> Reply {
    match r {
        Ok(m) => Reply::Message(m@),
        Err(e) => Reply::Failed(e.detail()),
    }
}

/// The reply that a result without a value stands for.
pub open spec fn reply_of_unit(r: Result<(), PulsarError>) -> Reply {
    match r {
        Ok(_) => Reply::Done,
        Err(e) => Reply::Failed(e.detail()),
    }
}

/// The slot for one consumer session, with the configuration from which the
/// session is built.
#[derive(Debug)]
pub struct PulsarConsumerWrapper {
    inner: Option<PulsarConsumer>,
    config: PulsarConsumerConfig,
}

impl PulsarConsumerWrapper {
    /// A session in the slot was built from the slot's configuration.
    #[verifier::type_invariant]
    spec fn session_matches_config(self) -> bool {
        self.inner matches Some(c) ==> c@ == self.config@
    }

    /// Whether the slot holds a session.
    pub closed spec fn is_live(&self) -> bool {
        self.inner is Some
    }

    /// The configuration the slot was made with.
    pub closed spec fn config(&self) -> ConfigView {
        self.config@
    }

    /// An empty slot for the session that the five strings describe.
    pub fn new(
        broker_url: String,
        topic: String,
        subscription_name: String,
        consumer_name: String,
        consumer_id: String,
    ) -> (w: PulsarConsumerWrapper)
        ensures
            !w.is_live(),
            w.config() == (ConfigView {
                broker_url: broker_url@,
                topic: topic@,
                subscription_name: subscription_name@,
                consumer_name: consumer_name@,
                consumer_id: consumer_id@,
            }),
    {
        PulsarConsumerWrapper {
            inner: None,
            config: PulsarConsumerConfig {
                broker_url,
                topic,
                subscription_name,
                consumer_name,
                consumer_id,
            },
        }
    }

    /// Whether the slot holds a session.
    pub fn is_initialized(&self) -> (b: bool)
        ensures
            b == self.is_live(),
    {
        self.inner.is_some()
    }

    /// The error of an empty slot.
    fn not_initialized_error() -> (e: PulsarError)
        ensures
            e.detail() == not_initialized(),
    {
        PulsarError::ConsumerError(String::from_str("Consumer not initialized"))
    }

    /// The error with which the slot passes on a session's error.
    fn pass_on(op: Operation, inner: &PulsarError) -> (e: PulsarError)
        ensures
            e.detail() == passed_on(op, inner.detail()),
    {
        let mut text = String::from_str(op.prefix_str());
        let cause = inner.debug_text();
        text.append(cause.as_str());
        PulsarError::ConsumerError(text)
    }

    /// Empties the slot and hands out what it held.
    fn take_session(&mut self) -> (s: Option<PulsarConsumer>)
        ensures
            s == old(self).inner,
            final(self).inner is None,
            final(self).config == old(self).config,
            s matches Some(c) ==> c@ == old(self).config@,
    {
        proof {
            use_type_invariant(&*self);
        }
        let mut slot: Option<PulsarConsumer> = None;
        core::mem::swap(&mut self.inner, &mut slot);
        slot
    }

    /// Succeeds on a live slot and fails with [`not_initialized`] on an
    /// empty one. To be asked before any work is done for `next` or `close`.
    pub fn ensure_initialized(&self) -> (r: Result<(), PulsarError>)
        ensures
            self.is_live() ==> r is Ok,
            !self.is_live() ==> (r matches Err(e) && e.detail() == not_initialized()),
    {
        if self.inner.is_some() {
            Ok(())
        } else {
            Err(Self::not_initialized_error())
        }
    }

    /// What `start` asks of the broker client when connecting.
    pub fn connection_plan(&self) -> (plan: ConnectionPlan)
        ensures
            plan.broker_url@ == self.config().broker_url,
            plan.retry == retry_policy(),
    {
        PulsarConsumer::connection_plan(&self.config)
    }

    /// What `start` asks of the broker client when subscribing.
    pub fn subscription_plan(&self) -> (plan: SubscriptionPlan)
        ensures
            plan.topic@ == self.config().topic,
            plan.consumer_name@ == self.config().consumer_name,
            plan.subscription@ == self.config().subscription_name,
            plan.sub_type == SubType::Shared,
            plan.initial_position == InitialPosition::Earliest,
            plan.unacked_message_resend_delay_secs == Some(UNACKED_RESEND_DELAY_SECS),
    {
        PulsarConsumer::subscription_plan(&self.config)
    }

    /// What `ack` or `nack` sends to the broker for `message_id`: the
    /// configured topic and the identifier decoded. Fails with
    /// [`not_initialized`] on an empty slot.
    pub fn acknowledgment(&self, message_id: PulsarMessageId) -> (r: Result<
        Acknowledgment,
        PulsarError,
    >)
        ensures
            self.is_live() ==> (r matches Ok(a) && a.topic@ == self.config().topic && a.id@
                == decode_id(message_id@.id)),
            !self.is_live() ==> (r matches Err(e) && e.detail() == not_initialized()),
    {
        proof {
            use_type_invariant(self);
        }
        match &self.inner {
            Some(consumer) => Ok(consumer.acknowledgment(message_id)),
            None => Err(Self::not_initialized_error()),
        }
    }

    /// Fills the slot with a session when connecting and subscribing
    /// succeeded, replacing a session that was there. When either failed,
    /// the slot stays as it was and the error names the step and the cause.
    pub fn start(&mut self, outcome: BuildOutcome) -> (r: Result<(), PulsarError>)
        ensures
            final(self).config() == old(self).config(),
            (final(self).is_live(), reply_of_unit(r)) == step(
                old(self).is_live(),
                Call::Start(outcome),
            ),
    {
        match PulsarConsumer::new(self.config.duplicate(), outcome) {
            Ok(consumer) => {
                self.inner = Some(consumer);
                Ok(())
            },
            Err(e) => Err(Self::pass_on(Operation::Start, &e)),
        }
    }

    /// Gives the next message of a live slot, or the error that the stream
    /// yielded, or the error of a stream that ended. Fails with
    /// [`not_initialized`] on an empty slot, whatever `delivery` is.
    pub fn next(&mut self, delivery: Option<Result<Delivery, String>>) -> (r: Result<
        PulsarMessage,
        PulsarError,
    >)
        ensures
            final(self).config() == old(self).config(),
            (final(self).is_live(), reply_of_message(r)) == step(
                old(self).is_live(),
                Call::Next(delivery),
            ),
    {
        match self.take_session() {
            Some(mut consumer) => {
                let answer = consumer.next(delivery);
                self.inner = Some(consumer);
                match answer {
                    Ok(message) => Ok(message),
                    Err(e) => Err(Self::pass_on(Operation::Next, &e)),
                }
            },
            None => Err(Self::not_initialized_error()),
        }
    }

    /// Passes on the broker's answer to an acknowledgment. Fails with
    /// [`not_initialized`] on an empty slot, whatever `outcome` is.
    pub fn ack(&mut self, outcome: Result<(), String>) -> (r: Result<(), PulsarError>)
        ensures
            final(self).config() == old(self).config(),
            (final(self).is_live(), reply_of_unit(r)) == step(
                old(self).is_live(),
                Call::Ack(outcome),
            ),
    {
        match self.take_session() {
            Some(mut consumer) => {
                let answer = consumer.ack(outcome);
                self.inner = Some(consumer);
                match answer {
                    Ok(_) => Ok(()),
                    Err(e) => Err(Self::pass_on(Operation::Ack, &e)),
                }
            },
            None => Err(Self::not_initialized_error()),
        }
    }

    /// Passes on the broker's answer to a negative acknowledgment. Fails
    /// with [`not_initialized`] on an empty slot, whatever `outcome` is.
    pub fn nack(&mut self, outcome: Result<(), String>) -> (r: Result<(), PulsarError>)
        ensures
            final(self).config() == old(self).config(),
            (final(self).is_live(), reply_of_unit(r)) == step(
                old(self).is_live(),
                Call::Nack(outcome),
            ),
    {
        match self.take_session() {
            Some(mut consumer) => {
                let answer = consumer.nack(outcome);
                self.inner = Some(consumer);
                match answer {
                    Ok(_) => Ok(()),
                    Err(e) => Err(Self::pass_on(Operation::Nack, &e)),
                }
            },
            None => Err(Self::not_initialized_error()),
        }
    }

    /// Takes the session out of the slot and passes on the broker's answer
    /// to releasing the connection. The slot is empty afterwards, whether
    /// releasing succeeded or not. Fails with [`not_initialized`] on an
    /// empty slot, whatever `outcome` is.
    pub fn close(&mut self, outcome: Result<(), String>) -> (r: Result<(), PulsarError>)
        ensures
            final(self).config() == old(self).config(),
            (final(self).is_live(), reply_of_unit(r)) == step(
                old(self).is_live(),
                Call::Close(outcome),
            ),
    {
        match self.take_session() {
            Some(mut consumer) => match consumer.close(outcome) {
                Ok(_) => Ok(()),
                Err(e) => Err(Self::pass_on(Operation::Close, &e)),
            },
            None => Err(Self::not_initialized_error()),
        }
    }
}

/// While the slot is empty, every operation but `start` fails with
/// [`not_initialized`] and leaves the slot empty, whatever the broker
/// would have answered.
pub proof fn lemma_empty_slot_rejects(call: Call)
    requires
        !(call is Start),
    ensures
        step(false, call) == (false, Reply::Failed(not_initialized())),
{
}

/// `close` empties the slot, whether the slot was live and whether
/// releasing the connection succeeded.
pub proof fn lemma_close_empties(live: bool, outcome: Result<(), String>)
    ensures
        !step(live, Call::Close(outcome)).0,
{
}

/// The second of two calls of `close` fails with [`not_initialized`].
pub proof fn lemma_close_twice(live: bool, first: Result<(), String>, second: Result<(), String>)
    ensures
        step(step(live, Call::Close(first)).0, Call::Close(second)) == (
            false,
            Reply::Failed(not_initialized()),
        ),
{
}

/// After `close`, every operation but `start` fails with
/// [`not_initialized`]: nothing is ever done on a closed session.
pub proof fn lemma_closed_slot_rejects(live: bool, outcome: Result<(), String>, call: Call)
    requires
        !(call is Start),
    ensures
        step(step(live, Call::Close(outcome)).0, call) == (
            false,
            Reply::Failed(not_initialized()),
        ),
{
}

/// `start` fills the slot exactly when the build succeeded, and then it
/// succeeds; when the build failed it fails and the slot is as it was.
pub proof fn lemma_start(live: bool, outcome: BuildOutcome)
    ensures
        outcome is Built ==> step(live, Call::Start(outcome)) == (true, Reply::Done),
        !(outcome is Built) ==> step(live, Call::Start(outcome)).0 == live && step(
            live,
            Call::Start(outcome),
        ).1 is Failed,
{
}

/// An acknowledgment and a negative acknowledgment that the broker client
/// both fails (a session that has lost its connection) both fail, on a live
/// slot and on an empty one, and the slot is as it was.
pub proof fn lemma_ack_then_nack_fail(live: bool, first: String, second: String)
    ensures
        step(live, Call::Ack(Err(first))).1 is Failed,
        step(live, Call::Ack(Err(first))).0 == live,
        step(step(live, Call::Ack(Err(first))).0, Call::Nack(Err(second))).1 is Failed,
        step(step(live, Call::Ack(Err(first))).0, Call::Nack(Err(second))).0 == live,
{
}

/// No operation succeeds silently: on a live slot an operation succeeds
/// exactly when the session has no failure to report, and `next` succeeds
/// only with a message.
pub proof fn lemma_live_slot_reports(call: Call)
    ensures
        step(true, call).1 is Failed <==> session_failure(call) is Some,
        call is Next ==> !(step(true, call).1 is Done),
        step(true, Call::Next(None)).1 is Failed,
{
}

/// One life of a session: built, a message received and acknowledged,
/// closed; the next call after that fails with [`not_initialized`].
pub proof fn lemma_lifecycle(delivery: Delivery, after: Option<Result<Delivery, String>>)
    ensures
        ({
            let s0 = false;
            let (s1, started) = step(s0, Call::Start(BuildOutcome::Built));
            let (s2, received) = step(s1, Call::Next(Some(Ok(delivery))));
            let (s3, acked) = step(s2, Call::Ack(Ok(())));
            let (s4, closed) = step(s3, Call::Close(Ok(())));
            let (s5, late) = step(s4, Call::Next(after));
            &&& started == Reply::Done
            &&& received == Reply::Message(message_of(delivery@))
            &&& received->Message_0.data == delivery.payload@
            &&& acked == Reply::Done
            &&& closed == Reply::Done
            &&& late == Reply::Failed(not_initialized())
            &&& !s5
        }),
{
}


} // verus!
