//! The consumer session: what it asks of the broker client, and what it makes
//! of the broker client's answers.
//!
//! The session does no I/O itself. For each operation it says what is to be
//! done against the broker (a plan or an acknowledgment), and it turns what
//! came back (a delivery, a failure described in text) into the result that
//! the caller sees.

use crate::error::{Failure, PulsarError};
use crate::types::{
    decode_id, encode_message_id, MessageContent, MessageData, MessageIdData, NativeMessageId,
    PulsarMessage, PulsarMessageId,
};
use vstd::prelude::*;

verus! {

/// Seconds within which the broker must answer one operation.
pub const OPERATION_TIMEOUT_SECS: u64 = 30;

/// Seconds between two attempts at an operation.
pub const RETRY_DELAY_SECS: u64 = 5;

/// Attempts at an operation before the session gives up.
pub const MAX_RETRIES: u32 = 60;

/// Seconds after which a message left unacknowledged is sent again.
pub const UNACKED_RESEND_DELAY_SECS: u64 = 60;

/// Where to connect and which subscription to consume, as plain strings.
/// Nothing is validated here; the broker client enforces what it enforces.
#[derive(Debug, Clone, PartialEq, Eq)]
pub struct PulsarConsumerConfig {
    pub broker_url: String,
    pub topic: String,
    pub subscription_name: String,
    pub consumer_name: String,
    pub consumer_id: String,
}

/// What a [`PulsarConsumerConfig`] holds.
pub ghost struct ConfigView {
    pub broker_url: Seq<char>,
    pub topic: Seq<char>,
    pub subscription_name: Seq<char>,
    pub consumer_name: Seq<char>,
    pub consumer_id: Seq<char>,
}

impl View for PulsarConsumerConfig {
    type V = ConfigView;

    open spec fn view(&self) -> ConfigView {
        ConfigView {
            broker_url: self.broker_url@,
            topic: self.topic@,
            subscription_name: self.subscription_name@,
            consumer_name: self.consumer_name@,
            consumer_id: self.consumer_id@,
        }
    }
}

impl PulsarConsumerConfig {
    /// A copy with the same five strings.
    pub fn duplicate(&self) -> (r: PulsarConsumerConfig)
        ensures
            r@ == self@,
    {
        PulsarConsumerConfig {
            broker_url: self.broker_url.clone(),
            topic: self.topic.clone(),
            subscription_name: self.subscription_name.clone(),
            consumer_name: self.consumer_name.clone(),
            consumer_id: self.consumer_id.clone(),
        }
    }
}

/// How long one broker operation may take and how often it is tried again.
#[derive(Debug, Clone, Copy, PartialEq, Eq)]
pub struct OperationRetryOptions {
    pub operation_timeout_secs: u64,
    pub retry_delay_secs: u64,
    /// `None` stands for retrying without end.
    pub max_retries: Option<u32>,
}

/// How the consumers of one subscription share its messages.
#[derive(Debug, Clone, Copy, PartialEq, Eq)]
pub enum SubType {
    Exclusive,
    Shared,
    Failover,
    KeyShared,
}

/// Where a new subscription starts reading.
#[derive(Debug, Clone, Copy, PartialEq, Eq)]
pub enum InitialPosition {
    Earliest,
    Latest,
}

/// What the session asks for when it connects.
#[derive(Debug, Clone, PartialEq, Eq)]
pub struct ConnectionPlan {
    pub broker_url: String,
    pub retry: OperationRetryOptions,
}

/// What the session asks for when it subscribes.
#[derive(Debug, Clone, PartialEq, Eq)]
pub struct SubscriptionPlan {
    pub topic: String,
    pub consumer_name: String,
    pub subscription: String,
    pub sub_type: SubType,
    pub initial_position: InitialPosition,
    /// `None` stands for never sending an unacknowledged message again.
    pub unacked_message_resend_delay_secs: Option<u64>,
}

/// How an attempt to connect and subscribe ended. A failure carries the
/// broker client's description of its cause.
#[derive(Debug, Clone, PartialEq, Eq)]
pub enum BuildOutcome {
    Built,
    ClientFailed(String),
    ConsumerFailed(String),
}

/// One message as the broker client hands it over.
#[derive(Debug, Clone, PartialEq, Eq)]
pub struct Delivery {
    pub payload: Vec<u8>,
    pub message_id: MessageData,
}

/// What a [`Delivery`] holds.
pub ghost struct DeliveryView {
    pub payload: Seq<u8>,
    pub message_id: NativeMessageId,
}

impl View for Delivery {
    type V = DeliveryView;

    open spec fn view(&self) -> DeliveryView {
        DeliveryView { payload: self.payload@, message_id: self.message_id@ }
    }
}

/// What is sent to the broker to acknowledge a message, positively or
/// negatively: the session's topic and the broker's own identifier.
#[derive(Debug, Clone, PartialEq, Eq)]
pub struct Acknowledgment {
    pub topic: String,
    pub id: MessageIdData,
}

/// The retry policy of every session: thirty seconds per operation, five
/// seconds between attempts, sixty attempts.
pub open spec fn retry_policy() -> OperationRetryOptions {
    OperationRetryOptions {
        operation_timeout_secs: OPERATION_TIMEOUT_SECS,
        retry_delay_secs: RETRY_DELAY_SECS,
        max_retries: Some(MAX_RETRIES),
    }
}

/// The message that the caller gets for a delivery: the payload byte for
/// byte, the identifier in its host-safe form.
pub open spec fn message_of(d: DeliveryView) -> MessageContent {
    MessageContent { data: d.payload, message_id: encode_message_id(d.message_id) }
}

/// The detail of the error for a failure at step `what` with cause `cause`.
pub open spec fn failure_detail(what: Failure, cause: Seq<char>) -> Seq<char> {
    what.prefix() + cause
}

/// A live consumer session. It remembers the configuration it was built
/// with; the connection itself is held by whoever performs the I/O.
#[derive(Debug, Clone, PartialEq, Eq)]
pub struct PulsarConsumer {
    pub config: PulsarConsumerConfig,
}

impl View for PulsarConsumer {
    type V = ConfigView;

    open spec fn view(&self) -> ConfigView {
        self.config@
    }
}

impl PulsarConsumer {
    /// What to ask of the broker client when connecting: the configured URL
    /// under the fixed retry policy.
    pub fn connection_plan(config: &PulsarConsumerConfig) -> (plan: ConnectionPlan)
        ensures
            plan.broker_url@ == config@.broker_url,
            plan.retry == retry_policy(),
    {
        ConnectionPlan {
            broker_url: config.broker_url.clone(),
            retry: OperationRetryOptions {
                operation_timeout_secs: OPERATION_TIMEOUT_SECS,
                retry_delay_secs: RETRY_DELAY_SECS,
                max_retries: Some(MAX_RETRIES),
            },
        }
    }

    /// What to ask of the broker client when subscribing: the configured
    /// topic, consumer name and subscription; a shared subscription, so that
    /// independent consumers do not disturb one another; reading from the
    /// earliest available message; unacknowledged messages sent again after
    /// sixty seconds.
    pub fn subscription_plan(config: &PulsarConsumerConfig) -> (plan: SubscriptionPlan)
        ensures
            plan.topic@ == config@.topic,
            plan.consumer_name@ == config@.consumer_name,
            plan.subscription@ == config@.subscription_name,
            plan.sub_type == SubType::Shared,
            plan.initial_position == InitialPosition::Earliest,
            plan.unacked_message_resend_delay_secs == Some(UNACKED_RESEND_DELAY_SECS),
    {
        SubscriptionPlan {
            topic: config.topic.clone(),
            consumer_name: config.consumer_name.clone(),
            subscription: config.subscription_name.clone(),
            sub_type: SubType::Shared,
            initial_position: InitialPosition::Earliest,
            unacked_message_resend_delay_secs: Some(UNACKED_RESEND_DELAY_SECS),
        }
    }

    /// Makes the session from the outcome of connecting and subscribing. A
    /// session exists exactly when both succeeded; a failure of either names
    /// the step and embeds the cause.
    pub fn new(config: PulsarConsumerConfig, outcome: BuildOutcome) -> (r: Result<
        PulsarConsumer,
        PulsarError,
    >)
        ensures
            match outcome {
                BuildOutcome::Built => r matches Ok(c) && c@ == config@,
                BuildOutcome::ClientFailed(cause) => r matches Err(e) && e.detail()
                    == failure_detail(Failure::BuildingClient, cause@),
                BuildOutcome::ConsumerFailed(cause) => r matches Err(e) && e.detail()
                    == failure_detail(Failure::BuildingConsumer, cause@),
            },
    {
        match outcome {
            BuildOutcome::Built => Ok(PulsarConsumer { config }),
            BuildOutcome::ClientFailed(cause) => Err(
                PulsarError::from_cause(Failure::BuildingClient, cause.as_str()),
            ),
            BuildOutcome::ConsumerFailed(cause) => Err(
                PulsarError::from_cause(Failure::BuildingConsumer, cause.as_str()),
            ),
        }
    }

    /// Turns what the message stream yielded into the caller's result. A
    /// delivery becomes a message; an error of the stream becomes an error
    /// that embeds its cause; the end of the stream is an error too, never
    /// an empty success.
    pub fn next(&mut self, delivery: Option<Result<Delivery, String>>) -> (r: Result<
        PulsarMessage,
        PulsarError,
    >)
        ensures
            *final(self) == *old(self),
            match delivery {
                Some(Ok(d)) => r matches Ok(m) && m@ == message_of(d@),
                Some(Err(cause)) => r matches Err(e) && e.detail() == failure_detail(
                    Failure::Consuming,
                    cause@,
                ),
                None => r matches Err(e) && e.detail() == "No message"@,
            },
    {
        match delivery {
            Some(Ok(d)) => Ok(
                PulsarMessage { data: d.payload, message_id: PulsarMessageId::from(d.message_id) },
            ),
            Some(Err(cause)) => Err(PulsarError::from_cause(Failure::Consuming, cause.as_str())),
            None => Err(PulsarError::no_message()),
        }
    }

    /// What to send to the broker to acknowledge, positively or negatively,
    /// the message that the host names by `message_id`: the session's topic
    /// and the identifier decoded.
    pub fn acknowledgment(&self, message_id: PulsarMessageId) -> (a: Acknowledgment)
        ensures
            a.topic@ == self@.topic,
            a.id@ == decode_id(message_id@.id),
    {
        let native = MessageData::from(message_id);
        Acknowledgment { topic: self.config.topic.clone(), id: native.id }
    }

    /// Turns the broker client's answer to an acknowledgment into the
    /// caller's result. On failure the message counts as not acknowledged.
    pub fn ack(&mut self, outcome: Result<(), String>) -> (r: Result<(), PulsarError>)
        ensures
            *final(self) == *old(self),
            match outcome {
                Ok(_) => r is Ok,
                Err(cause) => r matches Err(e) && e.detail() == failure_detail(
                    Failure::Acknowledging,
                    cause@,
                ),
            },
    {
        match outcome {
            Ok(_) => Ok(()),
            Err(cause) => Err(PulsarError::from_cause(Failure::Acknowledging, cause.as_str())),
        }
    }

    /// Turns the broker client's answer to a negative acknowledgment into
    /// the caller's result.
    pub fn nack(&mut self, outcome: Result<(), String>) -> (r: Result<(), PulsarError>)
        ensures
            *final(self) == *old(self),
            match outcome {
                Ok(_) => r is Ok,
                Err(cause) => r matches Err(e) && e.detail() == failure_detail(
                    Failure::NegativeAcknowledging,
                    cause@,
                ),
            },
    {
        match outcome {
            Ok(_) => Ok(()),
            Err(cause) => Err(
                PulsarError::from_cause(Failure::NegativeAcknowledging, cause.as_str()),
            ),
        }
    }

    /// Turns the broker client's answer to releasing the connection into the
    /// caller's result.
    pub fn close(&mut self, outcome: Result<(), String>) -> (r: Result<(), PulsarError>)
        ensures
            *final(self) == *old(self),
            match outcome {
                Ok(_) => r is Ok,
                Err(cause) => r matches Err(e) && e.detail() == failure_detail(
                    Failure::Closing,
                    cause@,
                ),
            },
    {
        match outcome {
            Ok(_) => Ok(()),
            Err(cause) => Err(PulsarError::from_cause(Failure::Closing, cause.as_str())),
        }
    }
}

} // verus!
