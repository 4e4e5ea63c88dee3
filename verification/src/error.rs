//! The client-facing error taxonomy.
//!
//! A session has one kind of error. It carries text: which step failed, and
//! the broker client's own account of the cause, flattened.

use vstd::prelude::*;
use vstd::string::*;

verus! {

/// Every failure of a session operation, with its cause flattened to text.
#[derive(Clone, Debug, PartialEq, Eq)]
pub enum PulsarError {
    ConsumerError(String),
}

/// The step of a session at which the broker client reported a failure.
#[derive(Clone, Copy, Debug, PartialEq, Eq)]
pub enum Failure {
    /// The connection to the broker could not be established.
    BuildingClient,
    /// The connection stands, but the subscription could not be created.
    BuildingConsumer,
    /// The message stream yielded an error.
    Consuming,
    /// An acknowledgment could not be sent.
    Acknowledging,
    /// A negative acknowledgment could not be sent.
    NegativeAcknowledging,
    /// The connection could not be released.
    Closing,
}

impl Failure {
    /// The text that introduces the cause of a failure at this step. Both
    /// kinds of acknowledgment are introduced alike.
    pub open spec fn prefix(self) -> Seq<char> {
        match self {
            Failure::BuildingClient => "Error building pulsar: "@,
            Failure::BuildingConsumer => "Error building consumer: "@,
            Failure::Consuming => "Error consuming message: "@,
            Failure::Acknowledging => "Error acknowledging message: "@,
            Failure::NegativeAcknowledging => "Error acknowledging message: "@,
            Failure::Closing => "Error closing consumer: "@,
        }
    }

    /// The text of [`Failure::prefix`].
    pub fn prefix_str(self) -> (r: &'static str)
        ensures
            r@ == self.prefix(),
    {
        match self {
            Failure::BuildingClient => "Error building pulsar: ",
            Failure::BuildingConsumer => "Error building consumer: ",
            Failure::Consuming => "Error consuming message: ",
            Failure::Acknowledging => "Error acknowledging message: ",
            Failure::NegativeAcknowledging => "Error acknowledging message: ",
            Failure::Closing => "Error closing consumer: ",
        }
    }
}

/// The text that `{:?}` writes for a string of the given characters: the
/// characters between double quotes, with escapes where the standard library
/// puts them.
pub uninterp spec fn debug_quoted(s: Seq<char>) -> Seq<char>;

/// Formats a string slice with the standard library's `Debug` for `str`
/// (`format!("{:?}", s)`). The result is a function of the characters alone;
/// the contract gives it its name and says nothing else of it.
#[verifier::external_body]
fn debug_quote(s: &str) -> (r: String)
    ensures
        r@ == debug_quoted(s@),
{
    format!("{:?}", s)
}

impl PulsarError {
    /// The detail text carried by the error.
    pub open spec fn detail(self) -> Seq<char> {
        match self {
            PulsarError::ConsumerError(d) => d@,
        }
    }

    /// What [`PulsarError::to_string`] writes: the detail after a fixed
    /// introduction.
    pub open spec fn display_text(self) -> Seq<char> {
        "Consumer error: "@ + self.detail()
    }

    /// What [`PulsarError::debug_text`] writes: the variant's name around the
    /// quoted detail.
    pub open spec fn debug_spec(self) -> Seq<char> {
        "ConsumerError("@ + debug_quoted(self.detail()) + ")"@
    }

    /// The error for a failure at step `what`, whose cause the broker client
    /// described as `cause`.
    pub fn from_cause(what: Failure, cause: &str) -> (e: PulsarError)
        ensures
            e.detail() == what.prefix() + cause@,
    {
        let mut text = String::from_str(what.prefix_str());
        text.append(cause);
        PulsarError::ConsumerError(text)
    }

    /// The error for a message stream that ended without a message.
    pub fn no_message() -> (e: PulsarError)
        ensures
            e.detail() == "No message"@,
    {
        PulsarError::ConsumerError(String::from_str("No message"))
    }

    /// Borrows the detail text.
    pub fn message(&self) -> (m: &str)
        ensures
            m@ == self.detail(),
    {
        match self {
            PulsarError::ConsumerError(d) => d.as_str(),
        }
    }

    /// The error as a user reads it.
    pub fn to_string(&self) -> (r: String)
        ensures
            r@ == self.display_text(),
    {
        let mut text = String::from_str("Consumer error: ");
        text.append(self.message());
        text
    }

    /// The error as `{:?}` writes it, which is how an outer layer flattens it
    /// into its own message.
    pub fn debug_text(&self) -> (r: String)
        ensures
            r@ == self.debug_spec(),
    {
        let quoted = debug_quote(self.message());
        let mut text = String::from_str("ConsumerError(");
        text.append(quoted.as_str());
        text.append(")");
        text
    }
}

} // verus!
