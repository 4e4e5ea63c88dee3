use pulsar_consumer::error::{Failure, PulsarError};

#[test]
fn an_error_carries_its_detail() {
    let e = PulsarError::ConsumerError("lost".to_string());
    assert_eq!(e.message(), "lost");
}

#[test]
fn an_error_reads_with_its_introduction() {
    let e = PulsarError::ConsumerError("No message".to_string());
    assert_eq!(e.to_string(), "Consumer error: No message");
    assert_eq!(PulsarError::ConsumerError(String::new()).to_string(), "Consumer error: ");
}

#[test]
fn each_step_introduces_its_cause() {
    let cases = [
        (Failure::BuildingClient, "Error building pulsar: timeout"),
        (Failure::BuildingConsumer, "Error building consumer: timeout"),
        (Failure::Consuming, "Error consuming message: timeout"),
        (Failure::Acknowledging, "Error acknowledging message: timeout"),
        (Failure::NegativeAcknowledging, "Error acknowledging message: timeout"),
        (Failure::Closing, "Error closing consumer: timeout"),
    ];
    for (what, text) in cases {
        assert_eq!(PulsarError::from_cause(what, "timeout"), PulsarError::ConsumerError(text.to_string()));
        assert_eq!(format!("{}timeout", what.prefix_str()), text);
    }
}

#[test]
fn an_empty_cause_leaves_the_introduction() {
    let e = PulsarError::from_cause(Failure::Closing, "");
    assert_eq!(e.message(), "Error closing consumer: ");
}

#[test]
fn the_end_of_the_stream_is_an_error() {
    assert_eq!(PulsarError::no_message(), PulsarError::ConsumerError("No message".to_string()));
}

#[test]
fn debug_text_quotes_the_detail() {
    let e = PulsarError::ConsumerError("x".to_string());
    assert_eq!(e.debug_text(), "ConsumerError(\"x\")");
    assert_ne!(e.debug_text(), "ConsumerError(x)");
}

#[test]
fn debug_text_is_what_debug_formatting_writes() {
    let details = ["", "plain", "with \"quotes\"", "back\\slash", "line\nbreak\ttab", "é ü 日本", "\u{0}\u{7f}"];
    for d in details {
        let e = PulsarError::ConsumerError(d.to_string());
        assert_eq!(e.debug_text(), format!("{:?}", e));
    }
}
