use sqs_replay::lookup_dlq_source_url;
use sqs_replay::lookup_url;
use sqs_replay::receive_one;
use sqs_replay::Message;
use sqs_replay::ReplayError;
use sqs_replay::TransportError;
use sqs_replay::DEFAULT_DELAY_MILLIS;

fn message(id: &str, body: &str) -> Message<u8> {
    Message {
        id: Some(id.to_string()),
        body: Some(body.to_string()),
        attributes: None,
        receipt_handle: Some(format!("handle-{}", id)),
    }
}

#[test]
fn name_that_resolves_gives_its_address() {
    let reply = Ok(Some("https://queue/orders-dlq".to_string()));
    let address = lookup_url(reply).expect("the name resolves");
    assert_eq!(address.as_str(), "https://queue/orders-dlq");
    assert_eq!(address.url(), "https://queue/orders-dlq".to_string());
}

#[test]
fn an_address_is_kept_letter_for_letter() {
    let odd = " HTTPS://Queue/Orders-DLQ?x=%20\u{00e9} ";
    let address = lookup_url(Ok(Some(odd.to_string()))).expect("the name resolves");
    assert_eq!(address.as_str(), odd);
    let empty = lookup_url(Ok(Some(String::new()))).expect("the name resolves");
    assert_eq!(empty.as_str(), "");
}

#[test]
fn addresses_are_equal_when_their_text_is() {
    let one = lookup_url(Ok(Some("https://queue/orders".to_string())));
    let other = lookup_dlq_source_url(Ok(vec!["https://queue/orders".to_string()]));
    let third = lookup_url(Ok(Some("https://queue/orders-dlq".to_string())));
    assert_eq!(one, other);
    assert_ne!(one, third);
}

#[test]
fn unknown_name_is_a_lookup_failure() {
    assert_eq!(lookup_url(Ok(None)), Err(ReplayError::LookupFailed));
}

#[test]
fn name_lookup_that_could_not_be_made_is_a_lookup_failure() {
    assert_eq!(lookup_url(Err(TransportError)), Err(ReplayError::LookupFailed));
}

#[test]
fn single_source_is_the_source() {
    let reply = Ok(vec!["https://queue/orders".to_string()]);
    let source = lookup_dlq_source_url(reply).expect("one source");
    assert_eq!(source.as_str(), "https://queue/orders");
}

#[test]
fn no_source_is_refused() {
    assert_eq!(lookup_dlq_source_url(Ok(vec![])), Err(ReplayError::NoSourceFound));
}

#[test]
fn two_sources_are_ambiguous() {
    let reply = Ok(vec!["https://queue/orders".to_string(), "https://queue/other-dlq".to_string()]);
    assert_eq!(lookup_dlq_source_url(reply), Err(ReplayError::AmbiguousSource));
}

#[test]
fn many_sources_are_ambiguous() {
    let mut sources = Vec::new();
    for i in 0..7 {
        sources.push(format!("https://queue/source-{}", i));
    }
    assert_eq!(lookup_dlq_source_url(Ok(sources)), Err(ReplayError::AmbiguousSource));
}

#[test]
fn the_same_source_listed_twice_is_still_ambiguous() {
    let reply = Ok(vec!["https://queue/orders".to_string(), "https://queue/orders".to_string()]);
    assert_eq!(lookup_dlq_source_url(reply), Err(ReplayError::AmbiguousSource));
}

#[test]
fn source_listing_that_could_not_be_made_is_a_lookup_failure() {
    assert_eq!(lookup_dlq_source_url(Err(TransportError)), Err(ReplayError::LookupFailed));
}

#[test]
fn an_absent_batch_holds_no_message() {
    assert_eq!(receive_one::<u8>(None), None);
}

#[test]
fn an_empty_batch_holds_no_message() {
    assert_eq!(receive_one::<u8>(Some(vec![])), None);
}

#[test]
fn a_batch_of_one_gives_that_message() {
    assert_eq!(receive_one(Some(vec![message("1", "a")])), Some(message("1", "a")));
}

#[test]
fn a_larger_batch_gives_its_first_message() {
    let batch = vec![message("1", "a"), message("2", "b"), message("3", "c")];
    assert_eq!(receive_one(Some(batch)), Some(message("1", "a")));
}

#[test]
fn a_message_is_logged_under_its_id() {
    assert_eq!(message("7f3a", "a").label(), "7f3a");
}

#[test]
fn a_message_without_id_is_logged_as_no_id() {
    let anonymous: Message<u8> =
        Message { id: None, body: Some("a".to_string()), attributes: None, receipt_handle: None };
    assert_eq!(anonymous.label(), "no-id");
}

#[test]
fn every_error_names_its_step() {
    assert_eq!(ReplayError::LookupFailed.message(), "failed to lookup queue");
    assert_eq!(ReplayError::NoSourceFound.message(), "DLQ has no source queue");
    assert_eq!(
        ReplayError::AmbiguousSource.message(),
        "DLQs with multiple sources queues not supported"
    );
    assert_eq!(ReplayError::ForwardFailed.message(), "failed to send");
    assert_eq!(ReplayError::AckFailed.message(), "failed to delete");
    assert_eq!(ReplayError::TransportFailed.message(), "could not read from queue");
}

#[test]
fn the_default_delay_is_one_second() {
    assert_eq!(DEFAULT_DELAY_MILLIS, 1000);
}
