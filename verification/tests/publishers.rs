use event_handler::interfaces::{Error, Publisher, RawMessage};
use event_handler::publishers::azure_storage_queue::{AzureStorageQueue, QueueMessage};
use event_handler::publishers::zeromq::assemble_frames;
use event_handler::publishers::{publisher_from_json_text, PublisherType};
use event_handler::routing::FlowMap;

#[test]
fn test_load_std_input() {
    let json_v = "{\"publisher_type\":\"StdInput\"}";
    let azure_publisher: PublisherType =
        publisher_from_json_text(json_v).expect("Unable to parse json as a valid publisher type");
    let _stdin = match azure_publisher {
        PublisherType::StdInput(v) => v,
        _ => panic!("Not expecting any other type other than AzureStorageQueue"),
    };
}

#[test]
fn test_load_azure_publisher_type() {
    let json_v = "{\"publisher_type\":\"AzureStorageQueue\",\"storage_account\":\"storage-account-name\",\"queue_name\":\"test\"}";
    let azure_publisher: PublisherType =
        publisher_from_json_text(json_v).expect("Unable to parse json as a valid publisher type");
    let _asq: AzureStorageQueue = match azure_publisher {
        PublisherType::AzureStorageQueue(v) => v,
        _ => panic!("Not expecting any other type other than AzureStorageQueue"),
    };
}

#[test]
fn azure_publisher_reads_mapping_and_repr() {
    let json_v = "{\"publisher_type\":\"AzureStorageQueue\",\"storage_account\":\"acct\",\"queue_name\":\"q1\",\"message_flow_actions\":{\"Greet\":\"HelloFlow/prod\"}}";
    let p = publisher_from_json_text(json_v).expect("valid publisher entry");
    match p {
        PublisherType::AzureStorageQueue(q) => {
            assert_eq!(q.repr(), "acct/q1");
            assert_eq!(
                q.flow_action_map().lookup(&"Greet".to_string()),
                Some("HelloFlow/prod".to_string())
            );
        }
        _ => panic!("expected the queue-backed variant"),
    }
}

#[test]
fn zmq_publisher_reads_fields() {
    let json_v = "{\"publisher_type\":\"Zmq\",\"tcp_uri\":\"tcp://127.0.0.1:5555\",\"topic\":\"preftopic\",\"message_flow_actions\":{\"Greet\":\"HelloFlow/prod\"}}";
    let p = publisher_from_json_text(json_v).expect("valid publisher entry");
    match p {
        PublisherType::Zmq(z) => {
            assert_eq!(z.repr(), "ZMQ tcp://127.0.0.1:5555");
            assert_eq!(
                z.flow_action_map().lookup(&"Greet".to_string()),
                Some("HelloFlow/prod".to_string())
            );
        }
        _ => panic!("expected the subscribe-backed variant"),
    }
}

#[test]
fn unknown_publisher_tag_is_input_error() {
    let r = publisher_from_json_text("{\"publisher_type\":\"Carrier\"}");
    assert_eq!(
        r.unwrap_err(),
        Error::InputError("Unable to parse json as a valid publisher type".to_string())
    );
}

#[test]
fn azure_publisher_missing_queue_name_is_configuration_error() {
    let r = publisher_from_json_text(
        "{\"publisher_type\":\"AzureStorageQueue\",\"storage_account\":\"acct\"}",
    );
    assert_eq!(
        r.unwrap_err(),
        Error::ConfigurationError(
            "AzureStorageQueue publisher requires storage_account and queue_name".to_string()
        )
    );
}

#[test]
fn mapping_with_non_string_value_is_configuration_error() {
    let r = publisher_from_json_text(
        "{\"publisher_type\":\"Zmq\",\"tcp_uri\":\"u\",\"topic\":\"t\",\"message_flow_actions\":{\"Greet\":7}}",
    );
    assert!(matches!(r.unwrap_err(), Error::ConfigurationError(_)));
}

fn msg(text: &str, id: &str) -> QueueMessage {
    QueueMessage {
        message_text: text.to_string(),
        message_id: id.to_string(),
        pop_receipt: format!("receipt-{}", id),
    }
}

#[test]
fn queue_buffer_serves_buffered_messages_before_fetching() {
    let mut q = AzureStorageQueue::new("acct".to_string(), "q1".to_string(), FlowMap::new(Vec::new()));
    assert!(q.needs_fetch());
    q.store_batch(vec![msg("m1", "1"), msg("m2", "2")]);
    assert!(!q.needs_fetch());
    let first = q.pop_message().expect("buffer holds messages");
    assert_eq!(first.get_content_str(), "m2");
    assert!(!q.needs_fetch());
    let second = q.pop_message().expect("buffer holds one more");
    assert_eq!(second.get_content_str(), "m1");
    assert!(q.needs_fetch());
}

#[test]
fn queue_empty_fetch_is_not_an_error() {
    let mut q = AzureStorageQueue::new("acct".to_string(), "q1".to_string(), FlowMap::new(Vec::new()));
    q.store_batch(Vec::new());
    assert!(q.needs_fetch());
    assert!(q.pop_message().is_none());
    assert!(q.needs_fetch());
}

#[test]
fn assemble_frames_concatenates_parts() {
    let parts = vec![Some("ab".to_string()), Some("cd".to_string())];
    assert_eq!(assemble_frames(&parts), Some("abcd".to_string()));
    let empty: Vec<Option<String>> = Vec::new();
    assert_eq!(assemble_frames(&empty), Some("".to_string()));
}

#[test]
fn assemble_frames_rejects_undecodable_part() {
    let parts = vec![Some("ab".to_string()), None, Some("cd".to_string())];
    assert_eq!(assemble_frames(&parts), None);
}
