use event_handler::interfaces::Error;
use event_handler::routing::{
    parse_message, route, route_content, split_action, FlowMap, MessageFields,
};

fn greet_map() -> FlowMap {
    FlowMap::new(vec![("Greet".to_string(), "HelloFlow/prod".to_string())])
}

#[test]
fn self_describing_message_routes_unchanged() {
    let fields = MessageFields {
        flow_name: Some("F".to_string()),
        deployment_name: Some("D".to_string()),
        message_type: None,
        payload: Some("{\"a\":1}".to_string()),
    };
    let env = route(fields, &greet_map()).expect("self-describing message must route");
    assert_eq!(env.flow_name, "F");
    assert_eq!(env.deployment_name, "D");
    assert_eq!(env.payload, Some("{\"a\":1}".to_string()));
}

#[test]
fn indirect_message_routes_through_mapping() {
    let fields = MessageFields {
        flow_name: None,
        deployment_name: None,
        message_type: Some("Greet".to_string()),
        payload: Some("{\"p\":2}".to_string()),
    };
    let env = route(fields, &greet_map()).expect("mapped message type must route");
    assert_eq!(env.flow_name, "HelloFlow");
    assert_eq!(env.deployment_name, "prod");
    assert_eq!(env.payload, Some("{\"p\":2}".to_string()));
}

#[test]
fn unmapped_message_type_is_input_error() {
    let fields = MessageFields {
        flow_name: None,
        deployment_name: None,
        message_type: Some("Farewell".to_string()),
        payload: None,
    };
    let r = route(fields, &greet_map());
    assert_eq!(
        r.unwrap_err(),
        Error::InputError("No flow action is mapped for message type Farewell".to_string())
    );
}

#[test]
fn mapped_action_without_separator_is_input_error() {
    let map = FlowMap::new(vec![("Greet".to_string(), "HelloFlowProd".to_string())]);
    let fields = MessageFields {
        flow_name: None,
        deployment_name: None,
        message_type: Some("Greet".to_string()),
        payload: None,
    };
    let r = route(fields, &map);
    assert!(matches!(r.unwrap_err(), Error::InputError(_)));
}

#[test]
fn mapped_action_with_two_separators_is_input_error() {
    let map = FlowMap::new(vec![("Greet".to_string(), "a/b/c".to_string())]);
    let fields = MessageFields {
        flow_name: None,
        deployment_name: None,
        message_type: Some("Greet".to_string()),
        payload: None,
    };
    let r = route(fields, &map);
    assert!(matches!(r.unwrap_err(), Error::InputError(_)));
}

#[test]
fn message_with_neither_mode_is_input_error() {
    let fields = MessageFields {
        flow_name: Some("F".to_string()),
        deployment_name: None,
        message_type: None,
        payload: None,
    };
    let r = route(fields, &greet_map());
    assert_eq!(
        r.unwrap_err(),
        Error::InputError("Message does not appear to be a valid QMessage - skipping".to_string())
    );
}

#[test]
fn split_action_splits_at_single_separator() {
    assert_eq!(
        split_action("HelloFlow/prod"),
        Some(("HelloFlow".to_string(), "prod".to_string()))
    );
    assert_eq!(split_action("/prod"), Some(("".to_string(), "prod".to_string())));
    assert_eq!(split_action("/"), Some(("".to_string(), "".to_string())));
}

#[test]
fn split_action_rejects_other_counts() {
    assert_eq!(split_action(""), None);
    assert_eq!(split_action("HelloFlowProd"), None);
    assert_eq!(split_action("a/b/c"), None);
}

#[test]
fn flow_map_lookup_finds_first_match() {
    let map = FlowMap::new(vec![
        ("A".to_string(), "f1/d1".to_string()),
        ("B".to_string(), "f2/d2".to_string()),
        ("A".to_string(), "f3/d3".to_string()),
    ]);
    assert_eq!(map.lookup(&"A".to_string()), Some("f1/d1".to_string()));
    assert_eq!(map.lookup(&"B".to_string()), Some("f2/d2".to_string()));
    assert_eq!(map.lookup(&"C".to_string()), None);
}

#[test]
fn parse_message_reads_fields_and_payload_text() {
    let fields =
        parse_message("{\"message_type\":\"Greet\",\"payload\":[1,2]}").expect("valid json");
    assert_eq!(fields.message_type, Some("Greet".to_string()));
    assert_eq!(fields.flow_name, None);
    assert_eq!(fields.deployment_name, None);
    assert_eq!(fields.payload, Some("[1,2]".to_string()));
}

#[test]
fn parse_message_rejects_invalid_json() {
    assert!(parse_message("not valid json").is_err());
}

#[test]
fn route_content_invalid_json_is_input_error() {
    let r = route_content("not valid json", &greet_map());
    match r {
        Err(Error::InputError(m)) => {
            assert!(m.starts_with(
                "Unable to construct valid QMessage from content. Is likely invalid json: "
            ));
        }
        other => panic!("expected an input error, got {:?}", other),
    }
}

#[test]
fn route_content_routes_valid_message() {
    let env = route_content("{\"message_type\":\"Greet\"}", &greet_map())
        .expect("mapped message must route");
    assert_eq!(env.flow_name, "HelloFlow");
    assert_eq!(env.deployment_name, "prod");
    assert_eq!(env.payload, None);
}
