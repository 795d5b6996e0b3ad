use telemetry_bridge::auth::basic_auth_header_value;
use telemetry_bridge::browse::{is_device_node, match_tag_references, BrowseReference};
use telemetry_bridge::config::{
    Configuration, DateRange, Filter, HeaderConfig, Message, OpcConfig, TagType,
};
use telemetry_bridge::discovery::{strip_frame, DiscoveryState};
use telemetry_bridge::envelope::build_envelope;
use telemetry_bridge::orchestrator::{average_per_second, chunks_of, partition_for_producers, SystemInitializer};
use telemetry_bridge::record::build_sample;
use telemetry_bridge::session::client_settings;
use telemetry_bridge::subscription::{
    monitored_item_chunks, subscribe_batches, subscription_params, tag_node_addresses,
};
use telemetry_bridge::text::last_segment;

#[test]
fn rfc3339_conversion_to_epoch_millis() {
    let node = b"ns=2;s=Channel1.Device7.Temperature".to_vec();
    let bits = 23.5f64.to_bits();
    let sample = build_sample(&node, Some(bits), Some("2024-05-17T10:15:30.250+02:00"))
        .expect("a float value with a valid timestamp is accepted");
    assert_eq!(sample.timestamp_ms, 1715933730250);
    assert_eq!(sample.value_bits, bits);
    assert_eq!(f64::from_bits(sample.value_bits), 23.5);
    assert_eq!(sample.batch_id, 1000);
    assert_eq!(sample.sensor, b"Temperature".to_vec());
}

#[test]
fn utc_timestamp_passes_through() {
    let node = b"ns=2;s=A.B".to_vec();
    let sample = build_sample(&node, Some(0), Some("1970-01-01T00:00:01Z")).unwrap();
    assert_eq!(sample.timestamp_ms, 1000);
}

#[test]
fn non_float_notification_is_dropped() {
    let node = b"ns=2;s=Channel1.Device7.Temperature".to_vec();
    assert!(build_sample(&node, None, Some("2024-05-17T10:15:30.250+02:00")).is_none());
}

#[test]
fn missing_timestamp_is_dropped() {
    let node = b"ns=2;s=Channel1.Device7.Temperature".to_vec();
    assert!(build_sample(&node, Some(1.0f64.to_bits()), None).is_none());
}

#[test]
fn malformed_timestamp_is_dropped() {
    let node = b"ns=2;s=Channel1.Device7.Temperature".to_vec();
    assert!(build_sample(&node, Some(1.0f64.to_bits()), Some("yesterday at noon")).is_none());
}

#[test]
fn sensor_is_last_dot_segment() {
    assert_eq!(
        last_segment(&b"ns=2;s=Channel1.Device7.Temperature".to_vec()),
        b"Temperature".to_vec()
    );
    assert_eq!(last_segment(&b"NoDotsHere".to_vec()), b"NoDotsHere".to_vec());
    assert_eq!(last_segment(&b"trailing.".to_vec()), b"".to_vec());
}

#[test]
fn device_display_names_are_recognized() {
    assert!(is_device_node(&b"Channel1.Device7".to_vec()));
    assert!(is_device_node(&b"Device1".to_vec()));
    assert!(is_device_node(&b"prefix Device102 suffix".to_vec()));
    assert!(!is_device_node(&b"Device0".to_vec()));
    assert!(!is_device_node(&b"Channel1".to_vec()));
    assert!(!is_device_node(&b"device7".to_vec()));
    assert!(!is_device_node(&b"".to_vec()));
}

#[test]
fn only_tags_in_the_set_are_matched() {
    let refs = vec![
        BrowseReference {
            display_name: b"Temperature".to_vec(),
            node_id_text: b"0123456789012ns=2;s=D.Temperature".to_vec(),
        },
        BrowseReference {
            display_name: b"Humidity".to_vec(),
            node_id_text: b"0123456789012ns=2;s=D.Humidity".to_vec(),
        },
        BrowseReference {
            display_name: b"Temperature".to_vec(),
            node_id_text: b"0123456789012ns=2;s=E.Temperature".to_vec(),
        },
    ];
    let tags = vec![b"Temperature".to_vec()];
    let matched = match_tag_references(&refs, &tags);
    // the 13-byte serialization prefix is stripped; duplicates stay
    assert_eq!(
        matched,
        vec![b"ns=2;s=D.Temperature".to_vec(), b"ns=2;s=E.Temperature".to_vec()]
    );
}

#[test]
fn no_matches_outside_the_tag_set() {
    let refs = vec![BrowseReference {
        display_name: b"Pressure".to_vec(),
        node_id_text: b"0123456789012ns=2;s=D.Pressure".to_vec(),
    }];
    let tags = vec![b"Temperature".to_vec()];
    assert!(match_tag_references(&refs, &tags).is_empty());
}

#[test]
fn envelope_pairs_every_record_with_the_type_constant() {
    let env = build_envelope(vec![vec![9], vec![8], vec![7]]);
    assert_eq!(env.types, vec![7201, 7201, 7201]);
    assert_eq!(env.messages, vec![vec![9u8], vec![8u8], vec![7u8]]);
    let empty = build_envelope(Vec::new());
    assert!(empty.types.is_empty());
    assert!(empty.messages.is_empty());
}

fn quirked(base: &str) -> Vec<u8> {
    // insert one byte so that it sits at index 31, and one so that it
    // is the penultimate byte once the first is gone again
    let mut m: Vec<u8> = base.as_bytes().to_vec();
    m.insert(m.len() - 1, b'Y');
    let mut s = m;
    s.insert(31, b'X');
    s
}

#[test]
fn discovery_strip_removes_both_quirk_bytes() {
    let base = "abcdefghijklmnopqrstuvwxyz0123456789";
    let framed = quirked(base);
    assert_eq!(framed[31], b'X');
    assert_eq!(framed[framed.len() - 2], b'Y');
    assert_eq!(strip_frame(&framed), base.as_bytes().to_vec());
}

#[test]
fn discovery_frame_yields_tag_names() {
    let base = r#"{"msg":{"data":[{"tagName":"T1"},{"tagName":"T2"}],"finalBatch":true}}"#;
    let framed = quirked(base);
    let mut state = DiscoveryState::new();
    assert!(!state.is_finished());
    state.process_frame(&framed).expect("the frame parses after the strip");
    assert!(state.is_finished());
    assert_eq!(state.into_tags(), vec![b"T1".to_vec(), b"T2".to_vec()]);
}

#[test]
fn discovery_accumulates_across_frames() {
    let first = quirked(r#"{"msg":{"data":[{"tagName":"A"}],"finalBatch":false}}"#);
    let second = quirked(r#"{"msg":{"data":[{"tagName":"B"}],"finalBatch":true}}"#);
    let mut state = DiscoveryState::new();
    state.process_frame(&first).unwrap();
    assert!(!state.is_finished());
    state.process_frame(&second).unwrap();
    assert!(state.is_finished());
    assert_eq!(state.into_tags(), vec![b"A".to_vec(), b"B".to_vec()]);
}

#[test]
fn discovery_without_final_flag_keeps_reading() {
    let frame = quirked(r#"{"msg":{"data":[{"tagName":"OnlyOne"}]}}"#);
    let mut state = DiscoveryState::new();
    state.process_frame(&frame).unwrap();
    assert!(!state.is_finished());
    assert_eq!(state.into_tags(), vec![b"OnlyOne".to_vec()]);
}

#[test]
fn discovery_parse_error_is_surfaced() {
    let garbage = b"this is not json but it is long enough to strip".to_vec();
    let mut state = DiscoveryState::new();
    assert!(state.process_frame(&garbage).is_err());
    assert_eq!(state.into_tags(), vec![b"Server didn't respond".to_vec()]);
}

#[test]
fn empty_discovery_returns_the_sentinel() {
    let state = DiscoveryState::new();
    assert_eq!(state.into_tags(), vec![b"Server didn't respond".to_vec()]);
}

#[test]
fn basic_auth_header_is_base64_of_credentials() {
    let value = basic_auth_header_value(&b"user".to_vec(), &b"pass".to_vec());
    assert_eq!(value, b"Basic dXNlcjpwYXNz".to_vec());
    let empty = basic_auth_header_value(&b"".to_vec(), &b"".to_vec());
    assert_eq!(empty, b"Basic Og==".to_vec());
}

fn sample_configuration() -> Configuration {
    Configuration {
        base: "wss://c2.example:8443/ws".to_owned(),
        header: HeaderConfig {
            key: "Authorization".to_owned(),
            username: "user".to_owned(),
            password: "pass".to_owned(),
        },
        message: Message {
            msg_type: "getTags".to_owned(),
            filter: Filter {
                date_range: DateRange { id: 0, duration: 0, selection: 0, from_date: 0, to_date: 0 },
                id: 1,
                tag_type: TagType { id: 2 },
                last_modified: 0,
                asset_name: "".to_owned(),
                starting_row: 0,
                max_record_count: 5000,
                order_by_property: "name".to_owned(),
                descending: false,
                filter_deleted: false,
            },
        },
        opc: OpcConfig {
            url: "opc.tcp://server:49320".to_owned(),
            username: "opc-user".to_owned(),
            password: "opc-pass".to_owned(),
        },
        num_producers: 3,
        num_consumers: 2,
    }
}

#[test]
fn configuration_getters_echo_the_fields() {
    let config = sample_configuration();
    assert_eq!(config.get_base(), "wss://c2.example:8443/ws");
    assert_eq!(config.get_header_key(), "Authorization");
    assert_eq!(config.get_header_value(), b"Basic dXNlcjpwYXNz".to_vec());
    assert_eq!(config.get_opc_url(), "opc.tcp://server:49320");
    assert_eq!(config.get_opc_username(), "opc-user");
    assert_eq!(config.get_opc_password(), "opc-pass");
    assert_eq!(config.get_num_producers(), 3);
    assert_eq!(config.get_num_consumers(), 2);
    assert_eq!(config.get_message().msg_type, "getTags");
}

#[test]
fn partitioning_1000_tags_across_3_producers() {
    let tags: Vec<Vec<u8>> = (0u32..1000).map(|i| i.to_le_bytes().to_vec()).collect();
    let chunks = partition_for_producers(&tags, 3);
    let sizes: Vec<usize> = chunks.iter().map(|c| c.len()).collect();
    assert_eq!(sizes, vec![333, 333, 333, 1]);
    let rejoined: Vec<Vec<u8>> = chunks.into_iter().flatten().collect();
    assert_eq!(rejoined, tags);
}

#[test]
fn exact_partition_has_no_trailing_chunk() {
    let tags: Vec<Vec<u8>> = (0u8..6).map(|i| vec![i]).collect();
    let chunks = partition_for_producers(&tags, 2);
    let sizes: Vec<usize> = chunks.iter().map(|c| c.len()).collect();
    assert_eq!(sizes, vec![3, 3]);
}

#[test]
fn chunking_empty_input_gives_no_chunks() {
    let chunks = chunks_of(&Vec::new(), 4);
    assert!(chunks.is_empty());
}

#[test]
fn system_initializer_partitions_its_tags() {
    let tags: Vec<Vec<u8>> = (0u8..7).map(|i| vec![i]).collect();
    let init = SystemInitializer::new(tags.clone(), 3, 2);
    assert_eq!(init.num_producers, 3);
    assert_eq!(init.num_consumers, 2);
    let chunks = init.partition_tags();
    let sizes: Vec<usize> = chunks.iter().map(|c| c.len()).collect();
    assert_eq!(sizes, vec![2, 2, 2, 1]);
}

#[test]
fn metrics_average_is_window_over_ten() {
    assert_eq!(average_per_second(57), 5);
    assert_eq!(average_per_second(0), 0);
    assert_eq!(average_per_second(200), 20);
}

#[test]
fn subscription_parameters_are_fixed() {
    let p = subscription_params();
    assert_eq!(p.publishing_interval_ms, 1000);
    assert_eq!(p.lifetime_count, 90);
    assert_eq!(p.max_keep_alive_count, 30);
    assert_eq!(p.max_notifications_per_publish, 0);
    assert_eq!(p.priority, 0);
    assert!(p.publishing_enabled);
}

#[test]
fn monitored_items_are_chunked_at_809() {
    let ids: Vec<Vec<u8>> = (0u32..1700).map(|i| i.to_le_bytes().to_vec()).collect();
    let chunks = monitored_item_chunks(&ids);
    let sizes: Vec<usize> = chunks.iter().map(|c| c.len()).collect();
    assert_eq!(sizes, vec![809, 809, 82]);
}

#[test]
fn subscribe_batches_are_chunked_at_1000() {
    let ids: Vec<Vec<u8>> = (0u32..2500).map(|i| i.to_le_bytes().to_vec()).collect();
    let batches = subscribe_batches(&ids);
    let sizes: Vec<usize> = batches.iter().map(|c| c.len()).collect();
    assert_eq!(sizes, vec![1000, 1000, 500]);
}

#[test]
fn monitored_nodes_use_the_configured_namespace() {
    let ids = vec![b"ns=2;s=D.T1".to_vec(), b"ns=2;s=D.T2".to_vec()];
    let addresses = tag_node_addresses(&ids);
    assert_eq!(addresses.len(), 2);
    for (address, id) in addresses.iter().zip(ids.iter()) {
        assert_eq!(address.namespace, 2);
        assert_eq!(&address.identifier, id);
    }
}

#[test]
fn client_identity_is_fixed() {
    let s = client_settings();
    assert_eq!(s.application_name, "Client1");
    assert_eq!(s.application_uri, "urn:client1");
    assert_eq!(s.product_uri, "urn:client11");
    assert_eq!(s.session_retry_limit, 3);
    assert!(!s.trust_server_certs);
    assert!(s.create_sample_keypair);
}
