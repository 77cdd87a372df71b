use pulsar_admin::decode::decode_string_list;
use pulsar_admin::lookup::decode_lookup_data;
use pulsar_admin::stats::decode_topic_stats;

const STATS_BODY: &str = r#"{
  "msgRateIn": 1.5,
  "msgThroughputIn": 120.25,
  "msgRateOut": 0.0,
  "msgThroughputOut": 2.0,
  "bytesInCounter": 1024,
  "msgInCounter": 12,
  "bytesOutCounter": 2048,
  "msgOutCounter": 24,
  "averageMsgSize": 85.5,
  "msgChunkPublished": false,
  "storageSize": 4096,
  "backlogSize": 7,
  "publishRateLimitedTimes": 1,
  "earliestMsgPublishTimeInBacklogs": 0,
  "offloadedStorageSize": 11,
  "lastOffloadLedgerId": 5,
  "lastOffloadSuccessTimeStamp": 1700000000000,
  "lastOffloadFailureTimeStamp": 1700000000001,
  "ongoingTxnCount": 2,
  "abortedTxnCount": 3,
  "committedTxnCount": 4,
  "publishers": ["p1", "p2"],
  "waitingPublishers": 1,
  "subscriptions": {"subB": "idle", "subA": "active"},
  "replication": {},
  "deduplicationStatus": "Disabled",
  "nonContiguousDeletedMessagesRanges": 6,
  "nonContiguousDeletedMessagesRangesSerializedSize": 9,
  "delayedMessageIndexSizeInBytes": 13,
  "compaction": {
    "lastCompactionRemovedEventCount": 15,
    "lastCompactionSucceedTimestamp": 16,
    "lastCompactionFailedTimestamp": 17,
    "lastCompactionDurationTimeInMills": 18
  },
  "ownerBroker": "broker-1:8080",
  "unknownFieldsAreIgnored": [1, {"x": null}]
}"#;

#[test]
fn string_list_decodes_names_in_order() {
    let names = decode_string_list(r#"["public/a", "public/b"]"#).unwrap();
    assert_eq!(names, vec!["public/a", "public/b"]);
    let empty = decode_string_list("[]").unwrap();
    assert!(empty.is_empty());
}

#[test]
fn string_list_rejects_wrong_shapes() {
    assert!(decode_string_list("not json").unwrap_err().is_decode());
    assert!(decode_string_list("{}").unwrap_err().is_decode());
    assert!(decode_string_list(r#"["a", 1]"#).unwrap_err().is_decode());
    assert!(decode_string_list("5").unwrap_err().is_decode());
}

#[test]
fn lookup_decodes_every_listener() {
    let body = r#"{
        "brokerUrl": "pulsar://broker-1:6650",
        "brokerUrlTls": "pulsar+ssl://broker-1:6651",
        "httpUrl": "http://broker-1:8080",
        "httpUrlTls": "https://broker-1:8443",
        "nativeUrl": "pulsar://broker-1:6650"
    }"#;
    let d = decode_lookup_data(body).unwrap();
    assert_eq!(d.broker_url.as_deref(), Some("pulsar://broker-1:6650"));
    assert_eq!(d.broker_url_tls.as_deref(), Some("pulsar+ssl://broker-1:6651"));
    assert_eq!(d.http_url.as_deref(), Some("http://broker-1:8080"));
    assert_eq!(d.http_url_tls.as_deref(), Some("https://broker-1:8443"));
    assert_eq!(d.native_url.as_deref(), Some("pulsar://broker-1:6650"));
}

#[test]
fn lookup_of_a_created_topic_names_the_broker_scheme() {
    // A broker that exposes a plaintext listener reports it under the
    // broker-protocol scheme.
    let body = r#"{"brokerUrl": "pulsar://127.0.0.1:6650", "httpUrl": "http://127.0.0.1:8080"}"#;
    let d = decode_lookup_data(body).unwrap();
    let broker_url = d.broker_url.unwrap();
    assert!(broker_url.starts_with("pulsar://"));
}

#[test]
fn lookup_treats_missing_and_null_as_absent() {
    let d = decode_lookup_data(r#"{"brokerUrl": null}"#).unwrap();
    assert!(d.broker_url.is_none());
    assert!(d.broker_url_tls.is_none());
    assert!(d.http_url.is_none());
    assert!(d.http_url_tls.is_none());
    assert!(d.native_url.is_none());
    let d = decode_lookup_data("{}").unwrap();
    assert!(d.broker_url.is_none());
}

#[test]
fn lookup_rejects_wrong_shapes() {
    assert!(decode_lookup_data(r#"{"brokerUrl": 6650}"#).unwrap_err().is_decode());
    assert!(decode_lookup_data("[]").unwrap_err().is_decode());
    assert!(decode_lookup_data("null").unwrap_err().is_decode());
    assert!(decode_lookup_data("no json").unwrap_err().is_decode());
}

#[test]
fn stats_record_round_trips_every_field() {
    let st = decode_topic_stats(STATS_BODY).unwrap();
    assert_eq!(st.msg_rate_in, "1.5");
    assert_eq!(st.msg_throughput_in, "120.25");
    assert_eq!(st.msg_rate_out, "0.0");
    assert_eq!(st.msg_throughput_out, "2.0");
    assert_eq!(st.bytes_in_counter, 1024);
    assert_eq!(st.msg_in_counter, 12);
    assert_eq!(st.bytes_out_counter, 2048);
    assert_eq!(st.msg_out_counter, 24);
    assert_eq!(st.average_msg_size, "85.5");
    assert!(!st.msg_chunk_published);
    assert_eq!(st.storage_size, 4096);
    assert_eq!(st.backlog_size, 7);
    assert_eq!(st.publish_rate_limited_times, 1);
    assert_eq!(st.earliest_msg_publish_time_in_backlogs, 0);
    assert_eq!(st.offloaded_storage_size, 11);
    assert_eq!(st.last_offload_ledger_id, 5);
    assert_eq!(st.last_offload_success_time_stamp, 1700000000000);
    assert_eq!(st.last_offload_failure_time_stamp, 1700000000001);
    assert_eq!(st.ongoing_txn_count, 2);
    assert_eq!(st.aborted_txn_count, 3);
    assert_eq!(st.committed_txn_count, 4);
    assert_eq!(st.publishers, vec!["p1", "p2"]);
    assert_eq!(st.waiting_publishers, 1);
    let mut subs = st.subscriptions.clone();
    subs.sort();
    assert_eq!(
        subs,
        vec![
            ("subA".to_string(), "active".to_string()),
            ("subB".to_string(), "idle".to_string()),
        ]
    );
    assert!(st.replication.is_empty());
    assert_eq!(st.deduplication_status, "Disabled");
    assert_eq!(st.non_contiguous_deleted_messages_ranges, 6);
    assert_eq!(st.non_contiguous_deleted_messages_ranges_serialized_size, 9);
    assert_eq!(st.delayed_message_index_size_in_bytes, 13);
    assert_eq!(st.compaction.last_compaction_removed_event_count, 15);
    assert_eq!(st.compaction.last_compaction_succeed_timestamp, 16);
    assert_eq!(st.compaction.last_compaction_failed_timestamp, 17);
    assert_eq!(st.compaction.last_compaction_duration_time_in_mills, 18);
    assert_eq!(st.owner_broker, "broker-1:8080");
}

#[test]
fn stats_rejects_a_missing_field() {
    let body = STATS_BODY.replace("\"backlogSize\": 7,", "");
    assert!(decode_topic_stats(&body).unwrap_err().is_decode());
}

#[test]
fn stats_rejects_a_counter_that_is_not_unsigned() {
    let body = STATS_BODY.replace("\"backlogSize\": 7,", "\"backlogSize\": -7,");
    assert!(decode_topic_stats(&body).unwrap_err().is_decode());
    let body = STATS_BODY.replace("\"backlogSize\": 7,", "\"backlogSize\": 7.5,");
    assert!(decode_topic_stats(&body).unwrap_err().is_decode());
}

#[test]
fn stats_rejects_wrong_field_kinds() {
    let body = STATS_BODY.replace("\"msgChunkPublished\": false,", "\"msgChunkPublished\": \"no\",");
    assert!(decode_topic_stats(&body).unwrap_err().is_decode());
    let body = STATS_BODY.replace("\"publishers\": [\"p1\", \"p2\"],", "\"publishers\": [\"p1\", 2],");
    assert!(decode_topic_stats(&body).unwrap_err().is_decode());
    let body = STATS_BODY.replace(
        "\"subscriptions\": {\"subB\": \"idle\", \"subA\": \"active\"},",
        "\"subscriptions\": {\"subB\": 1},",
    );
    assert!(decode_topic_stats(&body).unwrap_err().is_decode());
    assert!(decode_topic_stats("5").unwrap_err().is_decode());
    assert!(decode_topic_stats("almost json").unwrap_err().is_decode());
}

#[test]
fn stats_accepts_whole_numbers_for_rates() {
    // A rate the broker happens to report as a whole number is still a
    // number field; its canonical text is the integer's.
    let body = STATS_BODY.replace("\"msgRateIn\": 1.5,", "\"msgRateIn\": 3,");
    let st = decode_topic_stats(&body).unwrap();
    assert_eq!(st.msg_rate_in, "3");
}
