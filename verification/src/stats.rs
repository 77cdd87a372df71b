use crate::decode::{
    bool_field_of, field_of, num_text_field_of, shape_error, str_entries_match, str_entries_of,
    str_field_of, str_items_of, u64_field_of,
};
use crate::error::AdminError;
use crate::jsonio::{json_as_array, json_of, model_of, parse_json};
use crate::jsonmodel::{
    bool_field, has_bool_field, has_num_field, has_str_arr_field, has_str_field,
    has_str_map_field, has_u64_field, num_text_field, obj_field, obj_has, obj_map_field,
    str_arr_field, str_field, u64_field, Json,
};
use vstd::prelude::*;

verus! {

/// The compaction status embedded in a topic's statistics record.
#[derive(Debug)]
pub struct Compaction {
    pub last_compaction_removed_event_count: u64,
    pub last_compaction_succeed_timestamp: u64,
    pub last_compaction_failed_timestamp: u64,
    pub last_compaction_duration_time_in_mills: u64,
}

/// The live counters of one persistent topic, as the broker reports them.
///
/// Rates and sizes the broker reports as possibly fractional numbers are
/// held as the decoder's canonical text of those numbers; whole-number
/// counters are held as unsigned integers. The publisher and replication
/// maps are held as key/value pairs with no key repeated.
#[derive(Debug)]
pub struct TopicStats {
    pub msg_rate_in: String,
    pub msg_throughput_in: String,
    pub msg_rate_out: String,
    pub msg_throughput_out: String,
    pub bytes_in_counter: u64,
    pub msg_in_counter: u64,
    pub bytes_out_counter: u64,
    pub msg_out_counter: u64,
    pub average_msg_size: String,
    pub msg_chunk_published: bool,
    pub storage_size: u64,
    pub backlog_size: u64,
    pub publish_rate_limited_times: u64,
    pub earliest_msg_publish_time_in_backlogs: u64,
    pub offloaded_storage_size: u64,
    pub last_offload_ledger_id: u64,
    pub last_offload_success_time_stamp: u64,
    pub last_offload_failure_time_stamp: u64,
    pub ongoing_txn_count: u64,
    pub aborted_txn_count: u64,
    pub committed_txn_count: u64,
    pub publishers: Vec<String>,
    pub waiting_publishers: u64,
    pub subscriptions: Vec<(String, String)>,
    pub replication: Vec<(String, String)>,
    pub deduplication_status: String,
    pub non_contiguous_deleted_messages_ranges: u64,
    pub non_contiguous_deleted_messages_ranges_serialized_size: u64,
    pub delayed_message_index_size_in_bytes: u64,
    pub compaction: Compaction,
    pub owner_broker: String,
}

/// Whether `j` has the shape the compaction sub-record is declared with.
pub open spec fn compaction_shape_ok(j: Json) -> bool {
    &&& has_u64_field(j, "lastCompactionRemovedEventCount"@)
    &&& has_u64_field(j, "lastCompactionSucceedTimestamp"@)
    &&& has_u64_field(j, "lastCompactionFailedTimestamp"@)
    &&& has_u64_field(j, "lastCompactionDurationTimeInMills"@)
}

impl Compaction {
    /// Whether this record holds exactly the compaction fields of `j`.
    pub open spec fn matches_json(self, j: Json) -> bool {
        &&& self.last_compaction_removed_event_count == u64_field(
            j,
            "lastCompactionRemovedEventCount"@,
        )
        &&& self.last_compaction_succeed_timestamp == u64_field(
            j,
            "lastCompactionSucceedTimestamp"@,
        )
        &&& self.last_compaction_failed_timestamp == u64_field(
            j,
            "lastCompactionFailedTimestamp"@,
        )
        &&& self.last_compaction_duration_time_in_mills == u64_field(
            j,
            "lastCompactionDurationTimeInMills"@,
        )
    }
}

/// Whether `j` has the shape a topic statistics response is declared with:
/// an object carrying every field of `TopicStats` with the declared kind.
pub open spec fn stats_shape_ok(j: Json) -> bool {
    &&& has_num_field(j, "msgRateIn"@)
    &&& has_num_field(j, "msgThroughputIn"@)
    &&& has_num_field(j, "msgRateOut"@)
    &&& has_num_field(j, "msgThroughputOut"@)
    &&& has_u64_field(j, "bytesInCounter"@)
    &&& has_u64_field(j, "msgInCounter"@)
    &&& has_u64_field(j, "bytesOutCounter"@)
    &&& has_u64_field(j, "msgOutCounter"@)
    &&& has_num_field(j, "averageMsgSize"@)
    &&& has_bool_field(j, "msgChunkPublished"@)
    &&& has_u64_field(j, "storageSize"@)
    &&& has_u64_field(j, "backlogSize"@)
    &&& has_u64_field(j, "publishRateLimitedTimes"@)
    &&& has_u64_field(j, "earliestMsgPublishTimeInBacklogs"@)
    &&& has_u64_field(j, "offloadedStorageSize"@)
    &&& has_u64_field(j, "lastOffloadLedgerId"@)
    &&& has_u64_field(j, "lastOffloadSuccessTimeStamp"@)
    &&& has_u64_field(j, "lastOffloadFailureTimeStamp"@)
    &&& has_u64_field(j, "ongoingTxnCount"@)
    &&& has_u64_field(j, "abortedTxnCount"@)
    &&& has_u64_field(j, "committedTxnCount"@)
    &&& has_str_arr_field(j, "publishers"@)
    &&& has_u64_field(j, "waitingPublishers"@)
    &&& has_str_map_field(j, "subscriptions"@)
    &&& has_str_map_field(j, "replication"@)
    &&& has_str_field(j, "deduplicationStatus"@)
    &&& has_u64_field(j, "nonContiguousDeletedMessagesRanges"@)
    &&& has_u64_field(j, "nonContiguousDeletedMessagesRangesSerializedSize"@)
    &&& has_u64_field(j, "delayedMessageIndexSizeInBytes"@)
    &&& obj_has(j, "compaction"@)
    &&& compaction_shape_ok(obj_field(j, "compaction"@))
    &&& has_str_field(j, "ownerBroker"@)
}

impl TopicStats {
    /// Whether this record holds exactly the statistics fields of `j`.
    pub open spec fn matches_json(self, j: Json) -> bool {
        &&& self.msg_rate_in@ == num_text_field(j, "msgRateIn"@)
        &&& self.msg_throughput_in@ == num_text_field(j, "msgThroughputIn"@)
        &&& self.msg_rate_out@ == num_text_field(j, "msgRateOut"@)
        &&& self.msg_throughput_out@ == num_text_field(j, "msgThroughputOut"@)
        &&& self.bytes_in_counter == u64_field(j, "bytesInCounter"@)
        &&& self.msg_in_counter == u64_field(j, "msgInCounter"@)
        &&& self.bytes_out_counter == u64_field(j, "bytesOutCounter"@)
        &&& self.msg_out_counter == u64_field(j, "msgOutCounter"@)
        &&& self.average_msg_size@ == num_text_field(j, "averageMsgSize"@)
        &&& self.msg_chunk_published == bool_field(j, "msgChunkPublished"@)
        &&& self.storage_size == u64_field(j, "storageSize"@)
        &&& self.backlog_size == u64_field(j, "backlogSize"@)
        &&& self.publish_rate_limited_times == u64_field(j, "publishRateLimitedTimes"@)
        &&& self.earliest_msg_publish_time_in_backlogs == u64_field(
            j,
            "earliestMsgPublishTimeInBacklogs"@,
        )
        &&& self.offloaded_storage_size == u64_field(j, "offloadedStorageSize"@)
        &&& self.last_offload_ledger_id == u64_field(j, "lastOffloadLedgerId"@)
        &&& self.last_offload_success_time_stamp == u64_field(j, "lastOffloadSuccessTimeStamp"@)
        &&& self.last_offload_failure_time_stamp == u64_field(j, "lastOffloadFailureTimeStamp"@)
        &&& self.ongoing_txn_count == u64_field(j, "ongoingTxnCount"@)
        &&& self.aborted_txn_count == u64_field(j, "abortedTxnCount"@)
        &&& self.committed_txn_count == u64_field(j, "committedTxnCount"@)
        &&& self.publishers@.map_values(|s: String| s@) == str_arr_field(j, "publishers"@)
        &&& self.waiting_publishers == u64_field(j, "waitingPublishers"@)
        &&& str_entries_match(self.subscriptions@, obj_map_field(j, "subscriptions"@))
        &&& str_entries_match(self.replication@, obj_map_field(j, "replication"@))
        &&& self.deduplication_status@ == str_field(j, "deduplicationStatus"@)
        &&& self.non_contiguous_deleted_messages_ranges == u64_field(
            j,
            "nonContiguousDeletedMessagesRanges"@,
        )
        &&& self.non_contiguous_deleted_messages_ranges_serialized_size == u64_field(
            j,
            "nonContiguousDeletedMessagesRangesSerializedSize"@,
        )
        &&& self.delayed_message_index_size_in_bytes == u64_field(
            j,
            "delayedMessageIndexSizeInBytes"@,
        )
        &&& self.compaction.matches_json(obj_field(j, "compaction"@))
        &&& self.owner_broker@ == str_field(j, "ownerBroker"@)
    }
}

/// Decodes a compaction sub-record out of one JSON value.
///
/// Succeeds exactly when the value carries every compaction field as an
/// unsigned integer.
pub fn decode_compaction(v: &serde_json::Value) -> (r: Option<Compaction>)
    ensures
        r is Some <==> compaction_shape_ok(model_of(*v)),
        r matches Some(c) ==> c.matches_json(model_of(*v)),
{
    let last_compaction_removed_event_count = match u64_field_of(
        v,
        "lastCompactionRemovedEventCount",
    ) {
        Some(u) => u,
        None => {
            return None;
        },
    };
    let last_compaction_succeed_timestamp = match u64_field_of(
        v,
        "lastCompactionSucceedTimestamp",
    ) {
        Some(u) => u,
        None => {
            return None;
        },
    };
    let last_compaction_failed_timestamp = match u64_field_of(v, "lastCompactionFailedTimestamp") {
        Some(u) => u,
        None => {
            return None;
        },
    };
    let last_compaction_duration_time_in_mills = match u64_field_of(
        v,
        "lastCompactionDurationTimeInMills",
    ) {
        Some(u) => u,
        None => {
            return None;
        },
    };
    Some(
        Compaction {
            last_compaction_removed_event_count,
            last_compaction_succeed_timestamp,
            last_compaction_failed_timestamp,
            last_compaction_duration_time_in_mills,
        },
    )
}

/// Decodes a topic statistics response body.
///
/// Succeeds exactly when the body is decodable JSON of the declared shape,
/// and then returns every field exactly as the response gave it.
pub fn decode_topic_stats(body: &str) -> (r: Result<TopicStats, AdminError>)
    ensures
        r is Ok <==> (json_of(body@) matches Some(j) && stats_shape_ok(j)),
        r matches Ok(st) ==> (json_of(body@) matches Some(j) && st.matches_json(j)),
        r matches Err(e) ==> e is Decode,
{
    let v = match parse_json(body) {
        Some(v) => v,
        None => {
            return Err(shape_error());
        },
    };
    let msg_rate_in = match num_text_field_of(&v, "msgRateIn") {
        Some(x) => x,
        None => {
            return Err(shape_error());
        },
    };
    let msg_throughput_in = match num_text_field_of(&v, "msgThroughputIn") {
        Some(x) => x,
        None => {
            return Err(shape_error());
        },
    };
    let msg_rate_out = match num_text_field_of(&v, "msgRateOut") {
        Some(x) => x,
        None => {
            return Err(shape_error());
        },
    };
    let msg_throughput_out = match num_text_field_of(&v, "msgThroughputOut") {
        Some(x) => x,
        None => {
            return Err(shape_error());
        },
    };
    let bytes_in_counter = match u64_field_of(&v, "bytesInCounter") {
        Some(x) => x,
        None => {
            return Err(shape_error());
        },
    };
    let msg_in_counter = match u64_field_of(&v, "msgInCounter") {
        Some(x) => x,
        None => {
            return Err(shape_error());
        },
    };
    let bytes_out_counter = match u64_field_of(&v, "bytesOutCounter") {
        Some(x) => x,
        None => {
            return Err(shape_error());
        },
    };
    let msg_out_counter = match u64_field_of(&v, "msgOutCounter") {
        Some(x) => x,
        None => {
            return Err(shape_error());
        },
    };
    let average_msg_size = match num_text_field_of(&v, "averageMsgSize") {
        Some(x) => x,
        None => {
            return Err(shape_error());
        },
    };
    let msg_chunk_published = match bool_field_of(&v, "msgChunkPublished") {
        Some(x) => x,
        None => {
            return Err(shape_error());
        },
    };
    let storage_size = match u64_field_of(&v, "storageSize") {
        Some(x) => x,
        None => {
            return Err(shape_error());
        },
    };
    let backlog_size = match u64_field_of(&v, "backlogSize") {
        Some(x) => x,
        None => {
            return Err(shape_error());
        },
    };
    let publish_rate_limited_times = match u64_field_of(&v, "publishRateLimitedTimes") {
        Some(x) => x,
        None => {
            return Err(shape_error());
        },
    };
    let earliest_msg_publish_time_in_backlogs = match u64_field_of(
        &v,
        "earliestMsgPublishTimeInBacklogs",
    ) {
        Some(x) => x,
        None => {
            return Err(shape_error());
        },
    };
    let offloaded_storage_size = match u64_field_of(&v, "offloadedStorageSize") {
        Some(x) => x,
        None => {
            return Err(shape_error());
        },
    };
    let last_offload_ledger_id = match u64_field_of(&v, "lastOffloadLedgerId") {
        Some(x) => x,
        None => {
            return Err(shape_error());
        },
    };
    let last_offload_success_time_stamp = match u64_field_of(&v, "lastOffloadSuccessTimeStamp") {
        Some(x) => x,
        None => {
            return Err(shape_error());
        },
    };
    let last_offload_failure_time_stamp = match u64_field_of(&v, "lastOffloadFailureTimeStamp") {
        Some(x) => x,
        None => {
            return Err(shape_error());
        },
    };
    let ongoing_txn_count = match u64_field_of(&v, "ongoingTxnCount") {
        Some(x) => x,
        None => {
            return Err(shape_error());
        },
    };
    let aborted_txn_count = match u64_field_of(&v, "abortedTxnCount") {
        Some(x) => x,
        None => {
            return Err(shape_error());
        },
    };
    let committed_txn_count = match u64_field_of(&v, "committedTxnCount") {
        Some(x) => x,
        None => {
            return Err(shape_error());
        },
    };
    let publishers = {
        let f = match field_of(&v, "publishers") {
            Some(f) => f,
            None => {
                return Err(shape_error());
            },
        };
        let a = match json_as_array(f) {
            Some(a) => a,
            None => {
                return Err(shape_error());
            },
        };
        match str_items_of(a) {
            Some(o) => o,
            None => {
                return Err(shape_error());
            },
        }
    };
    let waiting_publishers = match u64_field_of(&v, "waitingPublishers") {
        Some(x) => x,
        None => {
            return Err(shape_error());
        },
    };
    let subscriptions = {
        let f = match field_of(&v, "subscriptions") {
            Some(f) => f,
            None => {
                return Err(shape_error());
            },
        };
        match str_entries_of(f) {
            Some(o) => o,
            None => {
                return Err(shape_error());
            },
        }
    };
    let replication = {
        let f = match field_of(&v, "replication") {
            Some(f) => f,
            None => {
                return Err(shape_error());
            },
        };
        match str_entries_of(f) {
            Some(o) => o,
            None => {
                return Err(shape_error());
            },
        }
    };
    let deduplication_status = match str_field_of(&v, "deduplicationStatus") {
        Some(x) => x,
        None => {
            return Err(shape_error());
        },
    };
    let non_contiguous_deleted_messages_ranges = match u64_field_of(
        &v,
        "nonContiguousDeletedMessagesRanges",
    ) {
        Some(x) => x,
        None => {
            return Err(shape_error());
        },
    };
    let non_contiguous_deleted_messages_ranges_serialized_size = match u64_field_of(
        &v,
        "nonContiguousDeletedMessagesRangesSerializedSize",
    ) {
        Some(x) => x,
        None => {
            return Err(shape_error());
        },
    };
    let delayed_message_index_size_in_bytes = match u64_field_of(
        &v,
        "delayedMessageIndexSizeInBytes",
    ) {
        Some(x) => x,
        None => {
            return Err(shape_error());
        },
    };
    let compaction = {
        let f = match field_of(&v, "compaction") {
            Some(f) => f,
            None => {
                return Err(shape_error());
            },
        };
        match decode_compaction(f) {
            Some(c) => c,
            None => {
                return Err(shape_error());
            },
        }
    };
    let owner_broker = match str_field_of(&v, "ownerBroker") {
        Some(x) => x,
        None => {
            return Err(shape_error());
        },
    };
    Ok(
        TopicStats {
            msg_rate_in,
            msg_throughput_in,
            msg_rate_out,
            msg_throughput_out,
            bytes_in_counter,
            msg_in_counter,
            bytes_out_counter,
            msg_out_counter,
            average_msg_size,
            msg_chunk_published,
            storage_size,
            backlog_size,
            publish_rate_limited_times,
            earliest_msg_publish_time_in_backlogs,
            offloaded_storage_size,
            last_offload_ledger_id,
            last_offload_success_time_stamp,
            last_offload_failure_time_stamp,
            ongoing_txn_count,
            aborted_txn_count,
            committed_txn_count,
            publishers,
            waiting_publishers,
            subscriptions,
            replication,
            deduplication_status,
            non_contiguous_deleted_messages_ranges,
            non_contiguous_deleted_messages_ranges_serialized_size,
            delayed_message_index_size_in_bytes,
            compaction,
            owner_broker,
        },
    )
}

} // verus!
