use crate::decode::{decode_string_list, opt_view};
use crate::error::AdminError;
use crate::jsonio::json_of;
use crate::jsonmodel::{all_strings, string_items, Json};
use crate::lookup::{decode_lookup_data, lookup_shape_ok, LookupData};
use crate::numfmt::{i64_to_decimal, int_decimal};
use crate::paths::{
    lookup_topic_path, lookup_topic_path_spec, namespace_path, namespace_path_spec,
    namespaces_path, namespaces_path_spec, partitioned_topic_path, partitioned_topic_path_spec,
    partitioned_topics_path, partitioned_topics_path_spec, tenants_path, tenants_path_spec,
    topic_path, topic_path_spec, topic_stats_path, topic_stats_path_spec, topics_path,
    topics_path_spec,
};
use crate::stats::{decode_topic_stats, stats_shape_ok, TopicStats};
use crate::transport::{classify_response, is_error_status_spec, AdminRequest, Method};
use vstd::prelude::*;

verus! {

/// One administrative operation, with the resource it addresses.
///
/// Every operation of the API is an instance of this table: a verb and a
/// path template filled with tenant, namespace and topic names, together
/// with the shape its response is decoded into.
#[derive(Debug)]
pub enum AdminOp {
    GetTenants,
    ListNamespaces { tenant: String },
    CreateNamespace { tenant: String, namespace: String },
    DeleteNamespace { tenant: String, namespace: String },
    CreateNonPartitionedTopic { tenant: String, namespace: String, topic: String },
    DeleteNonPartitionedTopic { tenant: String, namespace: String, topic: String },
    ListNonPartitionedTopics { tenant: String, namespace: String },
    CreatePartitionedTopic { tenant: String, namespace: String, topic: String, num_partitions: i32 },
    DeletePartitionedTopic { tenant: String, namespace: String, topic: String },
    ListPartitionedTopics { tenant: String, namespace: String },
    GetTopicStats { tenant: String, namespace: String, topic: String },
    LookupPersistentTopic { tenant: String, namespace: String, topic: String },
}

/// What a successful administrative exchange yields.
#[derive(Debug)]
pub enum AdminResponse {
    /// The operation returns no payload.
    Done,
    /// The operation returns a list of names.
    Names(Vec<String>),
    /// The operation returns a topic statistics record.
    Stats(TopicStats),
    /// The operation returns a broker lookup record.
    Broker(LookupData),
}

/// The HTTP verb of an operation.
pub open spec fn op_method(op: AdminOp) -> Method {
    match op {
        AdminOp::GetTenants => Method::Get,
        AdminOp::ListNamespaces { .. } => Method::Get,
        AdminOp::CreateNamespace { .. } => Method::Put,
        AdminOp::DeleteNamespace { .. } => Method::Delete,
        AdminOp::CreateNonPartitionedTopic { .. } => Method::Put,
        AdminOp::DeleteNonPartitionedTopic { .. } => Method::Delete,
        AdminOp::ListNonPartitionedTopics { .. } => Method::Get,
        AdminOp::CreatePartitionedTopic { .. } => Method::Put,
        AdminOp::DeletePartitionedTopic { .. } => Method::Delete,
        AdminOp::ListPartitionedTopics { .. } => Method::Get,
        AdminOp::GetTopicStats { .. } => Method::Get,
        AdminOp::LookupPersistentTopic { .. } => Method::Get,
    }
}

/// The resource path of an operation.
pub open spec fn op_path(op: AdminOp) -> Seq<char> {
    match op {
        AdminOp::GetTenants => tenants_path_spec(),
        AdminOp::ListNamespaces { tenant } => namespaces_path_spec(tenant@),
        AdminOp::CreateNamespace { tenant, namespace } => namespace_path_spec(
            tenant@,
            namespace@,
        ),
        AdminOp::DeleteNamespace { tenant, namespace } => namespace_path_spec(
            tenant@,
            namespace@,
        ),
        AdminOp::CreateNonPartitionedTopic { tenant, namespace, topic } => topic_path_spec(
            tenant@,
            namespace@,
            topic@,
        ),
        AdminOp::DeleteNonPartitionedTopic { tenant, namespace, topic } => topic_path_spec(
            tenant@,
            namespace@,
            topic@,
        ),
        AdminOp::ListNonPartitionedTopics { tenant, namespace } => topics_path_spec(
            tenant@,
            namespace@,
        ),
        AdminOp::CreatePartitionedTopic { tenant, namespace, topic, .. } =>
            partitioned_topic_path_spec(tenant@, namespace@, topic@),
        AdminOp::DeletePartitionedTopic { tenant, namespace, topic } =>
            partitioned_topic_path_spec(tenant@, namespace@, topic@),
        AdminOp::ListPartitionedTopics { tenant, namespace } => partitioned_topics_path_spec(
            tenant@,
            namespace@,
        ),
        AdminOp::GetTopicStats { tenant, namespace, topic } => topic_stats_path_spec(
            tenant@,
            namespace@,
            topic@,
        ),
        AdminOp::LookupPersistentTopic { tenant, namespace, topic } => lookup_topic_path_spec(
            tenant@,
            namespace@,
            topic@,
        ),
    }
}

/// The request body of an operation: empty for the plain creations, the
/// partition count in decimal for a partitioned creation, nothing
/// otherwise.
pub open spec fn op_body(op: AdminOp) -> Option<Seq<char>> {
    match op {
        AdminOp::CreateNamespace { .. } => Some(Seq::<char>::empty()),
        AdminOp::CreateNonPartitionedTopic { .. } => Some(Seq::<char>::empty()),
        AdminOp::CreatePartitionedTopic { num_partitions, .. } => Some(
            int_decimal(num_partitions as int),
        ),
        _ => None,
    }
}

/// Whether an operation's response is a list of names.
pub open spec fn op_expects_names(op: AdminOp) -> bool {
    ||| op is GetTenants
    ||| op is ListNamespaces
    ||| op is ListNonPartitionedTopics
    ||| op is ListPartitionedTopics
}

/// Whether a success body has the shape the operation's response is
/// declared with.
pub open spec fn op_success_shape(op: AdminOp, body: Seq<char>) -> bool {
    if op_expects_names(op) {
        json_of(body) matches Some(j) && j matches Json::Arr(items) && all_strings(items)
    } else if op is GetTopicStats {
        json_of(body) matches Some(j) && stats_shape_ok(j)
    } else if op is LookupPersistentTopic {
        json_of(body) matches Some(j) && lookup_shape_ok(j)
    } else {
        true
    }
}

/// Whether a decoded response is exactly what the operation's success body
/// holds.
pub open spec fn response_matches(op: AdminOp, resp: AdminResponse, body: Seq<char>) -> bool {
    match resp {
        AdminResponse::Done => {
            &&& !op_expects_names(op)
            &&& !(op is GetTopicStats)
            &&& !(op is LookupPersistentTopic)
        },
        AdminResponse::Names(out) => {
            &&& op_expects_names(op)
            &&& (json_of(body) matches Some(j) && j matches Json::Arr(items)
                && out@.map_values(|s: String| s@) == string_items(items))
        },
        AdminResponse::Stats(st) => {
            &&& op is GetTopicStats
            &&& (json_of(body) matches Some(j) && st.matches_json(j))
        },
        AdminResponse::Broker(d) => {
            &&& op is LookupPersistentTopic
            &&& (json_of(body) matches Some(j) && d.matches_json(j))
        },
    }
}

/// Describes the HTTP request an operation stands for.
pub fn request_of(op: &AdminOp) -> (r: AdminRequest)
    ensures
        r.method == op_method(*op),
        r.path@ == op_path(*op),
        opt_view(r.body) == op_body(*op),
        r.wf(),
{
    match op {
        AdminOp::GetTenants => AdminRequest {
            method: Method::Get,
            path: tenants_path(),
            body: None,
        },
        AdminOp::ListNamespaces { tenant } => AdminRequest {
            method: Method::Get,
            path: namespaces_path(tenant.as_str()),
            body: None,
        },
        AdminOp::CreateNamespace { tenant, namespace } => AdminRequest {
            method: Method::Put,
            path: namespace_path(tenant.as_str(), namespace.as_str()),
            body: Some(String::new()),
        },
        AdminOp::DeleteNamespace { tenant, namespace } => AdminRequest {
            method: Method::Delete,
            path: namespace_path(tenant.as_str(), namespace.as_str()),
            body: None,
        },
        AdminOp::CreateNonPartitionedTopic { tenant, namespace, topic } => AdminRequest {
            method: Method::Put,
            path: topic_path(tenant.as_str(), namespace.as_str(), topic.as_str()),
            body: Some(String::new()),
        },
        AdminOp::DeleteNonPartitionedTopic { tenant, namespace, topic } => AdminRequest {
            method: Method::Delete,
            path: topic_path(tenant.as_str(), namespace.as_str(), topic.as_str()),
            body: None,
        },
        AdminOp::ListNonPartitionedTopics { tenant, namespace } => AdminRequest {
            method: Method::Get,
            path: topics_path(tenant.as_str(), namespace.as_str()),
            body: None,
        },
        AdminOp::CreatePartitionedTopic { tenant, namespace, topic, num_partitions } =>
            AdminRequest {
                method: Method::Put,
                path: partitioned_topic_path(tenant.as_str(), namespace.as_str(), topic.as_str()),
                body: Some(i64_to_decimal(*num_partitions as i64)),
            },
        AdminOp::DeletePartitionedTopic { tenant, namespace, topic } => AdminRequest {
            method: Method::Delete,
            path: partitioned_topic_path(tenant.as_str(), namespace.as_str(), topic.as_str()),
            body: None,
        },
        AdminOp::ListPartitionedTopics { tenant, namespace } => AdminRequest {
            method: Method::Get,
            path: partitioned_topics_path(tenant.as_str(), namespace.as_str()),
            body: None,
        },
        AdminOp::GetTopicStats { tenant, namespace, topic } => AdminRequest {
            method: Method::Get,
            path: topic_stats_path(tenant.as_str(), namespace.as_str(), topic.as_str()),
            body: None,
        },
        AdminOp::LookupPersistentTopic { tenant, namespace, topic } => AdminRequest {
            method: Method::Get,
            path: lookup_topic_path(tenant.as_str(), namespace.as_str(), topic.as_str()),
            body: None,
        },
    }
}

/// Turns a completed HTTP exchange into the operation's outcome.
///
/// An error-range status always becomes an `Http` error carrying that
/// status and the body as its message — never a decode error and never a
/// silent success, whichever operation was attempted and whether or not
/// the resource existed. Any other status has the body decoded into the
/// operation's declared response shape, which succeeds exactly when the
/// body has that shape.
pub fn handle_response(op: &AdminOp, status: u16, body: String) -> (r: Result<
    AdminResponse,
    AdminError,
>)
    ensures
        is_error_status_spec(status) ==> r == Err::<AdminResponse, AdminError>(
            (AdminError::Http { status, message: body }),
        ),
        !is_error_status_spec(status) ==> ((r is Ok) <==> op_success_shape(*op, body@)),
        !is_error_status_spec(status) ==> (r matches Ok(resp) ==> response_matches(
            *op,
            resp,
            body@,
        )),
        !is_error_status_spec(status) ==> (r matches Err(e) ==> e is Decode),
{
    let text = match classify_response(status, body) {
        Ok(t) => t,
        Err(e) => {
            return Err(e);
        },
    };
    match op {
        AdminOp::GetTenants
        | AdminOp::ListNamespaces { .. }
        | AdminOp::ListNonPartitionedTopics { .. }
        | AdminOp::ListPartitionedTopics { .. } => match decode_string_list(text.as_str()) {
            Ok(names) => Ok(AdminResponse::Names(names)),
            Err(e) => Err(e),
        },
        AdminOp::GetTopicStats { .. } => match decode_topic_stats(text.as_str()) {
            Ok(st) => Ok(AdminResponse::Stats(st)),
            Err(e) => Err(e),
        },
        AdminOp::LookupPersistentTopic { .. } => match decode_lookup_data(text.as_str()) {
            Ok(d) => Ok(AdminResponse::Broker(d)),
            Err(e) => Err(e),
        },
        _ => Ok(AdminResponse::Done),
    }
}

} // verus!
