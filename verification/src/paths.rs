use vstd::prelude::*;

verus! {

// The resource paths of the administrative API. Every operation addresses
// its resource through one of these fixed prefixes; tenant, namespace and
// topic names are opaque path segments supplied by the caller.

/// The path listing all tenants.
pub open spec fn tenants_path_spec() -> Seq<char> {
    "/tenants"@
}

/// The path listing the namespaces of a tenant.
pub open spec fn namespaces_path_spec(tenant: Seq<char>) -> Seq<char> {
    "/namespaces/"@ + tenant
}

/// The path of one namespace of a tenant.
pub open spec fn namespace_path_spec(tenant: Seq<char>, namespace: Seq<char>) -> Seq<char> {
    "/namespaces/"@ + tenant + "/"@ + namespace
}

/// The path listing the non-partitioned persistent topics of a namespace.
pub open spec fn topics_path_spec(tenant: Seq<char>, namespace: Seq<char>) -> Seq<char> {
    "/persistent/"@ + tenant + "/"@ + namespace
}

/// The path of one non-partitioned persistent topic.
pub open spec fn topic_path_spec(tenant: Seq<char>, namespace: Seq<char>, topic: Seq<char>) -> Seq<
    char,
> {
    "/persistent/"@ + tenant + "/"@ + namespace + "/"@ + topic
}

/// The path of the partition set of a partitioned topic.
pub open spec fn partitioned_topic_path_spec(
    tenant: Seq<char>,
    namespace: Seq<char>,
    topic: Seq<char>,
) -> Seq<char> {
    topic_path_spec(tenant, namespace, topic) + "/partitions"@
}

/// The path listing the partitioned persistent topics of a namespace.
pub open spec fn partitioned_topics_path_spec(tenant: Seq<char>, namespace: Seq<char>) -> Seq<
    char,
> {
    topics_path_spec(tenant, namespace) + "/partitioned"@
}

/// The path of the statistics record of a topic.
pub open spec fn topic_stats_path_spec(
    tenant: Seq<char>,
    namespace: Seq<char>,
    topic: Seq<char>,
) -> Seq<char> {
    topic_path_spec(tenant, namespace, topic) + "/stats"@
}

/// The path resolving which broker serves a persistent topic.
pub open spec fn lookup_topic_path_spec(
    tenant: Seq<char>,
    namespace: Seq<char>,
    topic: Seq<char>,
) -> Seq<char> {
    "/lookup/v2/topic/persistent/"@ + tenant + "/"@ + namespace + "/"@ + topic
}

/// The fully qualified name under which a persistent topic is listed.
pub open spec fn topic_fqn_spec(tenant: Seq<char>, namespace: Seq<char>, topic: Seq<char>) -> Seq<
    char,
> {
    "persistent://"@ + tenant + "/"@ + namespace + "/"@ + topic
}

/// Builds the path listing all tenants.
pub fn tenants_path() -> (r: String)
    ensures
        r@ == tenants_path_spec(),
{
    String::from_str("/tenants")
}

/// Builds the path listing the namespaces of `tenant`.
pub fn namespaces_path(tenant: &str) -> (r: String)
    ensures
        r@ == namespaces_path_spec(tenant@),
{
    let mut s = String::from_str("/namespaces/");
    s.append(tenant);
    s
}

/// Builds the path of the namespace `tenant`/`namespace`.
pub fn namespace_path(tenant: &str, namespace: &str) -> (r: String)
    ensures
        r@ == namespace_path_spec(tenant@, namespace@),
{
    let mut s = String::from_str("/namespaces/");
    s.append(tenant);
    s.append("/");
    s.append(namespace);
    proof {
        assert(s@ =~= namespace_path_spec(tenant@, namespace@));
    }
    s
}

/// Builds the path listing the non-partitioned topics of a namespace.
pub fn topics_path(tenant: &str, namespace: &str) -> (r: String)
    ensures
        r@ == topics_path_spec(tenant@, namespace@),
{
    let mut s = String::from_str("/persistent/");
    s.append(tenant);
    s.append("/");
    s.append(namespace);
    proof {
        assert(s@ =~= topics_path_spec(tenant@, namespace@));
    }
    s
}

/// Builds the path of the topic `tenant`/`namespace`/`topic`.
pub fn topic_path(tenant: &str, namespace: &str, topic: &str) -> (r: String)
    ensures
        r@ == topic_path_spec(tenant@, namespace@, topic@),
{
    let mut s = String::from_str("/persistent/");
    s.append(tenant);
    s.append("/");
    s.append(namespace);
    s.append("/");
    s.append(topic);
    proof {
        assert(s@ =~= topic_path_spec(tenant@, namespace@, topic@));
    }
    s
}

/// Builds the path of the partition set of `tenant`/`namespace`/`topic`.
pub fn partitioned_topic_path(tenant: &str, namespace: &str, topic: &str) -> (r: String)
    ensures
        r@ == partitioned_topic_path_spec(tenant@, namespace@, topic@),
{
    let mut s = topic_path(tenant, namespace, topic);
    s.append("/partitions");
    s
}

/// Builds the path listing the partitioned topics of a namespace.
pub fn partitioned_topics_path(tenant: &str, namespace: &str) -> (r: String)
    ensures
        r@ == partitioned_topics_path_spec(tenant@, namespace@),
{
    let mut s = topics_path(tenant, namespace);
    s.append("/partitioned");
    s
}

/// Builds the path of the statistics record of `tenant`/`namespace`/`topic`.
pub fn topic_stats_path(tenant: &str, namespace: &str, topic: &str) -> (r: String)
    ensures
        r@ == topic_stats_path_spec(tenant@, namespace@, topic@),
{
    let mut s = topic_path(tenant, namespace, topic);
    s.append("/stats");
    s
}

/// Builds the broker-lookup path of `tenant`/`namespace`/`topic`.
pub fn lookup_topic_path(tenant: &str, namespace: &str, topic: &str) -> (r: String)
    ensures
        r@ == lookup_topic_path_spec(tenant@, namespace@, topic@),
{
    let mut s = String::from_str("/lookup/v2/topic/persistent/");
    s.append(tenant);
    s.append("/");
    s.append(namespace);
    s.append("/");
    s.append(topic);
    proof {
        assert(s@ =~= lookup_topic_path_spec(tenant@, namespace@, topic@));
    }
    s
}

/// Builds the fully qualified name of the topic `tenant`/`namespace`/`topic`.
pub fn topic_fqn(tenant: &str, namespace: &str, topic: &str) -> (r: String)
    ensures
        r@ == topic_fqn_spec(tenant@, namespace@, topic@),
{
    let mut s = String::from_str("persistent://");
    s.append(tenant);
    s.append("/");
    s.append(namespace);
    s.append("/");
    s.append(topic);
    proof {
        assert(s@ =~= topic_fqn_spec(tenant@, namespace@, topic@));
    }
    s
}

} // verus!
