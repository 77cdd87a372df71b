use pulsar_admin::numfmt::{i64_to_decimal, u64_to_decimal};
use pulsar_admin::paths::{
    lookup_topic_path, namespace_path, namespaces_path, partitioned_topic_path,
    partitioned_topics_path, tenants_path, topic_fqn, topic_path, topic_stats_path, topics_path,
};
use pulsar_admin::transport::{base_origin, SslParams};
use pulsar_admin::util::rand_str;

#[test]
fn tenants_path_is_fixed() {
    assert_eq!(tenants_path(), "/tenants");
}

#[test]
fn namespace_paths_compose_segments() {
    assert_eq!(namespaces_path("public"), "/namespaces/public");
    assert_eq!(namespace_path("public", "ns1"), "/namespaces/public/ns1");
}

#[test]
fn topic_paths_compose_segments() {
    assert_eq!(topics_path("public", "ns1"), "/persistent/public/ns1");
    assert_eq!(topic_path("public", "ns1", "t1"), "/persistent/public/ns1/t1");
    assert_eq!(
        partitioned_topic_path("public", "ns1", "t1"),
        "/persistent/public/ns1/t1/partitions"
    );
    assert_eq!(
        partitioned_topics_path("public", "ns1"),
        "/persistent/public/ns1/partitioned"
    );
    assert_eq!(
        topic_stats_path("public", "ns1", "t1"),
        "/persistent/public/ns1/t1/stats"
    );
    assert_eq!(
        lookup_topic_path("public", "ns1", "t1"),
        "/lookup/v2/topic/persistent/public/ns1/t1"
    );
}

#[test]
fn topic_fqn_uses_broker_scheme() {
    let tenant = "public";
    let namespace = "ns1";
    let topic = "t1";
    assert_eq!(
        topic_fqn(tenant, namespace, topic),
        format!("persistent://{}/{}/{}", tenant, namespace, topic)
    );
}

#[test]
fn distinct_resources_have_distinct_paths_and_names() {
    // Slash-free names never collide: the resource created is the one later
    // listed or deleted, and one created topic accounts for one listed name.
    assert_ne!(namespace_path("public", "ns1"), namespace_path("public", "ns2"));
    assert_ne!(namespace_path("public", "ns1"), namespace_path("other", "ns1"));
    assert_ne!(topic_path("public", "ns1", "t1"), topic_path("public", "ns1", "t2"));
    assert_ne!(topic_fqn("public", "ns1", "t1"), topic_fqn("public", "ns2", "t1"));
    assert_ne!(topic_fqn("public", "ns1", "t1"), topic_fqn("public", "ns1", "t2"));
}

#[test]
fn base_origin_scheme_follows_tls() {
    assert_eq!(base_origin("127.0.0.1", 8080, &None), "http://127.0.0.1:8080");
    assert_eq!(
        base_origin("broker.example", 8443, &Some(SslParams {})),
        "https://broker.example:8443"
    );
}

#[test]
fn u64_decimal_exact_values() {
    assert_eq!(u64_to_decimal(0), "0");
    assert_eq!(u64_to_decimal(7), "7");
    assert_eq!(u64_to_decimal(10), "10");
    assert_eq!(u64_to_decimal(65535), "65535");
    assert_eq!(u64_to_decimal(u64::MAX), "18446744073709551615");
}

#[test]
fn i64_decimal_exact_values() {
    assert_eq!(i64_to_decimal(0), "0");
    assert_eq!(i64_to_decimal(3), "3");
    assert_eq!(i64_to_decimal(-1), "-1");
    assert_eq!(i64_to_decimal(i64::MIN), "-9223372036854775808");
    assert_eq!(i64_to_decimal(i64::MAX), "9223372036854775807");
}

#[test]
fn rand_str_length_and_alphabet() {
    let s = rand_str(8);
    assert_eq!(s.chars().count(), 8);
    for c in s.chars() {
        assert!(c.is_ascii_alphanumeric(), "unexpected character {:?}", c);
    }
    assert_eq!(rand_str(0), "");
}
