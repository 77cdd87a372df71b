use pulsar_admin::error::AdminError;
use pulsar_admin::ops::{handle_response, request_of, AdminOp, AdminResponse};
use pulsar_admin::transport::{classify_response, is_error_status, Method};

#[test]
fn status_classification_boundaries() {
    assert!(!is_error_status(200));
    assert!(!is_error_status(204));
    assert!(!is_error_status(399));
    assert!(is_error_status(400));
    assert!(is_error_status(404));
    assert!(is_error_status(409));
    assert!(is_error_status(500));
    assert!(is_error_status(599));
    assert!(!is_error_status(600));
    assert!(!is_error_status(302));
}

#[test]
fn classify_response_carries_status_and_body() {
    match classify_response(404, String::from("Namespace does not exist")) {
        Err(AdminError::Http { status, message }) => {
            assert_eq!(status, 404);
            assert_eq!(message, "Namespace does not exist");
        }
        other => panic!("expected an HTTP status error, got {:?}", other),
    }
    match classify_response(200, String::from("[]")) {
        Ok(body) => assert_eq!(body, "[]"),
        other => panic!("expected the body back, got {:?}", other),
    }
}

#[test]
fn request_of_builds_every_operation() {
    let r = request_of(&AdminOp::GetTenants);
    assert_eq!(r.method, Method::Get);
    assert_eq!(r.path, "/tenants");
    assert!(r.body.is_none());

    let r = request_of(&AdminOp::ListNamespaces { tenant: "public".into() });
    assert_eq!(r.method, Method::Get);
    assert_eq!(r.path, "/namespaces/public");
    assert!(r.body.is_none());

    let r = request_of(&AdminOp::CreateNamespace {
        tenant: "public".into(),
        namespace: "ns1".into(),
    });
    assert_eq!(r.method, Method::Put);
    assert_eq!(r.path, "/namespaces/public/ns1");
    assert_eq!(r.body.as_deref(), Some(""));

    let r = request_of(&AdminOp::DeleteNamespace {
        tenant: "public".into(),
        namespace: "ns1".into(),
    });
    assert_eq!(r.method, Method::Delete);
    assert_eq!(r.path, "/namespaces/public/ns1");
    assert!(r.body.is_none());

    let r = request_of(&AdminOp::CreateNonPartitionedTopic {
        tenant: "public".into(),
        namespace: "ns1".into(),
        topic: "t1".into(),
    });
    assert_eq!(r.method, Method::Put);
    assert_eq!(r.path, "/persistent/public/ns1/t1");
    assert_eq!(r.body.as_deref(), Some(""));

    let r = request_of(&AdminOp::DeleteNonPartitionedTopic {
        tenant: "public".into(),
        namespace: "ns1".into(),
        topic: "t1".into(),
    });
    assert_eq!(r.method, Method::Delete);
    assert_eq!(r.path, "/persistent/public/ns1/t1");
    assert!(r.body.is_none());

    let r = request_of(&AdminOp::ListNonPartitionedTopics {
        tenant: "public".into(),
        namespace: "ns1".into(),
    });
    assert_eq!(r.method, Method::Get);
    assert_eq!(r.path, "/persistent/public/ns1");
    assert!(r.body.is_none());

    let r = request_of(&AdminOp::CreatePartitionedTopic {
        tenant: "public".into(),
        namespace: "ns1".into(),
        topic: "t1".into(),
        num_partitions: 3,
    });
    assert_eq!(r.method, Method::Put);
    assert_eq!(r.path, "/persistent/public/ns1/t1/partitions");
    assert_eq!(r.body.as_deref(), Some("3"));

    let r = request_of(&AdminOp::DeletePartitionedTopic {
        tenant: "public".into(),
        namespace: "ns1".into(),
        topic: "t1".into(),
    });
    assert_eq!(r.method, Method::Delete);
    assert_eq!(r.path, "/persistent/public/ns1/t1/partitions");
    assert!(r.body.is_none());

    let r = request_of(&AdminOp::ListPartitionedTopics {
        tenant: "public".into(),
        namespace: "ns1".into(),
    });
    assert_eq!(r.method, Method::Get);
    assert_eq!(r.path, "/persistent/public/ns1/partitioned");
    assert!(r.body.is_none());

    let r = request_of(&AdminOp::GetTopicStats {
        tenant: "public".into(),
        namespace: "ns1".into(),
        topic: "t1".into(),
    });
    assert_eq!(r.method, Method::Get);
    assert_eq!(r.path, "/persistent/public/ns1/t1/stats");
    assert!(r.body.is_none());

    let r = request_of(&AdminOp::LookupPersistentTopic {
        tenant: "public".into(),
        namespace: "ns1".into(),
        topic: "t1".into(),
    });
    assert_eq!(r.method, Method::Get);
    assert_eq!(r.path, "/lookup/v2/topic/persistent/public/ns1/t1");
    assert!(r.body.is_none());
}

#[test]
fn error_status_is_reported_as_http_error_never_decode() {
    // A call against a missing resource comes back with a 4xx status; the
    // outcome carries that status and is never a decode error, whatever the
    // body holds.
    let ops = vec![
        AdminOp::GetTenants,
        AdminOp::ListNamespaces { tenant: "public".into() },
        AdminOp::GetTopicStats {
            tenant: "public".into(),
            namespace: "missing".into(),
            topic: "absent".into(),
        },
        AdminOp::LookupPersistentTopic {
            tenant: "public".into(),
            namespace: "missing".into(),
            topic: "absent".into(),
        },
    ];
    for op in &ops {
        match handle_response(op, 404, String::from("Topic not found")) {
            Err(AdminError::Http { status, message }) => {
                assert_eq!(status, 404);
                assert_eq!(message, "Topic not found");
            }
            other => panic!("expected an HTTP status error, got {:?}", other),
        }
    }
}

#[test]
fn deleting_missing_resource_is_an_error_not_silent_success() {
    // Deletes relay the upstream failure status instead of reporting
    // success.
    let op = AdminOp::DeleteNamespace {
        tenant: "public".into(),
        namespace: "never-created".into(),
    };
    let r = handle_response(&op, 404, String::from("Namespace does not exist"));
    assert!(matches!(r, Err(AdminError::Http { status: 404, .. })));

    let op = AdminOp::DeleteNonPartitionedTopic {
        tenant: "public".into(),
        namespace: "ns1".into(),
        topic: "never-created".into(),
    };
    let r = handle_response(&op, 404, String::from("Topic not found"));
    assert!(matches!(r, Err(AdminError::Http { status: 404, .. })));
}

#[test]
fn success_without_payload_is_done() {
    let op = AdminOp::CreateNamespace {
        tenant: "public".into(),
        namespace: "ns1".into(),
    };
    let r = handle_response(&op, 204, String::new());
    assert!(matches!(r, Ok(AdminResponse::Done)));
}

#[test]
fn name_list_success_decodes() {
    let r = handle_response(&AdminOp::GetTenants, 200, String::from(r#"["public","sample"]"#));
    match r {
        Ok(AdminResponse::Names(names)) => assert_eq!(names, vec!["public", "sample"]),
        other => panic!("expected a name list, got {:?}", other),
    }
}

#[test]
fn lookup_success_decodes_through_the_operation() {
    let op = AdminOp::LookupPersistentTopic {
        tenant: "public".into(),
        namespace: "ns1".into(),
        topic: "t1".into(),
    };
    let body = String::from(r#"{"brokerUrl": "pulsar://127.0.0.1:6650"}"#);
    match handle_response(&op, 200, body) {
        Ok(AdminResponse::Broker(d)) => {
            assert_eq!(d.broker_url.as_deref(), Some("pulsar://127.0.0.1:6650"));
            assert!(d.http_url.is_none());
        }
        other => panic!("expected a broker record, got {:?}", other),
    }
}

#[test]
fn stats_success_must_decode_or_fail_as_decode_error() {
    let op = AdminOp::GetTopicStats {
        tenant: "public".into(),
        namespace: "ns1".into(),
        topic: "t1".into(),
    };
    match handle_response(&op, 200, String::from("{}")) {
        Err(e) => assert!(e.is_decode()),
        other => panic!("expected a decode error, got {:?}", other),
    }
}

#[test]
fn name_list_garbage_is_a_decode_error() {
    let r = handle_response(&AdminOp::GetTenants, 200, String::from("not json at all"));
    match r {
        Err(e) => assert!(e.is_decode()),
        other => panic!("expected a decode error, got {:?}", other),
    }
}
