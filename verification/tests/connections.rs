use amp::connections::{
    connection_from_record, connection_id_of, datetime_text, decide_lease, heartbeat_statement,
    lease_check_query, lease_create_statement, lease_expiry, list_connections_query,
    register_statement, ConnectionRecord, HeartbeatRequest, LeaseDecision, ListConnectionsQuery,
    DEFAULT_LEASE_SECONDS, DEFAULT_TTL_SECONDS,
};

#[test]
fn register_statement_uses_default_ttl() {
    let s = register_statement("abc", None);
    assert!(s.starts_with("CREATE agent_connections:`abc` SET"));
    assert!(s.ends_with("expires_at = time::now() + 600s"));
    assert_eq!(DEFAULT_TTL_SECONDS, 600);
}

#[test]
fn register_statement_uses_given_ttl() {
    let s = register_statement("abc", Some(-5));
    assert!(s.ends_with("expires_at = time::now() + -5s"));
}

#[test]
fn heartbeat_statement_with_and_without_run() {
    let with_run = heartbeat_statement(&HeartbeatRequest {
        connection_id: "c".to_string(),
        run_id: Some("r".to_string()),
        ttl_seconds: Some(30),
    });
    assert_eq!(
        with_run,
        "UPDATE agent_connections SET\n                last_heartbeat = time::now(),\n                expires_at = time::now() + 30s,\n                run_id = $run_id\n             WHERE connection_id = $connection_id"
    );
    let without = heartbeat_statement(&HeartbeatRequest {
        connection_id: "c".to_string(),
        run_id: None,
        ttl_seconds: None,
    });
    assert_eq!(
        without,
        "UPDATE agent_connections SET\n                last_heartbeat = time::now(),\n                expires_at = time::now() + 600s\n             WHERE connection_id = $connection_id"
    );
}

#[test]
fn list_connections_query_conditions() {
    let q = list_connections_query(&ListConnectionsQuery {
        run_id: Some("r1".to_string()),
        project_id: None,
        include_expired: None,
    });
    assert!(q.ends_with("FROM agent_connections WHERE expires_at > time::now() AND run_id = 'r1' ORDER BY last_heartbeat DESC)"));
    let all = list_connections_query(&ListConnectionsQuery {
        run_id: None,
        project_id: None,
        include_expired: Some(true),
    });
    assert!(all.ends_with("FROM agent_connections ORDER BY last_heartbeat DESC)"));
}

#[test]
fn connection_id_is_made_bare() {
    assert_eq!(connection_id_of("agent_connections:`abc-1`"), "abc-1");
    assert_eq!(connection_id_of("plain"), "plain");
}

#[test]
fn datetime_text_prefers_the_string() {
    assert_eq!(datetime_text(Some("a"), Some("b"), Some("c")), "a");
    assert_eq!(datetime_text(None, Some("b"), Some("c")), "b");
    assert_eq!(datetime_text(None, None, Some("c")), "c");
    assert_eq!(datetime_text(None, None, None), "");
}

fn record(connection_id: Option<&str>, id: Option<&str>, agent: Option<&str>, status: Option<&str>) -> ConnectionRecord {
    ConnectionRecord {
        connection_id: connection_id.map(|s| s.to_string()),
        id: id.map(|s| s.to_string()),
        agent_id: agent.map(|s| s.to_string()),
        agent_name: Some("Agent".to_string()),
        run_id: None,
        project_id: Some("p".to_string()),
        status: status.map(|s| s.to_string()),
        last_heartbeat: "t1".to_string(),
        connected_at: "t0".to_string(),
        expires_at: "t2".to_string(),
    }
}

#[test]
fn connection_from_record_reads_fields() {
    let c = connection_from_record(record(None, Some("agent_connections:`x`"), Some("a1"), None)).unwrap();
    assert_eq!(c.connection_id, "x");
    assert_eq!(c.agent_id, "a1");
    assert_eq!(c.status, "unknown");
    assert_eq!(c.project_id, Some("p".to_string()));
    assert_eq!(c.expires_at, "t2");
    let c2 = connection_from_record(record(Some("y"), Some("z"), Some("a1"), Some("connected"))).unwrap();
    assert_eq!(c2.connection_id, "y");
    assert_eq!(c2.status, "connected");
}

#[test]
fn connection_from_record_needs_id_and_agent() {
    assert!(connection_from_record(record(None, None, Some("a1"), None)).is_none());
    assert!(connection_from_record(record(Some("y"), None, None, None)).is_none());
}

#[test]
fn lease_queries() {
    assert_eq!(
        lease_check_query("res"),
        "SELECT * FROM leases WHERE resource = 'res' AND expires_at > time::now()"
    );
    assert!(lease_create_statement("l1").starts_with("CREATE leases:`l1` CONTENT {"));
}

#[test]
fn lease_is_granted_only_when_free() {
    assert_eq!(decide_lease(0), LeaseDecision::Grant);
    assert_eq!(decide_lease(1), LeaseDecision::Conflict);
    assert_eq!(decide_lease(7), LeaseDecision::Conflict);
}

#[test]
fn lease_expiry_adds_duration() {
    assert_eq!(lease_expiry(1000, Some(60)), Some(1060));
    assert_eq!(lease_expiry(1000, None), Some(1000 + DEFAULT_LEASE_SECONDS as i64));
    assert_eq!(lease_expiry(i64::MAX - 10, Some(11)), None);
    assert_eq!(lease_expiry(i64::MAX - 10, Some(10)), Some(i64::MAX));
}
