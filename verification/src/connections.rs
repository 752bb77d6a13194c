//! Agent connections and resource leases: the records that say which agents
//! are present and which of them holds a resource.
use vstd::prelude::*;

use crate::json::{deref_json, field, field_text, get_field, get_text, JsonValue};
use crate::query::quoted_chars;
use crate::text::opt_view;
use crate::text::{
    append_chars, append_signed_decimal, append_str, chars_of, join_parts, join_with, signed_decimal,
    string_from_str, string_of, trim_char, trim_start_str, views,
};

verus! {

/// How long a connection lives without a heartbeat, in seconds.
pub const DEFAULT_TTL_SECONDS: i64 = 600;

/// A request to register an agent connection.
pub struct RegisterConnectionRequest {
    pub agent_id: String,
    pub agent_name: String,
    pub run_id: Option<String>,
    pub project_id: Option<String>,
    /// Seconds until the connection expires (600 by default).
    pub ttl_seconds: Option<i64>,
}

/// A registered connection.
pub struct ConnectionInfo {
    pub connection_id: String,
    pub agent_id: String,
    pub agent_name: String,
    pub run_id: Option<String>,
    pub project_id: Option<String>,
    pub status: String,
    pub last_heartbeat: String,
    pub connected_at: String,
    pub expires_at: String,
}

/// A heartbeat of a connection.
pub struct HeartbeatRequest {
    pub connection_id: String,
    pub run_id: Option<String>,
    pub ttl_seconds: Option<i64>,
}

/// A request to end a connection.
pub struct DisconnectRequest {
    pub connection_id: String,
}

/// Narrowing of a connection listing.
pub struct ListConnectionsQuery {
    pub run_id: Option<String>,
    pub project_id: Option<String>,
    /// Include expired connections (not by default).
    pub include_expired: Option<bool>,
}

/// The time to live a request asks for, or the default.
pub open spec fn ttl_or_default(ttl: Option<i64>) -> i64 {
    match ttl {
        Some(t) => t,
        None => DEFAULT_TTL_SECONDS,
    }
}

/// The statement that records a new connection expiring `ttl` seconds from now.
pub open spec fn register_statement_spec(connection_id: Seq<char>, ttl: i64) -> Seq<char> {
    "CREATE agent_connections:`"@ + connection_id + "` SET\n            connection_id = $connection_id,\n            agent_id = $agent_id,\n            agent_name = $agent_name,\n            run_id = $run_id,\n            project_id = $project_id,\n            status = \"connected\",\n            last_heartbeat = time::now(),\n            connected_at = time::now(),\n            expires_at = time::now() + "@ + signed_decimal(ttl as int) + "s"@
}

/// Writes the statement that records a new connection.
pub fn register_statement(connection_id: &str, ttl_seconds: Option<i64>) -> (r: String)
    ensures
        r@ == register_statement_spec(connection_id@, ttl_or_default(ttl_seconds)),
{
    let ttl: i64 = match ttl_seconds {
        Some(t) => t,
        None => DEFAULT_TTL_SECONDS,
    };
    let mut v = chars_of("CREATE agent_connections:`");
    append_str(&mut v, connection_id);
    append_str(&mut v, "` SET\n            connection_id = $connection_id,\n            agent_id = $agent_id,\n            agent_name = $agent_name,\n            run_id = $run_id,\n            project_id = $project_id,\n            status = \"connected\",\n            last_heartbeat = time::now(),\n            connected_at = time::now(),\n            expires_at = time::now() + ");
    append_signed_decimal(&mut v, ttl);
    append_str(&mut v, "s");
    proof {
        assert(v@ =~= register_statement_spec(connection_id@, ttl_or_default(ttl_seconds)));
    }
    string_of(&v)
}

/// The statement of a heartbeat: the connection lives `ttl` more seconds,
/// and takes the run id when one is given.
pub open spec fn heartbeat_statement_spec(ttl: i64, with_run: bool) -> Seq<char> {
    "UPDATE agent_connections SET\n                last_heartbeat = time::now(),\n                expires_at = time::now() + "@ + signed_decimal(ttl as int) + if with_run {
        "s,\n                run_id = $run_id\n             WHERE connection_id = $connection_id"@
    } else {
        "s\n             WHERE connection_id = $connection_id"@
    }
}

/// Writes the statement of a heartbeat.
pub fn heartbeat_statement(request: &HeartbeatRequest) -> (r: String)
    ensures
        r@ == heartbeat_statement_spec(ttl_or_default(request.ttl_seconds), request.run_id is Some),
{
    let ttl: i64 = match request.ttl_seconds {
        Some(t) => t,
        None => DEFAULT_TTL_SECONDS,
    };
    let mut v = chars_of("UPDATE agent_connections SET\n                last_heartbeat = time::now(),\n                expires_at = time::now() + ");
    append_signed_decimal(&mut v, ttl);
    if request.run_id.is_some() {
        append_str(&mut v, "s,\n                run_id = $run_id\n             WHERE connection_id = $connection_id");
    } else {
        append_str(&mut v, "s\n             WHERE connection_id = $connection_id");
    }
    proof {
        assert(v@ =~= heartbeat_statement_spec(ttl_or_default(request.ttl_seconds), request.run_id is Some));
    }
    string_of(&v)
}

/// The statement that ends a connection.
pub const DISCONNECT_STATEMENT: &'static str = "UPDATE agent_connections SET\n        status = \"disconnected\",\n        expires_at = time::now()\n     WHERE connection_id = $connection_id";

/// The conditions of a connection listing: unexpired unless expired ones
/// are asked for, then run and project when given.
pub open spec fn connection_conditions(q: ListConnectionsQuery) -> Seq<Seq<char>> {
    (if q.include_expired == Some(true) {
        Seq::empty()
    } else {
        seq!["expires_at > time::now()"@]
    }) + (match q.run_id {
        Some(r) => seq!["run_id = "@ + crate::query::quoted(r@)],
        None => Seq::empty(),
    }) + (match q.project_id {
        Some(p) => seq!["project_id = "@ + crate::query::quoted(p@)],
        None => Seq::empty(),
    })
}

/// The listing of connections, most recent heartbeat first.
pub open spec fn list_connections_query_spec(q: ListConnectionsQuery) -> Seq<char> {
    "SELECT VALUE { id: string::concat(id), connection_id: connection_id, agent_id: agent_id, agent_name: agent_name, run_id: run_id, project_id: project_id, status: status, last_heartbeat: last_heartbeat, connected_at: connected_at, expires_at: expires_at } FROM (SELECT id, connection_id, agent_id, agent_name, run_id, project_id, status, last_heartbeat, connected_at, expires_at FROM agent_connections"@ + crate::query::conditions_clause(connection_conditions(q), " WHERE "@) + " ORDER BY last_heartbeat DESC)"@
}

/// Writes the listing of connections.
pub fn list_connections_query(q: &ListConnectionsQuery) -> (r: String)
    ensures
        r@ == list_connections_query_spec(*q),
{
    let mut conds: Vec<Vec<char>> = Vec::new();
    let include_expired = match q.include_expired {
        Some(b) => b,
        None => false,
    };
    if !include_expired {
        conds.push(chars_of("expires_at > time::now()"));
    }
    if let Some(r) = &q.run_id {
        let mut c = chars_of("run_id = ");
        let qr = quoted_chars(r.as_str());
        append_chars(&mut c, &qr);
        conds.push(c);
    }
    if let Some(p) = &q.project_id {
        let mut c = chars_of("project_id = ");
        let qp = quoted_chars(p.as_str());
        append_chars(&mut c, &qp);
        conds.push(c);
    }
    proof {
        assert(views(conds@) =~= connection_conditions(*q));
    }
    let mut v = chars_of("SELECT VALUE { id: string::concat(id), connection_id: connection_id, agent_id: agent_id, agent_name: agent_name, run_id: run_id, project_id: project_id, status: status, last_heartbeat: last_heartbeat, connected_at: connected_at, expires_at: expires_at } FROM (SELECT id, connection_id, agent_id, agent_name, run_id, project_id, status, last_heartbeat, connected_at, expires_at FROM agent_connections");
    crate::query::append_conditions(&mut v, &conds, " WHERE ");
    append_str(&mut v, " ORDER BY last_heartbeat DESC)");
    string_of(&v)
}

/// A connection id as stored, without its table prefix and backticks.
pub open spec fn bare_connection_id(raw: Seq<char>) -> Seq<char> {
    trim_char(trim_start_str(raw, "agent_connections:"@), '`')
}

/// Reduces a stored connection id to the bare id.
pub fn connection_id_of(raw: &str) -> (r: String)
    ensures
        r@ == bare_connection_id(raw@),
{
    let cs = chars_of(raw);
    let prefix = chars_of("agent_connections:");
    proof {
        reveal_strlit("agent_connections:");
    }
    let t = crate::text::trim_start_matches_str(&cs, &prefix);
    let t = crate::text::trim_matches_char(&t, '`');
    string_of(&t)
}

/// The text of a stored time: the string itself, else its `$datetime`
/// field, else its `time` field, else empty.
pub fn datetime_text(as_str: Option<&str>, datetime_field: Option<&str>, time_field: Option<&str>) -> (r: String)
    ensures
        r@ == match as_str {
            Some(s) => s@,
            None => match datetime_field {
                Some(d) => d@,
                None => match time_field {
                    Some(t) => t@,
                    None => Seq::empty(),
                },
            },
        },
{
    match as_str {
        Some(s) => string_from_str(s),
        None => match datetime_field {
            Some(d) => string_from_str(d),
            None => match time_field {
                Some(t) => string_from_str(t),
                None => String::new(),
            },
        },
    }
}

/// The text of a stored time: a string as it is, else the string at its
/// `$datetime` entry, else at its `time` entry; empty otherwise.
pub open spec fn datetime_of(v: Option<JsonValue>) -> Seq<char> {
    match v {
        Some(JsonValue::Str(s)) => s@,
        Some(x) => match field_text(x, "$datetime"@) {
            Some(d) => d,
            None => match field_text(x, "time"@) {
                Some(t) => t,
                None => Seq::empty(),
            },
        },
        None => Seq::empty(),
    }
}

/// Reads a stored time as text.
pub fn extract_datetime(value: Option<&JsonValue>) -> (r: String)
    ensures
        r@ == datetime_of(deref_json(value)),
{
    match value {
        Some(JsonValue::Str(s)) => string_from_str(s.as_str()),
        Some(v) => {
            let d = get_text(v, "$datetime");
            let t = get_text(v, "time");
            match d {
                Some(d) => d,
                None => match t {
                    Some(t) => t,
                    None => String::new(),
                },
            }
        },
        None => String::new(),
    }
}

/// The plain values of a connection.
pub open spec fn connection_view(c: ConnectionInfo) -> (
    Seq<char>,
    Seq<char>,
    Seq<char>,
    Option<Seq<char>>,
    Option<Seq<char>>,
    Seq<char>,
    Seq<char>,
    Seq<char>,
    Seq<char>,
) {
    (
        c.connection_id@,
        c.agent_id@,
        c.agent_name@,
        opt_view(c.run_id),
        opt_view(c.project_id),
        c.status@,
        c.last_heartbeat@,
        c.connected_at@,
        c.expires_at@,
    )
}

/// The connection a stored record describes: none unless it has a string
/// `connection_id` or `id`, `agent_id` and `agent_name`; the id is made
/// bare, the status reads `unknown` when missing, and the times are read
/// as `datetime_of` reads them.
pub open spec fn connection_of_json(v: JsonValue) -> Option<
    (
        Seq<char>,
        Seq<char>,
        Seq<char>,
        Option<Seq<char>>,
        Option<Seq<char>>,
        Seq<char>,
        Seq<char>,
        Seq<char>,
        Seq<char>,
    ),
> {
    let raw = match field_text(v, "connection_id"@) {
        Some(c) => Some(c),
        None => field_text(v, "id"@),
    };
    match (raw, field_text(v, "agent_id"@), field_text(v, "agent_name"@)) {
        (Some(c), Some(a), Some(n)) => Some(
            (
                bare_connection_id(c),
                a,
                n,
                field_text(v, "run_id"@),
                field_text(v, "project_id"@),
                match field_text(v, "status"@) {
                    Some(s) => s,
                    None => "unknown"@,
                },
                datetime_of(field(v, "last_heartbeat"@)),
                datetime_of(field(v, "connected_at"@)),
                datetime_of(field(v, "expires_at"@)),
            ),
        ),
        _ => None,
    }
}

/// Reads a connection from a stored record.
pub fn extract_connection_info(value: &JsonValue) -> (c: Option<ConnectionInfo>)
    ensures
        match c {
            Some(info) => connection_of_json(*value) == Some(connection_view(info)),
            None => connection_of_json(*value) is None,
        },
{
    let record = ConnectionRecord {
        connection_id: get_text(value, "connection_id"),
        id: get_text(value, "id"),
        agent_id: get_text(value, "agent_id"),
        agent_name: get_text(value, "agent_name"),
        run_id: get_text(value, "run_id"),
        project_id: get_text(value, "project_id"),
        status: get_text(value, "status"),
        last_heartbeat: extract_datetime(get_field(value, "last_heartbeat")),
        connected_at: extract_datetime(get_field(value, "connected_at")),
        expires_at: extract_datetime(get_field(value, "expires_at")),
    };
    connection_from_record(record)
}

/// The fields of a stored connection record as text, where present.
pub struct ConnectionRecord {
    pub connection_id: Option<String>,
    pub id: Option<String>,
    pub agent_id: Option<String>,
    pub agent_name: Option<String>,
    pub run_id: Option<String>,
    pub project_id: Option<String>,
    pub status: Option<String>,
    pub last_heartbeat: String,
    pub connected_at: String,
    pub expires_at: String,
}

/// The connection a stored record describes: none without an id, agent id
/// or agent name; the id is the record's `connection_id` (else its `id`)
/// made bare, and a missing status reads `unknown`.
pub open spec fn connection_from_spec(r: ConnectionRecord) -> Option<(Seq<char>, Seq<char>, Seq<char>, Seq<char>)> {
    let raw = match r.connection_id {
        Some(c) => Some(c@),
        None => match r.id {
            Some(i) => Some(i@),
            None => None,
        },
    };
    match (raw, r.agent_id, r.agent_name) {
        (Some(c), Some(a), Some(n)) => Some(
            (
                bare_connection_id(c),
                a@,
                n@,
                match r.status {
                    Some(s) => s@,
                    None => "unknown"@,
                },
            ),
        ),
        _ => None,
    }
}

/// The connection a stored record describes.
pub fn connection_from_record(r: ConnectionRecord) -> (c: Option<ConnectionInfo>)
    ensures
        match c {
            Some(info) => {
                &&& connection_from_spec(r) == Some((info.connection_id@, info.agent_id@, info.agent_name@, info.status@))
                &&& info.run_id == r.run_id
                &&& info.project_id == r.project_id
                &&& info.last_heartbeat == r.last_heartbeat
                &&& info.connected_at == r.connected_at
                &&& info.expires_at == r.expires_at
            },
            None => connection_from_spec(r) is None,
        },
{
    let raw = match &r.connection_id {
        Some(c) => Some(c.clone()),
        None => match &r.id {
            Some(i) => Some(i.clone()),
            None => None,
        },
    };
    match (raw, r.agent_id, r.agent_name) {
        (Some(c), Some(a), Some(n)) => {
            let status = match r.status {
                Some(s) => s,
                None => string_from_str("unknown"),
            };
            Some(ConnectionInfo {
                connection_id: connection_id_of(c.as_str()),
                agent_id: a,
                agent_name: n,
                run_id: r.run_id,
                project_id: r.project_id,
                status,
                last_heartbeat: r.last_heartbeat,
                connected_at: r.connected_at,
                expires_at: r.expires_at,
            })
        },
        _ => None,
    }
}

/// A request for a lease on a resource.
pub struct LeaseRequest {
    pub resource: String,
    pub agent_id: String,
    /// Seconds the lease lasts (300 by default).
    pub duration: Option<u64>,
}

/// How long a lease lasts when the request does not say.
pub const DEFAULT_LEASE_SECONDS: u64 = 300;

/// The check for an unexpired lease on a resource.
pub open spec fn lease_check_query_spec(resource: Seq<char>) -> Seq<char> {
    "SELECT * FROM leases WHERE resource = "@ + crate::query::quoted(resource) + " AND expires_at > time::now()"@
}

/// Writes the check for an unexpired lease on a resource.
pub fn lease_check_query(resource: &str) -> (r: String)
    ensures
        r@ == lease_check_query_spec(resource@),
{
    let q = quoted_chars(resource);
    let mut v = chars_of("SELECT * FROM leases WHERE resource = ");
    append_chars(&mut v, &q);
    append_str(&mut v, " AND expires_at > time::now()");
    proof {
        assert(v@ =~= lease_check_query_spec(resource@));
    }
    string_of(&v)
}

/// The statement that creates a lease record.
pub open spec fn lease_create_statement_spec(lease_id: Seq<char>) -> Seq<char> {
    "CREATE leases:`"@ + lease_id
        + "` CONTENT { resource: $resource, holder: $holder, created_at: time::from::unix($created_at), expires_at: time::from::unix($expires_at) }"@
}

/// Writes the statement that creates a lease record.
pub fn lease_create_statement(lease_id: &str) -> (r: String)
    ensures
        r@ == lease_create_statement_spec(lease_id@),
{
    let mut v = chars_of("CREATE leases:`");
    append_str(&mut v, lease_id);
    append_str(
        &mut v,
        "` CONTENT { resource: $resource, holder: $holder, created_at: time::from::unix($created_at), expires_at: time::from::unix($expires_at) }",
    );
    string_of(&v)
}

/// The outcome of asking for a lease.
#[derive(Debug, Clone, Copy, PartialEq, Eq, Structural)]
pub enum LeaseDecision {
    /// No unexpired lease holds the resource: a lease is created.
    Grant,
    /// Another lease holds the resource until it expires.
    Conflict,
}

/// Decides a lease request from the number of unexpired leases on the resource.
pub fn decide_lease(active_leases: usize) -> (r: LeaseDecision)
    ensures
        r == (if active_leases == 0 {
            LeaseDecision::Grant
        } else {
            LeaseDecision::Conflict
        }),
{
    if active_leases == 0 {
        LeaseDecision::Grant
    } else {
        LeaseDecision::Conflict
    }
}

/// When a lease granted at `now` (Unix seconds) for `duration` seconds
/// expires; none when that time cannot be written as a Unix time.
pub fn lease_expiry(now: i64, duration: Option<u64>) -> (r: Option<i64>)
    ensures
        ({
            let d = match duration {
                Some(d) => d as int,
                None => DEFAULT_LEASE_SECONDS as int,
            };
            match r {
                Some(e) => e == now + d,
                None => now + d > i64::MAX,
            }
        }),
{
    let d: u64 = match duration {
        Some(d) => d,
        None => DEFAULT_LEASE_SECONDS,
    };
    let e: i128 = now as i128 + d as i128;
    if e > i64::MAX as i128 {
        None
    } else {
        Some(e as i64)
    }
}

/// The statement that removes a lease.
pub fn release_statement(lease_id: &str) -> (r: String)
    ensures
        r@ == "DELETE leases:`"@ + lease_id@ + "`"@,
{
    let mut v = chars_of("DELETE leases:`");
    append_str(&mut v, lease_id);
    append_str(&mut v, "`");
    string_of(&v)
}

/// The resource and holder of a stored lease, when both are strings (a
/// renewal keeps them).
pub fn lease_parties(lease: &JsonValue) -> (r: Option<(String, String)>)
    ensures
        match r {
            Some((res, holder)) => field_text(*lease, "resource"@) == Some(res@) && field_text(*lease, "holder"@) == Some(
                holder@,
            ),
            None => field_text(*lease, "resource"@) is None || field_text(*lease, "holder"@) is None,
        },
{
    match get_text(lease, "resource") {
        Some(res) => match get_text(lease, "holder") {
            Some(h) => Some((res, h)),
            None => None,
        },
        None => None,
    }
}

} // verus!
