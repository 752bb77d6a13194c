//! Focus of an agent session: what a run is working on, set, read,
//! completed and ended through one request.
use vstd::prelude::*;

use crate::json::{field, field_text, get_field, get_text, JsonValue};
use crate::text::opt_view;
use crate::text::{
    append_chars, append_str, chars_of, has_prefix, join_parts, string_from_str, string_of, trim,
    trim_start_str, trim_ws, views,
};

verus! {

/// What a focus request does.
#[derive(Debug, Clone, Copy, PartialEq, Eq, Structural)]
pub enum FocusAction {
    List,
    Get,
    SetFocus,
    Complete,
    End,
}

/// A focus request.
pub struct FocusRequest {
    pub action: FocusAction,
    pub run_id: Option<String>,
    pub title: Option<String>,
    pub plan: Option<Vec<String>>,
    pub summary: Option<String>,
    pub files_changed: Option<Vec<String>>,
    pub project_id: Option<String>,
    pub include_expired: Option<bool>,
}

/// A run id without surrounding spaces and its `objects:` and `run:` prefixes.
pub open spec fn focus_run_id_spec(id: Seq<char>) -> Seq<char> {
    trim_start_str(trim_start_str(trim_ws(id), "objects:"@), "run:"@)
}

/// Reduces a run id to the bare id.
pub fn normalize_run_id(id: &str) -> (r: String)
    ensures
        r@ == focus_run_id_spec(id@),
{
    let cs = chars_of(id);
    let t = trim(&cs);
    let objects = chars_of("objects:");
    let run = chars_of("run:");
    proof {
        reveal_strlit("objects:");
        reveal_strlit("run:");
    }
    let t = crate::text::trim_start_matches_str(&t, &objects);
    let t = crate::text::trim_start_matches_str(&t, &run);
    string_of(&t)
}

/// The session listing: unexpired sessions unless expired ones are asked
/// for, narrowed to the project when one is given, most recent heartbeat first.
pub open spec fn focus_list_query_spec(include_expired: bool, has_project: bool) -> Seq<char> {
    let conds = (if include_expired {
        Seq::empty()
    } else {
        seq!["expires_at > time::now()"@]
    }) + (if has_project {
        seq!["project_id = $project_id"@]
    } else {
        Seq::empty()
    });
    "SELECT VALUE { agent_name: agent_name, run_id: run_id, project_id: project_id, status: status, last_heartbeat: last_heartbeat } FROM (SELECT agent_name, run_id, project_id, status, last_heartbeat, expires_at FROM agent_connections"@
        + crate::query::conditions_clause(conds, " WHERE "@) + " ORDER BY last_heartbeat DESC)"@
}

/// Writes the session listing.
pub fn focus_list_query(include_expired: bool, has_project: bool) -> (r: String)
    ensures
        r@ == focus_list_query_spec(include_expired, has_project),
{
    let mut conds: Vec<Vec<char>> = Vec::new();
    if !include_expired {
        conds.push(chars_of("expires_at > time::now()"));
    }
    if has_project {
        conds.push(chars_of("project_id = $project_id"));
    }
    proof {
        assert(views(conds@) =~= (if include_expired {
            Seq::empty()
        } else {
            seq!["expires_at > time::now()"@]
        }) + (if has_project {
            seq!["project_id = $project_id"@]
        } else {
            Seq::empty()
        }));
    }
    let mut v = chars_of(
        "SELECT VALUE { agent_name: agent_name, run_id: run_id, project_id: project_id, status: status, last_heartbeat: last_heartbeat } FROM (SELECT agent_name, run_id, project_id, status, last_heartbeat, expires_at FROM agent_connections",
    );
    crate::query::append_conditions(&mut v, &conds, " WHERE ");
    append_str(&mut v, " ORDER BY last_heartbeat DESC)");
    string_of(&v)
}

/// What answering a focus request takes.
pub enum FocusStep {
    /// List the sessions with this query.
    List { query: String },
    /// Read the run.
    Get { run_id: String },
    /// Make `title` the run's active focus.
    SetFocus { run_id: String, title: String },
    /// Mark the run's focus completed.
    Complete { run_id: String },
    /// End the run's session.
    End { run_id: String },
}

/// The name of an action in error messages.
pub open spec fn action_word(a: FocusAction) -> Seq<char> {
    match a {
        FocusAction::List => "list"@,
        FocusAction::Get => "get"@,
        FocusAction::SetFocus => "set"@,
        FocusAction::Complete => "complete"@,
        FocusAction::End => "end"@,
    }
}

/// The plain values of a focus step: the action, the run id or listing
/// query, and the title of a `SetFocus`.
pub open spec fn step_view(s: FocusStep) -> (FocusAction, Seq<char>, Option<Seq<char>>) {
    match s {
        FocusStep::List { query } => (FocusAction::List, query@, None),
        FocusStep::Get { run_id } => (FocusAction::Get, run_id@, None),
        FocusStep::SetFocus { run_id, title } => (FocusAction::SetFocus, run_id@, Some(title@)),
        FocusStep::Complete { run_id } => (FocusAction::Complete, run_id@, None),
        FocusStep::End { run_id } => (FocusAction::End, run_id@, None),
    }
}

/// How a focus request is answered: a listing needs nothing; every other
/// action needs a run id (`run_id required for <action>`), and setting a
/// focus needs a title (`title required for set`).
pub open spec fn focus_plan_spec(r: FocusRequest) -> Result<(FocusAction, Seq<char>, Option<Seq<char>>), Seq<char>> {
    match r.action {
        FocusAction::List => Ok(
            (FocusAction::List, focus_list_query_spec(r.include_expired == Some(true), r.project_id is Some), None),
        ),
        _ => match r.run_id {
            None => Err("run_id required for "@ + action_word(r.action)),
            Some(id) => if r.action == FocusAction::SetFocus {
                match r.title {
                    Some(t) => Ok((FocusAction::SetFocus, focus_run_id_spec(id@), Some(t@))),
                    None => Err("title required for set"@),
                }
            } else {
                Ok((r.action, focus_run_id_spec(id@), None))
            },
        },
    }
}

/// Decides how a focus request is answered.
pub fn plan_focus(request: &FocusRequest) -> (r: Result<FocusStep, String>)
    ensures
        match r {
            Ok(s) => focus_plan_spec(*request) == Ok::<_, Seq<char>>(step_view(s)),
            Err(e) => focus_plan_spec(*request) == Err::<(FocusAction, Seq<char>, Option<Seq<char>>), _>(e@),
        },
{
    if request.action == FocusAction::List {
        let include_expired = match request.include_expired {
            Some(b) => b,
            None => false,
        };
        let query = focus_list_query(include_expired, request.project_id.is_some());
        return Ok(FocusStep::List { query });
    }
    let id = match &request.run_id {
        Some(id) => id,
        None => {
            let word = match request.action {
                FocusAction::List => "list",
                FocusAction::Get => "get",
                FocusAction::SetFocus => "set",
                FocusAction::Complete => "complete",
                FocusAction::End => "end",
            };
            let mut v = chars_of("run_id required for ");
            append_str(&mut v, word);
            proof {
                assert(v@ =~= "run_id required for "@ + action_word(request.action));
            }
            return Err(string_of(&v));
        },
    };
    let run_id = normalize_run_id(id.as_str());
    match request.action {
        FocusAction::SetFocus => match &request.title {
            Some(t) => Ok(FocusStep::SetFocus { run_id, title: t.clone() }),
            None => Err(string_from_str("title required for set")),
        },
        FocusAction::Get => Ok(FocusStep::Get { run_id }),
        FocusAction::Complete => Ok(FocusStep::Complete { run_id }),
        _ => Ok(FocusStep::End { run_id }),
    }
}

/// The cache scope of a run: `run:` and its id.
pub fn run_cache_scope(run_id: &str) -> (r: String)
    ensures
        r@ == "run:"@ + run_id@,
{
    let mut v = chars_of("run:");
    append_str(&mut v, run_id);
    string_of(&v)
}

/// The title and summary a completed focus records: the request's title or
/// else the stored one; the request's summary, else that title, else
/// `Focus completed`.
pub fn completion_texts(input_title: Option<String>, stored_title: Option<String>, input_summary: Option<String>) -> (r: (
    Option<String>,
    String,
))
    ensures
        r.0 == (if input_title is Some {
            input_title
        } else {
            stored_title
        }),
        r.1@ == (match input_summary {
            Some(s) => s@,
            None => match r.0 {
                Some(t) => t@,
                None => "Focus completed"@,
            },
        }),
{
    let title = match input_title {
        Some(t) => Some(t),
        None => stored_title,
    };
    let summary = match input_summary {
        Some(s) => s,
        None => match &title {
            Some(t) => t.clone(),
            None => string_from_str("Focus completed"),
        },
    };
    (title, summary)
}

/// The title of a run's stored focus: the string `title` of its `focus`.
pub open spec fn stored_title_spec(run: JsonValue) -> Option<Seq<char>> {
    match field(run, "focus"@) {
        Some(f) => field_text(f, "title"@),
        None => None,
    }
}

/// Reads the title of a run's stored focus.
pub fn stored_focus_title(run: &JsonValue) -> (r: Option<String>)
    ensures
        opt_view(r) == stored_title_spec(*run),
{
    match get_field(run, "focus") {
        Some(f) => get_text(f, "title"),
        None => None,
    }
}

} // verus!
