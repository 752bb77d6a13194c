use amp::focus::{
    completion_texts, focus_list_query, normalize_run_id, plan_focus, run_cache_scope, FocusAction,
    FocusRequest, FocusStep,
};

fn request(action: FocusAction, run_id: Option<&str>, title: Option<&str>) -> FocusRequest {
    FocusRequest {
        action,
        run_id: run_id.map(|s| s.to_string()),
        title: title.map(|s| s.to_string()),
        plan: None,
        summary: None,
        files_changed: None,
        project_id: None,
        include_expired: None,
    }
}

#[test]
fn focus_run_id_loses_prefixes() {
    assert_eq!(normalize_run_id("  objects:run:abc "), "abc");
    assert_eq!(normalize_run_id("run:xyz"), "xyz");
    assert_eq!(normalize_run_id("plain"), "plain");
}

#[test]
fn focus_listing_query() {
    let q = focus_list_query(false, true);
    assert!(q.ends_with(
        "FROM agent_connections WHERE expires_at > time::now() AND project_id = $project_id ORDER BY last_heartbeat DESC)"
    ));
    let all = focus_list_query(true, false);
    assert!(all.ends_with("FROM agent_connections ORDER BY last_heartbeat DESC)"));
}

#[test]
fn listing_needs_no_run() {
    match plan_focus(&request(FocusAction::List, None, None)) {
        Ok(FocusStep::List { query }) => assert_eq!(query, focus_list_query(false, false)),
        _ => panic!("expected a listing"),
    }
}

#[test]
fn actions_need_a_run_id() {
    assert_eq!(
        plan_focus(&request(FocusAction::Get, None, None)).err(),
        Some("run_id required for get".to_string())
    );
    assert_eq!(
        plan_focus(&request(FocusAction::SetFocus, None, Some("t"))).err(),
        Some("run_id required for set".to_string())
    );
    assert_eq!(
        plan_focus(&request(FocusAction::End, None, None)).err(),
        Some("run_id required for end".to_string())
    );
}

#[test]
fn setting_focus_needs_a_title() {
    assert_eq!(
        plan_focus(&request(FocusAction::SetFocus, Some("r1"), None)).err(),
        Some("title required for set".to_string())
    );
    match plan_focus(&request(FocusAction::SetFocus, Some("objects:r1"), Some("Fix bug"))) {
        Ok(FocusStep::SetFocus { run_id, title }) => {
            assert_eq!(run_id, "r1");
            assert_eq!(title, "Fix bug");
        },
        _ => panic!("expected a focus"),
    }
}

#[test]
fn complete_and_end_take_the_bare_run() {
    match plan_focus(&request(FocusAction::Complete, Some(" run:r2"), None)) {
        Ok(FocusStep::Complete { run_id }) => assert_eq!(run_id, "r2"),
        _ => panic!("expected completion"),
    }
    match plan_focus(&request(FocusAction::End, Some("r3"), None)) {
        Ok(FocusStep::End { run_id }) => assert_eq!(run_id, "r3"),
        _ => panic!("expected end"),
    }
}

#[test]
fn run_scope_is_prefixed() {
    assert_eq!(run_cache_scope("r1"), "run:r1");
}

#[test]
fn completion_texts_fall_back() {
    let (t, s) = completion_texts(None, Some("Stored".to_string()), None);
    assert_eq!(t, Some("Stored".to_string()));
    assert_eq!(s, "Stored");
    let (t, s) = completion_texts(Some("New".to_string()), Some("Stored".to_string()), Some("Done".to_string()));
    assert_eq!(t, Some("New".to_string()));
    assert_eq!(s, "Done");
    let (t, s) = completion_texts(None, None, None);
    assert_eq!(t, None);
    assert_eq!(s, "Focus completed");
}
