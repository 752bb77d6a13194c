//! Stored objects: batch outcomes, the text an object is embedded by, and
//! the timestamps filled in before it is stored.
use vstd::prelude::*;

use crate::json::{field_text, find_key, get_text, is_text, lookup, set_text, JsonValue};
use crate::models::{
    ChangeSetStatus, DecisionOption, DecisionStatus, RunOutputType, RunStatus, SymbolKind, TestResult, TestStatus,
};
use crate::text::{
    chars_of, eq_str, join_parts, join_with, lowercase, opt_view, string_from_str, string_of, string_views,
    to_lowercase, trim, trim_ws, views,
};

verus! {

/// How many objects of a batch were stored.
pub struct BatchSummary {
    pub total: usize,
    pub succeeded: usize,
    pub failed: usize,
}

/// The number of `true` outcomes.
pub open spec fn count_true(v: Seq<bool>) -> nat
    decreases v.len(),
{
    if v.len() == 0 {
        0
    } else {
        count_true(v.drop_last()) + if v.last() {
            1nat
        } else {
            0nat
        }
    }
}

impl BatchSummary {
    /// The summary of a batch from the outcome of each object.
    pub fn tally(outcomes: &Vec<bool>) -> (r: BatchSummary)
        ensures
            r.total == outcomes@.len(),
            r.succeeded == count_true(outcomes@),
            r.failed + r.succeeded == r.total,
    {
        let mut succeeded: usize = 0;
        let mut failed: usize = 0;
        let mut k: usize = 0;
        while k < outcomes.len()
            invariant
                k <= outcomes@.len(),
                succeeded == count_true(outcomes@.take(k as int)),
                succeeded + failed == k,
            decreases outcomes@.len() - k,
        {
            proof {
                assert(outcomes@.take(k + 1).drop_last() =~= outcomes@.take(k as int));
            }
            if outcomes[k] {
                succeeded = succeeded + 1;
            } else {
                failed = failed + 1;
            }
            k = k + 1;
        }
        proof {
            assert(outcomes@.take(outcomes@.len() as int) == outcomes@);
        }
        BatchSummary { total: outcomes.len(), succeeded, failed }
    }
}

/// The string values among `keys` of an object, in the order of `keys`.
pub open spec fn present_texts(v: JsonValue, keys: Seq<Seq<char>>) -> Seq<Seq<char>>
    decreases keys.len(),
{
    if keys.len() == 0 {
        Seq::empty()
    } else {
        present_texts(v, keys.drop_last()) + match field_text(v, keys.last()) {
            Some(t) => seq![t],
            None => Seq::empty(),
        }
    }
}

/// The fields of an object of type `ty` (lowercased) that are embedded.
pub open spec fn embedded_fields(ty: Seq<char>) -> Seq<Seq<char>> {
    if ty == "symbol"@ {
        seq!["name"@, "kind"@, "path"@, "signature"@, "documentation"@]
    } else if ty == "filechunk"@ {
        seq!["content"@]
    } else if ty == "filelog"@ {
        seq!["summary"@, "purpose"@]
    } else {
        Seq::empty()
    }
}

/// The text of a stored object that is embedded: for a symbol its name,
/// kind, path, signature and documentation, for a file chunk its content,
/// for a file log its summary and purpose (the type compared ignoring
/// case); those that are strings, joined by spaces. None without a string
/// `type` or without any such text.
pub open spec fn embedding_text_spec(v: JsonValue) -> Option<Seq<char>> {
    match field_text(v, "type"@) {
        None => None,
        Some(t) => {
            let parts = present_texts(v, embedded_fields(lowercase(t)));
            if parts.len() == 0 {
                None
            } else {
                Some(join_with(parts, " "@))
            }
        },
    }
}

/// The text of a stored object that is embedded.
pub fn extract_text_for_embedding(obj: &JsonValue) -> (r: Option<String>)
    ensures
        opt_view(r) == embedding_text_spec(*obj),
{
    let ty = match get_text(obj, "type") {
        Some(t) => t,
        None => return None,
    };
    let lower = to_lowercase(ty.as_str());
    let lc = chars_of(lower.as_str());
    let keys: Vec<&str> = if eq_str(&lc, "symbol") {
        vec!["name", "kind", "path", "signature", "documentation"]
    } else if eq_str(&lc, "filechunk") {
        vec!["content"]
    } else if eq_str(&lc, "filelog") {
        vec!["summary", "purpose"]
    } else {
        Vec::new()
    };
    let ghost kv = keys@.map_values(|k: &str| k@);
    proof {
        assert(kv =~= embedded_fields(lowercase(ty@)));
    }
    let mut parts: Vec<Vec<char>> = Vec::new();
    let mut k: usize = 0;
    while k < keys.len()
        invariant
            k <= keys@.len(),
            kv == keys@.map_values(|k: &str| k@),
            views(parts@) == present_texts(*obj, kv.take(k as int)),
        decreases keys@.len() - k,
    {
        proof {
            assert(kv.take(k + 1).drop_last() =~= kv.take(k as int));
            assert(kv.take(k + 1).last() == keys@[k as int]@);
        }
        match get_text(obj, keys[k]) {
            Some(t) => {
                let ghost o = parts@;
                parts.push(chars_of(t.as_str()));
                proof {
                    assert(views(parts@) =~= views(o).push(t@));
                }
            },
            None => {},
        }
        k = k + 1;
    }
    proof {
        assert(kv.take(keys@.len() as int) =~= kv);
    }
    if parts.len() == 0 {
        None
    } else {
        let sep = chars_of(" ");
        Some(string_of(&join_parts(&parts, &sep)))
    }
}

/// Whether a timestamp entry is to be filled: missing or null.
pub open spec fn needs_time(v: Option<JsonValue>) -> bool {
    v matches None || v matches Some(JsonValue::Null)
}

/// Whether `after` is the stored object `before` with its missing or null
/// `created_at` and `updated_at` set to `now`, all else as it was; a value
/// that is not an object is left as it is.
pub open spec fn timestamps_filled(before: JsonValue, after: JsonValue, now: Seq<char>) -> bool {
    match before {
        JsonValue::Object(m) => match after {
            JsonValue::Object(n) => {
                &&& forall|j: Seq<char>|
                    j != "created_at"@ && j != "updated_at"@ ==> #[trigger] lookup(n@, j) == lookup(m@, j)
                &&& if needs_time(lookup(m@, "created_at"@)) {
                    is_text(lookup(n@, "created_at"@), now)
                } else {
                    lookup(n@, "created_at"@) == lookup(m@, "created_at"@)
                }
                &&& if needs_time(lookup(m@, "updated_at"@)) {
                    is_text(lookup(n@, "updated_at"@), now)
                } else {
                    lookup(n@, "updated_at"@) == lookup(m@, "updated_at"@)
                }
            },
            _ => false,
        },
        _ => after == before,
    }
}

/// Whether the entry `key` is missing or null.
fn entry_needs_time(entries: &Vec<(String, JsonValue)>, key: &str) -> (r: bool)
    ensures
        r == needs_time(lookup(entries@, key@)),
{
    match find_key(entries, key) {
        Some(i) => match &entries[i].1 {
            JsonValue::Null => true,
            _ => false,
        },
        None => true,
    }
}

/// Fills in the creation and update times of an object about to be stored.
pub fn fill_timestamps(value: JsonValue, now: &str) -> (r: JsonValue)
    ensures
        timestamps_filled(value, r, now@),
{
    let m = match value {
        JsonValue::Object(m) => m,
        other => return other,
    };
    let ghost m0 = m@;
    proof {
        reveal_strlit("created_at");
        reveal_strlit("updated_at");
        assert("created_at"@[0] != "updated_at"@[0]);
    }
    let m1 = if entry_needs_time(&m, "created_at") {
        set_text(m, "created_at", string_from_str(now))
    } else {
        m
    };
    let ghost m1v = m1@;
    proof {
        assert(lookup(m1v, "updated_at"@) == lookup(m0, "updated_at"@));
    }
    let m2 = if entry_needs_time(&m1, "updated_at") {
        set_text(m1, "updated_at", string_from_str(now))
    } else {
        m1
    };
    proof {
        assert(lookup(m2@, "created_at"@) == lookup(m1v, "created_at"@));
    }
    JsonValue::Object(m2)
}

/// The text-bearing content of a stored object, as its embedding reads it;
/// `summary` is the summary of the object's provenance.
pub enum ObjectContent {
    Symbol {
        summary: String,
        name: String,
        kind: SymbolKind,
        path: String,
        language: String,
        signature: Option<String>,
        documentation: Option<String>,
        content_hash: Option<String>,
    },
    Decision {
        summary: String,
        title: String,
        problem: String,
        rationale: String,
        outcome: String,
        status: Option<DecisionStatus>,
        options: Option<Vec<DecisionOption>>,
    },
    ChangeSet {
        summary: String,
        title: String,
        description: Option<String>,
        diff: Option<String>,
        files_changed: Vec<String>,
        status: ChangeSetStatus,
        commit_hash: Option<String>,
        tests: Option<Vec<TestResult>>,
    },
    Run {
        summary: String,
        input_summary: String,
        status: RunStatus,
        /// Each output's type and content.
        outputs: Option<Vec<(RunOutputType, String)>>,
        /// Each error's message and code.
        errors: Option<Vec<(String, Option<String>)>>,
    },
}

/// The name a symbol kind prints with (its variant's name).
pub open spec fn symbol_kind_name(k: SymbolKind) -> Seq<char> {
    match k {
        SymbolKind::File => "File"@,
        SymbolKind::Module => "Module"@,
        SymbolKind::Class => "Class"@,
        SymbolKind::Function => "Function"@,
        SymbolKind::Variable => "Variable"@,
        SymbolKind::Type => "Type"@,
    }
}

/// The name a decision status prints with.
pub open spec fn decision_status_name(s: DecisionStatus) -> Seq<char> {
    match s {
        DecisionStatus::Proposed => "Proposed"@,
        DecisionStatus::Accepted => "Accepted"@,
        DecisionStatus::Rejected => "Rejected"@,
        DecisionStatus::Superseded => "Superseded"@,
    }
}

/// The name a change set status prints with.
pub open spec fn changeset_status_name(s: ChangeSetStatus) -> Seq<char> {
    match s {
        ChangeSetStatus::Draft => "Draft"@,
        ChangeSetStatus::Review => "Review"@,
        ChangeSetStatus::Approved => "Approved"@,
        ChangeSetStatus::Merged => "Merged"@,
        ChangeSetStatus::Rejected => "Rejected"@,
    }
}

/// The name a test status prints with.
pub open spec fn test_status_name(s: TestStatus) -> Seq<char> {
    match s {
        TestStatus::Passed => "Passed"@,
        TestStatus::Failed => "Failed"@,
        TestStatus::Skipped => "Skipped"@,
    }
}

/// The name a run output type prints with.
pub open spec fn output_type_name(t: RunOutputType) -> Seq<char> {
    match t {
        RunOutputType::File => "File"@,
        RunOutputType::Command => "Command"@,
        RunOutputType::Response => "Response"@,
        RunOutputType::Artifact => "Artifact"@,
    }
}

/// The name a run status prints with.
pub open spec fn run_status_name(s: RunStatus) -> Seq<char> {
    match s {
        RunStatus::Running => "Running"@,
        RunStatus::Completed => "Completed"@,
        RunStatus::Failed => "Failed"@,
        RunStatus::Cancelled => "Cancelled"@,
    }
}

/// The text of an optional string, if any.
pub open spec fn opt_part(o: Option<String>) -> Seq<Seq<char>> {
    match o {
        Some(t) => seq![t@],
        None => Seq::empty(),
    }
}

/// The texts of an optional list, if any.
pub open spec fn opt_list(o: Option<Vec<String>>) -> Seq<Seq<char>> {
    match o {
        Some(v) => string_views(v@),
        None => Seq::empty(),
    }
}

/// The texts of decision options: each one's name, description, pros and cons.
pub open spec fn option_parts(opts: Seq<DecisionOption>) -> Seq<Seq<char>>
    decreases opts.len(),
{
    if opts.len() == 0 {
        Seq::empty()
    } else {
        let o = opts.last();
        option_parts(opts.drop_last()) + seq![o.name@, o.description@] + opt_list(o.pros) + opt_list(o.cons)
    }
}

/// The texts of test results: each one's name, status and output.
pub open spec fn test_parts(ts: Seq<TestResult>) -> Seq<Seq<char>>
    decreases ts.len(),
{
    if ts.len() == 0 {
        Seq::empty()
    } else {
        let t = ts.last();
        test_parts(ts.drop_last()) + seq![t.name@, test_status_name(t.status)] + opt_part(t.output)
    }
}

/// The texts of run outputs: each one's type and content.
pub open spec fn output_parts(os: Seq<(RunOutputType, String)>) -> Seq<Seq<char>>
    decreases os.len(),
{
    if os.len() == 0 {
        Seq::empty()
    } else {
        output_parts(os.drop_last()) + seq![output_type_name(os.last().0), os.last().1@]
    }
}

/// The texts of run errors: each one's message and code.
pub open spec fn error_parts(es: Seq<(String, Option<String>)>) -> Seq<Seq<char>>
    decreases es.len(),
{
    if es.len() == 0 {
        Seq::empty()
    } else {
        error_parts(es.drop_last()) + seq![es.last().0@] + opt_part(es.last().1)
    }
}

/// The texts an object is embedded by, in order, before blank ones are dropped.
pub open spec fn content_parts(c: ObjectContent) -> Seq<Seq<char>> {
    match c {
        ObjectContent::Symbol { summary, name, kind, path, language, signature, documentation, content_hash } => seq![
            summary@,
            name@,
            symbol_kind_name(kind),
            path@,
            language@,
        ] + opt_part(signature) + opt_part(documentation) + opt_part(content_hash),
        ObjectContent::Decision { summary, title, problem, rationale, outcome, status, options } => seq![
            summary@,
            title@,
            problem@,
            rationale@,
            outcome@,
        ] + (match status {
            Some(st) => seq![decision_status_name(st)],
            None => Seq::empty(),
        }) + (match options {
            Some(v) => option_parts(v@),
            None => Seq::empty(),
        }),
        ObjectContent::ChangeSet { summary, title, description, diff, files_changed, status, commit_hash, tests } => seq![
            summary@,
            title@,
        ] + opt_part(description) + opt_part(diff) + string_views(files_changed@) + seq![changeset_status_name(status)]
            + opt_part(commit_hash) + (match tests {
            Some(v) => test_parts(v@),
            None => Seq::empty(),
        }),
        ObjectContent::Run { summary, input_summary, status, outputs, errors } => seq![
            summary@,
            input_summary@,
            run_status_name(status),
        ] + (match outputs {
            Some(v) => output_parts(v@),
            None => Seq::empty(),
        }) + (match errors {
            Some(v) => error_parts(v@),
            None => Seq::empty(),
        }),
    }
}

/// The texts that are not blank, in order.
pub open spec fn nonblank(ps: Seq<Seq<char>>) -> Seq<Seq<char>>
    decreases ps.len(),
{
    if ps.len() == 0 {
        Seq::empty()
    } else {
        nonblank(ps.drop_last()) + if trim_ws(ps.last()).len() > 0 {
            seq![ps.last()]
        } else {
            Seq::empty()
        }
    }
}

/// The text an object is embedded by: its non-blank texts, one per line.
pub open spec fn object_embedding_spec(c: ObjectContent) -> Seq<char> {
    join_with(nonblank(content_parts(c)), "\n"@)
}

fn push_str(parts: &mut Vec<Vec<char>>, t: &str)
    ensures
        views(final(parts)@) == views(old(parts)@).push(t@),
{
    let ghost o = views(parts@);
    parts.push(chars_of(t));
    proof {
        assert(views(parts@) =~= o.push(t@));
    }
}

fn push_opt(parts: &mut Vec<Vec<char>>, o: &Option<String>)
    ensures
        views(final(parts)@) == views(old(parts)@) + opt_part(*o),
{
    let ghost p0 = views(parts@);
    match o {
        Some(t) => push_str(parts, t.as_str()),
        None => {},
    }
    proof {
        assert(views(parts@) =~= p0 + opt_part(*o));
    }
}

fn push_all(parts: &mut Vec<Vec<char>>, v: &Vec<String>)
    ensures
        views(final(parts)@) == views(old(parts)@) + string_views(v@),
{
    let ghost p0 = views(parts@);
    let mut k: usize = 0;
    while k < v.len()
        invariant
            k <= v@.len(),
            views(parts@) == p0 + string_views(v@.take(k as int)),
        decreases v@.len() - k,
    {
        push_str(parts, v[k].as_str());
        k = k + 1;
        proof {
            assert(string_views(v@.take(k as int)) =~= string_views(v@.take(k - 1)).push(v@[k - 1]@));
            assert(p0 + string_views(v@.take(k as int)) =~= (p0 + string_views(v@.take(k - 1))).push(v@[k - 1]@));
        }
    }
    proof {
        assert(v@.take(v@.len() as int) =~= v@);
    }
}

fn push_opt_all(parts: &mut Vec<Vec<char>>, o: &Option<Vec<String>>)
    ensures
        views(final(parts)@) == views(old(parts)@) + opt_list(*o),
{
    let ghost p0 = views(parts@);
    match o {
        Some(v) => push_all(parts, v),
        None => {},
    }
    proof {
        assert(views(parts@) =~= p0 + opt_list(*o));
    }
}

fn kind_name(k: SymbolKind) -> (r: &'static str)
    ensures
        r@ == symbol_kind_name(k),
{
    match k {
        SymbolKind::File => "File",
        SymbolKind::Module => "Module",
        SymbolKind::Class => "Class",
        SymbolKind::Function => "Function",
        SymbolKind::Variable => "Variable",
        SymbolKind::Type => "Type",
    }
}

fn decision_name(s: DecisionStatus) -> (r: &'static str)
    ensures
        r@ == decision_status_name(s),
{
    match s {
        DecisionStatus::Proposed => "Proposed",
        DecisionStatus::Accepted => "Accepted",
        DecisionStatus::Rejected => "Rejected",
        DecisionStatus::Superseded => "Superseded",
    }
}

fn changeset_name(s: ChangeSetStatus) -> (r: &'static str)
    ensures
        r@ == changeset_status_name(s),
{
    match s {
        ChangeSetStatus::Draft => "Draft",
        ChangeSetStatus::Review => "Review",
        ChangeSetStatus::Approved => "Approved",
        ChangeSetStatus::Merged => "Merged",
        ChangeSetStatus::Rejected => "Rejected",
    }
}

fn test_name(s: TestStatus) -> (r: &'static str)
    ensures
        r@ == test_status_name(s),
{
    match s {
        TestStatus::Passed => "Passed",
        TestStatus::Failed => "Failed",
        TestStatus::Skipped => "Skipped",
    }
}

fn output_name(t: RunOutputType) -> (r: &'static str)
    ensures
        r@ == output_type_name(t),
{
    match t {
        RunOutputType::File => "File",
        RunOutputType::Command => "Command",
        RunOutputType::Response => "Response",
        RunOutputType::Artifact => "Artifact",
    }
}

fn run_name(s: RunStatus) -> (r: &'static str)
    ensures
        r@ == run_status_name(s),
{
    match s {
        RunStatus::Running => "Running",
        RunStatus::Completed => "Completed",
        RunStatus::Failed => "Failed",
        RunStatus::Cancelled => "Cancelled",
    }
}

fn push_options(parts: &mut Vec<Vec<char>>, opts: &Vec<DecisionOption>)
    ensures
        views(final(parts)@) == views(old(parts)@) + option_parts(opts@),
{
    let ghost p0 = views(parts@);
    let mut k: usize = 0;
    while k < opts.len()
        invariant
            k <= opts@.len(),
            views(parts@) == p0 + option_parts(opts@.take(k as int)),
        decreases opts@.len() - k,
    {
        let o = &opts[k];
        push_str(parts, o.name.as_str());
        push_str(parts, o.description.as_str());
        push_opt_all(parts, &o.pros);
        push_opt_all(parts, &o.cons);
        proof {
            assert(opts@.take(k + 1).drop_last() =~= opts@.take(k as int));
            assert(opts@.take(k + 1).last() == *o);
            assert(views(parts@) =~= p0 + option_parts(opts@.take(k + 1)));
        }
        k = k + 1;
    }
    proof {
        assert(opts@.take(opts@.len() as int) =~= opts@);
    }
}

fn push_tests(parts: &mut Vec<Vec<char>>, ts: &Vec<TestResult>)
    ensures
        views(final(parts)@) == views(old(parts)@) + test_parts(ts@),
{
    let ghost p0 = views(parts@);
    let mut k: usize = 0;
    while k < ts.len()
        invariant
            k <= ts@.len(),
            views(parts@) == p0 + test_parts(ts@.take(k as int)),
        decreases ts@.len() - k,
    {
        let t = &ts[k];
        push_str(parts, t.name.as_str());
        push_str(parts, test_name(t.status));
        push_opt(parts, &t.output);
        proof {
            assert(ts@.take(k + 1).drop_last() =~= ts@.take(k as int));
            assert(ts@.take(k + 1).last() == *t);
            assert(views(parts@) =~= p0 + test_parts(ts@.take(k + 1)));
        }
        k = k + 1;
    }
    proof {
        assert(ts@.take(ts@.len() as int) =~= ts@);
    }
}

fn push_outputs(parts: &mut Vec<Vec<char>>, os: &Vec<(RunOutputType, String)>)
    ensures
        views(final(parts)@) == views(old(parts)@) + output_parts(os@),
{
    let ghost p0 = views(parts@);
    let mut k: usize = 0;
    while k < os.len()
        invariant
            k <= os@.len(),
            views(parts@) == p0 + output_parts(os@.take(k as int)),
        decreases os@.len() - k,
    {
        let o = &os[k];
        push_str(parts, output_name(o.0));
        push_str(parts, o.1.as_str());
        proof {
            assert(os@.take(k + 1).drop_last() =~= os@.take(k as int));
            assert(os@.take(k + 1).last() == *o);
            assert(views(parts@) =~= p0 + output_parts(os@.take(k + 1)));
        }
        k = k + 1;
    }
    proof {
        assert(os@.take(os@.len() as int) =~= os@);
    }
}

fn push_errors(parts: &mut Vec<Vec<char>>, es: &Vec<(String, Option<String>)>)
    ensures
        views(final(parts)@) == views(old(parts)@) + error_parts(es@),
{
    let ghost p0 = views(parts@);
    let mut k: usize = 0;
    while k < es.len()
        invariant
            k <= es@.len(),
            views(parts@) == p0 + error_parts(es@.take(k as int)),
        decreases es@.len() - k,
    {
        let e = &es[k];
        push_str(parts, e.0.as_str());
        push_opt(parts, &e.1);
        proof {
            assert(es@.take(k + 1).drop_last() =~= es@.take(k as int));
            assert(es@.take(k + 1).last() == *e);
            assert(views(parts@) =~= p0 + error_parts(es@.take(k + 1)));
        }
        k = k + 1;
    }
    proof {
        assert(es@.take(es@.len() as int) =~= es@);
    }
}

/// The texts an object is embedded by, before blank ones are dropped.
fn content_parts_of(c: &ObjectContent) -> (r: Vec<Vec<char>>)
    ensures
        views(r@) == content_parts(*c),
{
    let mut parts: Vec<Vec<char>> = Vec::new();
    proof {
        assert(views(parts@) =~= Seq::<Seq<char>>::empty());
    }
    match c {
        ObjectContent::Symbol { summary, name, kind, path, language, signature, documentation, content_hash } => {
            push_str(&mut parts, summary.as_str());
            push_str(&mut parts, name.as_str());
            push_str(&mut parts, kind_name(*kind));
            push_str(&mut parts, path.as_str());
            push_str(&mut parts, language.as_str());
            push_opt(&mut parts, signature);
            push_opt(&mut parts, documentation);
            push_opt(&mut parts, content_hash);
        },
        ObjectContent::Decision { summary, title, problem, rationale, outcome, status, options } => {
            push_str(&mut parts, summary.as_str());
            push_str(&mut parts, title.as_str());
            push_str(&mut parts, problem.as_str());
            push_str(&mut parts, rationale.as_str());
            push_str(&mut parts, outcome.as_str());
            match status {
                Some(st) => push_str(&mut parts, decision_name(*st)),
                None => {},
            }
            match options {
                Some(v) => push_options(&mut parts, v),
                None => {},
            }
        },
        ObjectContent::ChangeSet { summary, title, description, diff, files_changed, status, commit_hash, tests } => {
            push_str(&mut parts, summary.as_str());
            push_str(&mut parts, title.as_str());
            push_opt(&mut parts, description);
            push_opt(&mut parts, diff);
            push_all(&mut parts, files_changed);
            push_str(&mut parts, changeset_name(*status));
            push_opt(&mut parts, commit_hash);
            match tests {
                Some(v) => push_tests(&mut parts, v),
                None => {},
            }
        },
        ObjectContent::Run { summary, input_summary, status, outputs, errors } => {
            push_str(&mut parts, summary.as_str());
            push_str(&mut parts, input_summary.as_str());
            push_str(&mut parts, run_name(*status));
            match outputs {
                Some(v) => push_outputs(&mut parts, v),
                None => {},
            }
            match errors {
                Some(v) => push_errors(&mut parts, v),
                None => {},
            }
        },
    }
    proof {
        assert(views(parts@) =~= content_parts(*c));
    }
    parts
}

/// The text a stored object is embedded by: its non-blank texts, one per
/// line.
pub fn object_embedding_text(c: &ObjectContent) -> (r: String)
    ensures
        r@ == object_embedding_spec(*c),
{
    let parts = content_parts_of(c);
    let ghost pv = views(parts@);
    let mut kept: Vec<Vec<char>> = Vec::new();
    let mut k: usize = 0;
    while k < parts.len()
        invariant
            k <= parts@.len(),
            pv == views(parts@),
            views(kept@) == nonblank(pv.take(k as int)),
        decreases parts@.len() - k,
    {
        proof {
            assert(pv.take(k + 1).drop_last() =~= pv.take(k as int));
            assert(pv.take(k + 1).last() == parts@[k as int]@);
        }
        let t = trim(&parts[k]);
        if t.len() > 0 {
            let ghost o = views(kept@);
            kept.push(crate::text::slice_vec(&parts[k], 0, parts[k].len()));
            proof {
                assert(parts@[k as int]@.subrange(0, parts@[k as int]@.len() as int) =~= parts@[k as int]@);
                assert(views(kept@) =~= o.push(parts@[k as int]@));
            }
        }
        k = k + 1;
    }
    proof {
        assert(pv.take(parts@.len() as int) =~= pv);
    }
    let sep = chars_of("\n");
    string_of(&join_parts(&kept, &sep))
}

} // verus!
