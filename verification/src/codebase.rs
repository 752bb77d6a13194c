//! Locating files of the indexed codebase: path normalisation, language
//! detection, matching stored paths, file ids, and the change history of a
//! file log.
use vstd::prelude::*;

use std::collections::HashMap;

use crate::json::{field, field_text, get_field, get_text, JsonValue};
use crate::parser::FileLog;
use crate::query::{parse_uuid_text, uuid_text};
use crate::text::{
    append_chars, append_str, ascii_lower, chars_of, contains_chars, is_ascii_text, contains_string, contains_sub, eq_str,
    has_prefix, join_parts, join_with, lowercase, opt_view, replace_char, replace_char_with,
    seq_contains, slice_vec, string_from_str, string_of, string_views, strip_prefix, to_lowercase, trim, trim_ws, views,
};

verus! {

/// A request to parse a whole codebase.
pub struct ParseCodebaseRequest {
    pub root_path: String,
    pub project_id: Option<String>,
    pub tenant_id: Option<String>,
}

/// A request to parse one file.
pub struct ParseFileRequest {
    pub file_path: String,
    pub language: Option<String>,
    pub project_id: Option<String>,
    pub tenant_id: Option<String>,
}

/// A change to record in a file log.
pub struct UpdateFileLogRequest {
    pub file_path: String,
    pub change_description: String,
    pub changeset_id: Option<String>,
    pub run_id: Option<String>,
    pub decision_id: Option<String>,
}

/// A request for a model-written file log.
pub struct AiFileLogRequest {
    pub file_path: String,
    pub language: String,
    pub content_hash: String,
    pub content: String,
    pub symbols: Option<Vec<String>>,
    pub dependencies: Option<Vec<String>>,
}

/// A model-written file log.
pub struct AiFileLogResponse {
    pub file_log: crate::index_llm::AiFileLogOutput,
}

/// The outcome of parsing a codebase.
pub struct ParseCodebaseResponse {
    pub success: bool,
    pub files_parsed: usize,
    pub file_logs: HashMap<String, FileLog>,
    pub errors: Vec<String>,
}

/// A file log and its markdown form.
pub struct FileLogResponse {
    pub file_log: FileLog,
    pub markdown: String,
}

/// The stored content of a file and the chunks it was assembled from.
pub struct FileContentResponse {
    pub path: String,
    pub content: String,
    pub chunks: Vec<String>,
}

/// Narrowing of a file-log listing.
pub struct GetFileLogsQuery {
    pub project_id: Option<String>,
    pub language: Option<String>,
    pub limit: Option<usize>,
}

/// How much stored file content to return.
pub struct FileContentQuery {
    pub max_chars: Option<usize>,
}

/// A request to delete a codebase.
pub struct DeleteCodebaseRequest {
    pub codebase_id: String,
}

/// The outcome of deleting a codebase.
pub struct DeleteCodebaseResponse {
    pub success: bool,
    pub message: String,
    pub deleted_counts: DeletedCounts,
}

/// What a codebase deletion removed.
pub struct DeletedCounts {
    pub objects: usize,
    pub relationships: usize,
    pub orphaned_edges: usize,
}

/// A file event to carry into every memory layer.
pub struct FileSyncRequest {
    pub path: String,
    /// `create`, `edit` or `delete`.
    pub action: String,
    pub summary: String,
    pub run_id: Option<String>,
    pub agent_id: Option<String>,
}

/// The outcome of a file sync.
pub struct FileSyncResponse {
    pub file_id: String,
    pub action: String,
    pub layers_updated: LayersUpdated,
    pub audit_entry_added: bool,
    pub chunks_replaced: usize,
    pub relationships_updated: usize,
}

/// Which memory layers a file sync changed.
pub struct LayersUpdated {
    pub temporal: bool,
    pub vector: bool,
    pub graph: bool,
}

/// `p` with `/` turned into `\`, and a leading `\\?\` and then a leading
/// `.\` removed.
pub open spec fn normalize_file_content_path_spec(p: Seq<char>) -> Seq<char> {
    let a = replace_char(p, '/', seq!['\\']);
    let b = if has_prefix(a, "\\\\?\\"@) {
        a.skip(4)
    } else {
        a
    };
    if has_prefix(b, ".\\"@) {
        b.skip(2)
    } else {
        b
    }
}

/// Normalises a path for comparison with stored Windows-style paths.
pub fn normalize_file_content_path(path: &str) -> (r: String)
    ensures
        r@ == normalize_file_content_path_spec(path@),
{
    let cs = chars_of(path);
    let mut bs: Vec<char> = Vec::new();
    bs.push('\\');
    let a = replace_char_with(&cs, '/', &bs);
    let long = chars_of("\\\\?\\");
    proof {
        reveal_strlit("\\\\?\\");
        reveal_strlit(".\\");
    }
    let b = match strip_prefix(&a, &long) {
        Some(t) => t,
        None => a,
    };
    let dot = chars_of(".\\");
    let c = match strip_prefix(&b, &dot) {
        Some(t) => t,
        None => b,
    };
    string_of(&c)
}

/// The normalised path, lowercased.
pub open spec fn normalize_lookup_path_spec(p: Seq<char>) -> Seq<char> {
    lowercase(normalize_file_content_path_spec(p))
}

/// Normalises a path for lookups that ignore case. For an ASCII path the
/// result is the normalised path with `A`..`Z` lowered, and it holds no `/`.
pub fn normalize_lookup_path(path: &str) -> (r: String)
    ensures
        r@ == normalize_lookup_path_spec(path@),
        is_ascii_text(path@) ==> r@ == ascii_lower(normalize_file_content_path_spec(path@)),
        is_ascii_text(path@) ==> !r@.contains('/'),
{
    let n = normalize_file_content_path(path);
    proof {
        normalized_path_stays_ascii(path@);
        normalized_path_has_no_slash(path@);
        lemma_ascii_lower_keeps_no_slash(n@);
    }
    to_lowercase(n.as_str())
}

/// Lowering ASCII letters neither makes nor removes a `/`.
proof fn lemma_ascii_lower_keeps_no_slash(s: Seq<char>)
    ensures
        !s.contains('/') ==> !ascii_lower(s).contains('/'),
{
    if !s.contains('/') {
        assert forall|i: int| 0 <= i < ascii_lower(s).len() implies ascii_lower(s)[i] != '/' by {
            assert(s.contains(s[i]));
        }
    }
}

/// Replacing `/` by `\` keeps ASCII text ASCII.
proof fn lemma_replace_keeps_ascii(p: Seq<char>)
    requires
        is_ascii_text(p),
    ensures
        is_ascii_text(replace_char(p, '/', seq!['\\'])),
    decreases p.len(),
{
    if p.len() > 0 {
        lemma_replace_keeps_ascii(p.drop_last());
        let a = replace_char(p.drop_last(), '/', seq!['\\']);
        let b: Seq<char> = if p.last() == '/' {
            seq!['\\']
        } else {
            seq![p.last()]
        };
        assert(replace_char(p, '/', seq!['\\']) == a + b);
        assert(('\\' as u32) < 128);
        assert forall|i: int| 0 <= i < (a + b).len() implies ((a + b)[i] as u32) < 128 by {
            if i >= a.len() {
                assert(b[i - a.len()] == (a + b)[i]);
            }
        }
    }
}

/// Normalising an ASCII path gives an ASCII path.
pub proof fn normalized_path_stays_ascii(p: Seq<char>)
    ensures
        is_ascii_text(p) ==> is_ascii_text(normalize_file_content_path_spec(p)),
{
    reveal_strlit("\\\\?\\");
    reveal_strlit(".\\");
    if is_ascii_text(p) {
        lemma_replace_keeps_ascii(p);
        let a = replace_char(p, '/', seq!['\\']);
        let b = if has_prefix(a, "\\\\?\\"@) {
            a.skip(4)
        } else {
            a
        };
        assert(is_ascii_text(b)) by {
            if has_prefix(a, "\\\\?\\"@) {
                assert forall|i: int| 0 <= i < b.len() implies (b[i] as u32) < 128 by {
                    assert(b[i] == a[i + 4]);
                }
            }
        }
        let c = if has_prefix(b, ".\\"@) {
            b.skip(2)
        } else {
            b
        };
        assert(is_ascii_text(c)) by {
            if has_prefix(b, ".\\"@) {
                assert forall|i: int| 0 <= i < c.len() implies (c[i] as u32) < 128 by {
                    assert(c[i] == b[i + 2]);
                }
            }
        }
    }
}

/// Whether `c` separates path components (`\` or `/`).
pub open spec fn is_separator(c: char) -> bool {
    c == '\\' || c == '/'
}

/// The last component of `p`: what follows its last `\` or `/` (all of it
/// when there is none).
pub open spec fn basename_raw(p: Seq<char>) -> Seq<char>
    decreases p.len(),
{
    if p.len() == 0 {
        p
    } else if is_separator(p.last()) {
        Seq::empty()
    } else {
        basename_raw(p.drop_last()).push(p.last())
    }
}

/// The last path component of `input`.
pub fn extract_basename_raw(input: &str) -> (r: String)
    ensures
        r@ == basename_raw(input@),
{
    let cs = chars_of(input);
    let mut start: usize = cs.len();
    proof {
        assert(cs@.take(cs@.len() as int) == cs@);
        assert(cs@.skip(cs@.len() as int) =~= Seq::<char>::empty());
        assert(basename_raw(cs@) + Seq::<char>::empty() == basename_raw(cs@));
    }
    while start > 0 && cs[start - 1] != '\\' && cs[start - 1] != '/'
        invariant
            start <= cs@.len(),
            basename_raw(cs@) == basename_raw(cs@.take(start as int)) + cs@.skip(start as int),
        decreases start,
    {
        proof {
            let t = cs@.take(start as int);
            assert(t.drop_last() == cs@.take(start - 1));
            assert(cs@.skip(start - 1) == seq![cs@[start - 1]] + cs@.skip(start as int));
            assert(basename_raw(t) == basename_raw(t.drop_last()).push(t.last()));
            assert(basename_raw(cs@.take(start - 1)) + cs@.skip(start - 1) =~= basename_raw(t.drop_last()).push(
                t.last(),
            ) + cs@.skip(start as int));
        }
        start = start - 1;
    }
    proof {
        assert(cs@.take(cs@.len() as int) == cs@);
        assert(cs@.skip(cs@.len() as int) =~= Seq::<char>::empty());
        let t = cs@.take(start as int);
        if start > 0 {
            assert(is_separator(t.last()));
            assert(basename_raw(t) == Seq::<char>::empty());
        }
        assert(basename_raw(t) + cs@.skip(start as int) =~= cs@.skip(start as int));
    }
    let r = crate::text::slice_vec(&cs, start, cs.len());
    proof {
        assert(r@ =~= cs@.skip(start as int));
    }
    string_of(&r)
}

/// The last path component of `input`, lowercased.
pub fn extract_basename(input: &str) -> (r: String)
    ensures
        r@ == lowercase(basename_raw(input@)),
{
    let b = extract_basename_raw(input);
    to_lowercase(b.as_str())
}

/// Whether a path is a bare file name (it holds no `/` and no `\`).
pub fn is_basename_only(path: &str) -> (r: bool)
    ensures
        r == (!path@.contains('/') && !path@.contains('\\')),
{
    let cs = chars_of(path);
    !seq_contains(&cs, '/') && !seq_contains(&cs, '\\')
}

/// The object id an input names: the trimmed input without a leading
/// `objects:`, read as a UUID.
pub open spec fn object_id_spec(input: Seq<char>) -> Option<Seq<char>> {
    let t = trim_ws(input);
    uuid_text(if has_prefix(t, "objects:"@) {
        t.skip(8)
    } else {
        t
    })
}

/// Reads an object id, with or without its `objects:` prefix.
pub fn parse_object_id(input: &str) -> (r: Option<String>)
    ensures
        opt_view(r) == object_id_spec(input@),
{
    let cs = chars_of(input);
    let t = trim(&cs);
    let prefix = chars_of("objects:");
    proof {
        reveal_strlit("objects:");
    }
    let candidate = match strip_prefix(&t, &prefix) {
        Some(rest) => rest,
        None => t,
    };
    let s = string_of(&candidate);
    parse_uuid_text(s.as_str())
}

/// The language a lowercased file extension names; `config` for any other.
pub open spec fn extension_language(e: Seq<char>) -> Seq<char> {
    if e == "py"@ || e == "pyi"@ || e == "pyw"@ {
        "python"@
    } else if e == "ts"@ || e == "tsx"@ || e == "mts"@ || e == "cts"@ {
        "typescript"@
    } else if e == "rs"@ {
        "rust"@
    } else if e == "js"@ || e == "jsx"@ || e == "mjs"@ || e == "cjs"@ {
        "javascript"@
    } else if e == "go"@ {
        "go"@
    } else if e == "java"@ {
        "java"@
    } else if e == "c"@ || e == "h"@ {
        "c"@
    } else if e == "cpp"@ || e == "cc"@ || e == "cxx"@ || e == "hpp"@ || e == "hxx"@ {
        "cpp"@
    } else if e == "cs"@ {
        "csharp"@
    } else if e == "rb"@ {
        "ruby"@
    } else if e == "php"@ {
        "php"@
    } else if e == "swift"@ {
        "swift"@
    } else if e == "kt"@ || e == "kts"@ {
        "kotlin"@
    } else if e == "scala"@ {
        "scala"@
    } else if e == "md"@ || e == "markdown"@ {
        "markdown"@
    } else if e == "json"@ {
        "json"@
    } else if e == "yaml"@ || e == "yml"@ {
        "yaml"@
    } else if e == "toml"@ {
        "toml"@
    } else if e == "xml"@ {
        "xml"@
    } else if e == "html"@ || e == "htm"@ {
        "html"@
    } else if e == "css"@ || e == "scss"@ || e == "sass"@ || e == "less"@ {
        "css"@
    } else if e == "sql"@ {
        "sql"@
    } else if e == "sh"@ || e == "bash"@ || e == "zsh"@ {
        "shell"@
    } else if e == "ps1"@ || e == "psm1"@ || e == "psd1"@ {
        "powershell"@
    } else if e == "txt"@ {
        "text"@
    } else {
        "config"@
    }
}

/// The language a lowercased file name without extension names; `config` for any other.
pub open spec fn file_name_language(n: Seq<char>) -> Seq<char> {
    if n == "makefile"@ || n == "gnumakefile"@ {
        "makefile"@
    } else if n == "dockerfile"@ {
        "dockerfile"@
    } else if n == "jenkinsfile"@ {
        "groovy"@
    } else if n == "vagrantfile"@ || n == "rakefile"@ || n == "gemfile"@ {
        "ruby"@
    } else if n == ".gitignore"@ || n == ".gitattributes"@ || n == ".gitmodules"@ {
        "git"@
    } else if n == ".env"@ || n == ".env.example"@ || n == ".env.local"@ {
        "env"@
    } else if n == "license"@ || n == "licence"@ {
        "text"@
    } else {
        "config"@
    }
}

/// The language of a lowercased extension.
fn extension_language_of(e: &Vec<char>) -> (r: &'static str)
    ensures
        r@ == extension_language(e@),
{
    if eq_str(e, "py") || eq_str(e, "pyi") || eq_str(e, "pyw") {
        "python"
    } else if eq_str(e, "ts") || eq_str(e, "tsx") || eq_str(e, "mts") || eq_str(e, "cts") {
        "typescript"
    } else if eq_str(e, "rs") {
        "rust"
    } else if eq_str(e, "js") || eq_str(e, "jsx") || eq_str(e, "mjs") || eq_str(e, "cjs") {
        "javascript"
    } else if eq_str(e, "go") {
        "go"
    } else if eq_str(e, "java") {
        "java"
    } else if eq_str(e, "c") || eq_str(e, "h") {
        "c"
    } else if eq_str(e, "cpp") || eq_str(e, "cc") || eq_str(e, "cxx") || eq_str(e, "hpp") || eq_str(e, "hxx") {
        "cpp"
    } else if eq_str(e, "cs") {
        "csharp"
    } else if eq_str(e, "rb") {
        "ruby"
    } else if eq_str(e, "php") {
        "php"
    } else if eq_str(e, "swift") {
        "swift"
    } else if eq_str(e, "kt") || eq_str(e, "kts") {
        "kotlin"
    } else if eq_str(e, "scala") {
        "scala"
    } else if eq_str(e, "md") || eq_str(e, "markdown") {
        "markdown"
    } else if eq_str(e, "json") {
        "json"
    } else if eq_str(e, "yaml") || eq_str(e, "yml") {
        "yaml"
    } else if eq_str(e, "toml") {
        "toml"
    } else if eq_str(e, "xml") {
        "xml"
    } else if eq_str(e, "html") || eq_str(e, "htm") {
        "html"
    } else if eq_str(e, "css") || eq_str(e, "scss") || eq_str(e, "sass") || eq_str(e, "less") {
        "css"
    } else if eq_str(e, "sql") {
        "sql"
    } else if eq_str(e, "sh") || eq_str(e, "bash") || eq_str(e, "zsh") {
        "shell"
    } else if eq_str(e, "ps1") || eq_str(e, "psm1") || eq_str(e, "psd1") {
        "powershell"
    } else if eq_str(e, "txt") {
        "text"
    } else {
        "config"
    }
}

/// The language of a lowercased extensionless file name.
fn file_name_language_of(n: &Vec<char>) -> (r: &'static str)
    ensures
        r@ == file_name_language(n@),
{
    if eq_str(n, "makefile") || eq_str(n, "gnumakefile") {
        "makefile"
    } else if eq_str(n, "dockerfile") {
        "dockerfile"
    } else if eq_str(n, "jenkinsfile") {
        "groovy"
    } else if eq_str(n, "vagrantfile") || eq_str(n, "rakefile") || eq_str(n, "gemfile") {
        "ruby"
    } else if eq_str(n, ".gitignore") || eq_str(n, ".gitattributes") || eq_str(n, ".gitmodules") {
        "git"
    } else if eq_str(n, ".env") || eq_str(n, ".env.example") || eq_str(n, ".env.local") {
        "env"
    } else if eq_str(n, "license") || eq_str(n, "licence") {
        "text"
    } else {
        "config"
    }
}

/// The extension of the last component of `path`, as
/// `std::path::Path::extension` reads it under the path rules of the
/// platform the library is built for.
pub uninterp spec fn path_extension(path: Seq<char>) -> Option<Seq<char>>;

/// The last component of `path`, as `std::path::Path::file_name` reads it
/// under the path rules of the platform the library is built for.
pub uninterp spec fn path_file_name(path: Seq<char>) -> Option<Seq<char>>;

/// `std::path::Path::extension` of `path`, as text. The result is the one
/// `path_extension` names.
#[verifier::external_body]
fn extension_of(path: &str) -> (r: Option<String>)
    ensures
        opt_view(r) == path_extension(path@),
{
    std::path::Path::new(path).extension().map(|e| e.to_string_lossy().into_owned())
}

/// `std::path::Path::file_name` of `path`, as text. The result is the one
/// `path_file_name` names.
#[verifier::external_body]
fn file_name_of(path: &str) -> (r: Option<String>)
    ensures
        opt_view(r) == path_file_name(path@),
{
    std::path::Path::new(path).file_name().map(|n| n.to_string_lossy().into_owned())
}

/// The language of a file: by its lowercased extension when it has one,
/// else by its lowercased file name.
pub open spec fn language_for_spec(extension: Option<Seq<char>>, file_name: Option<Seq<char>>) -> Seq<char> {
    match extension {
        Some(e) => extension_language(lowercase(e)),
        None => file_name_language(
            match file_name {
                Some(n) => lowercase(n),
                None => Seq::empty(),
            },
        ),
    }
}

/// Each listed extension, in any case, names its own language: `.go`
/// is `go`, `.py`, `.pyi` and `.pyw` are `python`, and so on; none of them
/// falls back to `config`.
proof fn lemma_ext_py(e: Seq<char>, n: Option<Seq<char>>)
    ensures
        lowercase(e) == "py"@ ==> language_for_spec(Some(e), n) == "python"@,
{
    reveal_strlit("py");
    reveal_strlit("python");
}

proof fn lemma_ext_pyi(e: Seq<char>, n: Option<Seq<char>>)
    ensures
        lowercase(e) == "pyi"@ ==> language_for_spec(Some(e), n) == "python"@,
{
    reveal_strlit("pyi");
    reveal_strlit("python");
}

proof fn lemma_ext_pyw(e: Seq<char>, n: Option<Seq<char>>)
    ensures
        lowercase(e) == "pyw"@ ==> language_for_spec(Some(e), n) == "python"@,
{
    reveal_strlit("python");
    reveal_strlit("pyw");
}

proof fn lemma_ext_ts(e: Seq<char>, n: Option<Seq<char>>)
    ensures
        lowercase(e) == "ts"@ ==> language_for_spec(Some(e), n) == "typescript"@,
{
    reveal_strlit("py");
    reveal_strlit("pyi");
    reveal_strlit("pyw");
    reveal_strlit("ts");
    reveal_strlit("typescript");
    assert("ts"@ != "py"@) by {
        assert("ts"@[0] != "py"@[0]);
    }
    assert("ts"@ != "pyi"@) by {
        assert("ts"@.len() != "pyi"@.len());
    }
    assert("ts"@ != "pyw"@) by {
        assert("ts"@.len() != "pyw"@.len());
    }
}

proof fn lemma_ext_tsx(e: Seq<char>, n: Option<Seq<char>>)
    ensures
        lowercase(e) == "tsx"@ ==> language_for_spec(Some(e), n) == "typescript"@,
{
    reveal_strlit("py");
    reveal_strlit("pyi");
    reveal_strlit("pyw");
    reveal_strlit("tsx");
    reveal_strlit("typescript");
    assert("tsx"@ != "py"@) by {
        assert("tsx"@.len() != "py"@.len());
    }
    assert("tsx"@ != "pyi"@) by {
        assert("tsx"@[0] != "pyi"@[0]);
    }
    assert("tsx"@ != "pyw"@) by {
        assert("tsx"@[0] != "pyw"@[0]);
    }
}

proof fn lemma_ext_mts(e: Seq<char>, n: Option<Seq<char>>)
    ensures
        lowercase(e) == "mts"@ ==> language_for_spec(Some(e), n) == "typescript"@,
{
    reveal_strlit("mts");
    reveal_strlit("py");
    reveal_strlit("pyi");
    reveal_strlit("pyw");
    reveal_strlit("typescript");
    assert("mts"@ != "py"@) by {
        assert("mts"@.len() != "py"@.len());
    }
    assert("mts"@ != "pyi"@) by {
        assert("mts"@[0] != "pyi"@[0]);
    }
    assert("mts"@ != "pyw"@) by {
        assert("mts"@[0] != "pyw"@[0]);
    }
}

proof fn lemma_ext_cts(e: Seq<char>, n: Option<Seq<char>>)
    ensures
        lowercase(e) == "cts"@ ==> language_for_spec(Some(e), n) == "typescript"@,
{
    reveal_strlit("cts");
    reveal_strlit("py");
    reveal_strlit("pyi");
    reveal_strlit("pyw");
    reveal_strlit("typescript");
    assert("cts"@ != "py"@) by {
        assert("cts"@.len() != "py"@.len());
    }
    assert("cts"@ != "pyi"@) by {
        assert("cts"@[0] != "pyi"@[0]);
    }
    assert("cts"@ != "pyw"@) by {
        assert("cts"@[0] != "pyw"@[0]);
    }
}

proof fn lemma_ext_rs(e: Seq<char>, n: Option<Seq<char>>)
    ensures
        lowercase(e) == "rs"@ ==> language_for_spec(Some(e), n) == "rust"@,
{
    reveal_strlit("cts");
    reveal_strlit("mts");
    reveal_strlit("py");
    reveal_strlit("pyi");
    reveal_strlit("pyw");
    reveal_strlit("rs");
    reveal_strlit("rust");
    reveal_strlit("ts");
    reveal_strlit("tsx");
    assert("rs"@ != "py"@) by {
        assert("rs"@[0] != "py"@[0]);
    }
    assert("rs"@ != "pyi"@) by {
        assert("rs"@.len() != "pyi"@.len());
    }
    assert("rs"@ != "pyw"@) by {
        assert("rs"@.len() != "pyw"@.len());
    }
    assert("rs"@ != "ts"@) by {
        assert("rs"@[0] != "ts"@[0]);
    }
    assert("rs"@ != "tsx"@) by {
        assert("rs"@.len() != "tsx"@.len());
    }
    assert("rs"@ != "mts"@) by {
        assert("rs"@.len() != "mts"@.len());
    }
    assert("rs"@ != "cts"@) by {
        assert("rs"@.len() != "cts"@.len());
    }
}

proof fn lemma_ext_js(e: Seq<char>, n: Option<Seq<char>>)
    ensures
        lowercase(e) == "js"@ ==> language_for_spec(Some(e), n) == "javascript"@,
{
    reveal_strlit("cts");
    reveal_strlit("javascript");
    reveal_strlit("js");
    reveal_strlit("mts");
    reveal_strlit("py");
    reveal_strlit("pyi");
    reveal_strlit("pyw");
    reveal_strlit("rs");
    reveal_strlit("ts");
    reveal_strlit("tsx");
    assert("js"@ != "py"@) by {
        assert("js"@[0] != "py"@[0]);
    }
    assert("js"@ != "pyi"@) by {
        assert("js"@.len() != "pyi"@.len());
    }
    assert("js"@ != "pyw"@) by {
        assert("js"@.len() != "pyw"@.len());
    }
    assert("js"@ != "ts"@) by {
        assert("js"@[0] != "ts"@[0]);
    }
    assert("js"@ != "tsx"@) by {
        assert("js"@.len() != "tsx"@.len());
    }
    assert("js"@ != "mts"@) by {
        assert("js"@.len() != "mts"@.len());
    }
    assert("js"@ != "cts"@) by {
        assert("js"@.len() != "cts"@.len());
    }
    assert("js"@ != "rs"@) by {
        assert("js"@[0] != "rs"@[0]);
    }
}

proof fn lemma_ext_jsx(e: Seq<char>, n: Option<Seq<char>>)
    ensures
        lowercase(e) == "jsx"@ ==> language_for_spec(Some(e), n) == "javascript"@,
{
    reveal_strlit("cts");
    reveal_strlit("javascript");
    reveal_strlit("jsx");
    reveal_strlit("mts");
    reveal_strlit("py");
    reveal_strlit("pyi");
    reveal_strlit("pyw");
    reveal_strlit("rs");
    reveal_strlit("ts");
    reveal_strlit("tsx");
    assert("jsx"@ != "py"@) by {
        assert("jsx"@.len() != "py"@.len());
    }
    assert("jsx"@ != "pyi"@) by {
        assert("jsx"@[0] != "pyi"@[0]);
    }
    assert("jsx"@ != "pyw"@) by {
        assert("jsx"@[0] != "pyw"@[0]);
    }
    assert("jsx"@ != "ts"@) by {
        assert("jsx"@.len() != "ts"@.len());
    }
    assert("jsx"@ != "tsx"@) by {
        assert("jsx"@[0] != "tsx"@[0]);
    }
    assert("jsx"@ != "mts"@) by {
        assert("jsx"@[0] != "mts"@[0]);
    }
    assert("jsx"@ != "cts"@) by {
        assert("jsx"@[0] != "cts"@[0]);
    }
    assert("jsx"@ != "rs"@) by {
        assert("jsx"@.len() != "rs"@.len());
    }
}

proof fn lemma_ext_mjs(e: Seq<char>, n: Option<Seq<char>>)
    ensures
        lowercase(e) == "mjs"@ ==> language_for_spec(Some(e), n) == "javascript"@,
{
    reveal_strlit("cts");
    reveal_strlit("javascript");
    reveal_strlit("mjs");
    reveal_strlit("mts");
    reveal_strlit("py");
    reveal_strlit("pyi");
    reveal_strlit("pyw");
    reveal_strlit("rs");
    reveal_strlit("ts");
    reveal_strlit("tsx");
    assert("mjs"@ != "py"@) by {
        assert("mjs"@.len() != "py"@.len());
    }
    assert("mjs"@ != "pyi"@) by {
        assert("mjs"@[0] != "pyi"@[0]);
    }
    assert("mjs"@ != "pyw"@) by {
        assert("mjs"@[0] != "pyw"@[0]);
    }
    assert("mjs"@ != "ts"@) by {
        assert("mjs"@.len() != "ts"@.len());
    }
    assert("mjs"@ != "tsx"@) by {
        assert("mjs"@[0] != "tsx"@[0]);
    }
    assert("mjs"@ != "mts"@) by {
        assert("mjs"@[1] != "mts"@[1]);
    }
    assert("mjs"@ != "cts"@) by {
        assert("mjs"@[0] != "cts"@[0]);
    }
    assert("mjs"@ != "rs"@) by {
        assert("mjs"@.len() != "rs"@.len());
    }
}

proof fn lemma_ext_cjs(e: Seq<char>, n: Option<Seq<char>>)
    ensures
        lowercase(e) == "cjs"@ ==> language_for_spec(Some(e), n) == "javascript"@,
{
    reveal_strlit("cjs");
    reveal_strlit("cts");
    reveal_strlit("javascript");
    reveal_strlit("mts");
    reveal_strlit("py");
    reveal_strlit("pyi");
    reveal_strlit("pyw");
    reveal_strlit("rs");
    reveal_strlit("ts");
    reveal_strlit("tsx");
    assert("cjs"@ != "py"@) by {
        assert("cjs"@.len() != "py"@.len());
    }
    assert("cjs"@ != "pyi"@) by {
        assert("cjs"@[0] != "pyi"@[0]);
    }
    assert("cjs"@ != "pyw"@) by {
        assert("cjs"@[0] != "pyw"@[0]);
    }
    assert("cjs"@ != "ts"@) by {
        assert("cjs"@.len() != "ts"@.len());
    }
    assert("cjs"@ != "tsx"@) by {
        assert("cjs"@[0] != "tsx"@[0]);
    }
    assert("cjs"@ != "mts"@) by {
        assert("cjs"@[0] != "mts"@[0]);
    }
    assert("cjs"@ != "cts"@) by {
        assert("cjs"@[1] != "cts"@[1]);
    }
    assert("cjs"@ != "rs"@) by {
        assert("cjs"@.len() != "rs"@.len());
    }
}

proof fn lemma_ext_go(e: Seq<char>, n: Option<Seq<char>>)
    ensures
        lowercase(e) == "go"@ ==> language_for_spec(Some(e), n) == "go"@,
{
    reveal_strlit("cjs");
    reveal_strlit("cts");
    reveal_strlit("go");
    reveal_strlit("js");
    reveal_strlit("jsx");
    reveal_strlit("mjs");
    reveal_strlit("mts");
    reveal_strlit("py");
    reveal_strlit("pyi");
    reveal_strlit("pyw");
    reveal_strlit("rs");
    reveal_strlit("ts");
    reveal_strlit("tsx");
    assert("go"@ != "py"@) by {
        assert("go"@[0] != "py"@[0]);
    }
    assert("go"@ != "pyi"@) by {
        assert("go"@.len() != "pyi"@.len());
    }
    assert("go"@ != "pyw"@) by {
        assert("go"@.len() != "pyw"@.len());
    }
    assert("go"@ != "ts"@) by {
        assert("go"@[0] != "ts"@[0]);
    }
    assert("go"@ != "tsx"@) by {
        assert("go"@.len() != "tsx"@.len());
    }
    assert("go"@ != "mts"@) by {
        assert("go"@.len() != "mts"@.len());
    }
    assert("go"@ != "cts"@) by {
        assert("go"@.len() != "cts"@.len());
    }
    assert("go"@ != "rs"@) by {
        assert("go"@[0] != "rs"@[0]);
    }
    assert("go"@ != "js"@) by {
        assert("go"@[0] != "js"@[0]);
    }
    assert("go"@ != "jsx"@) by {
        assert("go"@.len() != "jsx"@.len());
    }
    assert("go"@ != "mjs"@) by {
        assert("go"@.len() != "mjs"@.len());
    }
    assert("go"@ != "cjs"@) by {
        assert("go"@.len() != "cjs"@.len());
    }
}

proof fn lemma_ext_java(e: Seq<char>, n: Option<Seq<char>>)
    ensures
        lowercase(e) == "java"@ ==> language_for_spec(Some(e), n) == "java"@,
{
    reveal_strlit("cjs");
    reveal_strlit("cts");
    reveal_strlit("go");
    reveal_strlit("java");
    reveal_strlit("js");
    reveal_strlit("jsx");
    reveal_strlit("mjs");
    reveal_strlit("mts");
    reveal_strlit("py");
    reveal_strlit("pyi");
    reveal_strlit("pyw");
    reveal_strlit("rs");
    reveal_strlit("ts");
    reveal_strlit("tsx");
    assert("java"@ != "py"@) by {
        assert("java"@.len() != "py"@.len());
    }
    assert("java"@ != "pyi"@) by {
        assert("java"@.len() != "pyi"@.len());
    }
    assert("java"@ != "pyw"@) by {
        assert("java"@.len() != "pyw"@.len());
    }
    assert("java"@ != "ts"@) by {
        assert("java"@.len() != "ts"@.len());
    }
    assert("java"@ != "tsx"@) by {
        assert("java"@.len() != "tsx"@.len());
    }
    assert("java"@ != "mts"@) by {
        assert("java"@.len() != "mts"@.len());
    }
    assert("java"@ != "cts"@) by {
        assert("java"@.len() != "cts"@.len());
    }
    assert("java"@ != "rs"@) by {
        assert("java"@.len() != "rs"@.len());
    }
    assert("java"@ != "js"@) by {
        assert("java"@.len() != "js"@.len());
    }
    assert("java"@ != "jsx"@) by {
        assert("java"@.len() != "jsx"@.len());
    }
    assert("java"@ != "mjs"@) by {
        assert("java"@.len() != "mjs"@.len());
    }
    assert("java"@ != "cjs"@) by {
        assert("java"@.len() != "cjs"@.len());
    }
    assert("java"@ != "go"@) by {
        assert("java"@.len() != "go"@.len());
    }
}

proof fn lemma_ext_c(e: Seq<char>, n: Option<Seq<char>>)
    ensures
        lowercase(e) == "c"@ ==> language_for_spec(Some(e), n) == "c"@,
{
    reveal_strlit("c");
    reveal_strlit("cjs");
    reveal_strlit("cts");
    reveal_strlit("go");
    reveal_strlit("java");
    reveal_strlit("js");
    reveal_strlit("jsx");
    reveal_strlit("mjs");
    reveal_strlit("mts");
    reveal_strlit("py");
    reveal_strlit("pyi");
    reveal_strlit("pyw");
    reveal_strlit("rs");
    reveal_strlit("ts");
    reveal_strlit("tsx");
    assert("c"@ != "py"@) by {
        assert("c"@.len() != "py"@.len());
    }
    assert("c"@ != "pyi"@) by {
        assert("c"@.len() != "pyi"@.len());
    }
    assert("c"@ != "pyw"@) by {
        assert("c"@.len() != "pyw"@.len());
    }
    assert("c"@ != "ts"@) by {
        assert("c"@.len() != "ts"@.len());
    }
    assert("c"@ != "tsx"@) by {
        assert("c"@.len() != "tsx"@.len());
    }
    assert("c"@ != "mts"@) by {
        assert("c"@.len() != "mts"@.len());
    }
    assert("c"@ != "cts"@) by {
        assert("c"@.len() != "cts"@.len());
    }
    assert("c"@ != "rs"@) by {
        assert("c"@.len() != "rs"@.len());
    }
    assert("c"@ != "js"@) by {
        assert("c"@.len() != "js"@.len());
    }
    assert("c"@ != "jsx"@) by {
        assert("c"@.len() != "jsx"@.len());
    }
    assert("c"@ != "mjs"@) by {
        assert("c"@.len() != "mjs"@.len());
    }
    assert("c"@ != "cjs"@) by {
        assert("c"@.len() != "cjs"@.len());
    }
    assert("c"@ != "go"@) by {
        assert("c"@.len() != "go"@.len());
    }
    assert("c"@ != "java"@) by {
        assert("c"@.len() != "java"@.len());
    }
}

proof fn lemma_ext_h(e: Seq<char>, n: Option<Seq<char>>)
    ensures
        lowercase(e) == "h"@ ==> language_for_spec(Some(e), n) == "c"@,
{
    reveal_strlit("c");
    reveal_strlit("cjs");
    reveal_strlit("cts");
    reveal_strlit("go");
    reveal_strlit("h");
    reveal_strlit("java");
    reveal_strlit("js");
    reveal_strlit("jsx");
    reveal_strlit("mjs");
    reveal_strlit("mts");
    reveal_strlit("py");
    reveal_strlit("pyi");
    reveal_strlit("pyw");
    reveal_strlit("rs");
    reveal_strlit("ts");
    reveal_strlit("tsx");
    assert("h"@ != "py"@) by {
        assert("h"@.len() != "py"@.len());
    }
    assert("h"@ != "pyi"@) by {
        assert("h"@.len() != "pyi"@.len());
    }
    assert("h"@ != "pyw"@) by {
        assert("h"@.len() != "pyw"@.len());
    }
    assert("h"@ != "ts"@) by {
        assert("h"@.len() != "ts"@.len());
    }
    assert("h"@ != "tsx"@) by {
        assert("h"@.len() != "tsx"@.len());
    }
    assert("h"@ != "mts"@) by {
        assert("h"@.len() != "mts"@.len());
    }
    assert("h"@ != "cts"@) by {
        assert("h"@.len() != "cts"@.len());
    }
    assert("h"@ != "rs"@) by {
        assert("h"@.len() != "rs"@.len());
    }
    assert("h"@ != "js"@) by {
        assert("h"@.len() != "js"@.len());
    }
    assert("h"@ != "jsx"@) by {
        assert("h"@.len() != "jsx"@.len());
    }
    assert("h"@ != "mjs"@) by {
        assert("h"@.len() != "mjs"@.len());
    }
    assert("h"@ != "cjs"@) by {
        assert("h"@.len() != "cjs"@.len());
    }
    assert("h"@ != "go"@) by {
        assert("h"@.len() != "go"@.len());
    }
    assert("h"@ != "java"@) by {
        assert("h"@.len() != "java"@.len());
    }
}

proof fn lemma_ext_cpp(e: Seq<char>, n: Option<Seq<char>>)
    ensures
        lowercase(e) == "cpp"@ ==> language_for_spec(Some(e), n) == "cpp"@,
{
    reveal_strlit("c");
    reveal_strlit("cjs");
    reveal_strlit("cpp");
    reveal_strlit("cts");
    reveal_strlit("go");
    reveal_strlit("h");
    reveal_strlit("java");
    reveal_strlit("js");
    reveal_strlit("jsx");
    reveal_strlit("mjs");
    reveal_strlit("mts");
    reveal_strlit("py");
    reveal_strlit("pyi");
    reveal_strlit("pyw");
    reveal_strlit("rs");
    reveal_strlit("ts");
    reveal_strlit("tsx");
    assert("cpp"@ != "py"@) by {
        assert("cpp"@.len() != "py"@.len());
    }
    assert("cpp"@ != "pyi"@) by {
        assert("cpp"@[0] != "pyi"@[0]);
    }
    assert("cpp"@ != "pyw"@) by {
        assert("cpp"@[0] != "pyw"@[0]);
    }
    assert("cpp"@ != "ts"@) by {
        assert("cpp"@.len() != "ts"@.len());
    }
    assert("cpp"@ != "tsx"@) by {
        assert("cpp"@[0] != "tsx"@[0]);
    }
    assert("cpp"@ != "mts"@) by {
        assert("cpp"@[0] != "mts"@[0]);
    }
    assert("cpp"@ != "cts"@) by {
        assert("cpp"@[1] != "cts"@[1]);
    }
    assert("cpp"@ != "rs"@) by {
        assert("cpp"@.len() != "rs"@.len());
    }
    assert("cpp"@ != "js"@) by {
        assert("cpp"@.len() != "js"@.len());
    }
    assert("cpp"@ != "jsx"@) by {
        assert("cpp"@[0] != "jsx"@[0]);
    }
    assert("cpp"@ != "mjs"@) by {
        assert("cpp"@[0] != "mjs"@[0]);
    }
    assert("cpp"@ != "cjs"@) by {
        assert("cpp"@[1] != "cjs"@[1]);
    }
    assert("cpp"@ != "go"@) by {
        assert("cpp"@.len() != "go"@.len());
    }
    assert("cpp"@ != "java"@) by {
        assert("cpp"@.len() != "java"@.len());
    }
    assert("cpp"@ != "c"@) by {
        assert("cpp"@.len() != "c"@.len());
    }
    assert("cpp"@ != "h"@) by {
        assert("cpp"@.len() != "h"@.len());
    }
}

proof fn lemma_ext_cc(e: Seq<char>, n: Option<Seq<char>>)
    ensures
        lowercase(e) == "cc"@ ==> language_for_spec(Some(e), n) == "cpp"@,
{
    reveal_strlit("c");
    reveal_strlit("cc");
    reveal_strlit("cjs");
    reveal_strlit("cpp");
    reveal_strlit("cts");
    reveal_strlit("go");
    reveal_strlit("h");
    reveal_strlit("java");
    reveal_strlit("js");
    reveal_strlit("jsx");
    reveal_strlit("mjs");
    reveal_strlit("mts");
    reveal_strlit("py");
    reveal_strlit("pyi");
    reveal_strlit("pyw");
    reveal_strlit("rs");
    reveal_strlit("ts");
    reveal_strlit("tsx");
    assert("cc"@ != "py"@) by {
        assert("cc"@[0] != "py"@[0]);
    }
    assert("cc"@ != "pyi"@) by {
        assert("cc"@.len() != "pyi"@.len());
    }
    assert("cc"@ != "pyw"@) by {
        assert("cc"@.len() != "pyw"@.len());
    }
    assert("cc"@ != "ts"@) by {
        assert("cc"@[0] != "ts"@[0]);
    }
    assert("cc"@ != "tsx"@) by {
        assert("cc"@.len() != "tsx"@.len());
    }
    assert("cc"@ != "mts"@) by {
        assert("cc"@.len() != "mts"@.len());
    }
    assert("cc"@ != "cts"@) by {
        assert("cc"@.len() != "cts"@.len());
    }
    assert("cc"@ != "rs"@) by {
        assert("cc"@[0] != "rs"@[0]);
    }
    assert("cc"@ != "js"@) by {
        assert("cc"@[0] != "js"@[0]);
    }
    assert("cc"@ != "jsx"@) by {
        assert("cc"@.len() != "jsx"@.len());
    }
    assert("cc"@ != "mjs"@) by {
        assert("cc"@.len() != "mjs"@.len());
    }
    assert("cc"@ != "cjs"@) by {
        assert("cc"@.len() != "cjs"@.len());
    }
    assert("cc"@ != "go"@) by {
        assert("cc"@[0] != "go"@[0]);
    }
    assert("cc"@ != "java"@) by {
        assert("cc"@.len() != "java"@.len());
    }
    assert("cc"@ != "c"@) by {
        assert("cc"@.len() != "c"@.len());
    }
    assert("cc"@ != "h"@) by {
        assert("cc"@.len() != "h"@.len());
    }
}

proof fn lemma_ext_cxx(e: Seq<char>, n: Option<Seq<char>>)
    ensures
        lowercase(e) == "cxx"@ ==> language_for_spec(Some(e), n) == "cpp"@,
{
    reveal_strlit("c");
    reveal_strlit("cjs");
    reveal_strlit("cpp");
    reveal_strlit("cts");
    reveal_strlit("cxx");
    reveal_strlit("go");
    reveal_strlit("h");
    reveal_strlit("java");
    reveal_strlit("js");
    reveal_strlit("jsx");
    reveal_strlit("mjs");
    reveal_strlit("mts");
    reveal_strlit("py");
    reveal_strlit("pyi");
    reveal_strlit("pyw");
    reveal_strlit("rs");
    reveal_strlit("ts");
    reveal_strlit("tsx");
    assert("cxx"@ != "py"@) by {
        assert("cxx"@.len() != "py"@.len());
    }
    assert("cxx"@ != "pyi"@) by {
        assert("cxx"@[0] != "pyi"@[0]);
    }
    assert("cxx"@ != "pyw"@) by {
        assert("cxx"@[0] != "pyw"@[0]);
    }
    assert("cxx"@ != "ts"@) by {
        assert("cxx"@.len() != "ts"@.len());
    }
    assert("cxx"@ != "tsx"@) by {
        assert("cxx"@[0] != "tsx"@[0]);
    }
    assert("cxx"@ != "mts"@) by {
        assert("cxx"@[0] != "mts"@[0]);
    }
    assert("cxx"@ != "cts"@) by {
        assert("cxx"@[1] != "cts"@[1]);
    }
    assert("cxx"@ != "rs"@) by {
        assert("cxx"@.len() != "rs"@.len());
    }
    assert("cxx"@ != "js"@) by {
        assert("cxx"@.len() != "js"@.len());
    }
    assert("cxx"@ != "jsx"@) by {
        assert("cxx"@[0] != "jsx"@[0]);
    }
    assert("cxx"@ != "mjs"@) by {
        assert("cxx"@[0] != "mjs"@[0]);
    }
    assert("cxx"@ != "cjs"@) by {
        assert("cxx"@[1] != "cjs"@[1]);
    }
    assert("cxx"@ != "go"@) by {
        assert("cxx"@.len() != "go"@.len());
    }
    assert("cxx"@ != "java"@) by {
        assert("cxx"@.len() != "java"@.len());
    }
    assert("cxx"@ != "c"@) by {
        assert("cxx"@.len() != "c"@.len());
    }
    assert("cxx"@ != "h"@) by {
        assert("cxx"@.len() != "h"@.len());
    }
}

proof fn lemma_ext_hpp(e: Seq<char>, n: Option<Seq<char>>)
    ensures
        lowercase(e) == "hpp"@ ==> language_for_spec(Some(e), n) == "cpp"@,
{
    reveal_strlit("c");
    reveal_strlit("cjs");
    reveal_strlit("cpp");
    reveal_strlit("cts");
    reveal_strlit("go");
    reveal_strlit("h");
    reveal_strlit("hpp");
    reveal_strlit("java");
    reveal_strlit("js");
    reveal_strlit("jsx");
    reveal_strlit("mjs");
    reveal_strlit("mts");
    reveal_strlit("py");
    reveal_strlit("pyi");
    reveal_strlit("pyw");
    reveal_strlit("rs");
    reveal_strlit("ts");
    reveal_strlit("tsx");
    assert("hpp"@ != "py"@) by {
        assert("hpp"@.len() != "py"@.len());
    }
    assert("hpp"@ != "pyi"@) by {
        assert("hpp"@[0] != "pyi"@[0]);
    }
    assert("hpp"@ != "pyw"@) by {
        assert("hpp"@[0] != "pyw"@[0]);
    }
    assert("hpp"@ != "ts"@) by {
        assert("hpp"@.len() != "ts"@.len());
    }
    assert("hpp"@ != "tsx"@) by {
        assert("hpp"@[0] != "tsx"@[0]);
    }
    assert("hpp"@ != "mts"@) by {
        assert("hpp"@[0] != "mts"@[0]);
    }
    assert("hpp"@ != "cts"@) by {
        assert("hpp"@[0] != "cts"@[0]);
    }
    assert("hpp"@ != "rs"@) by {
        assert("hpp"@.len() != "rs"@.len());
    }
    assert("hpp"@ != "js"@) by {
        assert("hpp"@.len() != "js"@.len());
    }
    assert("hpp"@ != "jsx"@) by {
        assert("hpp"@[0] != "jsx"@[0]);
    }
    assert("hpp"@ != "mjs"@) by {
        assert("hpp"@[0] != "mjs"@[0]);
    }
    assert("hpp"@ != "cjs"@) by {
        assert("hpp"@[0] != "cjs"@[0]);
    }
    assert("hpp"@ != "go"@) by {
        assert("hpp"@.len() != "go"@.len());
    }
    assert("hpp"@ != "java"@) by {
        assert("hpp"@.len() != "java"@.len());
    }
    assert("hpp"@ != "c"@) by {
        assert("hpp"@.len() != "c"@.len());
    }
    assert("hpp"@ != "h"@) by {
        assert("hpp"@.len() != "h"@.len());
    }
}

proof fn lemma_ext_hxx(e: Seq<char>, n: Option<Seq<char>>)
    ensures
        lowercase(e) == "hxx"@ ==> language_for_spec(Some(e), n) == "cpp"@,
{
    reveal_strlit("c");
    reveal_strlit("cjs");
    reveal_strlit("cpp");
    reveal_strlit("cts");
    reveal_strlit("go");
    reveal_strlit("h");
    reveal_strlit("hxx");
    reveal_strlit("java");
    reveal_strlit("js");
    reveal_strlit("jsx");
    reveal_strlit("mjs");
    reveal_strlit("mts");
    reveal_strlit("py");
    reveal_strlit("pyi");
    reveal_strlit("pyw");
    reveal_strlit("rs");
    reveal_strlit("ts");
    reveal_strlit("tsx");
    assert("hxx"@ != "py"@) by {
        assert("hxx"@.len() != "py"@.len());
    }
    assert("hxx"@ != "pyi"@) by {
        assert("hxx"@[0] != "pyi"@[0]);
    }
    assert("hxx"@ != "pyw"@) by {
        assert("hxx"@[0] != "pyw"@[0]);
    }
    assert("hxx"@ != "ts"@) by {
        assert("hxx"@.len() != "ts"@.len());
    }
    assert("hxx"@ != "tsx"@) by {
        assert("hxx"@[0] != "tsx"@[0]);
    }
    assert("hxx"@ != "mts"@) by {
        assert("hxx"@[0] != "mts"@[0]);
    }
    assert("hxx"@ != "cts"@) by {
        assert("hxx"@[0] != "cts"@[0]);
    }
    assert("hxx"@ != "rs"@) by {
        assert("hxx"@.len() != "rs"@.len());
    }
    assert("hxx"@ != "js"@) by {
        assert("hxx"@.len() != "js"@.len());
    }
    assert("hxx"@ != "jsx"@) by {
        assert("hxx"@[0] != "jsx"@[0]);
    }
    assert("hxx"@ != "mjs"@) by {
        assert("hxx"@[0] != "mjs"@[0]);
    }
    assert("hxx"@ != "cjs"@) by {
        assert("hxx"@[0] != "cjs"@[0]);
    }
    assert("hxx"@ != "go"@) by {
        assert("hxx"@.len() != "go"@.len());
    }
    assert("hxx"@ != "java"@) by {
        assert("hxx"@.len() != "java"@.len());
    }
    assert("hxx"@ != "c"@) by {
        assert("hxx"@.len() != "c"@.len());
    }
    assert("hxx"@ != "h"@) by {
        assert("hxx"@.len() != "h"@.len());
    }
}

proof fn lemma_ext_cs(e: Seq<char>, n: Option<Seq<char>>)
    ensures
        lowercase(e) == "cs"@ ==> language_for_spec(Some(e), n) == "csharp"@,
{
    reveal_strlit("c");
    reveal_strlit("cc");
    reveal_strlit("cjs");
    reveal_strlit("cpp");
    reveal_strlit("cs");
    reveal_strlit("csharp");
    reveal_strlit("cts");
    reveal_strlit("cxx");
    reveal_strlit("go");
    reveal_strlit("h");
    reveal_strlit("hpp");
    reveal_strlit("hxx");
    reveal_strlit("java");
    reveal_strlit("js");
    reveal_strlit("jsx");
    reveal_strlit("mjs");
    reveal_strlit("mts");
    reveal_strlit("py");
    reveal_strlit("pyi");
    reveal_strlit("pyw");
    reveal_strlit("rs");
    reveal_strlit("ts");
    reveal_strlit("tsx");
    assert("cs"@ != "py"@) by {
        assert("cs"@[0] != "py"@[0]);
    }
    assert("cs"@ != "pyi"@) by {
        assert("cs"@.len() != "pyi"@.len());
    }
    assert("cs"@ != "pyw"@) by {
        assert("cs"@.len() != "pyw"@.len());
    }
    assert("cs"@ != "ts"@) by {
        assert("cs"@[0] != "ts"@[0]);
    }
    assert("cs"@ != "tsx"@) by {
        assert("cs"@.len() != "tsx"@.len());
    }
    assert("cs"@ != "mts"@) by {
        assert("cs"@.len() != "mts"@.len());
    }
    assert("cs"@ != "cts"@) by {
        assert("cs"@.len() != "cts"@.len());
    }
    assert("cs"@ != "rs"@) by {
        assert("cs"@[0] != "rs"@[0]);
    }
    assert("cs"@ != "js"@) by {
        assert("cs"@[0] != "js"@[0]);
    }
    assert("cs"@ != "jsx"@) by {
        assert("cs"@.len() != "jsx"@.len());
    }
    assert("cs"@ != "mjs"@) by {
        assert("cs"@.len() != "mjs"@.len());
    }
    assert("cs"@ != "cjs"@) by {
        assert("cs"@.len() != "cjs"@.len());
    }
    assert("cs"@ != "go"@) by {
        assert("cs"@[0] != "go"@[0]);
    }
    assert("cs"@ != "java"@) by {
        assert("cs"@.len() != "java"@.len());
    }
    assert("cs"@ != "c"@) by {
        assert("cs"@.len() != "c"@.len());
    }
    assert("cs"@ != "h"@) by {
        assert("cs"@.len() != "h"@.len());
    }
    assert("cs"@ != "cpp"@) by {
        assert("cs"@.len() != "cpp"@.len());
    }
    assert("cs"@ != "cc"@) by {
        assert("cs"@[1] != "cc"@[1]);
    }
    assert("cs"@ != "cxx"@) by {
        assert("cs"@.len() != "cxx"@.len());
    }
    assert("cs"@ != "hpp"@) by {
        assert("cs"@.len() != "hpp"@.len());
    }
    assert("cs"@ != "hxx"@) by {
        assert("cs"@.len() != "hxx"@.len());
    }
}

proof fn lemma_ext_rb(e: Seq<char>, n: Option<Seq<char>>)
    ensures
        lowercase(e) == "rb"@ ==> language_for_spec(Some(e), n) == "ruby"@,
{
    reveal_strlit("c");
    reveal_strlit("cc");
    reveal_strlit("cjs");
    reveal_strlit("cpp");
    reveal_strlit("cs");
    reveal_strlit("cts");
    reveal_strlit("cxx");
    reveal_strlit("go");
    reveal_strlit("h");
    reveal_strlit("hpp");
    reveal_strlit("hxx");
    reveal_strlit("java");
    reveal_strlit("js");
    reveal_strlit("jsx");
    reveal_strlit("mjs");
    reveal_strlit("mts");
    reveal_strlit("py");
    reveal_strlit("pyi");
    reveal_strlit("pyw");
    reveal_strlit("rb");
    reveal_strlit("rs");
    reveal_strlit("ruby");
    reveal_strlit("ts");
    reveal_strlit("tsx");
    assert("rb"@ != "py"@) by {
        assert("rb"@[0] != "py"@[0]);
    }
    assert("rb"@ != "pyi"@) by {
        assert("rb"@.len() != "pyi"@.len());
    }
    assert("rb"@ != "pyw"@) by {
        assert("rb"@.len() != "pyw"@.len());
    }
    assert("rb"@ != "ts"@) by {
        assert("rb"@[0] != "ts"@[0]);
    }
    assert("rb"@ != "tsx"@) by {
        assert("rb"@.len() != "tsx"@.len());
    }
    assert("rb"@ != "mts"@) by {
        assert("rb"@.len() != "mts"@.len());
    }
    assert("rb"@ != "cts"@) by {
        assert("rb"@.len() != "cts"@.len());
    }
    assert("rb"@ != "rs"@) by {
        assert("rb"@[1] != "rs"@[1]);
    }
    assert("rb"@ != "js"@) by {
        assert("rb"@[0] != "js"@[0]);
    }
    assert("rb"@ != "jsx"@) by {
        assert("rb"@.len() != "jsx"@.len());
    }
    assert("rb"@ != "mjs"@) by {
        assert("rb"@.len() != "mjs"@.len());
    }
    assert("rb"@ != "cjs"@) by {
        assert("rb"@.len() != "cjs"@.len());
    }
    assert("rb"@ != "go"@) by {
        assert("rb"@[0] != "go"@[0]);
    }
    assert("rb"@ != "java"@) by {
        assert("rb"@.len() != "java"@.len());
    }
    assert("rb"@ != "c"@) by {
        assert("rb"@.len() != "c"@.len());
    }
    assert("rb"@ != "h"@) by {
        assert("rb"@.len() != "h"@.len());
    }
    assert("rb"@ != "cpp"@) by {
        assert("rb"@.len() != "cpp"@.len());
    }
    assert("rb"@ != "cc"@) by {
        assert("rb"@[0] != "cc"@[0]);
    }
    assert("rb"@ != "cxx"@) by {
        assert("rb"@.len() != "cxx"@.len());
    }
    assert("rb"@ != "hpp"@) by {
        assert("rb"@.len() != "hpp"@.len());
    }
    assert("rb"@ != "hxx"@) by {
        assert("rb"@.len() != "hxx"@.len());
    }
    assert("rb"@ != "cs"@) by {
        assert("rb"@[0] != "cs"@[0]);
    }
}

proof fn lemma_ext_php(e: Seq<char>, n: Option<Seq<char>>)
    ensures
        lowercase(e) == "php"@ ==> language_for_spec(Some(e), n) == "php"@,
{
    reveal_strlit("c");
    reveal_strlit("cc");
    reveal_strlit("cjs");
    reveal_strlit("cpp");
    reveal_strlit("cs");
    reveal_strlit("cts");
    reveal_strlit("cxx");
    reveal_strlit("go");
    reveal_strlit("h");
    reveal_strlit("hpp");
    reveal_strlit("hxx");
    reveal_strlit("java");
    reveal_strlit("js");
    reveal_strlit("jsx");
    reveal_strlit("mjs");
    reveal_strlit("mts");
    reveal_strlit("php");
    reveal_strlit("py");
    reveal_strlit("pyi");
    reveal_strlit("pyw");
    reveal_strlit("rb");
    reveal_strlit("rs");
    reveal_strlit("ts");
    reveal_strlit("tsx");
    assert("php"@ != "py"@) by {
        assert("php"@.len() != "py"@.len());
    }
    assert("php"@ != "pyi"@) by {
        assert("php"@[1] != "pyi"@[1]);
    }
    assert("php"@ != "pyw"@) by {
        assert("php"@[1] != "pyw"@[1]);
    }
    assert("php"@ != "ts"@) by {
        assert("php"@.len() != "ts"@.len());
    }
    assert("php"@ != "tsx"@) by {
        assert("php"@[0] != "tsx"@[0]);
    }
    assert("php"@ != "mts"@) by {
        assert("php"@[0] != "mts"@[0]);
    }
    assert("php"@ != "cts"@) by {
        assert("php"@[0] != "cts"@[0]);
    }
    assert("php"@ != "rs"@) by {
        assert("php"@.len() != "rs"@.len());
    }
    assert("php"@ != "js"@) by {
        assert("php"@.len() != "js"@.len());
    }
    assert("php"@ != "jsx"@) by {
        assert("php"@[0] != "jsx"@[0]);
    }
    assert("php"@ != "mjs"@) by {
        assert("php"@[0] != "mjs"@[0]);
    }
    assert("php"@ != "cjs"@) by {
        assert("php"@[0] != "cjs"@[0]);
    }
    assert("php"@ != "go"@) by {
        assert("php"@.len() != "go"@.len());
    }
    assert("php"@ != "java"@) by {
        assert("php"@.len() != "java"@.len());
    }
    assert("php"@ != "c"@) by {
        assert("php"@.len() != "c"@.len());
    }
    assert("php"@ != "h"@) by {
        assert("php"@.len() != "h"@.len());
    }
    assert("php"@ != "cpp"@) by {
        assert("php"@[0] != "cpp"@[0]);
    }
    assert("php"@ != "cc"@) by {
        assert("php"@.len() != "cc"@.len());
    }
    assert("php"@ != "cxx"@) by {
        assert("php"@[0] != "cxx"@[0]);
    }
    assert("php"@ != "hpp"@) by {
        assert("php"@[0] != "hpp"@[0]);
    }
    assert("php"@ != "hxx"@) by {
        assert("php"@[0] != "hxx"@[0]);
    }
    assert("php"@ != "cs"@) by {
        assert("php"@.len() != "cs"@.len());
    }
    assert("php"@ != "rb"@) by {
        assert("php"@.len() != "rb"@.len());
    }
}

proof fn lemma_ext_swift(e: Seq<char>, n: Option<Seq<char>>)
    ensures
        lowercase(e) == "swift"@ ==> language_for_spec(Some(e), n) == "swift"@,
{
    reveal_strlit("c");
    reveal_strlit("cc");
    reveal_strlit("cjs");
    reveal_strlit("cpp");
    reveal_strlit("cs");
    reveal_strlit("cts");
    reveal_strlit("cxx");
    reveal_strlit("go");
    reveal_strlit("h");
    reveal_strlit("hpp");
    reveal_strlit("hxx");
    reveal_strlit("java");
    reveal_strlit("js");
    reveal_strlit("jsx");
    reveal_strlit("mjs");
    reveal_strlit("mts");
    reveal_strlit("php");
    reveal_strlit("py");
    reveal_strlit("pyi");
    reveal_strlit("pyw");
    reveal_strlit("rb");
    reveal_strlit("rs");
    reveal_strlit("swift");
    reveal_strlit("ts");
    reveal_strlit("tsx");
    assert("swift"@ != "py"@) by {
        assert("swift"@.len() != "py"@.len());
    }
    assert("swift"@ != "pyi"@) by {
        assert("swift"@.len() != "pyi"@.len());
    }
    assert("swift"@ != "pyw"@) by {
        assert("swift"@.len() != "pyw"@.len());
    }
    assert("swift"@ != "ts"@) by {
        assert("swift"@.len() != "ts"@.len());
    }
    assert("swift"@ != "tsx"@) by {
        assert("swift"@.len() != "tsx"@.len());
    }
    assert("swift"@ != "mts"@) by {
        assert("swift"@.len() != "mts"@.len());
    }
    assert("swift"@ != "cts"@) by {
        assert("swift"@.len() != "cts"@.len());
    }
    assert("swift"@ != "rs"@) by {
        assert("swift"@.len() != "rs"@.len());
    }
    assert("swift"@ != "js"@) by {
        assert("swift"@.len() != "js"@.len());
    }
    assert("swift"@ != "jsx"@) by {
        assert("swift"@.len() != "jsx"@.len());
    }
    assert("swift"@ != "mjs"@) by {
        assert("swift"@.len() != "mjs"@.len());
    }
    assert("swift"@ != "cjs"@) by {
        assert("swift"@.len() != "cjs"@.len());
    }
    assert("swift"@ != "go"@) by {
        assert("swift"@.len() != "go"@.len());
    }
    assert("swift"@ != "java"@) by {
        assert("swift"@.len() != "java"@.len());
    }
    assert("swift"@ != "c"@) by {
        assert("swift"@.len() != "c"@.len());
    }
    assert("swift"@ != "h"@) by {
        assert("swift"@.len() != "h"@.len());
    }
    assert("swift"@ != "cpp"@) by {
        assert("swift"@.len() != "cpp"@.len());
    }
    assert("swift"@ != "cc"@) by {
        assert("swift"@.len() != "cc"@.len());
    }
    assert("swift"@ != "cxx"@) by {
        assert("swift"@.len() != "cxx"@.len());
    }
    assert("swift"@ != "hpp"@) by {
        assert("swift"@.len() != "hpp"@.len());
    }
    assert("swift"@ != "hxx"@) by {
        assert("swift"@.len() != "hxx"@.len());
    }
    assert("swift"@ != "cs"@) by {
        assert("swift"@.len() != "cs"@.len());
    }
    assert("swift"@ != "rb"@) by {
        assert("swift"@.len() != "rb"@.len());
    }
    assert("swift"@ != "php"@) by {
        assert("swift"@.len() != "php"@.len());
    }
}

proof fn lemma_ext_kt(e: Seq<char>, n: Option<Seq<char>>)
    ensures
        lowercase(e) == "kt"@ ==> language_for_spec(Some(e), n) == "kotlin"@,
{
    reveal_strlit("c");
    reveal_strlit("cc");
    reveal_strlit("cjs");
    reveal_strlit("cpp");
    reveal_strlit("cs");
    reveal_strlit("cts");
    reveal_strlit("cxx");
    reveal_strlit("go");
    reveal_strlit("h");
    reveal_strlit("hpp");
    reveal_strlit("hxx");
    reveal_strlit("java");
    reveal_strlit("js");
    reveal_strlit("jsx");
    reveal_strlit("kotlin");
    reveal_strlit("kt");
    reveal_strlit("mjs");
    reveal_strlit("mts");
    reveal_strlit("php");
    reveal_strlit("py");
    reveal_strlit("pyi");
    reveal_strlit("pyw");
    reveal_strlit("rb");
    reveal_strlit("rs");
    reveal_strlit("swift");
    reveal_strlit("ts");
    reveal_strlit("tsx");
    assert("kt"@ != "py"@) by {
        assert("kt"@[0] != "py"@[0]);
    }
    assert("kt"@ != "pyi"@) by {
        assert("kt"@.len() != "pyi"@.len());
    }
    assert("kt"@ != "pyw"@) by {
        assert("kt"@.len() != "pyw"@.len());
    }
    assert("kt"@ != "ts"@) by {
        assert("kt"@[0] != "ts"@[0]);
    }
    assert("kt"@ != "tsx"@) by {
        assert("kt"@.len() != "tsx"@.len());
    }
    assert("kt"@ != "mts"@) by {
        assert("kt"@.len() != "mts"@.len());
    }
    assert("kt"@ != "cts"@) by {
        assert("kt"@.len() != "cts"@.len());
    }
    assert("kt"@ != "rs"@) by {
        assert("kt"@[0] != "rs"@[0]);
    }
    assert("kt"@ != "js"@) by {
        assert("kt"@[0] != "js"@[0]);
    }
    assert("kt"@ != "jsx"@) by {
        assert("kt"@.len() != "jsx"@.len());
    }
    assert("kt"@ != "mjs"@) by {
        assert("kt"@.len() != "mjs"@.len());
    }
    assert("kt"@ != "cjs"@) by {
        assert("kt"@.len() != "cjs"@.len());
    }
    assert("kt"@ != "go"@) by {
        assert("kt"@[0] != "go"@[0]);
    }
    assert("kt"@ != "java"@) by {
        assert("kt"@.len() != "java"@.len());
    }
    assert("kt"@ != "c"@) by {
        assert("kt"@.len() != "c"@.len());
    }
    assert("kt"@ != "h"@) by {
        assert("kt"@.len() != "h"@.len());
    }
    assert("kt"@ != "cpp"@) by {
        assert("kt"@.len() != "cpp"@.len());
    }
    assert("kt"@ != "cc"@) by {
        assert("kt"@[0] != "cc"@[0]);
    }
    assert("kt"@ != "cxx"@) by {
        assert("kt"@.len() != "cxx"@.len());
    }
    assert("kt"@ != "hpp"@) by {
        assert("kt"@.len() != "hpp"@.len());
    }
    assert("kt"@ != "hxx"@) by {
        assert("kt"@.len() != "hxx"@.len());
    }
    assert("kt"@ != "cs"@) by {
        assert("kt"@[0] != "cs"@[0]);
    }
    assert("kt"@ != "rb"@) by {
        assert("kt"@[0] != "rb"@[0]);
    }
    assert("kt"@ != "php"@) by {
        assert("kt"@.len() != "php"@.len());
    }
    assert("kt"@ != "swift"@) by {
        assert("kt"@.len() != "swift"@.len());
    }
}

proof fn lemma_ext_kts(e: Seq<char>, n: Option<Seq<char>>)
    ensures
        lowercase(e) == "kts"@ ==> language_for_spec(Some(e), n) == "kotlin"@,
{
    reveal_strlit("c");
    reveal_strlit("cc");
    reveal_strlit("cjs");
    reveal_strlit("cpp");
    reveal_strlit("cs");
    reveal_strlit("cts");
    reveal_strlit("cxx");
    reveal_strlit("go");
    reveal_strlit("h");
    reveal_strlit("hpp");
    reveal_strlit("hxx");
    reveal_strlit("java");
    reveal_strlit("js");
    reveal_strlit("jsx");
    reveal_strlit("kotlin");
    reveal_strlit("kts");
    reveal_strlit("mjs");
    reveal_strlit("mts");
    reveal_strlit("php");
    reveal_strlit("py");
    reveal_strlit("pyi");
    reveal_strlit("pyw");
    reveal_strlit("rb");
    reveal_strlit("rs");
    reveal_strlit("swift");
    reveal_strlit("ts");
    reveal_strlit("tsx");
    assert("kts"@ != "py"@) by {
        assert("kts"@.len() != "py"@.len());
    }
    assert("kts"@ != "pyi"@) by {
        assert("kts"@[0] != "pyi"@[0]);
    }
    assert("kts"@ != "pyw"@) by {
        assert("kts"@[0] != "pyw"@[0]);
    }
    assert("kts"@ != "ts"@) by {
        assert("kts"@.len() != "ts"@.len());
    }
    assert("kts"@ != "tsx"@) by {
        assert("kts"@[0] != "tsx"@[0]);
    }
    assert("kts"@ != "mts"@) by {
        assert("kts"@[0] != "mts"@[0]);
    }
    assert("kts"@ != "cts"@) by {
        assert("kts"@[0] != "cts"@[0]);
    }
    assert("kts"@ != "rs"@) by {
        assert("kts"@.len() != "rs"@.len());
    }
    assert("kts"@ != "js"@) by {
        assert("kts"@.len() != "js"@.len());
    }
    assert("kts"@ != "jsx"@) by {
        assert("kts"@[0] != "jsx"@[0]);
    }
    assert("kts"@ != "mjs"@) by {
        assert("kts"@[0] != "mjs"@[0]);
    }
    assert("kts"@ != "cjs"@) by {
        assert("kts"@[0] != "cjs"@[0]);
    }
    assert("kts"@ != "go"@) by {
        assert("kts"@.len() != "go"@.len());
    }
    assert("kts"@ != "java"@) by {
        assert("kts"@.len() != "java"@.len());
    }
    assert("kts"@ != "c"@) by {
        assert("kts"@.len() != "c"@.len());
    }
    assert("kts"@ != "h"@) by {
        assert("kts"@.len() != "h"@.len());
    }
    assert("kts"@ != "cpp"@) by {
        assert("kts"@[0] != "cpp"@[0]);
    }
    assert("kts"@ != "cc"@) by {
        assert("kts"@.len() != "cc"@.len());
    }
    assert("kts"@ != "cxx"@) by {
        assert("kts"@[0] != "cxx"@[0]);
    }
    assert("kts"@ != "hpp"@) by {
        assert("kts"@[0] != "hpp"@[0]);
    }
    assert("kts"@ != "hxx"@) by {
        assert("kts"@[0] != "hxx"@[0]);
    }
    assert("kts"@ != "cs"@) by {
        assert("kts"@.len() != "cs"@.len());
    }
    assert("kts"@ != "rb"@) by {
        assert("kts"@.len() != "rb"@.len());
    }
    assert("kts"@ != "php"@) by {
        assert("kts"@[0] != "php"@[0]);
    }
    assert("kts"@ != "swift"@) by {
        assert("kts"@.len() != "swift"@.len());
    }
}

proof fn lemma_ext_scala(e: Seq<char>, n: Option<Seq<char>>)
    ensures
        lowercase(e) == "scala"@ ==> language_for_spec(Some(e), n) == "scala"@,
{
    reveal_strlit("c");
    reveal_strlit("cc");
    reveal_strlit("cjs");
    reveal_strlit("cpp");
    reveal_strlit("cs");
    reveal_strlit("cts");
    reveal_strlit("cxx");
    reveal_strlit("go");
    reveal_strlit("h");
    reveal_strlit("hpp");
    reveal_strlit("hxx");
    reveal_strlit("java");
    reveal_strlit("js");
    reveal_strlit("jsx");
    reveal_strlit("kt");
    reveal_strlit("kts");
    reveal_strlit("mjs");
    reveal_strlit("mts");
    reveal_strlit("php");
    reveal_strlit("py");
    reveal_strlit("pyi");
    reveal_strlit("pyw");
    reveal_strlit("rb");
    reveal_strlit("rs");
    reveal_strlit("scala");
    reveal_strlit("swift");
    reveal_strlit("ts");
    reveal_strlit("tsx");
    assert("scala"@ != "py"@) by {
        assert("scala"@.len() != "py"@.len());
    }
    assert("scala"@ != "pyi"@) by {
        assert("scala"@.len() != "pyi"@.len());
    }
    assert("scala"@ != "pyw"@) by {
        assert("scala"@.len() != "pyw"@.len());
    }
    assert("scala"@ != "ts"@) by {
        assert("scala"@.len() != "ts"@.len());
    }
    assert("scala"@ != "tsx"@) by {
        assert("scala"@.len() != "tsx"@.len());
    }
    assert("scala"@ != "mts"@) by {
        assert("scala"@.len() != "mts"@.len());
    }
    assert("scala"@ != "cts"@) by {
        assert("scala"@.len() != "cts"@.len());
    }
    assert("scala"@ != "rs"@) by {
        assert("scala"@.len() != "rs"@.len());
    }
    assert("scala"@ != "js"@) by {
        assert("scala"@.len() != "js"@.len());
    }
    assert("scala"@ != "jsx"@) by {
        assert("scala"@.len() != "jsx"@.len());
    }
    assert("scala"@ != "mjs"@) by {
        assert("scala"@.len() != "mjs"@.len());
    }
    assert("scala"@ != "cjs"@) by {
        assert("scala"@.len() != "cjs"@.len());
    }
    assert("scala"@ != "go"@) by {
        assert("scala"@.len() != "go"@.len());
    }
    assert("scala"@ != "java"@) by {
        assert("scala"@.len() != "java"@.len());
    }
    assert("scala"@ != "c"@) by {
        assert("scala"@.len() != "c"@.len());
    }
    assert("scala"@ != "h"@) by {
        assert("scala"@.len() != "h"@.len());
    }
    assert("scala"@ != "cpp"@) by {
        assert("scala"@.len() != "cpp"@.len());
    }
    assert("scala"@ != "cc"@) by {
        assert("scala"@.len() != "cc"@.len());
    }
    assert("scala"@ != "cxx"@) by {
        assert("scala"@.len() != "cxx"@.len());
    }
    assert("scala"@ != "hpp"@) by {
        assert("scala"@.len() != "hpp"@.len());
    }
    assert("scala"@ != "hxx"@) by {
        assert("scala"@.len() != "hxx"@.len());
    }
    assert("scala"@ != "cs"@) by {
        assert("scala"@.len() != "cs"@.len());
    }
    assert("scala"@ != "rb"@) by {
        assert("scala"@.len() != "rb"@.len());
    }
    assert("scala"@ != "php"@) by {
        assert("scala"@.len() != "php"@.len());
    }
    assert("scala"@ != "swift"@) by {
        assert("scala"@[1] != "swift"@[1]);
    }
    assert("scala"@ != "kt"@) by {
        assert("scala"@.len() != "kt"@.len());
    }
    assert("scala"@ != "kts"@) by {
        assert("scala"@.len() != "kts"@.len());
    }
}

proof fn lemma_ext_md(e: Seq<char>, n: Option<Seq<char>>)
    ensures
        lowercase(e) == "md"@ ==> language_for_spec(Some(e), n) == "markdown"@,
{
    reveal_strlit("c");
    reveal_strlit("cc");
    reveal_strlit("cjs");
    reveal_strlit("cpp");
    reveal_strlit("cs");
    reveal_strlit("cts");
    reveal_strlit("cxx");
    reveal_strlit("go");
    reveal_strlit("h");
    reveal_strlit("hpp");
    reveal_strlit("hxx");
    reveal_strlit("java");
    reveal_strlit("js");
    reveal_strlit("jsx");
    reveal_strlit("kt");
    reveal_strlit("kts");
    reveal_strlit("markdown");
    reveal_strlit("md");
    reveal_strlit("mjs");
    reveal_strlit("mts");
    reveal_strlit("php");
    reveal_strlit("py");
    reveal_strlit("pyi");
    reveal_strlit("pyw");
    reveal_strlit("rb");
    reveal_strlit("rs");
    reveal_strlit("scala");
    reveal_strlit("swift");
    reveal_strlit("ts");
    reveal_strlit("tsx");
    assert("md"@ != "py"@) by {
        assert("md"@[0] != "py"@[0]);
    }
    assert("md"@ != "pyi"@) by {
        assert("md"@.len() != "pyi"@.len());
    }
    assert("md"@ != "pyw"@) by {
        assert("md"@.len() != "pyw"@.len());
    }
    assert("md"@ != "ts"@) by {
        assert("md"@[0] != "ts"@[0]);
    }
    assert("md"@ != "tsx"@) by {
        assert("md"@.len() != "tsx"@.len());
    }
    assert("md"@ != "mts"@) by {
        assert("md"@.len() != "mts"@.len());
    }
    assert("md"@ != "cts"@) by {
        assert("md"@.len() != "cts"@.len());
    }
    assert("md"@ != "rs"@) by {
        assert("md"@[0] != "rs"@[0]);
    }
    assert("md"@ != "js"@) by {
        assert("md"@[0] != "js"@[0]);
    }
    assert("md"@ != "jsx"@) by {
        assert("md"@.len() != "jsx"@.len());
    }
    assert("md"@ != "mjs"@) by {
        assert("md"@.len() != "mjs"@.len());
    }
    assert("md"@ != "cjs"@) by {
        assert("md"@.len() != "cjs"@.len());
    }
    assert("md"@ != "go"@) by {
        assert("md"@[0] != "go"@[0]);
    }
    assert("md"@ != "java"@) by {
        assert("md"@.len() != "java"@.len());
    }
    assert("md"@ != "c"@) by {
        assert("md"@.len() != "c"@.len());
    }
    assert("md"@ != "h"@) by {
        assert("md"@.len() != "h"@.len());
    }
    assert("md"@ != "cpp"@) by {
        assert("md"@.len() != "cpp"@.len());
    }
    assert("md"@ != "cc"@) by {
        assert("md"@[0] != "cc"@[0]);
    }
    assert("md"@ != "cxx"@) by {
        assert("md"@.len() != "cxx"@.len());
    }
    assert("md"@ != "hpp"@) by {
        assert("md"@.len() != "hpp"@.len());
    }
    assert("md"@ != "hxx"@) by {
        assert("md"@.len() != "hxx"@.len());
    }
    assert("md"@ != "cs"@) by {
        assert("md"@[0] != "cs"@[0]);
    }
    assert("md"@ != "rb"@) by {
        assert("md"@[0] != "rb"@[0]);
    }
    assert("md"@ != "php"@) by {
        assert("md"@.len() != "php"@.len());
    }
    assert("md"@ != "swift"@) by {
        assert("md"@.len() != "swift"@.len());
    }
    assert("md"@ != "kt"@) by {
        assert("md"@[0] != "kt"@[0]);
    }
    assert("md"@ != "kts"@) by {
        assert("md"@.len() != "kts"@.len());
    }
    assert("md"@ != "scala"@) by {
        assert("md"@.len() != "scala"@.len());
    }
}

proof fn lemma_ext_markdown(e: Seq<char>, n: Option<Seq<char>>)
    ensures
        lowercase(e) == "markdown"@ ==> language_for_spec(Some(e), n) == "markdown"@,
{
    reveal_strlit("c");
    reveal_strlit("cc");
    reveal_strlit("cjs");
    reveal_strlit("cpp");
    reveal_strlit("cs");
    reveal_strlit("cts");
    reveal_strlit("cxx");
    reveal_strlit("go");
    reveal_strlit("h");
    reveal_strlit("hpp");
    reveal_strlit("hxx");
    reveal_strlit("java");
    reveal_strlit("js");
    reveal_strlit("jsx");
    reveal_strlit("kt");
    reveal_strlit("kts");
    reveal_strlit("markdown");
    reveal_strlit("mjs");
    reveal_strlit("mts");
    reveal_strlit("php");
    reveal_strlit("py");
    reveal_strlit("pyi");
    reveal_strlit("pyw");
    reveal_strlit("rb");
    reveal_strlit("rs");
    reveal_strlit("scala");
    reveal_strlit("swift");
    reveal_strlit("ts");
    reveal_strlit("tsx");
    assert("markdown"@ != "py"@) by {
        assert("markdown"@.len() != "py"@.len());
    }
    assert("markdown"@ != "pyi"@) by {
        assert("markdown"@.len() != "pyi"@.len());
    }
    assert("markdown"@ != "pyw"@) by {
        assert("markdown"@.len() != "pyw"@.len());
    }
    assert("markdown"@ != "ts"@) by {
        assert("markdown"@.len() != "ts"@.len());
    }
    assert("markdown"@ != "tsx"@) by {
        assert("markdown"@.len() != "tsx"@.len());
    }
    assert("markdown"@ != "mts"@) by {
        assert("markdown"@.len() != "mts"@.len());
    }
    assert("markdown"@ != "cts"@) by {
        assert("markdown"@.len() != "cts"@.len());
    }
    assert("markdown"@ != "rs"@) by {
        assert("markdown"@.len() != "rs"@.len());
    }
    assert("markdown"@ != "js"@) by {
        assert("markdown"@.len() != "js"@.len());
    }
    assert("markdown"@ != "jsx"@) by {
        assert("markdown"@.len() != "jsx"@.len());
    }
    assert("markdown"@ != "mjs"@) by {
        assert("markdown"@.len() != "mjs"@.len());
    }
    assert("markdown"@ != "cjs"@) by {
        assert("markdown"@.len() != "cjs"@.len());
    }
    assert("markdown"@ != "go"@) by {
        assert("markdown"@.len() != "go"@.len());
    }
    assert("markdown"@ != "java"@) by {
        assert("markdown"@.len() != "java"@.len());
    }
    assert("markdown"@ != "c"@) by {
        assert("markdown"@.len() != "c"@.len());
    }
    assert("markdown"@ != "h"@) by {
        assert("markdown"@.len() != "h"@.len());
    }
    assert("markdown"@ != "cpp"@) by {
        assert("markdown"@.len() != "cpp"@.len());
    }
    assert("markdown"@ != "cc"@) by {
        assert("markdown"@.len() != "cc"@.len());
    }
    assert("markdown"@ != "cxx"@) by {
        assert("markdown"@.len() != "cxx"@.len());
    }
    assert("markdown"@ != "hpp"@) by {
        assert("markdown"@.len() != "hpp"@.len());
    }
    assert("markdown"@ != "hxx"@) by {
        assert("markdown"@.len() != "hxx"@.len());
    }
    assert("markdown"@ != "cs"@) by {
        assert("markdown"@.len() != "cs"@.len());
    }
    assert("markdown"@ != "rb"@) by {
        assert("markdown"@.len() != "rb"@.len());
    }
    assert("markdown"@ != "php"@) by {
        assert("markdown"@.len() != "php"@.len());
    }
    assert("markdown"@ != "swift"@) by {
        assert("markdown"@.len() != "swift"@.len());
    }
    assert("markdown"@ != "kt"@) by {
        assert("markdown"@.len() != "kt"@.len());
    }
    assert("markdown"@ != "kts"@) by {
        assert("markdown"@.len() != "kts"@.len());
    }
    assert("markdown"@ != "scala"@) by {
        assert("markdown"@.len() != "scala"@.len());
    }
}

proof fn lemma_ext_json(e: Seq<char>, n: Option<Seq<char>>)
    ensures
        lowercase(e) == "json"@ ==> language_for_spec(Some(e), n) == "json"@,
{
    reveal_strlit("c");
    reveal_strlit("cc");
    reveal_strlit("cjs");
    reveal_strlit("cpp");
    reveal_strlit("cs");
    reveal_strlit("cts");
    reveal_strlit("cxx");
    reveal_strlit("go");
    reveal_strlit("h");
    reveal_strlit("hpp");
    reveal_strlit("hxx");
    reveal_strlit("java");
    reveal_strlit("js");
    reveal_strlit("json");
    reveal_strlit("jsx");
    reveal_strlit("kt");
    reveal_strlit("kts");
    reveal_strlit("markdown");
    reveal_strlit("md");
    reveal_strlit("mjs");
    reveal_strlit("mts");
    reveal_strlit("php");
    reveal_strlit("py");
    reveal_strlit("pyi");
    reveal_strlit("pyw");
    reveal_strlit("rb");
    reveal_strlit("rs");
    reveal_strlit("scala");
    reveal_strlit("swift");
    reveal_strlit("ts");
    reveal_strlit("tsx");
    assert("json"@ != "py"@) by {
        assert("json"@.len() != "py"@.len());
    }
    assert("json"@ != "pyi"@) by {
        assert("json"@.len() != "pyi"@.len());
    }
    assert("json"@ != "pyw"@) by {
        assert("json"@.len() != "pyw"@.len());
    }
    assert("json"@ != "ts"@) by {
        assert("json"@.len() != "ts"@.len());
    }
    assert("json"@ != "tsx"@) by {
        assert("json"@.len() != "tsx"@.len());
    }
    assert("json"@ != "mts"@) by {
        assert("json"@.len() != "mts"@.len());
    }
    assert("json"@ != "cts"@) by {
        assert("json"@.len() != "cts"@.len());
    }
    assert("json"@ != "rs"@) by {
        assert("json"@.len() != "rs"@.len());
    }
    assert("json"@ != "js"@) by {
        assert("json"@.len() != "js"@.len());
    }
    assert("json"@ != "jsx"@) by {
        assert("json"@.len() != "jsx"@.len());
    }
    assert("json"@ != "mjs"@) by {
        assert("json"@.len() != "mjs"@.len());
    }
    assert("json"@ != "cjs"@) by {
        assert("json"@.len() != "cjs"@.len());
    }
    assert("json"@ != "go"@) by {
        assert("json"@.len() != "go"@.len());
    }
    assert("json"@ != "java"@) by {
        assert("json"@[1] != "java"@[1]);
    }
    assert("json"@ != "c"@) by {
        assert("json"@.len() != "c"@.len());
    }
    assert("json"@ != "h"@) by {
        assert("json"@.len() != "h"@.len());
    }
    assert("json"@ != "cpp"@) by {
        assert("json"@.len() != "cpp"@.len());
    }
    assert("json"@ != "cc"@) by {
        assert("json"@.len() != "cc"@.len());
    }
    assert("json"@ != "cxx"@) by {
        assert("json"@.len() != "cxx"@.len());
    }
    assert("json"@ != "hpp"@) by {
        assert("json"@.len() != "hpp"@.len());
    }
    assert("json"@ != "hxx"@) by {
        assert("json"@.len() != "hxx"@.len());
    }
    assert("json"@ != "cs"@) by {
        assert("json"@.len() != "cs"@.len());
    }
    assert("json"@ != "rb"@) by {
        assert("json"@.len() != "rb"@.len());
    }
    assert("json"@ != "php"@) by {
        assert("json"@.len() != "php"@.len());
    }
    assert("json"@ != "swift"@) by {
        assert("json"@.len() != "swift"@.len());
    }
    assert("json"@ != "kt"@) by {
        assert("json"@.len() != "kt"@.len());
    }
    assert("json"@ != "kts"@) by {
        assert("json"@.len() != "kts"@.len());
    }
    assert("json"@ != "scala"@) by {
        assert("json"@.len() != "scala"@.len());
    }
    assert("json"@ != "md"@) by {
        assert("json"@.len() != "md"@.len());
    }
    assert("json"@ != "markdown"@) by {
        assert("json"@.len() != "markdown"@.len());
    }
}

proof fn lemma_ext_yaml(e: Seq<char>, n: Option<Seq<char>>)
    ensures
        lowercase(e) == "yaml"@ ==> language_for_spec(Some(e), n) == "yaml"@,
{
    reveal_strlit("c");
    reveal_strlit("cc");
    reveal_strlit("cjs");
    reveal_strlit("cpp");
    reveal_strlit("cs");
    reveal_strlit("cts");
    reveal_strlit("cxx");
    reveal_strlit("go");
    reveal_strlit("h");
    reveal_strlit("hpp");
    reveal_strlit("hxx");
    reveal_strlit("java");
    reveal_strlit("js");
    reveal_strlit("json");
    reveal_strlit("jsx");
    reveal_strlit("kt");
    reveal_strlit("kts");
    reveal_strlit("markdown");
    reveal_strlit("md");
    reveal_strlit("mjs");
    reveal_strlit("mts");
    reveal_strlit("php");
    reveal_strlit("py");
    reveal_strlit("pyi");
    reveal_strlit("pyw");
    reveal_strlit("rb");
    reveal_strlit("rs");
    reveal_strlit("scala");
    reveal_strlit("swift");
    reveal_strlit("ts");
    reveal_strlit("tsx");
    reveal_strlit("yaml");
    assert("yaml"@ != "py"@) by {
        assert("yaml"@.len() != "py"@.len());
    }
    assert("yaml"@ != "pyi"@) by {
        assert("yaml"@.len() != "pyi"@.len());
    }
    assert("yaml"@ != "pyw"@) by {
        assert("yaml"@.len() != "pyw"@.len());
    }
    assert("yaml"@ != "ts"@) by {
        assert("yaml"@.len() != "ts"@.len());
    }
    assert("yaml"@ != "tsx"@) by {
        assert("yaml"@.len() != "tsx"@.len());
    }
    assert("yaml"@ != "mts"@) by {
        assert("yaml"@.len() != "mts"@.len());
    }
    assert("yaml"@ != "cts"@) by {
        assert("yaml"@.len() != "cts"@.len());
    }
    assert("yaml"@ != "rs"@) by {
        assert("yaml"@.len() != "rs"@.len());
    }
    assert("yaml"@ != "js"@) by {
        assert("yaml"@.len() != "js"@.len());
    }
    assert("yaml"@ != "jsx"@) by {
        assert("yaml"@.len() != "jsx"@.len());
    }
    assert("yaml"@ != "mjs"@) by {
        assert("yaml"@.len() != "mjs"@.len());
    }
    assert("yaml"@ != "cjs"@) by {
        assert("yaml"@.len() != "cjs"@.len());
    }
    assert("yaml"@ != "go"@) by {
        assert("yaml"@.len() != "go"@.len());
    }
    assert("yaml"@ != "java"@) by {
        assert("yaml"@[0] != "java"@[0]);
    }
    assert("yaml"@ != "c"@) by {
        assert("yaml"@.len() != "c"@.len());
    }
    assert("yaml"@ != "h"@) by {
        assert("yaml"@.len() != "h"@.len());
    }
    assert("yaml"@ != "cpp"@) by {
        assert("yaml"@.len() != "cpp"@.len());
    }
    assert("yaml"@ != "cc"@) by {
        assert("yaml"@.len() != "cc"@.len());
    }
    assert("yaml"@ != "cxx"@) by {
        assert("yaml"@.len() != "cxx"@.len());
    }
    assert("yaml"@ != "hpp"@) by {
        assert("yaml"@.len() != "hpp"@.len());
    }
    assert("yaml"@ != "hxx"@) by {
        assert("yaml"@.len() != "hxx"@.len());
    }
    assert("yaml"@ != "cs"@) by {
        assert("yaml"@.len() != "cs"@.len());
    }
    assert("yaml"@ != "rb"@) by {
        assert("yaml"@.len() != "rb"@.len());
    }
    assert("yaml"@ != "php"@) by {
        assert("yaml"@.len() != "php"@.len());
    }
    assert("yaml"@ != "swift"@) by {
        assert("yaml"@.len() != "swift"@.len());
    }
    assert("yaml"@ != "kt"@) by {
        assert("yaml"@.len() != "kt"@.len());
    }
    assert("yaml"@ != "kts"@) by {
        assert("yaml"@.len() != "kts"@.len());
    }
    assert("yaml"@ != "scala"@) by {
        assert("yaml"@.len() != "scala"@.len());
    }
    assert("yaml"@ != "md"@) by {
        assert("yaml"@.len() != "md"@.len());
    }
    assert("yaml"@ != "markdown"@) by {
        assert("yaml"@.len() != "markdown"@.len());
    }
    assert("yaml"@ != "json"@) by {
        assert("yaml"@[0] != "json"@[0]);
    }
}

proof fn lemma_ext_yml(e: Seq<char>, n: Option<Seq<char>>)
    ensures
        lowercase(e) == "yml"@ ==> language_for_spec(Some(e), n) == "yaml"@,
{
    reveal_strlit("c");
    reveal_strlit("cc");
    reveal_strlit("cjs");
    reveal_strlit("cpp");
    reveal_strlit("cs");
    reveal_strlit("cts");
    reveal_strlit("cxx");
    reveal_strlit("go");
    reveal_strlit("h");
    reveal_strlit("hpp");
    reveal_strlit("hxx");
    reveal_strlit("java");
    reveal_strlit("js");
    reveal_strlit("json");
    reveal_strlit("jsx");
    reveal_strlit("kt");
    reveal_strlit("kts");
    reveal_strlit("markdown");
    reveal_strlit("md");
    reveal_strlit("mjs");
    reveal_strlit("mts");
    reveal_strlit("php");
    reveal_strlit("py");
    reveal_strlit("pyi");
    reveal_strlit("pyw");
    reveal_strlit("rb");
    reveal_strlit("rs");
    reveal_strlit("scala");
    reveal_strlit("swift");
    reveal_strlit("ts");
    reveal_strlit("tsx");
    reveal_strlit("yaml");
    reveal_strlit("yml");
    assert("yml"@ != "py"@) by {
        assert("yml"@.len() != "py"@.len());
    }
    assert("yml"@ != "pyi"@) by {
        assert("yml"@[0] != "pyi"@[0]);
    }
    assert("yml"@ != "pyw"@) by {
        assert("yml"@[0] != "pyw"@[0]);
    }
    assert("yml"@ != "ts"@) by {
        assert("yml"@.len() != "ts"@.len());
    }
    assert("yml"@ != "tsx"@) by {
        assert("yml"@[0] != "tsx"@[0]);
    }
    assert("yml"@ != "mts"@) by {
        assert("yml"@[0] != "mts"@[0]);
    }
    assert("yml"@ != "cts"@) by {
        assert("yml"@[0] != "cts"@[0]);
    }
    assert("yml"@ != "rs"@) by {
        assert("yml"@.len() != "rs"@.len());
    }
    assert("yml"@ != "js"@) by {
        assert("yml"@.len() != "js"@.len());
    }
    assert("yml"@ != "jsx"@) by {
        assert("yml"@[0] != "jsx"@[0]);
    }
    assert("yml"@ != "mjs"@) by {
        assert("yml"@[0] != "mjs"@[0]);
    }
    assert("yml"@ != "cjs"@) by {
        assert("yml"@[0] != "cjs"@[0]);
    }
    assert("yml"@ != "go"@) by {
        assert("yml"@.len() != "go"@.len());
    }
    assert("yml"@ != "java"@) by {
        assert("yml"@.len() != "java"@.len());
    }
    assert("yml"@ != "c"@) by {
        assert("yml"@.len() != "c"@.len());
    }
    assert("yml"@ != "h"@) by {
        assert("yml"@.len() != "h"@.len());
    }
    assert("yml"@ != "cpp"@) by {
        assert("yml"@[0] != "cpp"@[0]);
    }
    assert("yml"@ != "cc"@) by {
        assert("yml"@.len() != "cc"@.len());
    }
    assert("yml"@ != "cxx"@) by {
        assert("yml"@[0] != "cxx"@[0]);
    }
    assert("yml"@ != "hpp"@) by {
        assert("yml"@[0] != "hpp"@[0]);
    }
    assert("yml"@ != "hxx"@) by {
        assert("yml"@[0] != "hxx"@[0]);
    }
    assert("yml"@ != "cs"@) by {
        assert("yml"@.len() != "cs"@.len());
    }
    assert("yml"@ != "rb"@) by {
        assert("yml"@.len() != "rb"@.len());
    }
    assert("yml"@ != "php"@) by {
        assert("yml"@[0] != "php"@[0]);
    }
    assert("yml"@ != "swift"@) by {
        assert("yml"@.len() != "swift"@.len());
    }
    assert("yml"@ != "kt"@) by {
        assert("yml"@.len() != "kt"@.len());
    }
    assert("yml"@ != "kts"@) by {
        assert("yml"@[0] != "kts"@[0]);
    }
    assert("yml"@ != "scala"@) by {
        assert("yml"@.len() != "scala"@.len());
    }
    assert("yml"@ != "md"@) by {
        assert("yml"@.len() != "md"@.len());
    }
    assert("yml"@ != "markdown"@) by {
        assert("yml"@.len() != "markdown"@.len());
    }
    assert("yml"@ != "json"@) by {
        assert("yml"@.len() != "json"@.len());
    }
}

proof fn lemma_ext_toml(e: Seq<char>, n: Option<Seq<char>>)
    ensures
        lowercase(e) == "toml"@ ==> language_for_spec(Some(e), n) == "toml"@,
{
    reveal_strlit("c");
    reveal_strlit("cc");
    reveal_strlit("cjs");
    reveal_strlit("cpp");
    reveal_strlit("cs");
    reveal_strlit("cts");
    reveal_strlit("cxx");
    reveal_strlit("go");
    reveal_strlit("h");
    reveal_strlit("hpp");
    reveal_strlit("hxx");
    reveal_strlit("java");
    reveal_strlit("js");
    reveal_strlit("json");
    reveal_strlit("jsx");
    reveal_strlit("kt");
    reveal_strlit("kts");
    reveal_strlit("markdown");
    reveal_strlit("md");
    reveal_strlit("mjs");
    reveal_strlit("mts");
    reveal_strlit("php");
    reveal_strlit("py");
    reveal_strlit("pyi");
    reveal_strlit("pyw");
    reveal_strlit("rb");
    reveal_strlit("rs");
    reveal_strlit("scala");
    reveal_strlit("swift");
    reveal_strlit("toml");
    reveal_strlit("ts");
    reveal_strlit("tsx");
    reveal_strlit("yaml");
    reveal_strlit("yml");
    assert("toml"@ != "py"@) by {
        assert("toml"@.len() != "py"@.len());
    }
    assert("toml"@ != "pyi"@) by {
        assert("toml"@.len() != "pyi"@.len());
    }
    assert("toml"@ != "pyw"@) by {
        assert("toml"@.len() != "pyw"@.len());
    }
    assert("toml"@ != "ts"@) by {
        assert("toml"@.len() != "ts"@.len());
    }
    assert("toml"@ != "tsx"@) by {
        assert("toml"@.len() != "tsx"@.len());
    }
    assert("toml"@ != "mts"@) by {
        assert("toml"@.len() != "mts"@.len());
    }
    assert("toml"@ != "cts"@) by {
        assert("toml"@.len() != "cts"@.len());
    }
    assert("toml"@ != "rs"@) by {
        assert("toml"@.len() != "rs"@.len());
    }
    assert("toml"@ != "js"@) by {
        assert("toml"@.len() != "js"@.len());
    }
    assert("toml"@ != "jsx"@) by {
        assert("toml"@.len() != "jsx"@.len());
    }
    assert("toml"@ != "mjs"@) by {
        assert("toml"@.len() != "mjs"@.len());
    }
    assert("toml"@ != "cjs"@) by {
        assert("toml"@.len() != "cjs"@.len());
    }
    assert("toml"@ != "go"@) by {
        assert("toml"@.len() != "go"@.len());
    }
    assert("toml"@ != "java"@) by {
        assert("toml"@[0] != "java"@[0]);
    }
    assert("toml"@ != "c"@) by {
        assert("toml"@.len() != "c"@.len());
    }
    assert("toml"@ != "h"@) by {
        assert("toml"@.len() != "h"@.len());
    }
    assert("toml"@ != "cpp"@) by {
        assert("toml"@.len() != "cpp"@.len());
    }
    assert("toml"@ != "cc"@) by {
        assert("toml"@.len() != "cc"@.len());
    }
    assert("toml"@ != "cxx"@) by {
        assert("toml"@.len() != "cxx"@.len());
    }
    assert("toml"@ != "hpp"@) by {
        assert("toml"@.len() != "hpp"@.len());
    }
    assert("toml"@ != "hxx"@) by {
        assert("toml"@.len() != "hxx"@.len());
    }
    assert("toml"@ != "cs"@) by {
        assert("toml"@.len() != "cs"@.len());
    }
    assert("toml"@ != "rb"@) by {
        assert("toml"@.len() != "rb"@.len());
    }
    assert("toml"@ != "php"@) by {
        assert("toml"@.len() != "php"@.len());
    }
    assert("toml"@ != "swift"@) by {
        assert("toml"@.len() != "swift"@.len());
    }
    assert("toml"@ != "kt"@) by {
        assert("toml"@.len() != "kt"@.len());
    }
    assert("toml"@ != "kts"@) by {
        assert("toml"@.len() != "kts"@.len());
    }
    assert("toml"@ != "scala"@) by {
        assert("toml"@.len() != "scala"@.len());
    }
    assert("toml"@ != "md"@) by {
        assert("toml"@.len() != "md"@.len());
    }
    assert("toml"@ != "markdown"@) by {
        assert("toml"@.len() != "markdown"@.len());
    }
    assert("toml"@ != "json"@) by {
        assert("toml"@[0] != "json"@[0]);
    }
    assert("toml"@ != "yaml"@) by {
        assert("toml"@[0] != "yaml"@[0]);
    }
    assert("toml"@ != "yml"@) by {
        assert("toml"@.len() != "yml"@.len());
    }
}

proof fn lemma_ext_xml(e: Seq<char>, n: Option<Seq<char>>)
    ensures
        lowercase(e) == "xml"@ ==> language_for_spec(Some(e), n) == "xml"@,
{
    reveal_strlit("c");
    reveal_strlit("cc");
    reveal_strlit("cjs");
    reveal_strlit("cpp");
    reveal_strlit("cs");
    reveal_strlit("cts");
    reveal_strlit("cxx");
    reveal_strlit("go");
    reveal_strlit("h");
    reveal_strlit("hpp");
    reveal_strlit("hxx");
    reveal_strlit("java");
    reveal_strlit("js");
    reveal_strlit("json");
    reveal_strlit("jsx");
    reveal_strlit("kt");
    reveal_strlit("kts");
    reveal_strlit("markdown");
    reveal_strlit("md");
    reveal_strlit("mjs");
    reveal_strlit("mts");
    reveal_strlit("php");
    reveal_strlit("py");
    reveal_strlit("pyi");
    reveal_strlit("pyw");
    reveal_strlit("rb");
    reveal_strlit("rs");
    reveal_strlit("scala");
    reveal_strlit("swift");
    reveal_strlit("toml");
    reveal_strlit("ts");
    reveal_strlit("tsx");
    reveal_strlit("xml");
    reveal_strlit("yaml");
    reveal_strlit("yml");
    assert("xml"@ != "py"@) by {
        assert("xml"@.len() != "py"@.len());
    }
    assert("xml"@ != "pyi"@) by {
        assert("xml"@[0] != "pyi"@[0]);
    }
    assert("xml"@ != "pyw"@) by {
        assert("xml"@[0] != "pyw"@[0]);
    }
    assert("xml"@ != "ts"@) by {
        assert("xml"@.len() != "ts"@.len());
    }
    assert("xml"@ != "tsx"@) by {
        assert("xml"@[0] != "tsx"@[0]);
    }
    assert("xml"@ != "mts"@) by {
        assert("xml"@[0] != "mts"@[0]);
    }
    assert("xml"@ != "cts"@) by {
        assert("xml"@[0] != "cts"@[0]);
    }
    assert("xml"@ != "rs"@) by {
        assert("xml"@.len() != "rs"@.len());
    }
    assert("xml"@ != "js"@) by {
        assert("xml"@.len() != "js"@.len());
    }
    assert("xml"@ != "jsx"@) by {
        assert("xml"@[0] != "jsx"@[0]);
    }
    assert("xml"@ != "mjs"@) by {
        assert("xml"@[0] != "mjs"@[0]);
    }
    assert("xml"@ != "cjs"@) by {
        assert("xml"@[0] != "cjs"@[0]);
    }
    assert("xml"@ != "go"@) by {
        assert("xml"@.len() != "go"@.len());
    }
    assert("xml"@ != "java"@) by {
        assert("xml"@.len() != "java"@.len());
    }
    assert("xml"@ != "c"@) by {
        assert("xml"@.len() != "c"@.len());
    }
    assert("xml"@ != "h"@) by {
        assert("xml"@.len() != "h"@.len());
    }
    assert("xml"@ != "cpp"@) by {
        assert("xml"@[0] != "cpp"@[0]);
    }
    assert("xml"@ != "cc"@) by {
        assert("xml"@.len() != "cc"@.len());
    }
    assert("xml"@ != "cxx"@) by {
        assert("xml"@[0] != "cxx"@[0]);
    }
    assert("xml"@ != "hpp"@) by {
        assert("xml"@[0] != "hpp"@[0]);
    }
    assert("xml"@ != "hxx"@) by {
        assert("xml"@[0] != "hxx"@[0]);
    }
    assert("xml"@ != "cs"@) by {
        assert("xml"@.len() != "cs"@.len());
    }
    assert("xml"@ != "rb"@) by {
        assert("xml"@.len() != "rb"@.len());
    }
    assert("xml"@ != "php"@) by {
        assert("xml"@[0] != "php"@[0]);
    }
    assert("xml"@ != "swift"@) by {
        assert("xml"@.len() != "swift"@.len());
    }
    assert("xml"@ != "kt"@) by {
        assert("xml"@.len() != "kt"@.len());
    }
    assert("xml"@ != "kts"@) by {
        assert("xml"@[0] != "kts"@[0]);
    }
    assert("xml"@ != "scala"@) by {
        assert("xml"@.len() != "scala"@.len());
    }
    assert("xml"@ != "md"@) by {
        assert("xml"@.len() != "md"@.len());
    }
    assert("xml"@ != "markdown"@) by {
        assert("xml"@.len() != "markdown"@.len());
    }
    assert("xml"@ != "json"@) by {
        assert("xml"@.len() != "json"@.len());
    }
    assert("xml"@ != "yaml"@) by {
        assert("xml"@.len() != "yaml"@.len());
    }
    assert("xml"@ != "yml"@) by {
        assert("xml"@[0] != "yml"@[0]);
    }
    assert("xml"@ != "toml"@) by {
        assert("xml"@.len() != "toml"@.len());
    }
}

proof fn lemma_ext_html(e: Seq<char>, n: Option<Seq<char>>)
    ensures
        lowercase(e) == "html"@ ==> language_for_spec(Some(e), n) == "html"@,
{
    reveal_strlit("c");
    reveal_strlit("cc");
    reveal_strlit("cjs");
    reveal_strlit("cpp");
    reveal_strlit("cs");
    reveal_strlit("cts");
    reveal_strlit("cxx");
    reveal_strlit("go");
    reveal_strlit("h");
    reveal_strlit("hpp");
    reveal_strlit("html");
    reveal_strlit("hxx");
    reveal_strlit("java");
    reveal_strlit("js");
    reveal_strlit("json");
    reveal_strlit("jsx");
    reveal_strlit("kt");
    reveal_strlit("kts");
    reveal_strlit("markdown");
    reveal_strlit("md");
    reveal_strlit("mjs");
    reveal_strlit("mts");
    reveal_strlit("php");
    reveal_strlit("py");
    reveal_strlit("pyi");
    reveal_strlit("pyw");
    reveal_strlit("rb");
    reveal_strlit("rs");
    reveal_strlit("scala");
    reveal_strlit("swift");
    reveal_strlit("toml");
    reveal_strlit("ts");
    reveal_strlit("tsx");
    reveal_strlit("xml");
    reveal_strlit("yaml");
    reveal_strlit("yml");
    assert("html"@ != "py"@) by {
        assert("html"@.len() != "py"@.len());
    }
    assert("html"@ != "pyi"@) by {
        assert("html"@.len() != "pyi"@.len());
    }
    assert("html"@ != "pyw"@) by {
        assert("html"@.len() != "pyw"@.len());
    }
    assert("html"@ != "ts"@) by {
        assert("html"@.len() != "ts"@.len());
    }
    assert("html"@ != "tsx"@) by {
        assert("html"@.len() != "tsx"@.len());
    }
    assert("html"@ != "mts"@) by {
        assert("html"@.len() != "mts"@.len());
    }
    assert("html"@ != "cts"@) by {
        assert("html"@.len() != "cts"@.len());
    }
    assert("html"@ != "rs"@) by {
        assert("html"@.len() != "rs"@.len());
    }
    assert("html"@ != "js"@) by {
        assert("html"@.len() != "js"@.len());
    }
    assert("html"@ != "jsx"@) by {
        assert("html"@.len() != "jsx"@.len());
    }
    assert("html"@ != "mjs"@) by {
        assert("html"@.len() != "mjs"@.len());
    }
    assert("html"@ != "cjs"@) by {
        assert("html"@.len() != "cjs"@.len());
    }
    assert("html"@ != "go"@) by {
        assert("html"@.len() != "go"@.len());
    }
    assert("html"@ != "java"@) by {
        assert("html"@[0] != "java"@[0]);
    }
    assert("html"@ != "c"@) by {
        assert("html"@.len() != "c"@.len());
    }
    assert("html"@ != "h"@) by {
        assert("html"@.len() != "h"@.len());
    }
    assert("html"@ != "cpp"@) by {
        assert("html"@.len() != "cpp"@.len());
    }
    assert("html"@ != "cc"@) by {
        assert("html"@.len() != "cc"@.len());
    }
    assert("html"@ != "cxx"@) by {
        assert("html"@.len() != "cxx"@.len());
    }
    assert("html"@ != "hpp"@) by {
        assert("html"@.len() != "hpp"@.len());
    }
    assert("html"@ != "hxx"@) by {
        assert("html"@.len() != "hxx"@.len());
    }
    assert("html"@ != "cs"@) by {
        assert("html"@.len() != "cs"@.len());
    }
    assert("html"@ != "rb"@) by {
        assert("html"@.len() != "rb"@.len());
    }
    assert("html"@ != "php"@) by {
        assert("html"@.len() != "php"@.len());
    }
    assert("html"@ != "swift"@) by {
        assert("html"@.len() != "swift"@.len());
    }
    assert("html"@ != "kt"@) by {
        assert("html"@.len() != "kt"@.len());
    }
    assert("html"@ != "kts"@) by {
        assert("html"@.len() != "kts"@.len());
    }
    assert("html"@ != "scala"@) by {
        assert("html"@.len() != "scala"@.len());
    }
    assert("html"@ != "md"@) by {
        assert("html"@.len() != "md"@.len());
    }
    assert("html"@ != "markdown"@) by {
        assert("html"@.len() != "markdown"@.len());
    }
    assert("html"@ != "json"@) by {
        assert("html"@[0] != "json"@[0]);
    }
    assert("html"@ != "yaml"@) by {
        assert("html"@[0] != "yaml"@[0]);
    }
    assert("html"@ != "yml"@) by {
        assert("html"@.len() != "yml"@.len());
    }
    assert("html"@ != "toml"@) by {
        assert("html"@[0] != "toml"@[0]);
    }
    assert("html"@ != "xml"@) by {
        assert("html"@.len() != "xml"@.len());
    }
}

proof fn lemma_ext_htm(e: Seq<char>, n: Option<Seq<char>>)
    ensures
        lowercase(e) == "htm"@ ==> language_for_spec(Some(e), n) == "html"@,
{
    reveal_strlit("c");
    reveal_strlit("cc");
    reveal_strlit("cjs");
    reveal_strlit("cpp");
    reveal_strlit("cs");
    reveal_strlit("cts");
    reveal_strlit("cxx");
    reveal_strlit("go");
    reveal_strlit("h");
    reveal_strlit("hpp");
    reveal_strlit("htm");
    reveal_strlit("html");
    reveal_strlit("hxx");
    reveal_strlit("java");
    reveal_strlit("js");
    reveal_strlit("json");
    reveal_strlit("jsx");
    reveal_strlit("kt");
    reveal_strlit("kts");
    reveal_strlit("markdown");
    reveal_strlit("md");
    reveal_strlit("mjs");
    reveal_strlit("mts");
    reveal_strlit("php");
    reveal_strlit("py");
    reveal_strlit("pyi");
    reveal_strlit("pyw");
    reveal_strlit("rb");
    reveal_strlit("rs");
    reveal_strlit("scala");
    reveal_strlit("swift");
    reveal_strlit("toml");
    reveal_strlit("ts");
    reveal_strlit("tsx");
    reveal_strlit("xml");
    reveal_strlit("yaml");
    reveal_strlit("yml");
    assert("htm"@ != "py"@) by {
        assert("htm"@.len() != "py"@.len());
    }
    assert("htm"@ != "pyi"@) by {
        assert("htm"@[0] != "pyi"@[0]);
    }
    assert("htm"@ != "pyw"@) by {
        assert("htm"@[0] != "pyw"@[0]);
    }
    assert("htm"@ != "ts"@) by {
        assert("htm"@.len() != "ts"@.len());
    }
    assert("htm"@ != "tsx"@) by {
        assert("htm"@[0] != "tsx"@[0]);
    }
    assert("htm"@ != "mts"@) by {
        assert("htm"@[0] != "mts"@[0]);
    }
    assert("htm"@ != "cts"@) by {
        assert("htm"@[0] != "cts"@[0]);
    }
    assert("htm"@ != "rs"@) by {
        assert("htm"@.len() != "rs"@.len());
    }
    assert("htm"@ != "js"@) by {
        assert("htm"@.len() != "js"@.len());
    }
    assert("htm"@ != "jsx"@) by {
        assert("htm"@[0] != "jsx"@[0]);
    }
    assert("htm"@ != "mjs"@) by {
        assert("htm"@[0] != "mjs"@[0]);
    }
    assert("htm"@ != "cjs"@) by {
        assert("htm"@[0] != "cjs"@[0]);
    }
    assert("htm"@ != "go"@) by {
        assert("htm"@.len() != "go"@.len());
    }
    assert("htm"@ != "java"@) by {
        assert("htm"@.len() != "java"@.len());
    }
    assert("htm"@ != "c"@) by {
        assert("htm"@.len() != "c"@.len());
    }
    assert("htm"@ != "h"@) by {
        assert("htm"@.len() != "h"@.len());
    }
    assert("htm"@ != "cpp"@) by {
        assert("htm"@[0] != "cpp"@[0]);
    }
    assert("htm"@ != "cc"@) by {
        assert("htm"@.len() != "cc"@.len());
    }
    assert("htm"@ != "cxx"@) by {
        assert("htm"@[0] != "cxx"@[0]);
    }
    assert("htm"@ != "hpp"@) by {
        assert("htm"@[1] != "hpp"@[1]);
    }
    assert("htm"@ != "hxx"@) by {
        assert("htm"@[1] != "hxx"@[1]);
    }
    assert("htm"@ != "cs"@) by {
        assert("htm"@.len() != "cs"@.len());
    }
    assert("htm"@ != "rb"@) by {
        assert("htm"@.len() != "rb"@.len());
    }
    assert("htm"@ != "php"@) by {
        assert("htm"@[0] != "php"@[0]);
    }
    assert("htm"@ != "swift"@) by {
        assert("htm"@.len() != "swift"@.len());
    }
    assert("htm"@ != "kt"@) by {
        assert("htm"@.len() != "kt"@.len());
    }
    assert("htm"@ != "kts"@) by {
        assert("htm"@[0] != "kts"@[0]);
    }
    assert("htm"@ != "scala"@) by {
        assert("htm"@.len() != "scala"@.len());
    }
    assert("htm"@ != "md"@) by {
        assert("htm"@.len() != "md"@.len());
    }
    assert("htm"@ != "markdown"@) by {
        assert("htm"@.len() != "markdown"@.len());
    }
    assert("htm"@ != "json"@) by {
        assert("htm"@.len() != "json"@.len());
    }
    assert("htm"@ != "yaml"@) by {
        assert("htm"@.len() != "yaml"@.len());
    }
    assert("htm"@ != "yml"@) by {
        assert("htm"@[0] != "yml"@[0]);
    }
    assert("htm"@ != "toml"@) by {
        assert("htm"@.len() != "toml"@.len());
    }
    assert("htm"@ != "xml"@) by {
        assert("htm"@[0] != "xml"@[0]);
    }
}

proof fn lemma_ext_css(e: Seq<char>, n: Option<Seq<char>>)
    ensures
        lowercase(e) == "css"@ ==> language_for_spec(Some(e), n) == "css"@,
{
    reveal_strlit("c");
    reveal_strlit("cc");
    reveal_strlit("cjs");
    reveal_strlit("cpp");
    reveal_strlit("cs");
    reveal_strlit("css");
    reveal_strlit("cts");
    reveal_strlit("cxx");
    reveal_strlit("go");
    reveal_strlit("h");
    reveal_strlit("hpp");
    reveal_strlit("htm");
    reveal_strlit("html");
    reveal_strlit("hxx");
    reveal_strlit("java");
    reveal_strlit("js");
    reveal_strlit("json");
    reveal_strlit("jsx");
    reveal_strlit("kt");
    reveal_strlit("kts");
    reveal_strlit("markdown");
    reveal_strlit("md");
    reveal_strlit("mjs");
    reveal_strlit("mts");
    reveal_strlit("php");
    reveal_strlit("py");
    reveal_strlit("pyi");
    reveal_strlit("pyw");
    reveal_strlit("rb");
    reveal_strlit("rs");
    reveal_strlit("scala");
    reveal_strlit("swift");
    reveal_strlit("toml");
    reveal_strlit("ts");
    reveal_strlit("tsx");
    reveal_strlit("xml");
    reveal_strlit("yaml");
    reveal_strlit("yml");
    assert("css"@ != "py"@) by {
        assert("css"@.len() != "py"@.len());
    }
    assert("css"@ != "pyi"@) by {
        assert("css"@[0] != "pyi"@[0]);
    }
    assert("css"@ != "pyw"@) by {
        assert("css"@[0] != "pyw"@[0]);
    }
    assert("css"@ != "ts"@) by {
        assert("css"@.len() != "ts"@.len());
    }
    assert("css"@ != "tsx"@) by {
        assert("css"@[0] != "tsx"@[0]);
    }
    assert("css"@ != "mts"@) by {
        assert("css"@[0] != "mts"@[0]);
    }
    assert("css"@ != "cts"@) by {
        assert("css"@[1] != "cts"@[1]);
    }
    assert("css"@ != "rs"@) by {
        assert("css"@.len() != "rs"@.len());
    }
    assert("css"@ != "js"@) by {
        assert("css"@.len() != "js"@.len());
    }
    assert("css"@ != "jsx"@) by {
        assert("css"@[0] != "jsx"@[0]);
    }
    assert("css"@ != "mjs"@) by {
        assert("css"@[0] != "mjs"@[0]);
    }
    assert("css"@ != "cjs"@) by {
        assert("css"@[1] != "cjs"@[1]);
    }
    assert("css"@ != "go"@) by {
        assert("css"@.len() != "go"@.len());
    }
    assert("css"@ != "java"@) by {
        assert("css"@.len() != "java"@.len());
    }
    assert("css"@ != "c"@) by {
        assert("css"@.len() != "c"@.len());
    }
    assert("css"@ != "h"@) by {
        assert("css"@.len() != "h"@.len());
    }
    assert("css"@ != "cpp"@) by {
        assert("css"@[1] != "cpp"@[1]);
    }
    assert("css"@ != "cc"@) by {
        assert("css"@.len() != "cc"@.len());
    }
    assert("css"@ != "cxx"@) by {
        assert("css"@[1] != "cxx"@[1]);
    }
    assert("css"@ != "hpp"@) by {
        assert("css"@[0] != "hpp"@[0]);
    }
    assert("css"@ != "hxx"@) by {
        assert("css"@[0] != "hxx"@[0]);
    }
    assert("css"@ != "cs"@) by {
        assert("css"@.len() != "cs"@.len());
    }
    assert("css"@ != "rb"@) by {
        assert("css"@.len() != "rb"@.len());
    }
    assert("css"@ != "php"@) by {
        assert("css"@[0] != "php"@[0]);
    }
    assert("css"@ != "swift"@) by {
        assert("css"@.len() != "swift"@.len());
    }
    assert("css"@ != "kt"@) by {
        assert("css"@.len() != "kt"@.len());
    }
    assert("css"@ != "kts"@) by {
        assert("css"@[0] != "kts"@[0]);
    }
    assert("css"@ != "scala"@) by {
        assert("css"@.len() != "scala"@.len());
    }
    assert("css"@ != "md"@) by {
        assert("css"@.len() != "md"@.len());
    }
    assert("css"@ != "markdown"@) by {
        assert("css"@.len() != "markdown"@.len());
    }
    assert("css"@ != "json"@) by {
        assert("css"@.len() != "json"@.len());
    }
    assert("css"@ != "yaml"@) by {
        assert("css"@.len() != "yaml"@.len());
    }
    assert("css"@ != "yml"@) by {
        assert("css"@[0] != "yml"@[0]);
    }
    assert("css"@ != "toml"@) by {
        assert("css"@.len() != "toml"@.len());
    }
    assert("css"@ != "xml"@) by {
        assert("css"@[0] != "xml"@[0]);
    }
    assert("css"@ != "html"@) by {
        assert("css"@.len() != "html"@.len());
    }
    assert("css"@ != "htm"@) by {
        assert("css"@[0] != "htm"@[0]);
    }
}

proof fn lemma_ext_scss(e: Seq<char>, n: Option<Seq<char>>)
    ensures
        lowercase(e) == "scss"@ ==> language_for_spec(Some(e), n) == "css"@,
{
    reveal_strlit("c");
    reveal_strlit("cc");
    reveal_strlit("cjs");
    reveal_strlit("cpp");
    reveal_strlit("cs");
    reveal_strlit("css");
    reveal_strlit("cts");
    reveal_strlit("cxx");
    reveal_strlit("go");
    reveal_strlit("h");
    reveal_strlit("hpp");
    reveal_strlit("htm");
    reveal_strlit("html");
    reveal_strlit("hxx");
    reveal_strlit("java");
    reveal_strlit("js");
    reveal_strlit("json");
    reveal_strlit("jsx");
    reveal_strlit("kt");
    reveal_strlit("kts");
    reveal_strlit("markdown");
    reveal_strlit("md");
    reveal_strlit("mjs");
    reveal_strlit("mts");
    reveal_strlit("php");
    reveal_strlit("py");
    reveal_strlit("pyi");
    reveal_strlit("pyw");
    reveal_strlit("rb");
    reveal_strlit("rs");
    reveal_strlit("scala");
    reveal_strlit("scss");
    reveal_strlit("swift");
    reveal_strlit("toml");
    reveal_strlit("ts");
    reveal_strlit("tsx");
    reveal_strlit("xml");
    reveal_strlit("yaml");
    reveal_strlit("yml");
    assert("scss"@ != "py"@) by {
        assert("scss"@.len() != "py"@.len());
    }
    assert("scss"@ != "pyi"@) by {
        assert("scss"@.len() != "pyi"@.len());
    }
    assert("scss"@ != "pyw"@) by {
        assert("scss"@.len() != "pyw"@.len());
    }
    assert("scss"@ != "ts"@) by {
        assert("scss"@.len() != "ts"@.len());
    }
    assert("scss"@ != "tsx"@) by {
        assert("scss"@.len() != "tsx"@.len());
    }
    assert("scss"@ != "mts"@) by {
        assert("scss"@.len() != "mts"@.len());
    }
    assert("scss"@ != "cts"@) by {
        assert("scss"@.len() != "cts"@.len());
    }
    assert("scss"@ != "rs"@) by {
        assert("scss"@.len() != "rs"@.len());
    }
    assert("scss"@ != "js"@) by {
        assert("scss"@.len() != "js"@.len());
    }
    assert("scss"@ != "jsx"@) by {
        assert("scss"@.len() != "jsx"@.len());
    }
    assert("scss"@ != "mjs"@) by {
        assert("scss"@.len() != "mjs"@.len());
    }
    assert("scss"@ != "cjs"@) by {
        assert("scss"@.len() != "cjs"@.len());
    }
    assert("scss"@ != "go"@) by {
        assert("scss"@.len() != "go"@.len());
    }
    assert("scss"@ != "java"@) by {
        assert("scss"@[0] != "java"@[0]);
    }
    assert("scss"@ != "c"@) by {
        assert("scss"@.len() != "c"@.len());
    }
    assert("scss"@ != "h"@) by {
        assert("scss"@.len() != "h"@.len());
    }
    assert("scss"@ != "cpp"@) by {
        assert("scss"@.len() != "cpp"@.len());
    }
    assert("scss"@ != "cc"@) by {
        assert("scss"@.len() != "cc"@.len());
    }
    assert("scss"@ != "cxx"@) by {
        assert("scss"@.len() != "cxx"@.len());
    }
    assert("scss"@ != "hpp"@) by {
        assert("scss"@.len() != "hpp"@.len());
    }
    assert("scss"@ != "hxx"@) by {
        assert("scss"@.len() != "hxx"@.len());
    }
    assert("scss"@ != "cs"@) by {
        assert("scss"@.len() != "cs"@.len());
    }
    assert("scss"@ != "rb"@) by {
        assert("scss"@.len() != "rb"@.len());
    }
    assert("scss"@ != "php"@) by {
        assert("scss"@.len() != "php"@.len());
    }
    assert("scss"@ != "swift"@) by {
        assert("scss"@.len() != "swift"@.len());
    }
    assert("scss"@ != "kt"@) by {
        assert("scss"@.len() != "kt"@.len());
    }
    assert("scss"@ != "kts"@) by {
        assert("scss"@.len() != "kts"@.len());
    }
    assert("scss"@ != "scala"@) by {
        assert("scss"@.len() != "scala"@.len());
    }
    assert("scss"@ != "md"@) by {
        assert("scss"@.len() != "md"@.len());
    }
    assert("scss"@ != "markdown"@) by {
        assert("scss"@.len() != "markdown"@.len());
    }
    assert("scss"@ != "json"@) by {
        assert("scss"@[0] != "json"@[0]);
    }
    assert("scss"@ != "yaml"@) by {
        assert("scss"@[0] != "yaml"@[0]);
    }
    assert("scss"@ != "yml"@) by {
        assert("scss"@.len() != "yml"@.len());
    }
    assert("scss"@ != "toml"@) by {
        assert("scss"@[0] != "toml"@[0]);
    }
    assert("scss"@ != "xml"@) by {
        assert("scss"@.len() != "xml"@.len());
    }
    assert("scss"@ != "html"@) by {
        assert("scss"@[0] != "html"@[0]);
    }
    assert("scss"@ != "htm"@) by {
        assert("scss"@.len() != "htm"@.len());
    }
}

proof fn lemma_ext_sass(e: Seq<char>, n: Option<Seq<char>>)
    ensures
        lowercase(e) == "sass"@ ==> language_for_spec(Some(e), n) == "css"@,
{
    reveal_strlit("c");
    reveal_strlit("cc");
    reveal_strlit("cjs");
    reveal_strlit("cpp");
    reveal_strlit("cs");
    reveal_strlit("css");
    reveal_strlit("cts");
    reveal_strlit("cxx");
    reveal_strlit("go");
    reveal_strlit("h");
    reveal_strlit("hpp");
    reveal_strlit("htm");
    reveal_strlit("html");
    reveal_strlit("hxx");
    reveal_strlit("java");
    reveal_strlit("js");
    reveal_strlit("json");
    reveal_strlit("jsx");
    reveal_strlit("kt");
    reveal_strlit("kts");
    reveal_strlit("markdown");
    reveal_strlit("md");
    reveal_strlit("mjs");
    reveal_strlit("mts");
    reveal_strlit("php");
    reveal_strlit("py");
    reveal_strlit("pyi");
    reveal_strlit("pyw");
    reveal_strlit("rb");
    reveal_strlit("rs");
    reveal_strlit("sass");
    reveal_strlit("scala");
    reveal_strlit("swift");
    reveal_strlit("toml");
    reveal_strlit("ts");
    reveal_strlit("tsx");
    reveal_strlit("xml");
    reveal_strlit("yaml");
    reveal_strlit("yml");
    assert("sass"@ != "py"@) by {
        assert("sass"@.len() != "py"@.len());
    }
    assert("sass"@ != "pyi"@) by {
        assert("sass"@.len() != "pyi"@.len());
    }
    assert("sass"@ != "pyw"@) by {
        assert("sass"@.len() != "pyw"@.len());
    }
    assert("sass"@ != "ts"@) by {
        assert("sass"@.len() != "ts"@.len());
    }
    assert("sass"@ != "tsx"@) by {
        assert("sass"@.len() != "tsx"@.len());
    }
    assert("sass"@ != "mts"@) by {
        assert("sass"@.len() != "mts"@.len());
    }
    assert("sass"@ != "cts"@) by {
        assert("sass"@.len() != "cts"@.len());
    }
    assert("sass"@ != "rs"@) by {
        assert("sass"@.len() != "rs"@.len());
    }
    assert("sass"@ != "js"@) by {
        assert("sass"@.len() != "js"@.len());
    }
    assert("sass"@ != "jsx"@) by {
        assert("sass"@.len() != "jsx"@.len());
    }
    assert("sass"@ != "mjs"@) by {
        assert("sass"@.len() != "mjs"@.len());
    }
    assert("sass"@ != "cjs"@) by {
        assert("sass"@.len() != "cjs"@.len());
    }
    assert("sass"@ != "go"@) by {
        assert("sass"@.len() != "go"@.len());
    }
    assert("sass"@ != "java"@) by {
        assert("sass"@[0] != "java"@[0]);
    }
    assert("sass"@ != "c"@) by {
        assert("sass"@.len() != "c"@.len());
    }
    assert("sass"@ != "h"@) by {
        assert("sass"@.len() != "h"@.len());
    }
    assert("sass"@ != "cpp"@) by {
        assert("sass"@.len() != "cpp"@.len());
    }
    assert("sass"@ != "cc"@) by {
        assert("sass"@.len() != "cc"@.len());
    }
    assert("sass"@ != "cxx"@) by {
        assert("sass"@.len() != "cxx"@.len());
    }
    assert("sass"@ != "hpp"@) by {
        assert("sass"@.len() != "hpp"@.len());
    }
    assert("sass"@ != "hxx"@) by {
        assert("sass"@.len() != "hxx"@.len());
    }
    assert("sass"@ != "cs"@) by {
        assert("sass"@.len() != "cs"@.len());
    }
    assert("sass"@ != "rb"@) by {
        assert("sass"@.len() != "rb"@.len());
    }
    assert("sass"@ != "php"@) by {
        assert("sass"@.len() != "php"@.len());
    }
    assert("sass"@ != "swift"@) by {
        assert("sass"@.len() != "swift"@.len());
    }
    assert("sass"@ != "kt"@) by {
        assert("sass"@.len() != "kt"@.len());
    }
    assert("sass"@ != "kts"@) by {
        assert("sass"@.len() != "kts"@.len());
    }
    assert("sass"@ != "scala"@) by {
        assert("sass"@.len() != "scala"@.len());
    }
    assert("sass"@ != "md"@) by {
        assert("sass"@.len() != "md"@.len());
    }
    assert("sass"@ != "markdown"@) by {
        assert("sass"@.len() != "markdown"@.len());
    }
    assert("sass"@ != "json"@) by {
        assert("sass"@[0] != "json"@[0]);
    }
    assert("sass"@ != "yaml"@) by {
        assert("sass"@[0] != "yaml"@[0]);
    }
    assert("sass"@ != "yml"@) by {
        assert("sass"@.len() != "yml"@.len());
    }
    assert("sass"@ != "toml"@) by {
        assert("sass"@[0] != "toml"@[0]);
    }
    assert("sass"@ != "xml"@) by {
        assert("sass"@.len() != "xml"@.len());
    }
    assert("sass"@ != "html"@) by {
        assert("sass"@[0] != "html"@[0]);
    }
    assert("sass"@ != "htm"@) by {
        assert("sass"@.len() != "htm"@.len());
    }
}

proof fn lemma_ext_less(e: Seq<char>, n: Option<Seq<char>>)
    ensures
        lowercase(e) == "less"@ ==> language_for_spec(Some(e), n) == "css"@,
{
    reveal_strlit("c");
    reveal_strlit("cc");
    reveal_strlit("cjs");
    reveal_strlit("cpp");
    reveal_strlit("cs");
    reveal_strlit("css");
    reveal_strlit("cts");
    reveal_strlit("cxx");
    reveal_strlit("go");
    reveal_strlit("h");
    reveal_strlit("hpp");
    reveal_strlit("htm");
    reveal_strlit("html");
    reveal_strlit("hxx");
    reveal_strlit("java");
    reveal_strlit("js");
    reveal_strlit("json");
    reveal_strlit("jsx");
    reveal_strlit("kt");
    reveal_strlit("kts");
    reveal_strlit("less");
    reveal_strlit("markdown");
    reveal_strlit("md");
    reveal_strlit("mjs");
    reveal_strlit("mts");
    reveal_strlit("php");
    reveal_strlit("py");
    reveal_strlit("pyi");
    reveal_strlit("pyw");
    reveal_strlit("rb");
    reveal_strlit("rs");
    reveal_strlit("scala");
    reveal_strlit("swift");
    reveal_strlit("toml");
    reveal_strlit("ts");
    reveal_strlit("tsx");
    reveal_strlit("xml");
    reveal_strlit("yaml");
    reveal_strlit("yml");
    assert("less"@ != "py"@) by {
        assert("less"@.len() != "py"@.len());
    }
    assert("less"@ != "pyi"@) by {
        assert("less"@.len() != "pyi"@.len());
    }
    assert("less"@ != "pyw"@) by {
        assert("less"@.len() != "pyw"@.len());
    }
    assert("less"@ != "ts"@) by {
        assert("less"@.len() != "ts"@.len());
    }
    assert("less"@ != "tsx"@) by {
        assert("less"@.len() != "tsx"@.len());
    }
    assert("less"@ != "mts"@) by {
        assert("less"@.len() != "mts"@.len());
    }
    assert("less"@ != "cts"@) by {
        assert("less"@.len() != "cts"@.len());
    }
    assert("less"@ != "rs"@) by {
        assert("less"@.len() != "rs"@.len());
    }
    assert("less"@ != "js"@) by {
        assert("less"@.len() != "js"@.len());
    }
    assert("less"@ != "jsx"@) by {
        assert("less"@.len() != "jsx"@.len());
    }
    assert("less"@ != "mjs"@) by {
        assert("less"@.len() != "mjs"@.len());
    }
    assert("less"@ != "cjs"@) by {
        assert("less"@.len() != "cjs"@.len());
    }
    assert("less"@ != "go"@) by {
        assert("less"@.len() != "go"@.len());
    }
    assert("less"@ != "java"@) by {
        assert("less"@[0] != "java"@[0]);
    }
    assert("less"@ != "c"@) by {
        assert("less"@.len() != "c"@.len());
    }
    assert("less"@ != "h"@) by {
        assert("less"@.len() != "h"@.len());
    }
    assert("less"@ != "cpp"@) by {
        assert("less"@.len() != "cpp"@.len());
    }
    assert("less"@ != "cc"@) by {
        assert("less"@.len() != "cc"@.len());
    }
    assert("less"@ != "cxx"@) by {
        assert("less"@.len() != "cxx"@.len());
    }
    assert("less"@ != "hpp"@) by {
        assert("less"@.len() != "hpp"@.len());
    }
    assert("less"@ != "hxx"@) by {
        assert("less"@.len() != "hxx"@.len());
    }
    assert("less"@ != "cs"@) by {
        assert("less"@.len() != "cs"@.len());
    }
    assert("less"@ != "rb"@) by {
        assert("less"@.len() != "rb"@.len());
    }
    assert("less"@ != "php"@) by {
        assert("less"@.len() != "php"@.len());
    }
    assert("less"@ != "swift"@) by {
        assert("less"@.len() != "swift"@.len());
    }
    assert("less"@ != "kt"@) by {
        assert("less"@.len() != "kt"@.len());
    }
    assert("less"@ != "kts"@) by {
        assert("less"@.len() != "kts"@.len());
    }
    assert("less"@ != "scala"@) by {
        assert("less"@.len() != "scala"@.len());
    }
    assert("less"@ != "md"@) by {
        assert("less"@.len() != "md"@.len());
    }
    assert("less"@ != "markdown"@) by {
        assert("less"@.len() != "markdown"@.len());
    }
    assert("less"@ != "json"@) by {
        assert("less"@[0] != "json"@[0]);
    }
    assert("less"@ != "yaml"@) by {
        assert("less"@[0] != "yaml"@[0]);
    }
    assert("less"@ != "yml"@) by {
        assert("less"@.len() != "yml"@.len());
    }
    assert("less"@ != "toml"@) by {
        assert("less"@[0] != "toml"@[0]);
    }
    assert("less"@ != "xml"@) by {
        assert("less"@.len() != "xml"@.len());
    }
    assert("less"@ != "html"@) by {
        assert("less"@[0] != "html"@[0]);
    }
    assert("less"@ != "htm"@) by {
        assert("less"@.len() != "htm"@.len());
    }
}

proof fn lemma_ext_sql(e: Seq<char>, n: Option<Seq<char>>)
    ensures
        lowercase(e) == "sql"@ ==> language_for_spec(Some(e), n) == "sql"@,
{
    reveal_strlit("c");
    reveal_strlit("cc");
    reveal_strlit("cjs");
    reveal_strlit("cpp");
    reveal_strlit("cs");
    reveal_strlit("css");
    reveal_strlit("cts");
    reveal_strlit("cxx");
    reveal_strlit("go");
    reveal_strlit("h");
    reveal_strlit("hpp");
    reveal_strlit("htm");
    reveal_strlit("html");
    reveal_strlit("hxx");
    reveal_strlit("java");
    reveal_strlit("js");
    reveal_strlit("json");
    reveal_strlit("jsx");
    reveal_strlit("kt");
    reveal_strlit("kts");
    reveal_strlit("less");
    reveal_strlit("markdown");
    reveal_strlit("md");
    reveal_strlit("mjs");
    reveal_strlit("mts");
    reveal_strlit("php");
    reveal_strlit("py");
    reveal_strlit("pyi");
    reveal_strlit("pyw");
    reveal_strlit("rb");
    reveal_strlit("rs");
    reveal_strlit("sass");
    reveal_strlit("scala");
    reveal_strlit("scss");
    reveal_strlit("sql");
    reveal_strlit("swift");
    reveal_strlit("toml");
    reveal_strlit("ts");
    reveal_strlit("tsx");
    reveal_strlit("xml");
    reveal_strlit("yaml");
    reveal_strlit("yml");
    assert("sql"@ != "py"@) by {
        assert("sql"@.len() != "py"@.len());
    }
    assert("sql"@ != "pyi"@) by {
        assert("sql"@[0] != "pyi"@[0]);
    }
    assert("sql"@ != "pyw"@) by {
        assert("sql"@[0] != "pyw"@[0]);
    }
    assert("sql"@ != "ts"@) by {
        assert("sql"@.len() != "ts"@.len());
    }
    assert("sql"@ != "tsx"@) by {
        assert("sql"@[0] != "tsx"@[0]);
    }
    assert("sql"@ != "mts"@) by {
        assert("sql"@[0] != "mts"@[0]);
    }
    assert("sql"@ != "cts"@) by {
        assert("sql"@[0] != "cts"@[0]);
    }
    assert("sql"@ != "rs"@) by {
        assert("sql"@.len() != "rs"@.len());
    }
    assert("sql"@ != "js"@) by {
        assert("sql"@.len() != "js"@.len());
    }
    assert("sql"@ != "jsx"@) by {
        assert("sql"@[0] != "jsx"@[0]);
    }
    assert("sql"@ != "mjs"@) by {
        assert("sql"@[0] != "mjs"@[0]);
    }
    assert("sql"@ != "cjs"@) by {
        assert("sql"@[0] != "cjs"@[0]);
    }
    assert("sql"@ != "go"@) by {
        assert("sql"@.len() != "go"@.len());
    }
    assert("sql"@ != "java"@) by {
        assert("sql"@.len() != "java"@.len());
    }
    assert("sql"@ != "c"@) by {
        assert("sql"@.len() != "c"@.len());
    }
    assert("sql"@ != "h"@) by {
        assert("sql"@.len() != "h"@.len());
    }
    assert("sql"@ != "cpp"@) by {
        assert("sql"@[0] != "cpp"@[0]);
    }
    assert("sql"@ != "cc"@) by {
        assert("sql"@.len() != "cc"@.len());
    }
    assert("sql"@ != "cxx"@) by {
        assert("sql"@[0] != "cxx"@[0]);
    }
    assert("sql"@ != "hpp"@) by {
        assert("sql"@[0] != "hpp"@[0]);
    }
    assert("sql"@ != "hxx"@) by {
        assert("sql"@[0] != "hxx"@[0]);
    }
    assert("sql"@ != "cs"@) by {
        assert("sql"@.len() != "cs"@.len());
    }
    assert("sql"@ != "rb"@) by {
        assert("sql"@.len() != "rb"@.len());
    }
    assert("sql"@ != "php"@) by {
        assert("sql"@[0] != "php"@[0]);
    }
    assert("sql"@ != "swift"@) by {
        assert("sql"@.len() != "swift"@.len());
    }
    assert("sql"@ != "kt"@) by {
        assert("sql"@.len() != "kt"@.len());
    }
    assert("sql"@ != "kts"@) by {
        assert("sql"@[0] != "kts"@[0]);
    }
    assert("sql"@ != "scala"@) by {
        assert("sql"@.len() != "scala"@.len());
    }
    assert("sql"@ != "md"@) by {
        assert("sql"@.len() != "md"@.len());
    }
    assert("sql"@ != "markdown"@) by {
        assert("sql"@.len() != "markdown"@.len());
    }
    assert("sql"@ != "json"@) by {
        assert("sql"@.len() != "json"@.len());
    }
    assert("sql"@ != "yaml"@) by {
        assert("sql"@.len() != "yaml"@.len());
    }
    assert("sql"@ != "yml"@) by {
        assert("sql"@[0] != "yml"@[0]);
    }
    assert("sql"@ != "toml"@) by {
        assert("sql"@.len() != "toml"@.len());
    }
    assert("sql"@ != "xml"@) by {
        assert("sql"@[0] != "xml"@[0]);
    }
    assert("sql"@ != "html"@) by {
        assert("sql"@.len() != "html"@.len());
    }
    assert("sql"@ != "htm"@) by {
        assert("sql"@[0] != "htm"@[0]);
    }
    assert("sql"@ != "css"@) by {
        assert("sql"@[0] != "css"@[0]);
    }
    assert("sql"@ != "scss"@) by {
        assert("sql"@.len() != "scss"@.len());
    }
    assert("sql"@ != "sass"@) by {
        assert("sql"@.len() != "sass"@.len());
    }
    assert("sql"@ != "less"@) by {
        assert("sql"@.len() != "less"@.len());
    }
}

proof fn lemma_ext_sh(e: Seq<char>, n: Option<Seq<char>>)
    ensures
        lowercase(e) == "sh"@ ==> language_for_spec(Some(e), n) == "shell"@,
{
    reveal_strlit("c");
    reveal_strlit("cc");
    reveal_strlit("cjs");
    reveal_strlit("cpp");
    reveal_strlit("cs");
    reveal_strlit("css");
    reveal_strlit("cts");
    reveal_strlit("cxx");
    reveal_strlit("go");
    reveal_strlit("h");
    reveal_strlit("hpp");
    reveal_strlit("htm");
    reveal_strlit("html");
    reveal_strlit("hxx");
    reveal_strlit("java");
    reveal_strlit("js");
    reveal_strlit("json");
    reveal_strlit("jsx");
    reveal_strlit("kt");
    reveal_strlit("kts");
    reveal_strlit("less");
    reveal_strlit("markdown");
    reveal_strlit("md");
    reveal_strlit("mjs");
    reveal_strlit("mts");
    reveal_strlit("php");
    reveal_strlit("py");
    reveal_strlit("pyi");
    reveal_strlit("pyw");
    reveal_strlit("rb");
    reveal_strlit("rs");
    reveal_strlit("sass");
    reveal_strlit("scala");
    reveal_strlit("scss");
    reveal_strlit("sh");
    reveal_strlit("shell");
    reveal_strlit("sql");
    reveal_strlit("swift");
    reveal_strlit("toml");
    reveal_strlit("ts");
    reveal_strlit("tsx");
    reveal_strlit("xml");
    reveal_strlit("yaml");
    reveal_strlit("yml");
    assert("sh"@ != "py"@) by {
        assert("sh"@[0] != "py"@[0]);
    }
    assert("sh"@ != "pyi"@) by {
        assert("sh"@.len() != "pyi"@.len());
    }
    assert("sh"@ != "pyw"@) by {
        assert("sh"@.len() != "pyw"@.len());
    }
    assert("sh"@ != "ts"@) by {
        assert("sh"@[0] != "ts"@[0]);
    }
    assert("sh"@ != "tsx"@) by {
        assert("sh"@.len() != "tsx"@.len());
    }
    assert("sh"@ != "mts"@) by {
        assert("sh"@.len() != "mts"@.len());
    }
    assert("sh"@ != "cts"@) by {
        assert("sh"@.len() != "cts"@.len());
    }
    assert("sh"@ != "rs"@) by {
        assert("sh"@[0] != "rs"@[0]);
    }
    assert("sh"@ != "js"@) by {
        assert("sh"@[0] != "js"@[0]);
    }
    assert("sh"@ != "jsx"@) by {
        assert("sh"@.len() != "jsx"@.len());
    }
    assert("sh"@ != "mjs"@) by {
        assert("sh"@.len() != "mjs"@.len());
    }
    assert("sh"@ != "cjs"@) by {
        assert("sh"@.len() != "cjs"@.len());
    }
    assert("sh"@ != "go"@) by {
        assert("sh"@[0] != "go"@[0]);
    }
    assert("sh"@ != "java"@) by {
        assert("sh"@.len() != "java"@.len());
    }
    assert("sh"@ != "c"@) by {
        assert("sh"@.len() != "c"@.len());
    }
    assert("sh"@ != "h"@) by {
        assert("sh"@.len() != "h"@.len());
    }
    assert("sh"@ != "cpp"@) by {
        assert("sh"@.len() != "cpp"@.len());
    }
    assert("sh"@ != "cc"@) by {
        assert("sh"@[0] != "cc"@[0]);
    }
    assert("sh"@ != "cxx"@) by {
        assert("sh"@.len() != "cxx"@.len());
    }
    assert("sh"@ != "hpp"@) by {
        assert("sh"@.len() != "hpp"@.len());
    }
    assert("sh"@ != "hxx"@) by {
        assert("sh"@.len() != "hxx"@.len());
    }
    assert("sh"@ != "cs"@) by {
        assert("sh"@[0] != "cs"@[0]);
    }
    assert("sh"@ != "rb"@) by {
        assert("sh"@[0] != "rb"@[0]);
    }
    assert("sh"@ != "php"@) by {
        assert("sh"@.len() != "php"@.len());
    }
    assert("sh"@ != "swift"@) by {
        assert("sh"@.len() != "swift"@.len());
    }
    assert("sh"@ != "kt"@) by {
        assert("sh"@[0] != "kt"@[0]);
    }
    assert("sh"@ != "kts"@) by {
        assert("sh"@.len() != "kts"@.len());
    }
    assert("sh"@ != "scala"@) by {
        assert("sh"@.len() != "scala"@.len());
    }
    assert("sh"@ != "md"@) by {
        assert("sh"@[0] != "md"@[0]);
    }
    assert("sh"@ != "markdown"@) by {
        assert("sh"@.len() != "markdown"@.len());
    }
    assert("sh"@ != "json"@) by {
        assert("sh"@.len() != "json"@.len());
    }
    assert("sh"@ != "yaml"@) by {
        assert("sh"@.len() != "yaml"@.len());
    }
    assert("sh"@ != "yml"@) by {
        assert("sh"@.len() != "yml"@.len());
    }
    assert("sh"@ != "toml"@) by {
        assert("sh"@.len() != "toml"@.len());
    }
    assert("sh"@ != "xml"@) by {
        assert("sh"@.len() != "xml"@.len());
    }
    assert("sh"@ != "html"@) by {
        assert("sh"@.len() != "html"@.len());
    }
    assert("sh"@ != "htm"@) by {
        assert("sh"@.len() != "htm"@.len());
    }
    assert("sh"@ != "css"@) by {
        assert("sh"@.len() != "css"@.len());
    }
    assert("sh"@ != "scss"@) by {
        assert("sh"@.len() != "scss"@.len());
    }
    assert("sh"@ != "sass"@) by {
        assert("sh"@.len() != "sass"@.len());
    }
    assert("sh"@ != "less"@) by {
        assert("sh"@.len() != "less"@.len());
    }
    assert("sh"@ != "sql"@) by {
        assert("sh"@.len() != "sql"@.len());
    }
}

proof fn lemma_ext_bash(e: Seq<char>, n: Option<Seq<char>>)
    ensures
        lowercase(e) == "bash"@ ==> language_for_spec(Some(e), n) == "shell"@,
{
    reveal_strlit("bash");
    reveal_strlit("c");
    reveal_strlit("cc");
    reveal_strlit("cjs");
    reveal_strlit("cpp");
    reveal_strlit("cs");
    reveal_strlit("css");
    reveal_strlit("cts");
    reveal_strlit("cxx");
    reveal_strlit("go");
    reveal_strlit("h");
    reveal_strlit("hpp");
    reveal_strlit("htm");
    reveal_strlit("html");
    reveal_strlit("hxx");
    reveal_strlit("java");
    reveal_strlit("js");
    reveal_strlit("json");
    reveal_strlit("jsx");
    reveal_strlit("kt");
    reveal_strlit("kts");
    reveal_strlit("less");
    reveal_strlit("markdown");
    reveal_strlit("md");
    reveal_strlit("mjs");
    reveal_strlit("mts");
    reveal_strlit("php");
    reveal_strlit("py");
    reveal_strlit("pyi");
    reveal_strlit("pyw");
    reveal_strlit("rb");
    reveal_strlit("rs");
    reveal_strlit("sass");
    reveal_strlit("scala");
    reveal_strlit("scss");
    reveal_strlit("shell");
    reveal_strlit("sql");
    reveal_strlit("swift");
    reveal_strlit("toml");
    reveal_strlit("ts");
    reveal_strlit("tsx");
    reveal_strlit("xml");
    reveal_strlit("yaml");
    reveal_strlit("yml");
    assert("bash"@ != "py"@) by {
        assert("bash"@.len() != "py"@.len());
    }
    assert("bash"@ != "pyi"@) by {
        assert("bash"@.len() != "pyi"@.len());
    }
    assert("bash"@ != "pyw"@) by {
        assert("bash"@.len() != "pyw"@.len());
    }
    assert("bash"@ != "ts"@) by {
        assert("bash"@.len() != "ts"@.len());
    }
    assert("bash"@ != "tsx"@) by {
        assert("bash"@.len() != "tsx"@.len());
    }
    assert("bash"@ != "mts"@) by {
        assert("bash"@.len() != "mts"@.len());
    }
    assert("bash"@ != "cts"@) by {
        assert("bash"@.len() != "cts"@.len());
    }
    assert("bash"@ != "rs"@) by {
        assert("bash"@.len() != "rs"@.len());
    }
    assert("bash"@ != "js"@) by {
        assert("bash"@.len() != "js"@.len());
    }
    assert("bash"@ != "jsx"@) by {
        assert("bash"@.len() != "jsx"@.len());
    }
    assert("bash"@ != "mjs"@) by {
        assert("bash"@.len() != "mjs"@.len());
    }
    assert("bash"@ != "cjs"@) by {
        assert("bash"@.len() != "cjs"@.len());
    }
    assert("bash"@ != "go"@) by {
        assert("bash"@.len() != "go"@.len());
    }
    assert("bash"@ != "java"@) by {
        assert("bash"@[0] != "java"@[0]);
    }
    assert("bash"@ != "c"@) by {
        assert("bash"@.len() != "c"@.len());
    }
    assert("bash"@ != "h"@) by {
        assert("bash"@.len() != "h"@.len());
    }
    assert("bash"@ != "cpp"@) by {
        assert("bash"@.len() != "cpp"@.len());
    }
    assert("bash"@ != "cc"@) by {
        assert("bash"@.len() != "cc"@.len());
    }
    assert("bash"@ != "cxx"@) by {
        assert("bash"@.len() != "cxx"@.len());
    }
    assert("bash"@ != "hpp"@) by {
        assert("bash"@.len() != "hpp"@.len());
    }
    assert("bash"@ != "hxx"@) by {
        assert("bash"@.len() != "hxx"@.len());
    }
    assert("bash"@ != "cs"@) by {
        assert("bash"@.len() != "cs"@.len());
    }
    assert("bash"@ != "rb"@) by {
        assert("bash"@.len() != "rb"@.len());
    }
    assert("bash"@ != "php"@) by {
        assert("bash"@.len() != "php"@.len());
    }
    assert("bash"@ != "swift"@) by {
        assert("bash"@.len() != "swift"@.len());
    }
    assert("bash"@ != "kt"@) by {
        assert("bash"@.len() != "kt"@.len());
    }
    assert("bash"@ != "kts"@) by {
        assert("bash"@.len() != "kts"@.len());
    }
    assert("bash"@ != "scala"@) by {
        assert("bash"@.len() != "scala"@.len());
    }
    assert("bash"@ != "md"@) by {
        assert("bash"@.len() != "md"@.len());
    }
    assert("bash"@ != "markdown"@) by {
        assert("bash"@.len() != "markdown"@.len());
    }
    assert("bash"@ != "json"@) by {
        assert("bash"@[0] != "json"@[0]);
    }
    assert("bash"@ != "yaml"@) by {
        assert("bash"@[0] != "yaml"@[0]);
    }
    assert("bash"@ != "yml"@) by {
        assert("bash"@.len() != "yml"@.len());
    }
    assert("bash"@ != "toml"@) by {
        assert("bash"@[0] != "toml"@[0]);
    }
    assert("bash"@ != "xml"@) by {
        assert("bash"@.len() != "xml"@.len());
    }
    assert("bash"@ != "html"@) by {
        assert("bash"@[0] != "html"@[0]);
    }
    assert("bash"@ != "htm"@) by {
        assert("bash"@.len() != "htm"@.len());
    }
    assert("bash"@ != "css"@) by {
        assert("bash"@.len() != "css"@.len());
    }
    assert("bash"@ != "scss"@) by {
        assert("bash"@[0] != "scss"@[0]);
    }
    assert("bash"@ != "sass"@) by {
        assert("bash"@[0] != "sass"@[0]);
    }
    assert("bash"@ != "less"@) by {
        assert("bash"@[0] != "less"@[0]);
    }
    assert("bash"@ != "sql"@) by {
        assert("bash"@.len() != "sql"@.len());
    }
}

proof fn lemma_ext_zsh(e: Seq<char>, n: Option<Seq<char>>)
    ensures
        lowercase(e) == "zsh"@ ==> language_for_spec(Some(e), n) == "shell"@,
{
    reveal_strlit("c");
    reveal_strlit("cc");
    reveal_strlit("cjs");
    reveal_strlit("cpp");
    reveal_strlit("cs");
    reveal_strlit("css");
    reveal_strlit("cts");
    reveal_strlit("cxx");
    reveal_strlit("go");
    reveal_strlit("h");
    reveal_strlit("hpp");
    reveal_strlit("htm");
    reveal_strlit("html");
    reveal_strlit("hxx");
    reveal_strlit("java");
    reveal_strlit("js");
    reveal_strlit("json");
    reveal_strlit("jsx");
    reveal_strlit("kt");
    reveal_strlit("kts");
    reveal_strlit("less");
    reveal_strlit("markdown");
    reveal_strlit("md");
    reveal_strlit("mjs");
    reveal_strlit("mts");
    reveal_strlit("php");
    reveal_strlit("py");
    reveal_strlit("pyi");
    reveal_strlit("pyw");
    reveal_strlit("rb");
    reveal_strlit("rs");
    reveal_strlit("sass");
    reveal_strlit("scala");
    reveal_strlit("scss");
    reveal_strlit("shell");
    reveal_strlit("sql");
    reveal_strlit("swift");
    reveal_strlit("toml");
    reveal_strlit("ts");
    reveal_strlit("tsx");
    reveal_strlit("xml");
    reveal_strlit("yaml");
    reveal_strlit("yml");
    reveal_strlit("zsh");
    assert("zsh"@ != "py"@) by {
        assert("zsh"@.len() != "py"@.len());
    }
    assert("zsh"@ != "pyi"@) by {
        assert("zsh"@[0] != "pyi"@[0]);
    }
    assert("zsh"@ != "pyw"@) by {
        assert("zsh"@[0] != "pyw"@[0]);
    }
    assert("zsh"@ != "ts"@) by {
        assert("zsh"@.len() != "ts"@.len());
    }
    assert("zsh"@ != "tsx"@) by {
        assert("zsh"@[0] != "tsx"@[0]);
    }
    assert("zsh"@ != "mts"@) by {
        assert("zsh"@[0] != "mts"@[0]);
    }
    assert("zsh"@ != "cts"@) by {
        assert("zsh"@[0] != "cts"@[0]);
    }
    assert("zsh"@ != "rs"@) by {
        assert("zsh"@.len() != "rs"@.len());
    }
    assert("zsh"@ != "js"@) by {
        assert("zsh"@.len() != "js"@.len());
    }
    assert("zsh"@ != "jsx"@) by {
        assert("zsh"@[0] != "jsx"@[0]);
    }
    assert("zsh"@ != "mjs"@) by {
        assert("zsh"@[0] != "mjs"@[0]);
    }
    assert("zsh"@ != "cjs"@) by {
        assert("zsh"@[0] != "cjs"@[0]);
    }
    assert("zsh"@ != "go"@) by {
        assert("zsh"@.len() != "go"@.len());
    }
    assert("zsh"@ != "java"@) by {
        assert("zsh"@.len() != "java"@.len());
    }
    assert("zsh"@ != "c"@) by {
        assert("zsh"@.len() != "c"@.len());
    }
    assert("zsh"@ != "h"@) by {
        assert("zsh"@.len() != "h"@.len());
    }
    assert("zsh"@ != "cpp"@) by {
        assert("zsh"@[0] != "cpp"@[0]);
    }
    assert("zsh"@ != "cc"@) by {
        assert("zsh"@.len() != "cc"@.len());
    }
    assert("zsh"@ != "cxx"@) by {
        assert("zsh"@[0] != "cxx"@[0]);
    }
    assert("zsh"@ != "hpp"@) by {
        assert("zsh"@[0] != "hpp"@[0]);
    }
    assert("zsh"@ != "hxx"@) by {
        assert("zsh"@[0] != "hxx"@[0]);
    }
    assert("zsh"@ != "cs"@) by {
        assert("zsh"@.len() != "cs"@.len());
    }
    assert("zsh"@ != "rb"@) by {
        assert("zsh"@.len() != "rb"@.len());
    }
    assert("zsh"@ != "php"@) by {
        assert("zsh"@[0] != "php"@[0]);
    }
    assert("zsh"@ != "swift"@) by {
        assert("zsh"@.len() != "swift"@.len());
    }
    assert("zsh"@ != "kt"@) by {
        assert("zsh"@.len() != "kt"@.len());
    }
    assert("zsh"@ != "kts"@) by {
        assert("zsh"@[0] != "kts"@[0]);
    }
    assert("zsh"@ != "scala"@) by {
        assert("zsh"@.len() != "scala"@.len());
    }
    assert("zsh"@ != "md"@) by {
        assert("zsh"@.len() != "md"@.len());
    }
    assert("zsh"@ != "markdown"@) by {
        assert("zsh"@.len() != "markdown"@.len());
    }
    assert("zsh"@ != "json"@) by {
        assert("zsh"@.len() != "json"@.len());
    }
    assert("zsh"@ != "yaml"@) by {
        assert("zsh"@.len() != "yaml"@.len());
    }
    assert("zsh"@ != "yml"@) by {
        assert("zsh"@[0] != "yml"@[0]);
    }
    assert("zsh"@ != "toml"@) by {
        assert("zsh"@.len() != "toml"@.len());
    }
    assert("zsh"@ != "xml"@) by {
        assert("zsh"@[0] != "xml"@[0]);
    }
    assert("zsh"@ != "html"@) by {
        assert("zsh"@.len() != "html"@.len());
    }
    assert("zsh"@ != "htm"@) by {
        assert("zsh"@[0] != "htm"@[0]);
    }
    assert("zsh"@ != "css"@) by {
        assert("zsh"@[0] != "css"@[0]);
    }
    assert("zsh"@ != "scss"@) by {
        assert("zsh"@.len() != "scss"@.len());
    }
    assert("zsh"@ != "sass"@) by {
        assert("zsh"@.len() != "sass"@.len());
    }
    assert("zsh"@ != "less"@) by {
        assert("zsh"@.len() != "less"@.len());
    }
    assert("zsh"@ != "sql"@) by {
        assert("zsh"@[0] != "sql"@[0]);
    }
}

proof fn lemma_ext_ps1(e: Seq<char>, n: Option<Seq<char>>)
    ensures
        lowercase(e) == "ps1"@ ==> language_for_spec(Some(e), n) == "powershell"@,
{
    reveal_strlit("bash");
    reveal_strlit("c");
    reveal_strlit("cc");
    reveal_strlit("cjs");
    reveal_strlit("cpp");
    reveal_strlit("cs");
    reveal_strlit("css");
    reveal_strlit("cts");
    reveal_strlit("cxx");
    reveal_strlit("go");
    reveal_strlit("h");
    reveal_strlit("hpp");
    reveal_strlit("htm");
    reveal_strlit("html");
    reveal_strlit("hxx");
    reveal_strlit("java");
    reveal_strlit("js");
    reveal_strlit("json");
    reveal_strlit("jsx");
    reveal_strlit("kt");
    reveal_strlit("kts");
    reveal_strlit("less");
    reveal_strlit("markdown");
    reveal_strlit("md");
    reveal_strlit("mjs");
    reveal_strlit("mts");
    reveal_strlit("php");
    reveal_strlit("powershell");
    reveal_strlit("ps1");
    reveal_strlit("py");
    reveal_strlit("pyi");
    reveal_strlit("pyw");
    reveal_strlit("rb");
    reveal_strlit("rs");
    reveal_strlit("sass");
    reveal_strlit("scala");
    reveal_strlit("scss");
    reveal_strlit("sh");
    reveal_strlit("sql");
    reveal_strlit("swift");
    reveal_strlit("toml");
    reveal_strlit("ts");
    reveal_strlit("tsx");
    reveal_strlit("xml");
    reveal_strlit("yaml");
    reveal_strlit("yml");
    reveal_strlit("zsh");
    assert("ps1"@ != "py"@) by {
        assert("ps1"@.len() != "py"@.len());
    }
    assert("ps1"@ != "pyi"@) by {
        assert("ps1"@[1] != "pyi"@[1]);
    }
    assert("ps1"@ != "pyw"@) by {
        assert("ps1"@[1] != "pyw"@[1]);
    }
    assert("ps1"@ != "ts"@) by {
        assert("ps1"@.len() != "ts"@.len());
    }
    assert("ps1"@ != "tsx"@) by {
        assert("ps1"@[0] != "tsx"@[0]);
    }
    assert("ps1"@ != "mts"@) by {
        assert("ps1"@[0] != "mts"@[0]);
    }
    assert("ps1"@ != "cts"@) by {
        assert("ps1"@[0] != "cts"@[0]);
    }
    assert("ps1"@ != "rs"@) by {
        assert("ps1"@.len() != "rs"@.len());
    }
    assert("ps1"@ != "js"@) by {
        assert("ps1"@.len() != "js"@.len());
    }
    assert("ps1"@ != "jsx"@) by {
        assert("ps1"@[0] != "jsx"@[0]);
    }
    assert("ps1"@ != "mjs"@) by {
        assert("ps1"@[0] != "mjs"@[0]);
    }
    assert("ps1"@ != "cjs"@) by {
        assert("ps1"@[0] != "cjs"@[0]);
    }
    assert("ps1"@ != "go"@) by {
        assert("ps1"@.len() != "go"@.len());
    }
    assert("ps1"@ != "java"@) by {
        assert("ps1"@.len() != "java"@.len());
    }
    assert("ps1"@ != "c"@) by {
        assert("ps1"@.len() != "c"@.len());
    }
    assert("ps1"@ != "h"@) by {
        assert("ps1"@.len() != "h"@.len());
    }
    assert("ps1"@ != "cpp"@) by {
        assert("ps1"@[0] != "cpp"@[0]);
    }
    assert("ps1"@ != "cc"@) by {
        assert("ps1"@.len() != "cc"@.len());
    }
    assert("ps1"@ != "cxx"@) by {
        assert("ps1"@[0] != "cxx"@[0]);
    }
    assert("ps1"@ != "hpp"@) by {
        assert("ps1"@[0] != "hpp"@[0]);
    }
    assert("ps1"@ != "hxx"@) by {
        assert("ps1"@[0] != "hxx"@[0]);
    }
    assert("ps1"@ != "cs"@) by {
        assert("ps1"@.len() != "cs"@.len());
    }
    assert("ps1"@ != "rb"@) by {
        assert("ps1"@.len() != "rb"@.len());
    }
    assert("ps1"@ != "php"@) by {
        assert("ps1"@[1] != "php"@[1]);
    }
    assert("ps1"@ != "swift"@) by {
        assert("ps1"@.len() != "swift"@.len());
    }
    assert("ps1"@ != "kt"@) by {
        assert("ps1"@.len() != "kt"@.len());
    }
    assert("ps1"@ != "kts"@) by {
        assert("ps1"@[0] != "kts"@[0]);
    }
    assert("ps1"@ != "scala"@) by {
        assert("ps1"@.len() != "scala"@.len());
    }
    assert("ps1"@ != "md"@) by {
        assert("ps1"@.len() != "md"@.len());
    }
    assert("ps1"@ != "markdown"@) by {
        assert("ps1"@.len() != "markdown"@.len());
    }
    assert("ps1"@ != "json"@) by {
        assert("ps1"@.len() != "json"@.len());
    }
    assert("ps1"@ != "yaml"@) by {
        assert("ps1"@.len() != "yaml"@.len());
    }
    assert("ps1"@ != "yml"@) by {
        assert("ps1"@[0] != "yml"@[0]);
    }
    assert("ps1"@ != "toml"@) by {
        assert("ps1"@.len() != "toml"@.len());
    }
    assert("ps1"@ != "xml"@) by {
        assert("ps1"@[0] != "xml"@[0]);
    }
    assert("ps1"@ != "html"@) by {
        assert("ps1"@.len() != "html"@.len());
    }
    assert("ps1"@ != "htm"@) by {
        assert("ps1"@[0] != "htm"@[0]);
    }
    assert("ps1"@ != "css"@) by {
        assert("ps1"@[0] != "css"@[0]);
    }
    assert("ps1"@ != "scss"@) by {
        assert("ps1"@.len() != "scss"@.len());
    }
    assert("ps1"@ != "sass"@) by {
        assert("ps1"@.len() != "sass"@.len());
    }
    assert("ps1"@ != "less"@) by {
        assert("ps1"@.len() != "less"@.len());
    }
    assert("ps1"@ != "sql"@) by {
        assert("ps1"@[0] != "sql"@[0]);
    }
    assert("ps1"@ != "sh"@) by {
        assert("ps1"@.len() != "sh"@.len());
    }
    assert("ps1"@ != "bash"@) by {
        assert("ps1"@.len() != "bash"@.len());
    }
    assert("ps1"@ != "zsh"@) by {
        assert("ps1"@[0] != "zsh"@[0]);
    }
}

proof fn lemma_ext_psm1(e: Seq<char>, n: Option<Seq<char>>)
    ensures
        lowercase(e) == "psm1"@ ==> language_for_spec(Some(e), n) == "powershell"@,
{
    reveal_strlit("bash");
    reveal_strlit("c");
    reveal_strlit("cc");
    reveal_strlit("cjs");
    reveal_strlit("cpp");
    reveal_strlit("cs");
    reveal_strlit("css");
    reveal_strlit("cts");
    reveal_strlit("cxx");
    reveal_strlit("go");
    reveal_strlit("h");
    reveal_strlit("hpp");
    reveal_strlit("htm");
    reveal_strlit("html");
    reveal_strlit("hxx");
    reveal_strlit("java");
    reveal_strlit("js");
    reveal_strlit("json");
    reveal_strlit("jsx");
    reveal_strlit("kt");
    reveal_strlit("kts");
    reveal_strlit("less");
    reveal_strlit("markdown");
    reveal_strlit("md");
    reveal_strlit("mjs");
    reveal_strlit("mts");
    reveal_strlit("php");
    reveal_strlit("powershell");
    reveal_strlit("psm1");
    reveal_strlit("py");
    reveal_strlit("pyi");
    reveal_strlit("pyw");
    reveal_strlit("rb");
    reveal_strlit("rs");
    reveal_strlit("sass");
    reveal_strlit("scala");
    reveal_strlit("scss");
    reveal_strlit("sh");
    reveal_strlit("sql");
    reveal_strlit("swift");
    reveal_strlit("toml");
    reveal_strlit("ts");
    reveal_strlit("tsx");
    reveal_strlit("xml");
    reveal_strlit("yaml");
    reveal_strlit("yml");
    reveal_strlit("zsh");
    assert("psm1"@ != "py"@) by {
        assert("psm1"@.len() != "py"@.len());
    }
    assert("psm1"@ != "pyi"@) by {
        assert("psm1"@.len() != "pyi"@.len());
    }
    assert("psm1"@ != "pyw"@) by {
        assert("psm1"@.len() != "pyw"@.len());
    }
    assert("psm1"@ != "ts"@) by {
        assert("psm1"@.len() != "ts"@.len());
    }
    assert("psm1"@ != "tsx"@) by {
        assert("psm1"@.len() != "tsx"@.len());
    }
    assert("psm1"@ != "mts"@) by {
        assert("psm1"@.len() != "mts"@.len());
    }
    assert("psm1"@ != "cts"@) by {
        assert("psm1"@.len() != "cts"@.len());
    }
    assert("psm1"@ != "rs"@) by {
        assert("psm1"@.len() != "rs"@.len());
    }
    assert("psm1"@ != "js"@) by {
        assert("psm1"@.len() != "js"@.len());
    }
    assert("psm1"@ != "jsx"@) by {
        assert("psm1"@.len() != "jsx"@.len());
    }
    assert("psm1"@ != "mjs"@) by {
        assert("psm1"@.len() != "mjs"@.len());
    }
    assert("psm1"@ != "cjs"@) by {
        assert("psm1"@.len() != "cjs"@.len());
    }
    assert("psm1"@ != "go"@) by {
        assert("psm1"@.len() != "go"@.len());
    }
    assert("psm1"@ != "java"@) by {
        assert("psm1"@[0] != "java"@[0]);
    }
    assert("psm1"@ != "c"@) by {
        assert("psm1"@.len() != "c"@.len());
    }
    assert("psm1"@ != "h"@) by {
        assert("psm1"@.len() != "h"@.len());
    }
    assert("psm1"@ != "cpp"@) by {
        assert("psm1"@.len() != "cpp"@.len());
    }
    assert("psm1"@ != "cc"@) by {
        assert("psm1"@.len() != "cc"@.len());
    }
    assert("psm1"@ != "cxx"@) by {
        assert("psm1"@.len() != "cxx"@.len());
    }
    assert("psm1"@ != "hpp"@) by {
        assert("psm1"@.len() != "hpp"@.len());
    }
    assert("psm1"@ != "hxx"@) by {
        assert("psm1"@.len() != "hxx"@.len());
    }
    assert("psm1"@ != "cs"@) by {
        assert("psm1"@.len() != "cs"@.len());
    }
    assert("psm1"@ != "rb"@) by {
        assert("psm1"@.len() != "rb"@.len());
    }
    assert("psm1"@ != "php"@) by {
        assert("psm1"@.len() != "php"@.len());
    }
    assert("psm1"@ != "swift"@) by {
        assert("psm1"@.len() != "swift"@.len());
    }
    assert("psm1"@ != "kt"@) by {
        assert("psm1"@.len() != "kt"@.len());
    }
    assert("psm1"@ != "kts"@) by {
        assert("psm1"@.len() != "kts"@.len());
    }
    assert("psm1"@ != "scala"@) by {
        assert("psm1"@.len() != "scala"@.len());
    }
    assert("psm1"@ != "md"@) by {
        assert("psm1"@.len() != "md"@.len());
    }
    assert("psm1"@ != "markdown"@) by {
        assert("psm1"@.len() != "markdown"@.len());
    }
    assert("psm1"@ != "json"@) by {
        assert("psm1"@[0] != "json"@[0]);
    }
    assert("psm1"@ != "yaml"@) by {
        assert("psm1"@[0] != "yaml"@[0]);
    }
    assert("psm1"@ != "yml"@) by {
        assert("psm1"@.len() != "yml"@.len());
    }
    assert("psm1"@ != "toml"@) by {
        assert("psm1"@[0] != "toml"@[0]);
    }
    assert("psm1"@ != "xml"@) by {
        assert("psm1"@.len() != "xml"@.len());
    }
    assert("psm1"@ != "html"@) by {
        assert("psm1"@[0] != "html"@[0]);
    }
    assert("psm1"@ != "htm"@) by {
        assert("psm1"@.len() != "htm"@.len());
    }
    assert("psm1"@ != "css"@) by {
        assert("psm1"@.len() != "css"@.len());
    }
    assert("psm1"@ != "scss"@) by {
        assert("psm1"@[0] != "scss"@[0]);
    }
    assert("psm1"@ != "sass"@) by {
        assert("psm1"@[0] != "sass"@[0]);
    }
    assert("psm1"@ != "less"@) by {
        assert("psm1"@[0] != "less"@[0]);
    }
    assert("psm1"@ != "sql"@) by {
        assert("psm1"@.len() != "sql"@.len());
    }
    assert("psm1"@ != "sh"@) by {
        assert("psm1"@.len() != "sh"@.len());
    }
    assert("psm1"@ != "bash"@) by {
        assert("psm1"@[0] != "bash"@[0]);
    }
    assert("psm1"@ != "zsh"@) by {
        assert("psm1"@.len() != "zsh"@.len());
    }
}

proof fn lemma_ext_psd1(e: Seq<char>, n: Option<Seq<char>>)
    ensures
        lowercase(e) == "psd1"@ ==> language_for_spec(Some(e), n) == "powershell"@,
{
    reveal_strlit("bash");
    reveal_strlit("c");
    reveal_strlit("cc");
    reveal_strlit("cjs");
    reveal_strlit("cpp");
    reveal_strlit("cs");
    reveal_strlit("css");
    reveal_strlit("cts");
    reveal_strlit("cxx");
    reveal_strlit("go");
    reveal_strlit("h");
    reveal_strlit("hpp");
    reveal_strlit("htm");
    reveal_strlit("html");
    reveal_strlit("hxx");
    reveal_strlit("java");
    reveal_strlit("js");
    reveal_strlit("json");
    reveal_strlit("jsx");
    reveal_strlit("kt");
    reveal_strlit("kts");
    reveal_strlit("less");
    reveal_strlit("markdown");
    reveal_strlit("md");
    reveal_strlit("mjs");
    reveal_strlit("mts");
    reveal_strlit("php");
    reveal_strlit("powershell");
    reveal_strlit("psd1");
    reveal_strlit("py");
    reveal_strlit("pyi");
    reveal_strlit("pyw");
    reveal_strlit("rb");
    reveal_strlit("rs");
    reveal_strlit("sass");
    reveal_strlit("scala");
    reveal_strlit("scss");
    reveal_strlit("sh");
    reveal_strlit("sql");
    reveal_strlit("swift");
    reveal_strlit("toml");
    reveal_strlit("ts");
    reveal_strlit("tsx");
    reveal_strlit("xml");
    reveal_strlit("yaml");
    reveal_strlit("yml");
    reveal_strlit("zsh");
    assert("psd1"@ != "py"@) by {
        assert("psd1"@.len() != "py"@.len());
    }
    assert("psd1"@ != "pyi"@) by {
        assert("psd1"@.len() != "pyi"@.len());
    }
    assert("psd1"@ != "pyw"@) by {
        assert("psd1"@.len() != "pyw"@.len());
    }
    assert("psd1"@ != "ts"@) by {
        assert("psd1"@.len() != "ts"@.len());
    }
    assert("psd1"@ != "tsx"@) by {
        assert("psd1"@.len() != "tsx"@.len());
    }
    assert("psd1"@ != "mts"@) by {
        assert("psd1"@.len() != "mts"@.len());
    }
    assert("psd1"@ != "cts"@) by {
        assert("psd1"@.len() != "cts"@.len());
    }
    assert("psd1"@ != "rs"@) by {
        assert("psd1"@.len() != "rs"@.len());
    }
    assert("psd1"@ != "js"@) by {
        assert("psd1"@.len() != "js"@.len());
    }
    assert("psd1"@ != "jsx"@) by {
        assert("psd1"@.len() != "jsx"@.len());
    }
    assert("psd1"@ != "mjs"@) by {
        assert("psd1"@.len() != "mjs"@.len());
    }
    assert("psd1"@ != "cjs"@) by {
        assert("psd1"@.len() != "cjs"@.len());
    }
    assert("psd1"@ != "go"@) by {
        assert("psd1"@.len() != "go"@.len());
    }
    assert("psd1"@ != "java"@) by {
        assert("psd1"@[0] != "java"@[0]);
    }
    assert("psd1"@ != "c"@) by {
        assert("psd1"@.len() != "c"@.len());
    }
    assert("psd1"@ != "h"@) by {
        assert("psd1"@.len() != "h"@.len());
    }
    assert("psd1"@ != "cpp"@) by {
        assert("psd1"@.len() != "cpp"@.len());
    }
    assert("psd1"@ != "cc"@) by {
        assert("psd1"@.len() != "cc"@.len());
    }
    assert("psd1"@ != "cxx"@) by {
        assert("psd1"@.len() != "cxx"@.len());
    }
    assert("psd1"@ != "hpp"@) by {
        assert("psd1"@.len() != "hpp"@.len());
    }
    assert("psd1"@ != "hxx"@) by {
        assert("psd1"@.len() != "hxx"@.len());
    }
    assert("psd1"@ != "cs"@) by {
        assert("psd1"@.len() != "cs"@.len());
    }
    assert("psd1"@ != "rb"@) by {
        assert("psd1"@.len() != "rb"@.len());
    }
    assert("psd1"@ != "php"@) by {
        assert("psd1"@.len() != "php"@.len());
    }
    assert("psd1"@ != "swift"@) by {
        assert("psd1"@.len() != "swift"@.len());
    }
    assert("psd1"@ != "kt"@) by {
        assert("psd1"@.len() != "kt"@.len());
    }
    assert("psd1"@ != "kts"@) by {
        assert("psd1"@.len() != "kts"@.len());
    }
    assert("psd1"@ != "scala"@) by {
        assert("psd1"@.len() != "scala"@.len());
    }
    assert("psd1"@ != "md"@) by {
        assert("psd1"@.len() != "md"@.len());
    }
    assert("psd1"@ != "markdown"@) by {
        assert("psd1"@.len() != "markdown"@.len());
    }
    assert("psd1"@ != "json"@) by {
        assert("psd1"@[0] != "json"@[0]);
    }
    assert("psd1"@ != "yaml"@) by {
        assert("psd1"@[0] != "yaml"@[0]);
    }
    assert("psd1"@ != "yml"@) by {
        assert("psd1"@.len() != "yml"@.len());
    }
    assert("psd1"@ != "toml"@) by {
        assert("psd1"@[0] != "toml"@[0]);
    }
    assert("psd1"@ != "xml"@) by {
        assert("psd1"@.len() != "xml"@.len());
    }
    assert("psd1"@ != "html"@) by {
        assert("psd1"@[0] != "html"@[0]);
    }
    assert("psd1"@ != "htm"@) by {
        assert("psd1"@.len() != "htm"@.len());
    }
    assert("psd1"@ != "css"@) by {
        assert("psd1"@.len() != "css"@.len());
    }
    assert("psd1"@ != "scss"@) by {
        assert("psd1"@[0] != "scss"@[0]);
    }
    assert("psd1"@ != "sass"@) by {
        assert("psd1"@[0] != "sass"@[0]);
    }
    assert("psd1"@ != "less"@) by {
        assert("psd1"@[0] != "less"@[0]);
    }
    assert("psd1"@ != "sql"@) by {
        assert("psd1"@.len() != "sql"@.len());
    }
    assert("psd1"@ != "sh"@) by {
        assert("psd1"@.len() != "sh"@.len());
    }
    assert("psd1"@ != "bash"@) by {
        assert("psd1"@[0] != "bash"@[0]);
    }
    assert("psd1"@ != "zsh"@) by {
        assert("psd1"@.len() != "zsh"@.len());
    }
}

proof fn lemma_ext_txt(e: Seq<char>, n: Option<Seq<char>>)
    ensures
        lowercase(e) == "txt"@ ==> language_for_spec(Some(e), n) == "text"@,
{
    reveal_strlit("bash");
    reveal_strlit("c");
    reveal_strlit("cc");
    reveal_strlit("cjs");
    reveal_strlit("cpp");
    reveal_strlit("cs");
    reveal_strlit("css");
    reveal_strlit("cts");
    reveal_strlit("cxx");
    reveal_strlit("go");
    reveal_strlit("h");
    reveal_strlit("hpp");
    reveal_strlit("htm");
    reveal_strlit("html");
    reveal_strlit("hxx");
    reveal_strlit("java");
    reveal_strlit("js");
    reveal_strlit("json");
    reveal_strlit("jsx");
    reveal_strlit("kt");
    reveal_strlit("kts");
    reveal_strlit("less");
    reveal_strlit("markdown");
    reveal_strlit("md");
    reveal_strlit("mjs");
    reveal_strlit("mts");
    reveal_strlit("php");
    reveal_strlit("ps1");
    reveal_strlit("psd1");
    reveal_strlit("psm1");
    reveal_strlit("py");
    reveal_strlit("pyi");
    reveal_strlit("pyw");
    reveal_strlit("rb");
    reveal_strlit("rs");
    reveal_strlit("sass");
    reveal_strlit("scala");
    reveal_strlit("scss");
    reveal_strlit("sh");
    reveal_strlit("sql");
    reveal_strlit("swift");
    reveal_strlit("text");
    reveal_strlit("toml");
    reveal_strlit("ts");
    reveal_strlit("tsx");
    reveal_strlit("txt");
    reveal_strlit("xml");
    reveal_strlit("yaml");
    reveal_strlit("yml");
    reveal_strlit("zsh");
    assert("txt"@ != "py"@) by {
        assert("txt"@.len() != "py"@.len());
    }
    assert("txt"@ != "pyi"@) by {
        assert("txt"@[0] != "pyi"@[0]);
    }
    assert("txt"@ != "pyw"@) by {
        assert("txt"@[0] != "pyw"@[0]);
    }
    assert("txt"@ != "ts"@) by {
        assert("txt"@.len() != "ts"@.len());
    }
    assert("txt"@ != "tsx"@) by {
        assert("txt"@[1] != "tsx"@[1]);
    }
    assert("txt"@ != "mts"@) by {
        assert("txt"@[0] != "mts"@[0]);
    }
    assert("txt"@ != "cts"@) by {
        assert("txt"@[0] != "cts"@[0]);
    }
    assert("txt"@ != "rs"@) by {
        assert("txt"@.len() != "rs"@.len());
    }
    assert("txt"@ != "js"@) by {
        assert("txt"@.len() != "js"@.len());
    }
    assert("txt"@ != "jsx"@) by {
        assert("txt"@[0] != "jsx"@[0]);
    }
    assert("txt"@ != "mjs"@) by {
        assert("txt"@[0] != "mjs"@[0]);
    }
    assert("txt"@ != "cjs"@) by {
        assert("txt"@[0] != "cjs"@[0]);
    }
    assert("txt"@ != "go"@) by {
        assert("txt"@.len() != "go"@.len());
    }
    assert("txt"@ != "java"@) by {
        assert("txt"@.len() != "java"@.len());
    }
    assert("txt"@ != "c"@) by {
        assert("txt"@.len() != "c"@.len());
    }
    assert("txt"@ != "h"@) by {
        assert("txt"@.len() != "h"@.len());
    }
    assert("txt"@ != "cpp"@) by {
        assert("txt"@[0] != "cpp"@[0]);
    }
    assert("txt"@ != "cc"@) by {
        assert("txt"@.len() != "cc"@.len());
    }
    assert("txt"@ != "cxx"@) by {
        assert("txt"@[0] != "cxx"@[0]);
    }
    assert("txt"@ != "hpp"@) by {
        assert("txt"@[0] != "hpp"@[0]);
    }
    assert("txt"@ != "hxx"@) by {
        assert("txt"@[0] != "hxx"@[0]);
    }
    assert("txt"@ != "cs"@) by {
        assert("txt"@.len() != "cs"@.len());
    }
    assert("txt"@ != "rb"@) by {
        assert("txt"@.len() != "rb"@.len());
    }
    assert("txt"@ != "php"@) by {
        assert("txt"@[0] != "php"@[0]);
    }
    assert("txt"@ != "swift"@) by {
        assert("txt"@.len() != "swift"@.len());
    }
    assert("txt"@ != "kt"@) by {
        assert("txt"@.len() != "kt"@.len());
    }
    assert("txt"@ != "kts"@) by {
        assert("txt"@[0] != "kts"@[0]);
    }
    assert("txt"@ != "scala"@) by {
        assert("txt"@.len() != "scala"@.len());
    }
    assert("txt"@ != "md"@) by {
        assert("txt"@.len() != "md"@.len());
    }
    assert("txt"@ != "markdown"@) by {
        assert("txt"@.len() != "markdown"@.len());
    }
    assert("txt"@ != "json"@) by {
        assert("txt"@.len() != "json"@.len());
    }
    assert("txt"@ != "yaml"@) by {
        assert("txt"@.len() != "yaml"@.len());
    }
    assert("txt"@ != "yml"@) by {
        assert("txt"@[0] != "yml"@[0]);
    }
    assert("txt"@ != "toml"@) by {
        assert("txt"@.len() != "toml"@.len());
    }
    assert("txt"@ != "xml"@) by {
        assert("txt"@[0] != "xml"@[0]);
    }
    assert("txt"@ != "html"@) by {
        assert("txt"@.len() != "html"@.len());
    }
    assert("txt"@ != "htm"@) by {
        assert("txt"@[0] != "htm"@[0]);
    }
    assert("txt"@ != "css"@) by {
        assert("txt"@[0] != "css"@[0]);
    }
    assert("txt"@ != "scss"@) by {
        assert("txt"@.len() != "scss"@.len());
    }
    assert("txt"@ != "sass"@) by {
        assert("txt"@.len() != "sass"@.len());
    }
    assert("txt"@ != "less"@) by {
        assert("txt"@.len() != "less"@.len());
    }
    assert("txt"@ != "sql"@) by {
        assert("txt"@[0] != "sql"@[0]);
    }
    assert("txt"@ != "sh"@) by {
        assert("txt"@.len() != "sh"@.len());
    }
    assert("txt"@ != "bash"@) by {
        assert("txt"@.len() != "bash"@.len());
    }
    assert("txt"@ != "zsh"@) by {
        assert("txt"@[0] != "zsh"@[0]);
    }
    assert("txt"@ != "ps1"@) by {
        assert("txt"@[0] != "ps1"@[0]);
    }
    assert("txt"@ != "psm1"@) by {
        assert("txt"@.len() != "psm1"@.len());
    }
    assert("txt"@ != "psd1"@) by {
        assert("txt"@.len() != "psd1"@.len());
    }
}

proof fn lemma_name_makefile(f: Seq<char>)
    ensures
        lowercase(f) == "makefile"@ ==> language_for_spec(None, Some(f)) == "makefile"@,
{
    reveal_strlit("makefile");
}

proof fn lemma_name_gnumakefile(f: Seq<char>)
    ensures
        lowercase(f) == "gnumakefile"@ ==> language_for_spec(None, Some(f)) == "makefile"@,
{
    reveal_strlit("gnumakefile");
    reveal_strlit("makefile");
}

proof fn lemma_name_dockerfile(f: Seq<char>)
    ensures
        lowercase(f) == "dockerfile"@ ==> language_for_spec(None, Some(f)) == "dockerfile"@,
{
    reveal_strlit("dockerfile");
    reveal_strlit("gnumakefile");
    reveal_strlit("makefile");
    assert("dockerfile"@ != "makefile"@) by {
        assert("dockerfile"@.len() != "makefile"@.len());
    }
    assert("dockerfile"@ != "gnumakefile"@) by {
        assert("dockerfile"@.len() != "gnumakefile"@.len());
    }
}

proof fn lemma_name_jenkinsfile(f: Seq<char>)
    ensures
        lowercase(f) == "jenkinsfile"@ ==> language_for_spec(None, Some(f)) == "groovy"@,
{
    reveal_strlit("dockerfile");
    reveal_strlit("gnumakefile");
    reveal_strlit("groovy");
    reveal_strlit("jenkinsfile");
    reveal_strlit("makefile");
    assert("jenkinsfile"@ != "makefile"@) by {
        assert("jenkinsfile"@.len() != "makefile"@.len());
    }
    assert("jenkinsfile"@ != "gnumakefile"@) by {
        assert("jenkinsfile"@[0] != "gnumakefile"@[0]);
    }
    assert("jenkinsfile"@ != "dockerfile"@) by {
        assert("jenkinsfile"@.len() != "dockerfile"@.len());
    }
}

proof fn lemma_name_vagrantfile(f: Seq<char>)
    ensures
        lowercase(f) == "vagrantfile"@ ==> language_for_spec(None, Some(f)) == "ruby"@,
{
    reveal_strlit("dockerfile");
    reveal_strlit("gnumakefile");
    reveal_strlit("jenkinsfile");
    reveal_strlit("makefile");
    reveal_strlit("ruby");
    reveal_strlit("vagrantfile");
    assert("vagrantfile"@ != "makefile"@) by {
        assert("vagrantfile"@.len() != "makefile"@.len());
    }
    assert("vagrantfile"@ != "gnumakefile"@) by {
        assert("vagrantfile"@[0] != "gnumakefile"@[0]);
    }
    assert("vagrantfile"@ != "dockerfile"@) by {
        assert("vagrantfile"@.len() != "dockerfile"@.len());
    }
    assert("vagrantfile"@ != "jenkinsfile"@) by {
        assert("vagrantfile"@[0] != "jenkinsfile"@[0]);
    }
}

proof fn lemma_name_rakefile(f: Seq<char>)
    ensures
        lowercase(f) == "rakefile"@ ==> language_for_spec(None, Some(f)) == "ruby"@,
{
    reveal_strlit("dockerfile");
    reveal_strlit("gnumakefile");
    reveal_strlit("jenkinsfile");
    reveal_strlit("makefile");
    reveal_strlit("rakefile");
    reveal_strlit("ruby");
    assert("rakefile"@ != "makefile"@) by {
        assert("rakefile"@[0] != "makefile"@[0]);
    }
    assert("rakefile"@ != "gnumakefile"@) by {
        assert("rakefile"@.len() != "gnumakefile"@.len());
    }
    assert("rakefile"@ != "dockerfile"@) by {
        assert("rakefile"@.len() != "dockerfile"@.len());
    }
    assert("rakefile"@ != "jenkinsfile"@) by {
        assert("rakefile"@.len() != "jenkinsfile"@.len());
    }
}

proof fn lemma_name_gemfile(f: Seq<char>)
    ensures
        lowercase(f) == "gemfile"@ ==> language_for_spec(None, Some(f)) == "ruby"@,
{
    reveal_strlit("dockerfile");
    reveal_strlit("gemfile");
    reveal_strlit("gnumakefile");
    reveal_strlit("jenkinsfile");
    reveal_strlit("makefile");
    reveal_strlit("ruby");
    assert("gemfile"@ != "makefile"@) by {
        assert("gemfile"@.len() != "makefile"@.len());
    }
    assert("gemfile"@ != "gnumakefile"@) by {
        assert("gemfile"@.len() != "gnumakefile"@.len());
    }
    assert("gemfile"@ != "dockerfile"@) by {
        assert("gemfile"@.len() != "dockerfile"@.len());
    }
    assert("gemfile"@ != "jenkinsfile"@) by {
        assert("gemfile"@.len() != "jenkinsfile"@.len());
    }
}

proof fn lemma_name__gitignore(f: Seq<char>)
    ensures
        lowercase(f) == ".gitignore"@ ==> language_for_spec(None, Some(f)) == "git"@,
{
    reveal_strlit(".gitignore");
    reveal_strlit("dockerfile");
    reveal_strlit("gemfile");
    reveal_strlit("git");
    reveal_strlit("gnumakefile");
    reveal_strlit("jenkinsfile");
    reveal_strlit("makefile");
    reveal_strlit("rakefile");
    reveal_strlit("vagrantfile");
    assert(".gitignore"@ != "makefile"@) by {
        assert(".gitignore"@.len() != "makefile"@.len());
    }
    assert(".gitignore"@ != "gnumakefile"@) by {
        assert(".gitignore"@.len() != "gnumakefile"@.len());
    }
    assert(".gitignore"@ != "dockerfile"@) by {
        assert(".gitignore"@[0] != "dockerfile"@[0]);
    }
    assert(".gitignore"@ != "jenkinsfile"@) by {
        assert(".gitignore"@.len() != "jenkinsfile"@.len());
    }
    assert(".gitignore"@ != "vagrantfile"@) by {
        assert(".gitignore"@.len() != "vagrantfile"@.len());
    }
    assert(".gitignore"@ != "rakefile"@) by {
        assert(".gitignore"@.len() != "rakefile"@.len());
    }
    assert(".gitignore"@ != "gemfile"@) by {
        assert(".gitignore"@.len() != "gemfile"@.len());
    }
}

proof fn lemma_name__gitattributes(f: Seq<char>)
    ensures
        lowercase(f) == ".gitattributes"@ ==> language_for_spec(None, Some(f)) == "git"@,
{
    reveal_strlit(".gitattributes");
    reveal_strlit("dockerfile");
    reveal_strlit("gemfile");
    reveal_strlit("git");
    reveal_strlit("gnumakefile");
    reveal_strlit("jenkinsfile");
    reveal_strlit("makefile");
    reveal_strlit("rakefile");
    reveal_strlit("vagrantfile");
    assert(".gitattributes"@ != "makefile"@) by {
        assert(".gitattributes"@.len() != "makefile"@.len());
    }
    assert(".gitattributes"@ != "gnumakefile"@) by {
        assert(".gitattributes"@.len() != "gnumakefile"@.len());
    }
    assert(".gitattributes"@ != "dockerfile"@) by {
        assert(".gitattributes"@.len() != "dockerfile"@.len());
    }
    assert(".gitattributes"@ != "jenkinsfile"@) by {
        assert(".gitattributes"@.len() != "jenkinsfile"@.len());
    }
    assert(".gitattributes"@ != "vagrantfile"@) by {
        assert(".gitattributes"@.len() != "vagrantfile"@.len());
    }
    assert(".gitattributes"@ != "rakefile"@) by {
        assert(".gitattributes"@.len() != "rakefile"@.len());
    }
    assert(".gitattributes"@ != "gemfile"@) by {
        assert(".gitattributes"@.len() != "gemfile"@.len());
    }
}

proof fn lemma_name__gitmodules(f: Seq<char>)
    ensures
        lowercase(f) == ".gitmodules"@ ==> language_for_spec(None, Some(f)) == "git"@,
{
    reveal_strlit(".gitmodules");
    reveal_strlit("dockerfile");
    reveal_strlit("gemfile");
    reveal_strlit("git");
    reveal_strlit("gnumakefile");
    reveal_strlit("jenkinsfile");
    reveal_strlit("makefile");
    reveal_strlit("rakefile");
    reveal_strlit("vagrantfile");
    assert(".gitmodules"@ != "makefile"@) by {
        assert(".gitmodules"@.len() != "makefile"@.len());
    }
    assert(".gitmodules"@ != "gnumakefile"@) by {
        assert(".gitmodules"@[0] != "gnumakefile"@[0]);
    }
    assert(".gitmodules"@ != "dockerfile"@) by {
        assert(".gitmodules"@.len() != "dockerfile"@.len());
    }
    assert(".gitmodules"@ != "jenkinsfile"@) by {
        assert(".gitmodules"@[0] != "jenkinsfile"@[0]);
    }
    assert(".gitmodules"@ != "vagrantfile"@) by {
        assert(".gitmodules"@[0] != "vagrantfile"@[0]);
    }
    assert(".gitmodules"@ != "rakefile"@) by {
        assert(".gitmodules"@.len() != "rakefile"@.len());
    }
    assert(".gitmodules"@ != "gemfile"@) by {
        assert(".gitmodules"@.len() != "gemfile"@.len());
    }
}

proof fn lemma_name__env(f: Seq<char>)
    ensures
        lowercase(f) == ".env"@ ==> language_for_spec(None, Some(f)) == "env"@,
{
    reveal_strlit(".env");
    reveal_strlit(".gitattributes");
    reveal_strlit(".gitignore");
    reveal_strlit(".gitmodules");
    reveal_strlit("dockerfile");
    reveal_strlit("env");
    reveal_strlit("gemfile");
    reveal_strlit("gnumakefile");
    reveal_strlit("jenkinsfile");
    reveal_strlit("makefile");
    reveal_strlit("rakefile");
    reveal_strlit("vagrantfile");
    assert(".env"@ != "makefile"@) by {
        assert(".env"@.len() != "makefile"@.len());
    }
    assert(".env"@ != "gnumakefile"@) by {
        assert(".env"@.len() != "gnumakefile"@.len());
    }
    assert(".env"@ != "dockerfile"@) by {
        assert(".env"@.len() != "dockerfile"@.len());
    }
    assert(".env"@ != "jenkinsfile"@) by {
        assert(".env"@.len() != "jenkinsfile"@.len());
    }
    assert(".env"@ != "vagrantfile"@) by {
        assert(".env"@.len() != "vagrantfile"@.len());
    }
    assert(".env"@ != "rakefile"@) by {
        assert(".env"@.len() != "rakefile"@.len());
    }
    assert(".env"@ != "gemfile"@) by {
        assert(".env"@.len() != "gemfile"@.len());
    }
    assert(".env"@ != ".gitignore"@) by {
        assert(".env"@.len() != ".gitignore"@.len());
    }
    assert(".env"@ != ".gitattributes"@) by {
        assert(".env"@.len() != ".gitattributes"@.len());
    }
    assert(".env"@ != ".gitmodules"@) by {
        assert(".env"@.len() != ".gitmodules"@.len());
    }
}

proof fn lemma_name__env_example(f: Seq<char>)
    ensures
        lowercase(f) == ".env.example"@ ==> language_for_spec(None, Some(f)) == "env"@,
{
    reveal_strlit(".env.example");
    reveal_strlit(".gitattributes");
    reveal_strlit(".gitignore");
    reveal_strlit(".gitmodules");
    reveal_strlit("dockerfile");
    reveal_strlit("env");
    reveal_strlit("gemfile");
    reveal_strlit("gnumakefile");
    reveal_strlit("jenkinsfile");
    reveal_strlit("makefile");
    reveal_strlit("rakefile");
    reveal_strlit("vagrantfile");
    assert(".env.example"@ != "makefile"@) by {
        assert(".env.example"@.len() != "makefile"@.len());
    }
    assert(".env.example"@ != "gnumakefile"@) by {
        assert(".env.example"@.len() != "gnumakefile"@.len());
    }
    assert(".env.example"@ != "dockerfile"@) by {
        assert(".env.example"@.len() != "dockerfile"@.len());
    }
    assert(".env.example"@ != "jenkinsfile"@) by {
        assert(".env.example"@.len() != "jenkinsfile"@.len());
    }
    assert(".env.example"@ != "vagrantfile"@) by {
        assert(".env.example"@.len() != "vagrantfile"@.len());
    }
    assert(".env.example"@ != "rakefile"@) by {
        assert(".env.example"@.len() != "rakefile"@.len());
    }
    assert(".env.example"@ != "gemfile"@) by {
        assert(".env.example"@.len() != "gemfile"@.len());
    }
    assert(".env.example"@ != ".gitignore"@) by {
        assert(".env.example"@.len() != ".gitignore"@.len());
    }
    assert(".env.example"@ != ".gitattributes"@) by {
        assert(".env.example"@.len() != ".gitattributes"@.len());
    }
    assert(".env.example"@ != ".gitmodules"@) by {
        assert(".env.example"@.len() != ".gitmodules"@.len());
    }
}

proof fn lemma_name__env_local(f: Seq<char>)
    ensures
        lowercase(f) == ".env.local"@ ==> language_for_spec(None, Some(f)) == "env"@,
{
    reveal_strlit(".env.local");
    reveal_strlit(".gitattributes");
    reveal_strlit(".gitignore");
    reveal_strlit(".gitmodules");
    reveal_strlit("dockerfile");
    reveal_strlit("env");
    reveal_strlit("gemfile");
    reveal_strlit("gnumakefile");
    reveal_strlit("jenkinsfile");
    reveal_strlit("makefile");
    reveal_strlit("rakefile");
    reveal_strlit("vagrantfile");
    assert(".env.local"@ != "makefile"@) by {
        assert(".env.local"@.len() != "makefile"@.len());
    }
    assert(".env.local"@ != "gnumakefile"@) by {
        assert(".env.local"@.len() != "gnumakefile"@.len());
    }
    assert(".env.local"@ != "dockerfile"@) by {
        assert(".env.local"@[0] != "dockerfile"@[0]);
    }
    assert(".env.local"@ != "jenkinsfile"@) by {
        assert(".env.local"@.len() != "jenkinsfile"@.len());
    }
    assert(".env.local"@ != "vagrantfile"@) by {
        assert(".env.local"@.len() != "vagrantfile"@.len());
    }
    assert(".env.local"@ != "rakefile"@) by {
        assert(".env.local"@.len() != "rakefile"@.len());
    }
    assert(".env.local"@ != "gemfile"@) by {
        assert(".env.local"@.len() != "gemfile"@.len());
    }
    assert(".env.local"@ != ".gitignore"@) by {
        assert(".env.local"@[1] != ".gitignore"@[1]);
    }
    assert(".env.local"@ != ".gitattributes"@) by {
        assert(".env.local"@.len() != ".gitattributes"@.len());
    }
    assert(".env.local"@ != ".gitmodules"@) by {
        assert(".env.local"@.len() != ".gitmodules"@.len());
    }
}

proof fn lemma_name_license(f: Seq<char>)
    ensures
        lowercase(f) == "license"@ ==> language_for_spec(None, Some(f)) == "text"@,
{
    reveal_strlit(".env");
    reveal_strlit(".env.example");
    reveal_strlit(".env.local");
    reveal_strlit(".gitattributes");
    reveal_strlit(".gitignore");
    reveal_strlit(".gitmodules");
    reveal_strlit("dockerfile");
    reveal_strlit("gemfile");
    reveal_strlit("gnumakefile");
    reveal_strlit("jenkinsfile");
    reveal_strlit("license");
    reveal_strlit("makefile");
    reveal_strlit("rakefile");
    reveal_strlit("text");
    reveal_strlit("vagrantfile");
    assert("license"@ != "makefile"@) by {
        assert("license"@.len() != "makefile"@.len());
    }
    assert("license"@ != "gnumakefile"@) by {
        assert("license"@.len() != "gnumakefile"@.len());
    }
    assert("license"@ != "dockerfile"@) by {
        assert("license"@.len() != "dockerfile"@.len());
    }
    assert("license"@ != "jenkinsfile"@) by {
        assert("license"@.len() != "jenkinsfile"@.len());
    }
    assert("license"@ != "vagrantfile"@) by {
        assert("license"@.len() != "vagrantfile"@.len());
    }
    assert("license"@ != "rakefile"@) by {
        assert("license"@.len() != "rakefile"@.len());
    }
    assert("license"@ != "gemfile"@) by {
        assert("license"@[0] != "gemfile"@[0]);
    }
    assert("license"@ != ".gitignore"@) by {
        assert("license"@.len() != ".gitignore"@.len());
    }
    assert("license"@ != ".gitattributes"@) by {
        assert("license"@.len() != ".gitattributes"@.len());
    }
    assert("license"@ != ".gitmodules"@) by {
        assert("license"@.len() != ".gitmodules"@.len());
    }
    assert("license"@ != ".env"@) by {
        assert("license"@.len() != ".env"@.len());
    }
    assert("license"@ != ".env.example"@) by {
        assert("license"@.len() != ".env.example"@.len());
    }
    assert("license"@ != ".env.local"@) by {
        assert("license"@.len() != ".env.local"@.len());
    }
}

proof fn lemma_name_licence(f: Seq<char>)
    ensures
        lowercase(f) == "licence"@ ==> language_for_spec(None, Some(f)) == "text"@,
{
    reveal_strlit(".env");
    reveal_strlit(".env.example");
    reveal_strlit(".env.local");
    reveal_strlit(".gitattributes");
    reveal_strlit(".gitignore");
    reveal_strlit(".gitmodules");
    reveal_strlit("dockerfile");
    reveal_strlit("gemfile");
    reveal_strlit("gnumakefile");
    reveal_strlit("jenkinsfile");
    reveal_strlit("licence");
    reveal_strlit("makefile");
    reveal_strlit("rakefile");
    reveal_strlit("text");
    reveal_strlit("vagrantfile");
    assert("licence"@ != "makefile"@) by {
        assert("licence"@.len() != "makefile"@.len());
    }
    assert("licence"@ != "gnumakefile"@) by {
        assert("licence"@.len() != "gnumakefile"@.len());
    }
    assert("licence"@ != "dockerfile"@) by {
        assert("licence"@.len() != "dockerfile"@.len());
    }
    assert("licence"@ != "jenkinsfile"@) by {
        assert("licence"@.len() != "jenkinsfile"@.len());
    }
    assert("licence"@ != "vagrantfile"@) by {
        assert("licence"@.len() != "vagrantfile"@.len());
    }
    assert("licence"@ != "rakefile"@) by {
        assert("licence"@.len() != "rakefile"@.len());
    }
    assert("licence"@ != "gemfile"@) by {
        assert("licence"@[0] != "gemfile"@[0]);
    }
    assert("licence"@ != ".gitignore"@) by {
        assert("licence"@.len() != ".gitignore"@.len());
    }
    assert("licence"@ != ".gitattributes"@) by {
        assert("licence"@.len() != ".gitattributes"@.len());
    }
    assert("licence"@ != ".gitmodules"@) by {
        assert("licence"@.len() != ".gitmodules"@.len());
    }
    assert("licence"@ != ".env"@) by {
        assert("licence"@.len() != ".env"@.len());
    }
    assert("licence"@ != ".env.example"@) by {
        assert("licence"@.len() != ".env.example"@.len());
    }
    assert("licence"@ != ".env.local"@) by {
        assert("licence"@.len() != ".env.local"@.len());
    }
}

pub proof fn listed_extensions_name_their_language(e: Seq<char>, n: Option<Seq<char>>)
    ensures
        lowercase(e) == "py"@ ==> language_for_spec(Some(e), n) == "python"@,
        lowercase(e) == "pyi"@ ==> language_for_spec(Some(e), n) == "python"@,
        lowercase(e) == "pyw"@ ==> language_for_spec(Some(e), n) == "python"@,
        lowercase(e) == "ts"@ ==> language_for_spec(Some(e), n) == "typescript"@,
        lowercase(e) == "tsx"@ ==> language_for_spec(Some(e), n) == "typescript"@,
        lowercase(e) == "mts"@ ==> language_for_spec(Some(e), n) == "typescript"@,
        lowercase(e) == "cts"@ ==> language_for_spec(Some(e), n) == "typescript"@,
        lowercase(e) == "rs"@ ==> language_for_spec(Some(e), n) == "rust"@,
        lowercase(e) == "js"@ ==> language_for_spec(Some(e), n) == "javascript"@,
        lowercase(e) == "jsx"@ ==> language_for_spec(Some(e), n) == "javascript"@,
        lowercase(e) == "mjs"@ ==> language_for_spec(Some(e), n) == "javascript"@,
        lowercase(e) == "cjs"@ ==> language_for_spec(Some(e), n) == "javascript"@,
        lowercase(e) == "go"@ ==> language_for_spec(Some(e), n) == "go"@,
        lowercase(e) == "java"@ ==> language_for_spec(Some(e), n) == "java"@,
        lowercase(e) == "c"@ ==> language_for_spec(Some(e), n) == "c"@,
        lowercase(e) == "h"@ ==> language_for_spec(Some(e), n) == "c"@,
        lowercase(e) == "cpp"@ ==> language_for_spec(Some(e), n) == "cpp"@,
        lowercase(e) == "cc"@ ==> language_for_spec(Some(e), n) == "cpp"@,
        lowercase(e) == "cxx"@ ==> language_for_spec(Some(e), n) == "cpp"@,
        lowercase(e) == "hpp"@ ==> language_for_spec(Some(e), n) == "cpp"@,
        lowercase(e) == "hxx"@ ==> language_for_spec(Some(e), n) == "cpp"@,
        lowercase(e) == "cs"@ ==> language_for_spec(Some(e), n) == "csharp"@,
        lowercase(e) == "rb"@ ==> language_for_spec(Some(e), n) == "ruby"@,
        lowercase(e) == "php"@ ==> language_for_spec(Some(e), n) == "php"@,
        lowercase(e) == "swift"@ ==> language_for_spec(Some(e), n) == "swift"@,
        lowercase(e) == "kt"@ ==> language_for_spec(Some(e), n) == "kotlin"@,
        lowercase(e) == "kts"@ ==> language_for_spec(Some(e), n) == "kotlin"@,
        lowercase(e) == "scala"@ ==> language_for_spec(Some(e), n) == "scala"@,
        lowercase(e) == "md"@ ==> language_for_spec(Some(e), n) == "markdown"@,
        lowercase(e) == "markdown"@ ==> language_for_spec(Some(e), n) == "markdown"@,
        lowercase(e) == "json"@ ==> language_for_spec(Some(e), n) == "json"@,
        lowercase(e) == "yaml"@ ==> language_for_spec(Some(e), n) == "yaml"@,
        lowercase(e) == "yml"@ ==> language_for_spec(Some(e), n) == "yaml"@,
        lowercase(e) == "toml"@ ==> language_for_spec(Some(e), n) == "toml"@,
        lowercase(e) == "xml"@ ==> language_for_spec(Some(e), n) == "xml"@,
        lowercase(e) == "html"@ ==> language_for_spec(Some(e), n) == "html"@,
        lowercase(e) == "htm"@ ==> language_for_spec(Some(e), n) == "html"@,
        lowercase(e) == "css"@ ==> language_for_spec(Some(e), n) == "css"@,
        lowercase(e) == "scss"@ ==> language_for_spec(Some(e), n) == "css"@,
        lowercase(e) == "sass"@ ==> language_for_spec(Some(e), n) == "css"@,
        lowercase(e) == "less"@ ==> language_for_spec(Some(e), n) == "css"@,
        lowercase(e) == "sql"@ ==> language_for_spec(Some(e), n) == "sql"@,
        lowercase(e) == "sh"@ ==> language_for_spec(Some(e), n) == "shell"@,
        lowercase(e) == "bash"@ ==> language_for_spec(Some(e), n) == "shell"@,
        lowercase(e) == "zsh"@ ==> language_for_spec(Some(e), n) == "shell"@,
        lowercase(e) == "ps1"@ ==> language_for_spec(Some(e), n) == "powershell"@,
        lowercase(e) == "psm1"@ ==> language_for_spec(Some(e), n) == "powershell"@,
        lowercase(e) == "psd1"@ ==> language_for_spec(Some(e), n) == "powershell"@,
        lowercase(e) == "txt"@ ==> language_for_spec(Some(e), n) == "text"@,
{
    lemma_ext_py(e, n);
    lemma_ext_pyi(e, n);
    lemma_ext_pyw(e, n);
    lemma_ext_ts(e, n);
    lemma_ext_tsx(e, n);
    lemma_ext_mts(e, n);
    lemma_ext_cts(e, n);
    lemma_ext_rs(e, n);
    lemma_ext_js(e, n);
    lemma_ext_jsx(e, n);
    lemma_ext_mjs(e, n);
    lemma_ext_cjs(e, n);
    lemma_ext_go(e, n);
    lemma_ext_java(e, n);
    lemma_ext_c(e, n);
    lemma_ext_h(e, n);
    lemma_ext_cpp(e, n);
    lemma_ext_cc(e, n);
    lemma_ext_cxx(e, n);
    lemma_ext_hpp(e, n);
    lemma_ext_hxx(e, n);
    lemma_ext_cs(e, n);
    lemma_ext_rb(e, n);
    lemma_ext_php(e, n);
    lemma_ext_swift(e, n);
    lemma_ext_kt(e, n);
    lemma_ext_kts(e, n);
    lemma_ext_scala(e, n);
    lemma_ext_md(e, n);
    lemma_ext_markdown(e, n);
    lemma_ext_json(e, n);
    lemma_ext_yaml(e, n);
    lemma_ext_yml(e, n);
    lemma_ext_toml(e, n);
    lemma_ext_xml(e, n);
    lemma_ext_html(e, n);
    lemma_ext_htm(e, n);
    lemma_ext_css(e, n);
    lemma_ext_scss(e, n);
    lemma_ext_sass(e, n);
    lemma_ext_less(e, n);
    lemma_ext_sql(e, n);
    lemma_ext_sh(e, n);
    lemma_ext_bash(e, n);
    lemma_ext_zsh(e, n);
    lemma_ext_ps1(e, n);
    lemma_ext_psm1(e, n);
    lemma_ext_psd1(e, n);
    lemma_ext_txt(e, n);
}

/// Each listed file name without extension, in any case, names its own
/// language: `Makefile` is `makefile`, `Dockerfile` is `dockerfile`, and so
/// on; none of them falls back to `config`.
pub proof fn listed_file_names_name_their_language(f: Seq<char>)
    ensures
        lowercase(f) == "makefile"@ ==> language_for_spec(None, Some(f)) == "makefile"@,
        lowercase(f) == "gnumakefile"@ ==> language_for_spec(None, Some(f)) == "makefile"@,
        lowercase(f) == "dockerfile"@ ==> language_for_spec(None, Some(f)) == "dockerfile"@,
        lowercase(f) == "jenkinsfile"@ ==> language_for_spec(None, Some(f)) == "groovy"@,
        lowercase(f) == "vagrantfile"@ ==> language_for_spec(None, Some(f)) == "ruby"@,
        lowercase(f) == "rakefile"@ ==> language_for_spec(None, Some(f)) == "ruby"@,
        lowercase(f) == "gemfile"@ ==> language_for_spec(None, Some(f)) == "ruby"@,
        lowercase(f) == ".gitignore"@ ==> language_for_spec(None, Some(f)) == "git"@,
        lowercase(f) == ".gitattributes"@ ==> language_for_spec(None, Some(f)) == "git"@,
        lowercase(f) == ".gitmodules"@ ==> language_for_spec(None, Some(f)) == "git"@,
        lowercase(f) == ".env"@ ==> language_for_spec(None, Some(f)) == "env"@,
        lowercase(f) == ".env.example"@ ==> language_for_spec(None, Some(f)) == "env"@,
        lowercase(f) == ".env.local"@ ==> language_for_spec(None, Some(f)) == "env"@,
        lowercase(f) == "license"@ ==> language_for_spec(None, Some(f)) == "text"@,
        lowercase(f) == "licence"@ ==> language_for_spec(None, Some(f)) == "text"@,
{
    lemma_name_makefile(f);
    lemma_name_gnumakefile(f);
    lemma_name_dockerfile(f);
    lemma_name_jenkinsfile(f);
    lemma_name_vagrantfile(f);
    lemma_name_rakefile(f);
    lemma_name_gemfile(f);
    lemma_name__gitignore(f);
    lemma_name__gitattributes(f);
    lemma_name__gitmodules(f);
    lemma_name__env(f);
    lemma_name__env_example(f);
    lemma_name__env_local(f);
    lemma_name_license(f);
    lemma_name_licence(f);
}

/// The extensions that name a language of their own.
pub open spec fn listed_extensions() -> Seq<Seq<char>> {
    seq!["py"@, "pyi"@, "pyw"@, "ts"@, "tsx"@, "mts"@, "cts"@, "rs"@, "js"@, "jsx"@, "mjs"@, "cjs"@, "go"@, "java"@, "c"@, "h"@, "cpp"@, "cc"@, "cxx"@, "hpp"@, "hxx"@, "cs"@, "rb"@, "php"@, "swift"@, "kt"@, "kts"@, "scala"@, "md"@, "markdown"@, "json"@, "yaml"@, "yml"@, "toml"@, "xml"@, "html"@, "htm"@, "css"@, "scss"@, "sass"@, "less"@, "sql"@, "sh"@, "bash"@, "zsh"@, "ps1"@, "psm1"@, "psd1"@, "txt"@]
}

/// The file names without extension that name a language of their own.
pub open spec fn listed_file_names() -> Seq<Seq<char>> {
    seq!["makefile"@, "gnumakefile"@, "dockerfile"@, "jenkinsfile"@, "vagrantfile"@, "rakefile"@, "gemfile"@, ".gitignore"@, ".gitattributes"@, ".gitmodules"@, ".env"@, ".env.example"@, ".env.local"@, "license"@, "licence"@]
}

/// Any other extension falls back to `config`, as does any other file
/// name without an extension.
pub proof fn unlisted_names_fall_back_to_config(e: Seq<char>, n: Option<Seq<char>>, f: Seq<char>)
    ensures
        !listed_extensions().contains(lowercase(e)) ==> language_for_spec(Some(e), n) == "config"@,
        !listed_file_names().contains(lowercase(f)) ==> language_for_spec(None, Some(f)) == "config"@,
{
    if !listed_extensions().contains(lowercase(e)) {
        if lowercase(e) == "py"@ {
            assert(listed_extensions()[0] == "py"@);
        }
        if lowercase(e) == "pyi"@ {
            assert(listed_extensions()[1] == "pyi"@);
        }
        if lowercase(e) == "pyw"@ {
            assert(listed_extensions()[2] == "pyw"@);
        }
        if lowercase(e) == "ts"@ {
            assert(listed_extensions()[3] == "ts"@);
        }
        if lowercase(e) == "tsx"@ {
            assert(listed_extensions()[4] == "tsx"@);
        }
        if lowercase(e) == "mts"@ {
            assert(listed_extensions()[5] == "mts"@);
        }
        if lowercase(e) == "cts"@ {
            assert(listed_extensions()[6] == "cts"@);
        }
        if lowercase(e) == "rs"@ {
            assert(listed_extensions()[7] == "rs"@);
        }
        if lowercase(e) == "js"@ {
            assert(listed_extensions()[8] == "js"@);
        }
        if lowercase(e) == "jsx"@ {
            assert(listed_extensions()[9] == "jsx"@);
        }
        if lowercase(e) == "mjs"@ {
            assert(listed_extensions()[10] == "mjs"@);
        }
        if lowercase(e) == "cjs"@ {
            assert(listed_extensions()[11] == "cjs"@);
        }
        if lowercase(e) == "go"@ {
            assert(listed_extensions()[12] == "go"@);
        }
        if lowercase(e) == "java"@ {
            assert(listed_extensions()[13] == "java"@);
        }
        if lowercase(e) == "c"@ {
            assert(listed_extensions()[14] == "c"@);
        }
        if lowercase(e) == "h"@ {
            assert(listed_extensions()[15] == "h"@);
        }
        if lowercase(e) == "cpp"@ {
            assert(listed_extensions()[16] == "cpp"@);
        }
        if lowercase(e) == "cc"@ {
            assert(listed_extensions()[17] == "cc"@);
        }
        if lowercase(e) == "cxx"@ {
            assert(listed_extensions()[18] == "cxx"@);
        }
        if lowercase(e) == "hpp"@ {
            assert(listed_extensions()[19] == "hpp"@);
        }
        if lowercase(e) == "hxx"@ {
            assert(listed_extensions()[20] == "hxx"@);
        }
        if lowercase(e) == "cs"@ {
            assert(listed_extensions()[21] == "cs"@);
        }
        if lowercase(e) == "rb"@ {
            assert(listed_extensions()[22] == "rb"@);
        }
        if lowercase(e) == "php"@ {
            assert(listed_extensions()[23] == "php"@);
        }
        if lowercase(e) == "swift"@ {
            assert(listed_extensions()[24] == "swift"@);
        }
        if lowercase(e) == "kt"@ {
            assert(listed_extensions()[25] == "kt"@);
        }
        if lowercase(e) == "kts"@ {
            assert(listed_extensions()[26] == "kts"@);
        }
        if lowercase(e) == "scala"@ {
            assert(listed_extensions()[27] == "scala"@);
        }
        if lowercase(e) == "md"@ {
            assert(listed_extensions()[28] == "md"@);
        }
        if lowercase(e) == "markdown"@ {
            assert(listed_extensions()[29] == "markdown"@);
        }
        if lowercase(e) == "json"@ {
            assert(listed_extensions()[30] == "json"@);
        }
        if lowercase(e) == "yaml"@ {
            assert(listed_extensions()[31] == "yaml"@);
        }
        if lowercase(e) == "yml"@ {
            assert(listed_extensions()[32] == "yml"@);
        }
        if lowercase(e) == "toml"@ {
            assert(listed_extensions()[33] == "toml"@);
        }
        if lowercase(e) == "xml"@ {
            assert(listed_extensions()[34] == "xml"@);
        }
        if lowercase(e) == "html"@ {
            assert(listed_extensions()[35] == "html"@);
        }
        if lowercase(e) == "htm"@ {
            assert(listed_extensions()[36] == "htm"@);
        }
        if lowercase(e) == "css"@ {
            assert(listed_extensions()[37] == "css"@);
        }
        if lowercase(e) == "scss"@ {
            assert(listed_extensions()[38] == "scss"@);
        }
        if lowercase(e) == "sass"@ {
            assert(listed_extensions()[39] == "sass"@);
        }
        if lowercase(e) == "less"@ {
            assert(listed_extensions()[40] == "less"@);
        }
        if lowercase(e) == "sql"@ {
            assert(listed_extensions()[41] == "sql"@);
        }
        if lowercase(e) == "sh"@ {
            assert(listed_extensions()[42] == "sh"@);
        }
        if lowercase(e) == "bash"@ {
            assert(listed_extensions()[43] == "bash"@);
        }
        if lowercase(e) == "zsh"@ {
            assert(listed_extensions()[44] == "zsh"@);
        }
        if lowercase(e) == "ps1"@ {
            assert(listed_extensions()[45] == "ps1"@);
        }
        if lowercase(e) == "psm1"@ {
            assert(listed_extensions()[46] == "psm1"@);
        }
        if lowercase(e) == "psd1"@ {
            assert(listed_extensions()[47] == "psd1"@);
        }
        if lowercase(e) == "txt"@ {
            assert(listed_extensions()[48] == "txt"@);
        }
    }
    if !listed_file_names().contains(lowercase(f)) {
        if lowercase(f) == "makefile"@ {
            assert(listed_file_names()[0] == "makefile"@);
        }
        if lowercase(f) == "gnumakefile"@ {
            assert(listed_file_names()[1] == "gnumakefile"@);
        }
        if lowercase(f) == "dockerfile"@ {
            assert(listed_file_names()[2] == "dockerfile"@);
        }
        if lowercase(f) == "jenkinsfile"@ {
            assert(listed_file_names()[3] == "jenkinsfile"@);
        }
        if lowercase(f) == "vagrantfile"@ {
            assert(listed_file_names()[4] == "vagrantfile"@);
        }
        if lowercase(f) == "rakefile"@ {
            assert(listed_file_names()[5] == "rakefile"@);
        }
        if lowercase(f) == "gemfile"@ {
            assert(listed_file_names()[6] == "gemfile"@);
        }
        if lowercase(f) == ".gitignore"@ {
            assert(listed_file_names()[7] == ".gitignore"@);
        }
        if lowercase(f) == ".gitattributes"@ {
            assert(listed_file_names()[8] == ".gitattributes"@);
        }
        if lowercase(f) == ".gitmodules"@ {
            assert(listed_file_names()[9] == ".gitmodules"@);
        }
        if lowercase(f) == ".env"@ {
            assert(listed_file_names()[10] == ".env"@);
        }
        if lowercase(f) == ".env.example"@ {
            assert(listed_file_names()[11] == ".env.example"@);
        }
        if lowercase(f) == ".env.local"@ {
            assert(listed_file_names()[12] == ".env.local"@);
        }
        if lowercase(f) == "license"@ {
            assert(listed_file_names()[13] == "license"@);
        }
        if lowercase(f) == "licence"@ {
            assert(listed_file_names()[14] == "licence"@);
        }
    }
}

/// The language of a file with the given extension and file name.
pub fn language_for(extension: Option<&str>, file_name: Option<&str>) -> (r: String)
    ensures
        r@ == language_for_spec(
            match extension {
                Some(e) => Some(e@),
                None => None,
            },
            match file_name {
                Some(n) => Some(n@),
                None => None,
            },
        ),
{
    match extension {
        Some(e) => {
            let l = to_lowercase(e);
            let lc = chars_of(l.as_str());
            crate::text::string_from_str(extension_language_of(&lc))
        },
        None => {
            let lc: Vec<char> = match file_name {
                Some(n) => {
                    let l = to_lowercase(n);
                    chars_of(l.as_str())
                },
                None => Vec::new(),
            };
            crate::text::string_from_str(file_name_language_of(&lc))
        },
    }
}

/// The language of the file at `file_path`.
pub fn detect_language(file_path: &str) -> (r: String)
    ensures
        r@ == language_for_spec(path_extension(file_path@), path_file_name(file_path@)),
{
    match extension_of(file_path) {
        Some(e) => language_for(Some(e.as_str()), None),
        None => {
            let n = file_name_of(file_path);
            match n {
                Some(name) => language_for(None, Some(name.as_str())),
                None => language_for(None, None),
            }
        },
    }
}


/// How well a stored path (lowercased) matches a requested one: 5 for the
/// raw request lowercased, 4 for the normalised request, 3 when it holds the
/// normalised request, 2 when it holds the basename, 1 when it holds the
/// basename lowercased, 0 otherwise.
pub open spec fn path_score(
    path_lower: Seq<char>,
    raw_lower: Seq<char>,
    normalized: Seq<char>,
    basename: Seq<char>,
) -> nat {
    if path_lower == raw_lower {
        5
    } else if path_lower == normalized {
        4
    } else if contains_sub(path_lower, normalized) {
        3
    } else if contains_sub(path_lower, basename) {
        2
    } else if contains_sub(path_lower, lowercase(basename)) {
        1
    } else {
        0
    }
}

/// The score of a stored record: 0 when it has no path.
pub open spec fn record_score(
    path: Option<Seq<char>>,
    raw: Seq<char>,
    normalized: Seq<char>,
    basename: Seq<char>,
) -> nat {
    match path {
        Some(p) => path_score(lowercase(p), lowercase(raw), normalized, basename),
        None => 0,
    }
}

/// The stored paths of a list of records.
pub open spec fn opt_paths(v: Seq<Option<String>>) -> Seq<Option<Seq<char>>> {
    v.map_values(|o: Option<String>| opt_view(o))
}

/// Whether two character vectors are equal.
fn same_chars(a: &Vec<char>, b: &Vec<char>) -> (r: bool)
    ensures
        r == (a@ == b@),
{
    if a.len() != b.len() {
        return false;
    }
    let mut i: usize = 0;
    while i < a.len()
        invariant
            i <= a@.len(),
            a@.len() == b@.len(),
            forall|j: int| 0 <= j < i ==> a@[j] == b@[j],
        decreases a@.len() - i,
    {
        if a[i] != b[i] {
            return false;
        }
        i = i + 1;
    }
    proof {
        assert(a@ =~= b@);
    }
    true
}

/// Scores one stored path against the request.
fn score_path(
    path: &str,
    raw_lower: &Vec<char>,
    normalized: &Vec<char>,
    basename: &Vec<char>,
    basename_lower: &Vec<char>,
) -> (r: u8)
    requires
        basename_lower@ == lowercase(basename@),
    ensures
        r as nat == path_score(lowercase(path@), raw_lower@, normalized@, basename@),
{
    let pl = to_lowercase(path);
    let pc = chars_of(pl.as_str());
    if same_chars(&pc, raw_lower) {
        5
    } else if same_chars(&pc, normalized) {
        4
    } else if contains_chars(&pc, normalized) {
        3
    } else if contains_chars(&pc, basename) {
        2
    } else if contains_chars(&pc, basename_lower) {
        1
    } else {
        0
    }
}

/// Picks the stored record that best matches a requested path when the
/// direct lookups failed: the first record of the highest positive score,
/// or none when no record scores.
pub fn best_path_match(paths: &Vec<Option<String>>, raw_path: &str, normalized: &str, basename: &str) -> (r: Option<usize>)
    ensures
        match r {
            Some(i) => {
                &&& i < paths@.len()
                &&& record_score(opt_paths(paths@)[i as int], raw_path@, normalized@, basename@) > 0
                &&& forall|j: int|
                    0 <= j < paths@.len() ==> #[trigger] record_score(opt_paths(paths@)[j], raw_path@, normalized@, basename@)
                        <= record_score(opt_paths(paths@)[i as int], raw_path@, normalized@, basename@)
                &&& forall|j: int|
                    0 <= j < i ==> #[trigger] record_score(opt_paths(paths@)[j], raw_path@, normalized@, basename@)
                        < record_score(opt_paths(paths@)[i as int], raw_path@, normalized@, basename@)
            },
            None => forall|j: int|
                0 <= j < paths@.len() ==> #[trigger] record_score(opt_paths(paths@)[j], raw_path@, normalized@, basename@)
                    == 0,
        },
{
    let ghost ps = opt_paths(paths@);
    let rl = to_lowercase(raw_path);
    let raw_lower = chars_of(rl.as_str());
    let norm = chars_of(normalized);
    let base = chars_of(basename);
    let bl = to_lowercase(basename);
    let base_lower = chars_of(bl.as_str());
    let mut best: Option<usize> = None;
    let mut best_score: u8 = 0;
    let mut k: usize = 0;
    while k < paths.len()
        invariant
            k <= paths@.len(),
            ps == opt_paths(paths@),
            raw_lower@ == lowercase(raw_path@),
            norm@ == normalized@,
            base@ == basename@,
            base_lower@ == lowercase(basename@),
            match best {
                Some(i) => i < k && best_score as nat == record_score(ps[i as int], raw_path@, normalized@, basename@)
                    && best_score > 0 && forall|j: int|
                    0 <= j < i ==> #[trigger] record_score(ps[j], raw_path@, normalized@, basename@) < best_score,
                None => best_score == 0,
            },
            forall|j: int| 0 <= j < k ==> #[trigger] record_score(ps[j], raw_path@, normalized@, basename@) <= best_score,
        decreases paths@.len() - k,
    {
        let sc: u8 = match &paths[k] {
            Some(p) => score_path(p.as_str(), &raw_lower, &norm, &base, &base_lower),
            None => 0,
        };
        proof {
            assert(sc as nat == record_score(ps[k as int], raw_path@, normalized@, basename@));
        }
        if sc > best_score {
            best = Some(k);
            best_score = sc;
        }
        k = k + 1;
    }
    best
}

/// The distinct strings of `v`, in the order they first occur.
pub open spec fn distinct_seq(v: Seq<Seq<char>>) -> Seq<Seq<char>>
    decreases v.len(),
{
    if v.len() == 0 {
        Seq::empty()
    } else if distinct_seq(v.drop_last()).contains(v.last()) {
        distinct_seq(v.drop_last())
    } else {
        distinct_seq(v.drop_last()).push(v.last())
    }
}

/// The distinct paths of the records that have one, in the order they first
/// occur.
pub open spec fn distinct_paths_spec(v: Seq<Option<Seq<char>>>) -> Seq<Seq<char>>
    decreases v.len(),
{
    if v.len() == 0 {
        Seq::empty()
    } else {
        let d = distinct_paths_spec(v.drop_last());
        match v.last() {
            Some(p) => if d.contains(p) {
                d
            } else {
                d.push(p)
            },
            None => d,
        }
    }
}

/// The distinct stored paths among the records.
pub fn distinct_paths(paths: &Vec<Option<String>>) -> (r: Vec<String>)
    ensures
        string_views(r@) == distinct_paths_spec(opt_paths(paths@)),
{
    let ghost ps = opt_paths(paths@);
    let mut out: Vec<String> = Vec::new();
    let mut k: usize = 0;
    while k < paths.len()
        invariant
            k <= paths@.len(),
            ps == opt_paths(paths@),
            string_views(out@) == distinct_paths_spec(ps.take(k as int)),
        decreases paths@.len() - k,
    {
        proof {
            assert(ps.take(k + 1).drop_last() == ps.take(k as int));
            assert(ps.take(k + 1).last() == opt_view(paths@[k as int]));
        }
        if let Some(p) = &paths[k] {
            if !contains_string(&out, p) {
                let ghost o = out@;
                out.push(p.clone());
                proof {
                    assert(string_views(out@) =~= string_views(o).push(p@));
                }
            }
        }
        k = k + 1;
    }
    proof {
        assert(ps.take(paths@.len() as int) == ps);
    }
    out
}

/// Whether a lookup is ambiguous: the records name more than one distinct path.
pub fn is_ambiguous(paths: &Vec<Option<String>>) -> (r: bool)
    ensures
        r == (distinct_paths_spec(opt_paths(paths@)).len() > 1),
{
    let d = distinct_paths(paths);
    d.len() > 1
}

/// The id given to a file seen for the first time: `file-` and the first
/// sixteen bytes of the SHA-256 of its path, in lowercase hex.
pub open spec fn new_file_id_spec(path: Seq<char>) -> Seq<char> {
    "file-"@ + crate::digest::lower_hex(crate::digest::sha256_of(vstd::utf8::encode_utf8(path)).take(16))
}

/// The id of a file seen for the first time.
pub fn new_file_id(path: &str) -> (r: String)
    ensures
        r@ == new_file_id_spec(path@),
{
    let digest = crate::digest::sha256_digest(path.as_bytes());
    let mut head: Vec<u8> = Vec::new();
    let mut k: usize = 0;
    while k < 16
        invariant
            k <= 16,
            digest@.len() == 32,
            head@ == digest@.take(k as int),
        decreases 16 - k,
    {
        head.push(digest[k]);
        k = k + 1;
        proof {
            assert(head@ =~= digest@.take(k as int));
        }
    }
    let hex = crate::digest::hex_encode(head.as_slice());
    let mut v = chars_of("file-");
    append_str(&mut v, hex.as_str());
    string_of(&v)
}

/// The summary a file sync stores: the language, and the first five symbol
/// names when there are any.
pub open spec fn sync_summary_spec(language: Seq<char>, names: Seq<Seq<char>>) -> Seq<char> {
    if names.len() == 0 {
        language + " file"@
    } else {
        language + " file with: "@ + join_with(names.take(if names.len() < 5 { names.len() as int } else { 5 }), ", "@)
    }
}

/// Summarises a synced file by its language and first symbols.
pub fn sync_summary(language: &str, names: &Vec<String>) -> (r: String)
    ensures
        r@ == sync_summary_spec(language@, string_views(names@)),
{
    let mut v = chars_of(language);
    if names.len() == 0 {
        append_str(&mut v, " file");
        return string_of(&v);
    }
    let n: usize = if names.len() < 5 { names.len() } else { 5 };
    let ghost sv = string_views(names@);
    let mut parts: Vec<Vec<char>> = Vec::new();
    let mut k: usize = 0;
    while k < n
        invariant
            k <= n <= names@.len(),
            sv == string_views(names@),
            views(parts@) == sv.take(k as int),
        decreases n - k,
    {
        let c = chars_of(names[k].as_str());
        parts.push(c);
        k = k + 1;
        proof {
            assert(views(parts@) =~= views(parts@.drop_last()).push(c@));
            assert(sv.take(k as int) =~= sv.take(k - 1).push(sv[k - 1]));
        }
    }
    let sep = chars_of(", ");
    let joined = join_parts(&parts, &sep);
    append_str(&mut v, " file with: ");
    append_chars(&mut v, &joined);
    string_of(&v)
}

/// The entry a recorded change adds: the date, the description, then the
/// run, change set and decision it belongs to, each when given.
pub open spec fn change_entry_spec(
    date: Seq<char>,
    description: Seq<char>,
    run_id: Option<Seq<char>>,
    changeset_id: Option<Seq<char>>,
    decision_id: Option<Seq<char>>,
) -> Seq<char> {
    date + " · "@ + description + " "@ + match run_id {
        Some(r) => "(run: "@ + r + ")"@,
        None => Seq::empty(),
    } + match changeset_id {
        Some(c) => "(cs: "@ + c + ")"@,
        None => Seq::empty(),
    } + match decision_id {
        Some(d) => "(decision: "@ + d + ")"@,
        None => Seq::empty(),
    }
}

/// The most changes a file log keeps.
pub const MAX_RECENT_CHANGES: usize = 10;

/// The recent changes after `entry` is recorded: newest first, at most ten.
pub open spec fn changes_after(entry: Seq<char>, changes: Seq<Seq<char>>) -> Seq<Seq<char>> {
    let all = seq![entry] + changes;
    if all.len() > MAX_RECENT_CHANGES {
        all.take(MAX_RECENT_CHANGES as int)
    } else {
        all
    }
}

/// The linked decisions after a change that may name one: it is added once.
pub open spec fn decisions_after(decision_id: Option<Seq<char>>, decisions: Seq<Seq<char>>) -> Seq<Seq<char>> {
    match decision_id {
        Some(d) => if decisions.contains(d) {
            decisions
        } else {
            decisions.push(d)
        },
        None => decisions,
    }
}

/// Records a change in a file log: the entry goes first among the recent
/// changes, of which ten are kept, and a named decision is linked once.
/// `date` is the day of the change as `YYYY-MM-DD`.
pub fn record_change(
    file_log: &mut FileLog,
    date: &str,
    description: &str,
    run_id: Option<&str>,
    changeset_id: Option<&str>,
    decision_id: Option<&str>,
)
    ensures
        string_views(final(file_log).recent_changes@) == changes_after(
            change_entry_spec(
                date@,
                description@,
                crate::query::opt_str(run_id),
                crate::query::opt_str(changeset_id),
                crate::query::opt_str(decision_id),
            ),
            string_views(old(file_log).recent_changes@),
        ),
        string_views(final(file_log).linked_decisions@) == decisions_after(
            crate::query::opt_str(decision_id),
            string_views(old(file_log).linked_decisions@),
        ),
        final(file_log).path == old(file_log).path,
        final(file_log).language == old(file_log).language,
        final(file_log).last_indexed == old(file_log).last_indexed,
        final(file_log).content_hash == old(file_log).content_hash,
        final(file_log).symbols == old(file_log).symbols,
        final(file_log).dependencies == old(file_log).dependencies,
        final(file_log).notes == old(file_log).notes,
{
    let mut v = chars_of(date);
    append_str(&mut v, " · ");
    append_str(&mut v, description);
    append_str(&mut v, " ");
    if let Some(r) = run_id {
        append_str(&mut v, "(run: ");
        append_str(&mut v, r);
        append_str(&mut v, ")");
    }
    if let Some(c) = changeset_id {
        append_str(&mut v, "(cs: ");
        append_str(&mut v, c);
        append_str(&mut v, ")");
    }
    if let Some(d) = decision_id {
        append_str(&mut v, "(decision: ");
        append_str(&mut v, d);
        append_str(&mut v, ")");
    }
    let entry = string_of(&v);
    let ghost e = entry@;
    proof {
        assert(e =~= change_entry_spec(
            date@,
            description@,
            crate::query::opt_str(run_id),
            crate::query::opt_str(changeset_id),
            crate::query::opt_str(decision_id),
        ));
    }
    let ghost old_changes = string_views(file_log.recent_changes@);
    file_log.recent_changes.insert(0, entry);
    proof {
        assert(string_views(file_log.recent_changes@) =~= seq![e] + old_changes);
    }
    if file_log.recent_changes.len() > MAX_RECENT_CHANGES {
        file_log.recent_changes.truncate(MAX_RECENT_CHANGES);
        proof {
            assert(string_views(file_log.recent_changes@) =~= (seq![e] + old_changes).take(MAX_RECENT_CHANGES as int));
        }
    }
    if let Some(d) = decision_id {
        let ds = crate::text::string_from_str(d);
        if !contains_string(&file_log.linked_decisions, &ds) {
            let ghost before = file_log.linked_decisions@;
            file_log.linked_decisions.push(ds);
            proof {
                assert(string_views(file_log.linked_decisions@) =~= string_views(before).push(d@));
            }
        }
    }
}


/// The last component of a path holds no separator.
pub proof fn basename_has_no_separator(p: Seq<char>)
    ensures
        !basename_raw(p).contains('/'),
        !basename_raw(p).contains('\\'),
    decreases p.len(),
{
    if p.len() > 0 && !is_separator(p.last()) {
        basename_has_no_separator(p.drop_last());
        let b = basename_raw(p.drop_last());
        assert(basename_raw(p) == b.push(p.last()));
        assert forall|i: int| 0 <= i < b.push(p.last()).len() implies b.push(p.last())[i] != '/' && b.push(p.last())[i] != '\\' by {
            if i < b.len() {
                assert(b.contains(b[i]) ==> b[i] != '/' && b[i] != '\\');
            }
        }
    }
}

/// Replacing `/` by `\` leaves no `/`.
proof fn lemma_no_slash(p: Seq<char>)
    ensures
        !replace_char(p, '/', seq!['\\']).contains('/'),
    decreases p.len(),
{
    if p.len() > 0 {
        lemma_no_slash(p.drop_last());
        let a = replace_char(p.drop_last(), '/', seq!['\\']);
        let b: Seq<char> = if p.last() == '/' {
            seq!['\\']
        } else {
            seq![p.last()]
        };
        assert(replace_char(p, '/', seq!['\\']) == a + b);
        assert forall|i: int| 0 <= i < (a + b).len() implies (a + b)[i] != '/' by {
            if i < a.len() {
                assert(a.contains(a[i]) ==> a[i] != '/');
            }
        }
    }
}

/// A normalised path holds no `/`.
pub proof fn normalized_path_has_no_slash(p: Seq<char>)
    ensures
        !normalize_file_content_path_spec(p).contains('/'),
{
    reveal_strlit("\\\\?\\");
    reveal_strlit(".\\");
    lemma_no_slash(p);
    let a = replace_char(p, '/', seq!['\\']);
    let b = if has_prefix(a, "\\\\?\\"@) {
        a.skip(4)
    } else {
        a
    };
    assert(!b.contains('/')) by {
        if has_prefix(a, "\\\\?\\"@) {
            assert forall|i: int| 0 <= i < b.len() implies b[i] != '/' by {
                assert(b[i] == a[i + 4]);
                assert(a.contains(a[i + 4]) ==> a[i + 4] != '/');
            }
        }
    }
    let c = if has_prefix(b, ".\\"@) {
        b.skip(2)
    } else {
        b
    };
    assert(!c.contains('/')) by {
        if has_prefix(b, ".\\"@) {
            assert forall|i: int| 0 <= i < c.len() implies c[i] != '/' by {
                assert(c[i] == b[i + 2]);
                assert(b.contains(b[i + 2]) ==> b[i + 2] != '/');
            }
        }
    }
}

/// The distinct paths of a lookup are distinct, and are exactly the paths
/// the records name.
pub proof fn distinct_paths_are_distinct(v: Seq<Option<Seq<char>>>)
    ensures
        distinct_paths_spec(v).no_duplicates(),
        forall|p: Seq<char>| distinct_paths_spec(v).contains(p) <==> v.contains(Some(p)),
    decreases v.len(),
{
    if v.len() > 0 {
        distinct_paths_are_distinct(v.drop_last());
        let d = distinct_paths_spec(v.drop_last());
        if let Some(p) = v.last() {
            if !d.contains(p) {
                assert forall|i: int, j: int| 0 <= i < j < d.push(p).len() implies d.push(p)[i] != d.push(p)[j] by {
                    if j == d.len() {
                        assert(d.contains(d[i]));
                    }
                }
            }
        }
        let dv = distinct_paths_spec(v);
        assert forall|p: Seq<char>| dv.contains(p) implies v.contains(Some(p)) by {
            let x = choose|x: int| 0 <= x < dv.len() && dv[x] == p;
            if x < d.len() {
                assert(d[x] == p);
                assert(d.contains(p));
                assert(v.drop_last().contains(Some(p)));
                let w = choose|w: int| 0 <= w < v.drop_last().len() && v.drop_last()[w] == Some(p);
                assert(v[w] == Some(p));
            } else {
                assert(v[v.len() - 1] == Some(p));
            }
        }
        assert forall|p: Seq<char>| v.contains(Some(p)) implies dv.contains(p) by {
            let w = choose|w: int| 0 <= w < v.len() && v[w] == Some(p);
            if w < v.len() - 1 {
                assert(v.drop_last()[w] == Some(p));
                assert(v.drop_last().contains(Some(p)));
                assert(d.contains(p));
                let x = choose|x: int| 0 <= x < d.len() && d[x] == p;
                assert(dv[x] == p);
            } else {
                if d.contains(p) {
                    let x = choose|x: int| 0 <= x < d.len() && d[x] == p;
                    assert(dv[x] == p);
                } else {
                    assert(dv[d.len() as int] == p);
                }
            }
        }
    }
}

/// A file log keeps at most ten recent changes, and recording a change
/// links a decision at most once.
pub proof fn recorded_changes_bounded(
    entry: Seq<char>,
    changes: Seq<Seq<char>>,
    decision_id: Option<Seq<char>>,
    decisions: Seq<Seq<char>>,
)
    requires
        decisions.no_duplicates(),
    ensures
        changes_after(entry, changes).len() <= MAX_RECENT_CHANGES,
        changes_after(entry, changes)[0] == entry,
        decisions_after(decision_id, decisions).no_duplicates(),
{
    assert((seq![entry] + changes)[0] == entry);
    if let Some(d) = decision_id {
        if !decisions.contains(d) {
            assert forall|i: int, j: int| 0 <= i < j < decisions.push(d).len() implies decisions.push(d)[i]
                != decisions.push(d)[j] by {
                if j == decisions.len() {
                    assert(decisions.contains(decisions[i]));
                }
            }
        }
    }
}

/// The text at `key` of each stored record, where it is a string.
pub open spec fn record_texts(values: Seq<JsonValue>, key: Seq<char>) -> Seq<Option<Seq<char>>> {
    values.map_values(|v: JsonValue| field_text(v, key))
}

/// The text at `key` of each stored record, where it is a string.
pub fn texts_at(values: &Vec<JsonValue>, key: &str) -> (r: Vec<Option<String>>)
    ensures
        opt_paths(r@) == record_texts(values@, key@),
{
    let mut out: Vec<Option<String>> = Vec::new();
    let mut k: usize = 0;
    while k < values.len()
        invariant
            k <= values@.len(),
            opt_paths(out@) == record_texts(values@.take(k as int), key@),
        decreases values@.len() - k,
    {
        let ghost o = out@;
        let t = get_text(&values[k], key);
        out.push(t);
        k = k + 1;
        proof {
            assert(opt_paths(out@) =~= opt_paths(o).push(opt_view(t)));
            assert(record_texts(values@.take(k as int), key@) =~= record_texts(values@.take(k - 1), key@).push(
                field_text(values@[k - 1], key@),
            ));
        }
    }
    proof {
        assert(values@.take(values@.len() as int) =~= values@);
    }
    out
}

/// Each record's text, where the record is itself a string.
pub open spec fn value_texts(values: Seq<JsonValue>) -> Seq<Option<Seq<char>>> {
    values.map_values(
        |v: JsonValue|
            match v {
                JsonValue::Str(s) => Some(s@),
                _ => None,
            },
    )
}

/// Each record's text, where the record is itself a string.
pub fn texts_of(values: &Vec<JsonValue>) -> (r: Vec<Option<String>>)
    ensures
        opt_paths(r@) == value_texts(values@),
{
    let mut out: Vec<Option<String>> = Vec::new();
    let mut k: usize = 0;
    while k < values.len()
        invariant
            k <= values@.len(),
            opt_paths(out@) == value_texts(values@.take(k as int)),
        decreases values@.len() - k,
    {
        let t = match &values[k] {
            JsonValue::Str(s) => Some(string_from_str(s.as_str())),
            _ => None,
        };
        let ghost o = out@;
        out.push(t);
        k = k + 1;
        proof {
            assert(opt_paths(out@) =~= opt_paths(o).push(opt_view(t)));
            assert(value_texts(values@.take(k as int)) =~= value_texts(values@.take(k - 1)).push(
                match values@[k - 1] {
                    JsonValue::Str(s) => Some(s@),
                    _ => None,
                },
            ));
        }
    }
    proof {
        assert(values@.take(values@.len() as int) =~= values@);
    }
    out
}

/// The order key of a stored file chunk: its `chunk_index` when that is a
/// non-negative integer, else 0.
pub open spec fn chunk_key(v: JsonValue) -> u64 {
    match field(v, "chunk_index"@) {
        Some(JsonValue::Number(_, Some(n))) => n,
        _ => 0,
    }
}

/// `x` put into the chunks `s` (ordered by key) after every chunk whose key
/// is not larger.
pub open spec fn insert_by_key(s: Seq<JsonValue>, x: JsonValue) -> Seq<JsonValue>
    decreases s.len(),
{
    if s.len() == 0 {
        seq![x]
    } else if chunk_key(s[0]) > chunk_key(x) {
        seq![x] + s
    } else {
        seq![s[0]] + insert_by_key(s.drop_first(), x)
    }
}

/// The chunks stably ordered by key (`sort_by_key`): by key, and in their
/// given order where keys are equal.
pub open spec fn sort_by_chunk(s: Seq<JsonValue>) -> Seq<JsonValue>
    decreases s.len(),
{
    if s.len() == 0 {
        s
    } else {
        insert_by_key(sort_by_chunk(s.drop_last()), s.last())
    }
}

proof fn lemma_insert_by_key_at(s: Seq<JsonValue>, x: JsonValue, p: int)
    requires
        0 <= p <= s.len(),
        forall|i: int| 0 <= i < p ==> chunk_key(#[trigger] s[i]) <= chunk_key(x),
        p < s.len() ==> chunk_key(s[p]) > chunk_key(x),
    ensures
        insert_by_key(s, x) == s.insert(p, x),
    decreases s.len(),
{
    if s.len() == 0 {
        assert(s.insert(p, x) =~= seq![x]);
    } else if p == 0 {
        assert(s.insert(0, x) =~= seq![x] + s);
    } else {
        assert(chunk_key(s[0]) <= chunk_key(x));
        let t = s.drop_first();
        assert forall|i: int| 0 <= i < p - 1 implies chunk_key(#[trigger] t[i]) <= chunk_key(x) by {
            assert(t[i] == s[i + 1]);
        }
        lemma_insert_by_key_at(t, x, p - 1);
        assert(s.insert(p, x) =~= seq![s[0]] + t.insert(p - 1, x));
    }
}

/// The order key of a stored file chunk.
fn chunk_key_of(v: &JsonValue) -> (r: u64)
    ensures
        r == chunk_key(*v),
{
    match get_field(v, "chunk_index") {
        Some(JsonValue::Number(_, Some(n))) => *n,
        _ => 0,
    }
}

/// Orders stored file chunks stably by key.
pub fn sort_chunks(values: Vec<JsonValue>) -> (r: Vec<JsonValue>)
    ensures
        r@ == sort_by_chunk(values@),
{
    let ghost v0 = values@;
    let mut src = values;
    let n: usize = src.len();
    let mut out: Vec<JsonValue> = Vec::new();
    let mut k: usize = 0;
    proof {
        assert(v0.take(0) =~= Seq::<JsonValue>::empty());
        assert(v0.skip(0) =~= v0);
    }
    while src.len() > 0
        invariant
            k <= v0.len(),
            v0.len() == n,
            src@ == v0.skip(k as int),
            out@ == sort_by_chunk(v0.take(k as int)),
        decreases src@.len(),
    {
        proof {
            assert(src@.len() == v0.len() - k);
        }
        let x = src.remove(0);
        proof {
            assert(v0.skip(k as int).drop_first() =~= v0.skip(k + 1));
        }
        let key = chunk_key_of(&x);
        let mut p: usize = 0;
        while p < out.len() && chunk_key_of(&out[p]) <= key
            invariant
                p <= out@.len(),
                forall|i: int| 0 <= i < p ==> chunk_key(#[trigger] out@[i]) <= chunk_key(x),
                key == chunk_key(x),
            decreases out@.len() - p,
        {
            p = p + 1;
        }
        proof {
            lemma_insert_by_key_at(out@, x, p as int);
            assert(v0.take(k + 1).drop_last() =~= v0.take(k as int));
            assert(v0.take(k + 1).last() == x);
        }
        out.insert(p, x);
        k = k + 1;
    }
    proof {
        assert(v0.take(k as int) =~= v0);
    }
    out
}

/// The texts of the chunks whose `content` is a string, in order.
pub open spec fn chunk_texts(s: Seq<JsonValue>) -> Seq<Seq<char>>
    decreases s.len(),
{
    if s.len() == 0 {
        Seq::empty()
    } else {
        chunk_texts(s.drop_last()) + match field_text(s.last(), "content"@) {
            Some(t) => seq![t],
            None => Seq::empty(),
        }
    }
}

/// The texts joined end to end.
pub open spec fn concat_texts(ts: Seq<Seq<char>>) -> Seq<char>
    decreases ts.len(),
{
    if ts.len() == 0 {
        Seq::empty()
    } else {
        concat_texts(ts.drop_last()) + ts.last()
    }
}

/// The first `limit` characters of `s` when a limit is given (all of `s`
/// when it is shorter).
pub open spec fn limit_chars(s: Seq<char>, limit: Option<usize>) -> Seq<char> {
    match limit {
        Some(l) => if l < s.len() {
            s.take(l as int)
        } else {
            s
        },
        None => s,
    }
}

/// A stored file put together from its chunks: the chunks ordered by
/// index, the text of each, and all of them joined (cut to `max_chars`
/// characters when a limit is given).
pub fn assemble_file_content(values: Vec<JsonValue>, max_chars: Option<usize>) -> (r: (String, Vec<String>))
    ensures
        string_views(r.1@) == chunk_texts(sort_by_chunk(values@)),
        r.0@ == limit_chars(concat_texts(chunk_texts(sort_by_chunk(values@))), max_chars),
{
    let sorted = sort_chunks(values);
    let mut chunks: Vec<String> = Vec::new();
    let mut combined: Vec<char> = Vec::new();
    let mut k: usize = 0;
    while k < sorted.len()
        invariant
            k <= sorted@.len(),
            string_views(chunks@) == chunk_texts(sorted@.take(k as int)),
            combined@ == concat_texts(chunk_texts(sorted@.take(k as int))),
        decreases sorted@.len() - k,
    {
        proof {
            assert(sorted@.take(k + 1).drop_last() =~= sorted@.take(k as int));
        }
        match get_text(&sorted[k], "content") {
            Some(t) => {
                let ghost cv = chunk_texts(sorted@.take(k as int));
                append_str(&mut combined, t.as_str());
                let ghost o = chunks@;
                chunks.push(t);
                proof {
                    let tv = chunks@[o.len() as int]@;
                    assert(string_views(chunks@) =~= string_views(o).push(tv));
                    assert(chunk_texts(sorted@.take(k + 1)) == cv.push(tv));
                    assert(cv.push(tv).drop_last() =~= cv);
                    assert(concat_texts(cv.push(tv)) == concat_texts(cv) + tv);
                }
            },
            None => {},
        }
        k = k + 1;
    }
    proof {
        assert(sorted@.take(sorted@.len() as int) =~= sorted@);
    }
    let limited = match max_chars {
        Some(l) => if l < combined.len() {
            slice_vec(&combined, 0, l)
        } else {
            combined
        },
        None => combined,
    };
    (string_of(&limited), chunks)
}

/// The text at `key` of the first record, when it is a string (a found
/// record's `file_id` or `file_path`).
pub fn first_text(values: &Vec<JsonValue>, key: &str) -> (r: Option<String>)
    ensures
        opt_view(r) == if values@.len() > 0 {
            field_text(values@[0], key@)
        } else {
            None
        },
{
    if values.len() > 0 {
        get_text(&values[0], key)
    } else {
        None
    }
}

/// Whether the chunks are ordered by key.
pub open spec fn chunks_ordered(s: Seq<JsonValue>) -> bool {
    forall|i: int, j: int| 0 <= i < j < s.len() ==> chunk_key(#[trigger] s[i]) <= chunk_key(#[trigger] s[j])
}

proof fn lemma_insert_ordered(s: Seq<JsonValue>, x: JsonValue, lo: u64)
    requires
        chunks_ordered(s),
        forall|i: int| 0 <= i < s.len() ==> chunk_key(#[trigger] s[i]) >= lo,
        chunk_key(x) >= lo,
    ensures
        chunks_ordered(insert_by_key(s, x)),
        insert_by_key(s, x).len() == s.len() + 1,
        forall|i: int| 0 <= i < s.len() + 1 ==> chunk_key(#[trigger] insert_by_key(s, x)[i]) >= lo,
    decreases s.len(),
{
    if s.len() == 0 {
    } else if chunk_key(s[0]) > chunk_key(x) {
        let r = seq![x] + s;
        assert forall|i: int, j: int| 0 <= i < j < r.len() implies chunk_key(#[trigger] r[i]) <= chunk_key(#[trigger] r[j]) by {
            if i == 0 {
                assert(r[j] == s[j - 1]);
                if j > 1 {
                    assert(chunk_key(s[0]) <= chunk_key(s[j - 1]));
                }
            } else {
                assert(r[i] == s[i - 1] && r[j] == s[j - 1]);
            }
        }
        assert forall|i: int| 0 <= i < s.len() + 1 implies chunk_key(#[trigger] r[i]) >= lo by {
            if i > 0 {
                assert(r[i] == s[i - 1]);
            }
        }
    } else {
        let t = s.drop_first();
        let k0 = chunk_key(s[0]);
        assert forall|i: int| 0 <= i < t.len() implies chunk_key(#[trigger] t[i]) >= k0 by {
            assert(t[i] == s[i + 1]);
        }
        assert forall|i: int, j: int| 0 <= i < j < t.len() implies chunk_key(#[trigger] t[i]) <= chunk_key(#[trigger] t[j]) by {
            assert(t[i] == s[i + 1] && t[j] == s[j + 1]);
        }
        lemma_insert_ordered(t, x, k0);
        let u = insert_by_key(t, x);
        let r = seq![s[0]] + u;
        assert forall|i: int, j: int| 0 <= i < j < r.len() implies chunk_key(#[trigger] r[i]) <= chunk_key(#[trigger] r[j]) by {
            assert(r[j] == u[j - 1]);
            if i > 0 {
                assert(r[i] == u[i - 1]);
            }
        }
        assert forall|i: int| 0 <= i < s.len() + 1 implies chunk_key(#[trigger] r[i]) >= lo by {
            if i > 0 {
                assert(r[i] == u[i - 1]);
            }
        }
    }
}

/// A stored file's chunks are put together in order of their index, and as
/// many come out as went in.
pub proof fn sorted_chunks_are_ordered(s: Seq<JsonValue>)
    ensures
        chunks_ordered(sort_by_chunk(s)),
        sort_by_chunk(s).len() == s.len(),
    decreases s.len(),
{
    if s.len() > 0 {
        sorted_chunks_are_ordered(s.drop_last());
        lemma_insert_ordered(sort_by_chunk(s.drop_last()), s.last(), 0);
    }
}

/// The number of leading characters of `s` whose UTF-8 encoding takes
/// exactly `n` bytes; none when `n` does not fall on a character boundary
/// (or lies past the end).
pub open spec fn chars_in_bytes(s: Seq<char>, n: int) -> Option<int>
    decreases s.len(),
{
    if n == 0 {
        Some(0)
    } else if s.len() == 0 || n < 0 {
        None
    } else {
        let w = vstd::utf8::encode_scalar(s[0] as u32).len() as int;
        if w <= n {
            match chars_in_bytes(s.drop_first(), n - w) {
                Some(k) => Some(k + 1),
                None => None,
            }
        } else {
            None
        }
    }
}

/// The number of leading characters of `s` that take exactly `n` bytes.
pub(crate) fn char_index_for_bytes(s: &Vec<char>, n: usize) -> (r: Option<usize>)
    ensures
        match r {
            Some(k) => k <= s@.len() && chars_in_bytes(s@, n as int) == Some(k as int),
            None => chars_in_bytes(s@, n as int) is None,
        },
{
    let mut k: usize = 0;
    let mut rem: usize = n;
    proof {
        assert(s@.skip(0) =~= s@);
    }
    while rem > 0
        invariant
            k <= s@.len(),
            chars_in_bytes(s@, n as int) == match chars_in_bytes(s@.skip(k as int), rem as int) {
                Some(j) => Some(j + k),
                None => None::<int>,
            },
        decreases rem,
    {
        if k >= s.len() {
            return None;
        }
        let w = crate::text::utf8_width(s[k]);
        proof {
            assert(s@.skip(k as int)[0] == s@[k as int]);
            assert(s@.skip(k as int).drop_first() =~= s@.skip(k + 1));
        }
        if w > rem {
            return None;
        }
        rem = rem - w;
        k = k + 1;
    }
    Some(k)
}

/// The path with a leading `\\?\` removed and every `/` written as `\`.
pub open spec fn mount_normalized(path: Seq<char>) -> Seq<char> {
    replace_char(
        if has_prefix(path, "\\\\?\\"@) {
            path.skip(4)
        } else {
            path
        },
        '/',
        "\\"@,
    )
}

/// The host root with every `/` written as `\`.
pub open spec fn mount_host(host_root: Seq<char>) -> Seq<char> {
    replace_char(host_root, '/', "\\"@)
}

/// Whether the path lies under the host root, comparing lowercased.
pub open spec fn mount_applies(path: Seq<char>, host_root: Seq<char>) -> bool {
    has_prefix(lowercase(mount_normalized(path)), lowercase(mount_host(host_root)))
}

/// Whether mapping `path` runs without a panic: where the path lies under
/// the host root, the host root's length in bytes falls on a character
/// boundary of the normalized path.
pub open spec fn mount_mappable(path: Seq<char>, host_root: Seq<char>) -> bool {
    mount_applies(path, host_root) ==> chars_in_bytes(
        mount_normalized(path),
        vstd::utf8::encode_utf8(mount_host(host_root)).len() as int,
    ) is Some
}

/// Where a host path appears inside the workspace container: for a path
/// under the host root, the container root (without trailing `/`), then
/// the rest of the path (cut at the host root's length in bytes, leading
/// `\` removed) with `/` separators; none for other paths.
pub open spec fn mount_spec(path: Seq<char>, host_root: Seq<char>, container_root: Seq<char>) -> Option<Seq<char>> {
    if !mount_applies(path, host_root) {
        None
    } else {
        let n = mount_normalized(path);
        let cut = chars_in_bytes(n, vstd::utf8::encode_utf8(mount_host(host_root)).len() as int);
        let rel = crate::text::trim_start_char(n.skip(cut->0), '\\');
        let croot = crate::text::trim_end_char(container_root, '/');
        Some(
            if rel.len() == 0 {
                croot
            } else {
                croot + "/"@ + replace_char(rel, '\\', "/"@)
            },
        )
    }
}

/// The pieces of a mapping: the normalized path, whether it lies under the
/// host root, and where the host root ends in it.
fn mount_parts(path: &str, host_root: &str) -> (r: (Vec<char>, bool, Option<usize>))
    ensures
        r.0@ == mount_normalized(path@),
        r.1 == mount_applies(path@, host_root@),
        match r.2 {
            Some(k) => k <= r.0@.len() && chars_in_bytes(r.0@, vstd::utf8::encode_utf8(mount_host(host_root@)).len() as int)
                == Some(k as int),
            None => chars_in_bytes(r.0@, vstd::utf8::encode_utf8(mount_host(host_root@)).len() as int) is None,
        },
{
    let cs = chars_of(path);
    let unc = chars_of("\\\\?\\");
    proof {
        reveal_strlit("\\\\?\\");
    }
    let p = match strip_prefix(&cs, &unc) {
        Some(t) => t,
        None => cs,
    };
    let backslash = chars_of("\\");
    let normalized = replace_char_with(&p, '/', &backslash);
    let host = replace_char_with(&chars_of(host_root), '/', &backslash);
    let lower_n = to_lowercase(string_of(&normalized).as_str());
    let lower_h = to_lowercase(string_of(&host).as_str());
    let applies = crate::text::starts_with(&chars_of(lower_n.as_str()), &chars_of(lower_h.as_str()));
    let host_len = crate::text::byte_len(&host);
    let cut = char_index_for_bytes(&normalized, host_len);
    (normalized, applies, cut)
}

/// The container path for a host path under the host root; none for
/// other paths.
pub(crate) fn map_windows_mount(path: &str, host_root: &str, container_root: &str) -> (r: Option<String>)
    requires
        mount_mappable(path@, host_root@),
    ensures
        opt_view(r) == mount_spec(path@, host_root@, container_root@),
{
    let (normalized, applies, cut) = mount_parts(path, host_root);
    if !applies {
        return None;
    }
    let k = match cut {
        Some(k) => k,
        None => return None,
    };
    let rest = slice_vec(&normalized, k, normalized.len());
    proof {
        assert(rest@ =~= normalized@.skip(k as int));
    }
    let rel = crate::text::trim_start_matches_char(&rest, '\\');
    let croot = crate::text::trim_end_matches_char(&chars_of(container_root), '/');
    if rel.len() == 0 {
        Some(string_of(&croot))
    } else {
        let mut v = croot;
        append_str(&mut v, "/");
        let slash = chars_of("/");
        let r2 = replace_char_with(&rel, '\\', &slash);
        append_chars(&mut v, &r2);
        Some(string_of(&v))
    }
}

/// Maps a host path into the workspace container, when the host root's
/// length falls on a character boundary of the path: `Some` of the mapping
/// then (none for paths not under the host root), `None` where mapping
/// would cut a character.
pub fn try_map_windows_mount(path: &str, host_root: &str, container_root: &str) -> (r: Option<Option<String>>)
    ensures
        match r {
            Some(m) => mount_mappable(path@, host_root@) && opt_view(m) == mount_spec(path@, host_root@, container_root@),
            None => !mount_mappable(path@, host_root@),
        },
{
    let (_, applies, cut) = mount_parts(path, host_root);
    if applies && cut.is_none() {
        None
    } else {
        Some(map_windows_mount(path, host_root, container_root))
    }
}

} // verus!
