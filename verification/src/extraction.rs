//! Turning a source file into its file log: the tree-sitter queries of each
//! parsed language, what their matches say about symbols and dependencies,
//! and the file log built from them.
use vstd::prelude::*;

use crate::codebase::{char_index_for_bytes, chars_in_bytes};
use crate::digest::sha256_hex;
use crate::codebase::{change_entry_spec, changes_after, decisions_after, record_change};
use crate::parser::{
    file_log_markdown, lines_countable, capture_views, has_suffix, parsed_view, symbol_from_captures, symbol_of_captures,
    unsupported_file_log, unsupported_note, CaptureView, CodebaseParser, FileDependencies, FileLog,
    ParsedSymbol, QueryCapture,
};
use crate::text::{chars_of, eq_str, slice_vec, str_concat, string_of, string_views, trim_char};

verus! {

/// Symbols of a Python file.
pub const PYTHON_SYMBOL_QUERY: &'static str = "
(function_definition
  name: (identifier) @function.name) @function.definition

(class_definition
  name: (identifier) @class.name) @class.definition

(assignment
  left: (identifier) @variable.name) @variable.definition

(function_definition
  body: (block
    (function_definition
      name: (identifier) @method.name))) @method.definition
";

/// Imports of a Python file.
pub const PYTHON_IMPORT_QUERY: &'static str = "
(import_statement
  name: (dotted_name) @import.name)

(import_from_statement
  module_name: (dotted_name) @import.module)

(import_from_statement
  name: (dotted_name) @import.name)
";

/// Exports of a Python file: its functions and classes.
pub const PYTHON_EXPORT_QUERY: &'static str = "
(function_definition
  name: (identifier) @export.name)

(class_definition
  name: (identifier) @export.name)
";

/// Symbols of a TypeScript file.
pub const TYPESCRIPT_SYMBOL_QUERY: &'static str = "
(function_declaration
  name: (identifier) @function.name) @function.definition

(class_declaration
  name: (type_identifier) @class.name) @class.definition

(interface_declaration
  name: (type_identifier) @interface.name) @interface.definition

(type_alias_declaration
  name: (type_identifier) @type.name) @type.definition

(variable_declaration
  (variable_declarator
    name: (identifier) @variable.name)) @variable.definition

(method_definition
  name: (property_identifier) @method.name) @method.definition

(arrow_function) @arrow_function.definition

(assignment_expression
  left: (identifier) @variable.name
  right: [(arrow_function) (function_expression)]) @variable.definition
";

/// Imports of a TypeScript file.
pub const TYPESCRIPT_IMPORT_QUERY: &'static str = "
(import_statement
  source: (string) @import.source)

(import_statement
  (import_clause
    (named_imports
      (import_specifier
        name: (identifier) @import.name))))
";

/// Exports of a TypeScript file.
pub const TYPESCRIPT_EXPORT_QUERY: &'static str = "
(export_statement
  (function_declaration
    name: (identifier) @export.name))

(export_statement
  (class_declaration
    name: (type_identifier) @export.name))

(export_statement
  (interface_declaration
    name: (type_identifier) @export.name))
";

/// One capture of a query match as tree-sitter reports it: the index of
/// its capture name, and the rows and bytes its node spans.
#[derive(Clone, Copy, Debug)]
pub struct RawCapture {
    pub index: usize,
    pub start_row: usize,
    pub end_row: usize,
    pub start_byte: usize,
    pub end_byte: usize,
}

/// The plain values of a raw capture: index, start row, end row, start
/// byte, end byte.
pub type RawCaptureView = (usize, usize, usize, usize, usize);

impl View for RawCapture {
    type V = RawCaptureView;

    open spec fn view(&self) -> RawCaptureView {
        (self.index, self.start_row, self.end_row, self.start_byte, self.end_byte)
    }
}

/// The matches of one query over one parsed file: the query's capture
/// names, and for each match, in the order found, its captures.
pub struct RawMatches {
    pub capture_names: Vec<String>,
    pub matches: Vec<Vec<RawCapture>>,
}

pub type RawMatchesView = (Seq<Seq<char>>, Seq<Seq<RawCaptureView>>);

impl View for RawMatches {
    type V = RawMatchesView;

    open spec fn view(&self) -> RawMatchesView {
        (
            string_views(self.capture_names@),
            self.matches@.map_values(|m: Vec<RawCapture>| m@.map_values(|c: RawCapture| c@)),
        )
    }
}

pub open spec fn raw_matches_view(r: Option<RawMatches>) -> Option<RawMatchesView> {
    match r {
        Some(m) => Some(m@),
        None => None,
    }
}

/// What parsing `content` with the tree-sitter grammar of `language` and
/// running `query` over the tree gives: the query's capture names and its
/// matches; none when the grammar cannot be loaded, the text cannot be
/// parsed or the query does not compile.
pub uninterp spec fn tree_sitter_matches(language: Seq<char>, content: Seq<char>, query: Seq<char>) -> Option<
    RawMatchesView,
>;

/// Parses `content` with the Python grammar (`tree_sitter_python::language`,
/// `Parser::set_language`, `Parser::parse`) and runs `query` over the tree
/// (`Query::new`, `QueryCursor::matches`), handing out each match's
/// captures as indices and node positions. The result is the one
/// `tree_sitter_matches` names for `"python"`.
#[verifier::external_body]
fn python_matches(content: &str, query: &str) -> (r: Option<RawMatches>)
    ensures
        raw_matches_view(r) == tree_sitter_matches("python"@, content@, query@),
{
    let g = tree_sitter_python::language();
    let mut p = tree_sitter::Parser::new();
    p.set_language(g).ok()?;
    let tree = p.parse(content, None)?;
    let q = tree_sitter::Query::new(g, query).ok()?;
    let matches = tree_sitter::QueryCursor::new().matches(&q, tree.root_node(), content.as_bytes())
        .map(|m| m.captures.iter().map(|c| RawCapture { index: c.index as usize, start_row: c.node.start_position().row,
            end_row: c.node.end_position().row, start_byte: c.node.start_byte(), end_byte: c.node.end_byte() }).collect())
        .collect();
    Some(RawMatches { capture_names: q.capture_names().to_vec(), matches })
}

/// As `python_matches`, with the TypeScript grammar
/// (`tree_sitter_typescript::language_typescript`). The result is the one
/// `tree_sitter_matches` names for `"typescript"`.
#[verifier::external_body]
fn typescript_matches(content: &str, query: &str) -> (r: Option<RawMatches>)
    ensures
        raw_matches_view(r) == tree_sitter_matches("typescript"@, content@, query@),
{
    let g = tree_sitter_typescript::language_typescript();
    let mut p = tree_sitter::Parser::new();
    p.set_language(g).ok()?;
    let tree = p.parse(content, None)?;
    let q = tree_sitter::Query::new(g, query).ok()?;
    let matches = tree_sitter::QueryCursor::new().matches(&q, tree.root_node(), content.as_bytes())
        .map(|m| m.captures.iter().map(|c| RawCapture { index: c.index as usize, start_row: c.node.start_position().row,
            end_row: c.node.end_position().row, start_byte: c.node.start_byte(), end_byte: c.node.end_byte() }).collect())
        .collect();
    Some(RawMatches { capture_names: q.capture_names().to_vec(), matches })
}

/// The text between two byte offsets of `content`: none unless both fall
/// on character boundaries, in order.
pub open spec fn capture_text(content: Seq<char>, start: usize, end: usize) -> Option<Seq<char>> {
    match (chars_in_bytes(content, start as int), chars_in_bytes(content, end as int)) {
        (Some(i), Some(j)) => if i <= j {
            Some(content.subrange(i, j))
        } else {
            None
        },
        _ => None,
    }
}

/// A raw capture read as a capture: its name from the query's names, and
/// for a `*.name` capture the text it covers (other captures carry no text).
pub open spec fn capture_from_raw(names: Seq<Seq<char>>, content: Seq<char>, c: RawCaptureView) -> CaptureView {
    let name = names[c.0 as int];
    CaptureView {
        name,
        text: if has_suffix(name, ".name"@) {
            capture_text(content, c.3, c.4)->0
        } else {
            Seq::empty()
        },
        start_row: c.1,
        end_row: c.2,
        start_byte: c.3,
        end_byte: c.4,
    }
}

/// A raw capture can be read: its name index is in range, and a `*.name`
/// capture covers whole characters.
pub open spec fn capture_readable(names: Seq<Seq<char>>, content: Seq<char>, c: RawCaptureView) -> bool {
    &&& c.0 < names.len()
    &&& has_suffix(names[c.0 as int], ".name"@) ==> capture_text(content, c.3, c.4) is Some
}

/// Every capture of every match can be read.
pub open spec fn matches_readable(names: Seq<Seq<char>>, content: Seq<char>, ms: Seq<Seq<RawCaptureView>>) -> bool {
    forall|i: int, j: int|
        0 <= i < ms.len() && 0 <= j < ms[i].len() ==> capture_readable(names, content, #[trigger] ms[i][j])
}

/// The captures of one match, read.
pub open spec fn match_captures(names: Seq<Seq<char>>, content: Seq<char>, m: Seq<RawCaptureView>) -> Seq<CaptureView> {
    m.map_values(|c: RawCaptureView| capture_from_raw(names, content, c))
}

/// The symbols the matches describe, in match order; a match without a
/// named symbol gives none.
pub open spec fn match_symbols(
    names: Seq<Seq<char>>,
    content: Seq<char>,
    ms: Seq<Seq<RawCaptureView>>,
    path: Seq<char>,
    language: Seq<char>,
) -> Seq<(Seq<char>, Seq<char>, usize, usize, usize, usize, Seq<char>, Seq<char>)>
    decreases ms.len(),
{
    if ms.len() == 0 {
        Seq::empty()
    } else {
        let prev = match_symbols(names, content, ms.drop_last(), path, language);
        match symbol_of_captures(match_captures(names, content, ms.last()), path, language) {
            Some(p) => prev.push(p),
            None => prev,
        }
    }
}

/// The texts of a match's captures, in order, skipping those that do not
/// cover whole characters.
pub open spec fn match_texts(content: Seq<char>, m: Seq<RawCaptureView>) -> Seq<Seq<char>>
    decreases m.len(),
{
    if m.len() == 0 {
        Seq::empty()
    } else {
        let prev = match_texts(content, m.drop_last());
        match capture_text(content, m.last().3, m.last().4) {
            Some(t) => prev.push(t),
            None => prev,
        }
    }
}

/// The texts of all captures of all matches, in order.
pub open spec fn all_texts(content: Seq<char>, ms: Seq<Seq<RawCaptureView>>) -> Seq<Seq<char>>
    decreases ms.len(),
{
    if ms.len() == 0 {
        Seq::empty()
    } else {
        all_texts(content, ms.drop_last()) + match_texts(content, ms.last())
    }
}

/// Captured imports without surrounding double quotes.
pub open spec fn import_texts(content: Seq<char>, ms: Seq<Seq<RawCaptureView>>) -> Seq<Seq<char>> {
    all_texts(content, ms).map_values(|t: Seq<char>| trim_char(t, '"'))
}

/// The fields of a freshly parsed file log.
pub open spec fn file_log_is(
    f: FileLog,
    path: Seq<char>,
    language: Seq<char>,
    now: Seq<char>,
    content_hash: Seq<char>,
    symbols: Seq<(Seq<char>, Seq<char>, usize, usize, usize, usize, Seq<char>, Seq<char>)>,
    imports: Seq<Seq<char>>,
    exports: Seq<Seq<char>>,
) -> bool {
    &&& f.path@ == path
    &&& f.language@ == language
    &&& f.last_indexed@ == now
    &&& f.content_hash@ == content_hash
    &&& f.symbols@.map_values(|p: ParsedSymbol| parsed_view(p)) == symbols
    &&& string_views(f.dependencies.imports@) == imports
    &&& string_views(f.dependencies.exports@) == exports
    &&& f.recent_changes@.len() == 0
    &&& f.linked_decisions@.len() == 0
    &&& f.notes@.len() == 0
}

/// What building a file log from the three queries' matches gives: a log
/// of the symbols, imports and exports found, when every symbol capture can
/// be read; an error otherwise.
pub open spec fn log_from_matches(
    r: Result<FileLog, String>,
    path: Seq<char>,
    language: Seq<char>,
    now: Seq<char>,
    content: Seq<char>,
    symbols: RawMatchesView,
    imports: RawMatchesView,
    exports: RawMatchesView,
) -> bool {
    &&& r is Ok <==> matches_readable(symbols.0, content, symbols.1)
    &&& r matches Ok(f) ==> file_log_is(
        f,
        path,
        language,
        now,
        sha256_hex(content),
        match_symbols(symbols.0, content, symbols.1, path, language),
        import_texts(content, imports.1),
        all_texts(content, exports.1),
    )
}

/// What parsing a file in a parsed language gives, from what tree-sitter
/// answered to its three queries: the file log of the matches, or, when any
/// query could not be run, the error naming the file.
#[verifier::opaque]
pub open spec fn parse_outcome(
    r: Result<FileLog, String>,
    path: Seq<char>,
    language: Seq<char>,
    now: Seq<char>,
    content: Seq<char>,
    symbols: Option<RawMatchesView>,
    imports: Option<RawMatchesView>,
    exports: Option<RawMatchesView>,
) -> bool {
    match (symbols, imports, exports) {
        (Some(s), Some(i), Some(e)) => log_from_matches(r, path, language, now, content, s, i, e),
        _ => r matches Err(m) && m@ == "Failed to parse file: "@ + path,
    }
}

/// The text between two byte offsets of `content`, when both fall on
/// character boundaries, in order.
fn text_between(content: &Vec<char>, start: usize, end: usize) -> (r: Option<Vec<char>>)
    ensures
        match r {
            Some(t) => capture_text(content@, start, end) == Some(t@),
            None => capture_text(content@, start, end) is None,
        },
{
    match (char_index_for_bytes(content, start), char_index_for_bytes(content, end)) {
        (Some(i), Some(j)) => {
            if i <= j {
                Some(slice_vec(content, i, j))
            } else {
                None
            }
        },
        _ => None,
    }
}

/// The symbols described by the matches of a symbol query; an error when a
/// capture cannot be read.
fn symbols_from_matches(raw: &RawMatches, content: &Vec<char>, path: &str, language: &str) -> (r: Result<
    Vec<ParsedSymbol>,
    String,
>)
    ensures
        r is Ok <==> matches_readable(raw@.0, content@, raw@.1),
        r matches Ok(v) ==> v@.map_values(|p: ParsedSymbol| parsed_view(p)) == match_symbols(
            raw@.0,
            content@,
            raw@.1,
            path@,
            language@,
        ),
{
    let ghost names = raw@.0;
    let ghost ms = raw@.1;
    let mut out: Vec<ParsedSymbol> = Vec::new();
    let mut i: usize = 0;
    while i < raw.matches.len()
        invariant
            i <= ms.len(),
            names == raw@.0,
            ms == raw@.1,
            ms.len() == raw.matches@.len(),
            forall|a: int, b: int|
                0 <= a < i && 0 <= b < ms[a].len() ==> capture_readable(names, content@, #[trigger] ms[a][b]),
            out@.map_values(|p: ParsedSymbol| parsed_view(p)) == match_symbols(
                names,
                content@,
                ms.take(i as int),
                path@,
                language@,
            ),
        decreases ms.len() - i,
    {
        let m = &raw.matches[i];
        proof {
            assert(ms[i as int] == m@.map_values(|c: RawCapture| c@));
        }
        let mut caps: Vec<QueryCapture> = Vec::new();
        let mut j: usize = 0;
        while j < m.len()
            invariant
                i < ms.len(),
                j <= m@.len(),
                names == raw@.0,
                ms == raw@.1,
                ms[i as int] == m@.map_values(|c: RawCapture| c@),
                forall|b: int| 0 <= b < j ==> capture_readable(names, content@, #[trigger] ms[i as int][b]),
                capture_views(caps@) == match_captures(names, content@, ms[i as int].take(j as int)),
            decreases m@.len() - j,
        {
            let c = m[j];
            proof {
                assert(ms[i as int][j as int] == c@);
            }
            if c.index >= raw.capture_names.len() {
                proof {
                    assert(!capture_readable(names, content@, ms[i as int][j as int]));
                }
                return Err(crate::text::string_from_str("Capture index out of range"));
            }
            let name = raw.capture_names[c.index].clone();
            let nc = chars_of(name.as_str());
            proof {
                assert(names[c.index as int] == name@);
            }
            let text = if crate::parser::ends_with_str(&nc, ".name") {
                match text_between(content, c.start_byte, c.end_byte) {
                    Some(t) => string_of(&t),
                    None => {
                        proof {
                            assert(!capture_readable(names, content@, ms[i as int][j as int]));
                        }
                        return Err(crate::text::string_from_str("Capture text is not valid UTF-8"));
                    },
                }
            } else {
                String::new()
            };
            let ghost before = caps@;
            caps.push(
                QueryCapture {
                    name,
                    text,
                    start_row: c.start_row,
                    end_row: c.end_row,
                    start_byte: c.start_byte,
                    end_byte: c.end_byte,
                },
            );
            proof {
                assert(capture_views(caps@) == capture_views(before).push(caps@[j as int]@));
                assert(ms[i as int].take(j + 1) == ms[i as int].take(j as int).push(c@));
                assert(caps@[j as int]@ == capture_from_raw(names, content@, c@));
            }
            j = j + 1;
        }
        proof {
            assert(ms[i as int].take(j as int) == ms[i as int]);
            assert(ms.take(i + 1).drop_last() == ms.take(i as int));
            assert(ms.take(i + 1).last() == ms[i as int]);
        }
        let ghost before = out@;
        match symbol_from_captures(&caps, path, language) {
            Some(p) => {
                out.push(p);
                proof {
                    assert(out@.map_values(|p: ParsedSymbol| parsed_view(p)) == before.map_values(
                        |p: ParsedSymbol| parsed_view(p),
                    ).push(parsed_view(p)));
                }
            },
            None => {},
        }
        i = i + 1;
    }
    proof {
        assert(ms.take(ms.len() as int) == ms);
    }
    Ok(out)
}

/// The texts of all captures of all matches, in order (those that cover
/// whole characters), without surrounding `"` when `unquote` is set.
fn texts_from_matches(raw: &RawMatches, content: &Vec<char>, unquote: bool) -> (r: Vec<String>)
    ensures
        string_views(r@) == if unquote {
            import_texts(content@, raw@.1)
        } else {
            all_texts(content@, raw@.1)
        },
{
    let ghost ms = raw@.1;
    let mut out: Vec<String> = Vec::new();
    let ghost mut plain: Seq<Seq<char>> = Seq::empty();
    let mut i: usize = 0;
    while i < raw.matches.len()
        invariant
            i <= ms.len(),
            ms == raw@.1,
            ms.len() == raw.matches@.len(),
            plain == all_texts(content@, ms.take(i as int)),
            string_views(out@) == if unquote {
                plain.map_values(|t: Seq<char>| trim_char(t, '"'))
            } else {
                plain
            },
        decreases ms.len() - i,
    {
        let m = &raw.matches[i];
        proof {
            assert(ms[i as int] == m@.map_values(|c: RawCapture| c@));
            assert(ms.take(i + 1).drop_last() == ms.take(i as int));
            assert(ms.take(i + 1).last() == ms[i as int]);
        }
        let ghost start = plain;
        let mut j: usize = 0;
        while j < m.len()
            invariant
                i < ms.len(),
                j <= m@.len(),
                ms[i as int] == m@.map_values(|c: RawCapture| c@),
                plain == start + match_texts(content@, ms[i as int].take(j as int)),
                string_views(out@) == if unquote {
                    plain.map_values(|t: Seq<char>| trim_char(t, '"'))
                } else {
                    plain
                },
            decreases m@.len() - j,
        {
            let c = m[j];
            proof {
                assert(ms[i as int][j as int] == c@);
                assert(ms[i as int].take(j + 1).drop_last() == ms[i as int].take(j as int));
                assert(ms[i as int].take(j + 1).last() == c@);
            }
            match text_between(content, c.start_byte, c.end_byte) {
                Some(t) => {
                    let kept = if unquote {
                        crate::text::trim_matches_char(&t, '"')
                    } else {
                        t
                    };
                    let ghost before = out@;
                    out.push(string_of(&kept));
                    proof {
                        plain = plain.push(t@);
                        assert(string_views(out@) == string_views(before).push(kept@));
                        assert(start + match_texts(content@, ms[i as int].take(j + 1)) == (start
                            + match_texts(content@, ms[i as int].take(j as int))).push(t@));
                    }
                },
                None => {},
            }
            j = j + 1;
        }
        proof {
            assert(ms[i as int].take(j as int) == ms[i as int]);
        }
        i = i + 1;
    }
    proof {
        assert(ms.take(ms.len() as int) == ms);
    }
    out
}

/// Builds the file log of a parsed file from what its symbol, import and
/// export queries matched.
pub fn file_log_from_matches(
    path: &str,
    language: &str,
    now: &str,
    content: &str,
    symbols: &RawMatches,
    imports: &RawMatches,
    exports: &RawMatches,
) -> (r: Result<FileLog, String>)
    ensures
        log_from_matches(r, path@, language@, now@, content@, symbols@, imports@, exports@),
{
    let cs = chars_of(content);
    let found = match symbols_from_matches(symbols, &cs, path, language) {
        Ok(v) => v,
        Err(e) => {
            return Err(e);
        },
    };
    let import_list = texts_from_matches(imports, &cs, true);
    let export_list = texts_from_matches(exports, &cs, false);
    Ok(
        FileLog {
            path: crate::text::string_from_str(path),
            language: crate::text::string_from_str(language),
            last_indexed: crate::text::string_from_str(now),
            content_hash: crate::digest::sha256_hex_of(content),
            symbols: found,
            dependencies: FileDependencies { imports: import_list, exports: export_list },
            recent_changes: Vec::new(),
            linked_decisions: Vec::new(),
            notes: Vec::new(),
        },
    )
}

/// The file log of the three queries' matches, or the parse failure when
/// any of them could not be run.
fn log_or_failure(
    path: &str,
    language: &str,
    now: &str,
    content: &str,
    symbols: Option<RawMatches>,
    imports: Option<RawMatches>,
    exports: Option<RawMatches>,
) -> (r: Result<FileLog, String>)
    ensures
        parse_outcome(
            r,
            path@,
            language@,
            now@,
            content@,
            raw_matches_view(symbols),
            raw_matches_view(imports),
            raw_matches_view(exports),
        ),
{
    reveal(parse_outcome);
    match (symbols, imports, exports) {
        (Some(s), Some(i), Some(e)) => file_log_from_matches(path, language, now, content, &s, &i, &e),
        _ => Err(str_concat("Failed to parse file: ", path)),
    }
}

/// What recording a change gives on top of a parse: the parse's error
/// unchanged; or the parsed log with the change entry first among its
/// recent changes (ten kept) and a named decision linked once, with its
/// markdown, when its line numbers can be counted from 1 (an error
/// otherwise).
pub open spec fn update_of(
    r: Result<(FileLog, String), String>,
    parsed: Result<FileLog, String>,
    entry: Seq<char>,
    decision_id: Option<Seq<char>>,
) -> bool {
    match parsed {
        Err(e) => r matches Err(e2) && e2@ == e@,
        Ok(f) => if lines_countable(f.symbols@) {
            r matches Ok((g, md)) && {
                &&& g.path == f.path
                &&& g.language == f.language
                &&& g.last_indexed == f.last_indexed
                &&& g.content_hash == f.content_hash
                &&& g.symbols == f.symbols
                &&& g.dependencies == f.dependencies
                &&& g.notes == f.notes
                &&& string_views(g.recent_changes@) == changes_after(entry, string_views(f.recent_changes@))
                &&& string_views(g.linked_decisions@) == decisions_after(decision_id, string_views(f.linked_decisions@))
                &&& md@ == file_log_markdown(g)
            }
        } else {
            r matches Err(m) && m@ == "Line number out of range"@
        },
    }
}

/// Whether every symbol's lines can be counted from 1.
fn lines_countable_exec(symbols: &Vec<ParsedSymbol>) -> (r: bool)
    ensures
        r == lines_countable(symbols@),
{
    let mut k: usize = 0;
    while k < symbols.len()
        invariant
            k <= symbols@.len(),
            forall|i: int| 0 <= i < k ==> #[trigger] symbols@[i].start_line < usize::MAX && symbols@[i].end_line < usize::MAX,
        decreases symbols@.len() - k,
    {
        if symbols[k].start_line == usize::MAX || symbols[k].end_line == usize::MAX {
            return false;
        }
        k = k + 1;
    }
    true
}

/// What parsing a file's source gives (see `CodebaseParser::parse_source`).
pub open spec fn parse_source_result(
    r: Result<FileLog, String>,
    path: Seq<char>,
    language: Seq<char>,
    content: Seq<char>,
    now: Seq<char>,
) -> bool {
    &&& language == "python"@ ==> parse_outcome(
        r,
        path,
        language,
        now,
        content,
        tree_sitter_matches("python"@, content, PYTHON_SYMBOL_QUERY@),
        tree_sitter_matches("python"@, content, PYTHON_IMPORT_QUERY@),
        tree_sitter_matches("python"@, content, PYTHON_EXPORT_QUERY@),
    )
    &&& language == "typescript"@ ==> parse_outcome(
        r,
        path,
        language,
        now,
        content,
        tree_sitter_matches("typescript"@, content, TYPESCRIPT_SYMBOL_QUERY@),
        tree_sitter_matches("typescript"@, content, TYPESCRIPT_IMPORT_QUERY@),
        tree_sitter_matches("typescript"@, content, TYPESCRIPT_EXPORT_QUERY@),
    )
    &&& language != "python"@ && language != "typescript"@ ==> (r matches Ok(f) && {
        &&& f.path@ == path
        &&& f.language@ == language
        &&& f.last_indexed@ == now
        &&& f.content_hash@ == sha256_hex(content)
        &&& f.symbols@.len() == 0
        &&& f.dependencies.imports@.len() == 0
        &&& f.dependencies.exports@.len() == 0
        &&& f.recent_changes@.len() == 0
        &&& f.linked_decisions@.len() == 0
        &&& f.notes@.len() == 1
        &&& f.notes@[0]@ == unsupported_note(language)
    })
}

impl CodebaseParser {
    /// Parses the source text of one file into its file log. Python and
    /// TypeScript files are run through their symbol, import and export
    /// queries; a file of another language gets a log with a note that it is
    /// not parsed. `now` is the indexing time written into the log.
    pub fn parse_source(&self, path: &str, language: &str, content: &str, now: &str) -> (r: Result<
        FileLog,
        String,
    >)
        ensures
            parse_source_result(r, path@, language@, content@, now@),
    {
        proof {
            reveal_strlit("python");
            reveal_strlit("typescript");
        }
        let lc = chars_of(language);
        if eq_str(&lc, "python") {
            let s = python_matches(content, PYTHON_SYMBOL_QUERY);
            let i = python_matches(content, PYTHON_IMPORT_QUERY);
            let e = python_matches(content, PYTHON_EXPORT_QUERY);
            assert(language@ != "typescript"@) by {
                assert("python"@.len() != "typescript"@.len());
            }
            log_or_failure(path, language, now, content, s, i, e)
        } else if eq_str(&lc, "typescript") {
            let s = typescript_matches(content, TYPESCRIPT_SYMBOL_QUERY);
            let i = typescript_matches(content, TYPESCRIPT_IMPORT_QUERY);
            let e = typescript_matches(content, TYPESCRIPT_EXPORT_QUERY);
            log_or_failure(path, language, now, content, s, i, e)
        } else {
            let hash = self.compute_hash(content);
            Ok(unsupported_file_log(path, language, now, hash.as_str()))
        }
    }

    /// Re-parses a file and records a change in its log: the change entry
    /// (`date · description` and the run, changeset and decision it names)
    /// goes first among the recent changes, a named decision is linked, and
    /// the log's markdown is rendered. `date` is the day of the change as
    /// `YYYY-MM-DD`; `now` is the indexing time.
    pub fn update_file_log(
        &self,
        path: &str,
        language: &str,
        content: &str,
        now: &str,
        date: &str,
        description: &str,
        run_id: Option<&str>,
        changeset_id: Option<&str>,
        decision_id: Option<&str>,
    ) -> (r: Result<(FileLog, String), String>)
        ensures
            exists|parsed: Result<FileLog, String>|
                parse_source_result(parsed, path@, language@, content@, now@) && update_of(
                    r,
                    parsed,
                    change_entry_spec(
                        date@,
                        description@,
                        crate::query::opt_str(run_id),
                        crate::query::opt_str(changeset_id),
                        crate::query::opt_str(decision_id),
                    ),
                    crate::query::opt_str(decision_id),
                ),
    {
        let parsed = self.parse_source(path, language, content, now);
        let ghost p0 = parsed;
        match parsed {
            Err(e) => Err(e),
            Ok(f) => {
                let mut g = f;
                record_change(&mut g, date, description, run_id, changeset_id, decision_id);
                if !lines_countable_exec(&g.symbols) {
                    return Err(crate::text::string_from_str("Line number out of range"));
                }
                let md = self.generate_file_log_markdown(&g);
                Ok((g, md))
            },
        }
    }
}

} // verus!
