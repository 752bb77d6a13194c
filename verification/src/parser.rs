//! File logs: the symbols and dependencies found in a source file, and
//! their markdown rendering.
use vstd::prelude::*;

use crate::chunking::{chunkable, chunks_of, ChunkData, ChunkingService};
use crate::filelog::{dependencies_of, key_symbol, summary_spec, FileLogGenerator, Symbol};
use crate::models::SymbolKind;
use crate::text::{append_decimal, append_str, chars_of, decimal, eq_str, string_of, string_views};

verus! {

/// The tree-sitter grammar handle.
#[verifier::external_type_specification]
#[verifier::external_body]
pub struct ExLanguage(tree_sitter::Language);

/// `tree_sitter_python::language`: the Python grammar.
#[verifier::external_body]
fn python_grammar() -> (r: tree_sitter::Language) {
    tree_sitter_python::language()
}

/// `tree_sitter_typescript::language_typescript`: the TypeScript grammar.
#[verifier::external_body]
fn typescript_grammar() -> (r: tree_sitter::Language) {
    tree_sitter_typescript::language_typescript()
}

/// A symbol found in a source file. Lines are counted from 0.
pub struct ParsedSymbol {
    pub name: String,
    pub symbol_type: String,
    pub start_line: usize,
    pub end_line: usize,
    pub start_byte: usize,
    pub end_byte: usize,
    pub file_path: String,
    pub language: String,
}

/// What a file imports and exports.
pub struct FileDependencies {
    pub imports: Vec<String>,
    pub exports: Vec<String>,
}

/// The indexed state of one source file.
pub struct FileLog {
    pub path: String,
    pub language: String,
    pub last_indexed: String,
    pub content_hash: String,
    pub symbols: Vec<ParsedSymbol>,
    pub dependencies: FileDependencies,
    pub recent_changes: Vec<String>,
    pub linked_decisions: Vec<String>,
    pub notes: Vec<String>,
}

/// A list of `- item` lines.
pub open spec fn bullets(items: Seq<Seq<char>>) -> Seq<char>
    decreases items.len(),
{
    if items.len() == 0 {
        Seq::empty()
    } else {
        bullets(items.drop_last()) + "- "@ + items.last() + "\n"@
    }
}

/// Where line `i` of a bullet list of `items` starts: the lengths of the
/// lines before it, each `- `, the item and a newline.
pub open spec fn bullet_offset(items: Seq<Seq<char>>, i: int) -> int
    decreases i,
{
    if i <= 0 {
        0
    } else {
        bullet_offset(items, i - 1) + items[i - 1].len() + 3
    }
}

proof fn lemma_bullet_offset_prefix(items: Seq<Seq<char>>, i: int)
    requires
        0 <= i < items.len(),
    ensures
        bullet_offset(items, i) == bullet_offset(items.drop_last(), i),
    decreases i,
{
    if i > 0 {
        lemma_bullet_offset_prefix(items, i - 1);
        assert(items.drop_last()[i - 1] == items[i - 1]);
    }
}

proof fn lemma_bullet_offset_mono(items: Seq<Seq<char>>, i: int, j: int)
    requires
        0 <= i <= j <= items.len(),
    ensures
        0 <= bullet_offset(items, i) <= bullet_offset(items, j),
    decreases j,
{
    if j > i {
        lemma_bullet_offset_mono(items, i, j - 1);
    } else {
        lemma_bullet_offset_nonneg(items, i);
    }
}

proof fn lemma_bullet_offset_nonneg(items: Seq<Seq<char>>, i: int)
    ensures
        bullet_offset(items, i) >= 0,
    decreases i,
{
    if i > 0 {
        lemma_bullet_offset_nonneg(items, i - 1);
    }
}

/// A bullet list has exactly one line per item, in order: line `i` is
/// `- `, item `i` and a newline, and nothing else is in the list.
pub proof fn bullets_have_one_line_per_item(items: Seq<Seq<char>>)
    ensures
        bullets(items).len() == bullet_offset(items, items.len() as int),
        forall|i: int|
            0 <= i < items.len() ==> #[trigger] bullets(items).subrange(bullet_offset(items, i), bullet_offset(items, i + 1))
                == "- "@ + items[i] + "\n"@,
    decreases items.len(),
{
    reveal_strlit("- ");
    reveal_strlit("\n");
    if items.len() > 0 {
        let p = items.drop_last();
        let n = items.len() - 1;
        bullets_have_one_line_per_item(p);
        let line = "- "@ + items.last() + "\n"@;
        assert(bullets(items) == bullets(p) + line);
        lemma_bullet_offset_prefix(items, n);
        assert forall|i: int| 0 <= i < items.len() implies #[trigger] bullets(items).subrange(
            bullet_offset(items, i),
            bullet_offset(items, i + 1),
        ) == "- "@ + items[i] + "\n"@ by {
            if i < n {
                lemma_bullet_offset_prefix(items, i);
                if i + 1 < n {
                    lemma_bullet_offset_prefix(items, i + 1);
                } else {
                    assert(bullet_offset(items, i + 1) == bullet_offset(items, i) + items[i].len() + 3);
                    assert(bullet_offset(p, i + 1) == bullet_offset(p, i) + p[i].len() + 3);
                }
                assert(p[i] == items[i]);
                lemma_bullet_offset_mono(p, i, i + 1);
                lemma_bullet_offset_mono(p, i + 1, n);
                assert(bullets(p).subrange(bullet_offset(p, i), bullet_offset(p, i + 1)) == "- "@ + p[i] + "\n"@);
                assert(bullets(items).subrange(bullet_offset(items, i), bullet_offset(items, i + 1))
                    =~= bullets(p).subrange(bullet_offset(p, i), bullet_offset(p, i + 1)));
            } else {
                assert(items[i] == items.last());
                assert(bullets(items).subrange(bullet_offset(items, i), bullet_offset(items, i + 1)) =~= line);
            }
        }
    }
}

/// The line of one symbol: `- <type>: <name> (lines <first>-<last>)`, with
/// lines counted from 1.
pub open spec fn symbol_line(s: ParsedSymbol) -> Seq<char> {
    "- "@ + s.symbol_type@ + ": "@ + s.name@ + " (lines "@ + decimal(s.start_line as nat + 1) + "-"@
        + decimal(s.end_line as nat + 1) + ")\n"@
}

/// The symbol lines, in order.
pub open spec fn symbol_lines(ss: Seq<ParsedSymbol>) -> Seq<char>
    decreases ss.len(),
{
    if ss.len() == 0 {
        Seq::empty()
    } else {
        symbol_lines(ss.drop_last()) + symbol_line(ss.last())
    }
}

/// Where the line of symbol `i` starts in the symbol lines: the lengths of
/// the lines before it.
pub open spec fn symbol_offset(ss: Seq<ParsedSymbol>, i: int) -> int
    decreases i,
{
    if i <= 0 {
        0
    } else {
        symbol_offset(ss, i - 1) + symbol_line(ss[i - 1]).len()
    }
}

proof fn lemma_symbol_offset_prefix(ss: Seq<ParsedSymbol>, i: int)
    requires
        0 <= i < ss.len(),
    ensures
        symbol_offset(ss, i) == symbol_offset(ss.drop_last(), i),
    decreases i,
{
    if i > 0 {
        lemma_symbol_offset_prefix(ss, i - 1);
        assert(ss.drop_last()[i - 1] == ss[i - 1]);
    }
}

proof fn lemma_symbol_offset_mono(ss: Seq<ParsedSymbol>, i: int, j: int)
    requires
        0 <= i <= j <= ss.len(),
    ensures
        0 <= symbol_offset(ss, i) <= symbol_offset(ss, j),
    decreases j,
{
    if j > i {
        lemma_symbol_offset_mono(ss, i, j - 1);
    } else {
        lemma_symbol_offset_nonneg(ss, i);
    }
}

proof fn lemma_symbol_offset_nonneg(ss: Seq<ParsedSymbol>, i: int)
    ensures
        symbol_offset(ss, i) >= 0,
    decreases i,
{
    if i > 0 {
        lemma_symbol_offset_nonneg(ss, i - 1);
    }
}

/// The symbol section has exactly one line per symbol, in order: the
/// line of symbol `i` is `symbol_line(ss[i])`, and nothing else is there.
pub proof fn symbol_lines_have_one_line_per_symbol(ss: Seq<ParsedSymbol>)
    ensures
        symbol_lines(ss).len() == symbol_offset(ss, ss.len() as int),
        forall|i: int|
            0 <= i < ss.len() ==> #[trigger] symbol_lines(ss).subrange(symbol_offset(ss, i), symbol_offset(ss, i + 1))
                == symbol_line(ss[i]),
    decreases ss.len(),
{
    if ss.len() > 0 {
        let p = ss.drop_last();
        let n = ss.len() - 1;
        symbol_lines_have_one_line_per_symbol(p);
        let line = symbol_line(ss.last());
        assert(symbol_lines(ss) == symbol_lines(p) + line);
        lemma_symbol_offset_prefix(ss, n);
        assert forall|i: int| 0 <= i < ss.len() implies #[trigger] symbol_lines(ss).subrange(
            symbol_offset(ss, i),
            symbol_offset(ss, i + 1),
        ) == symbol_line(ss[i]) by {
            if i < n {
                lemma_symbol_offset_prefix(ss, i);
                if i + 1 < n {
                    lemma_symbol_offset_prefix(ss, i + 1);
                } else {
                    assert(symbol_offset(ss, i + 1) == symbol_offset(ss, i) + symbol_line(ss[i]).len());
                    assert(symbol_offset(p, i + 1) == symbol_offset(p, i) + symbol_line(p[i]).len());
                }
                assert(p[i] == ss[i]);
                lemma_symbol_offset_mono(p, i, i + 1);
                lemma_symbol_offset_mono(p, i + 1, n);
                assert(symbol_lines(p).subrange(symbol_offset(p, i), symbol_offset(p, i + 1)) == symbol_line(p[i]));
                assert(symbol_lines(ss).subrange(symbol_offset(ss, i), symbol_offset(ss, i + 1))
                    =~= symbol_lines(p).subrange(symbol_offset(p, i), symbol_offset(p, i + 1)));
            } else {
                assert(ss[i] == ss.last());
                assert(symbol_lines(ss).subrange(symbol_offset(ss, i), symbol_offset(ss, i + 1)) =~= line);
            }
        }
    }
}

/// Whether every symbol's line numbers can be counted from 1.
pub open spec fn lines_countable(ss: Seq<ParsedSymbol>) -> bool {
    forall|i: int| 0 <= i < ss.len() ==> #[trigger] ss[i].start_line < usize::MAX && ss[i].end_line < usize::MAX
}

/// The markdown form of a file log: a header with the path, language,
/// indexing time and content hash, then the sections Symbols,
/// Dependencies (imports and exports), Recent Changes, Linked Decisions and
/// Notes.
pub open spec fn file_log_markdown(f: FileLog) -> Seq<char> {
    "# FILE_LOG v1\n"@ + "path: "@ + f.path@ + "\n"@ + "language: "@ + f.language@ + "\n"@
        + "last_indexed: "@ + f.last_indexed@ + "\n"@ + "content_hash: sha256:"@ + f.content_hash@
        + "\n\n"@ + "## Symbols\n"@ + symbol_lines(f.symbols@) + "\n"@ + "## Dependencies\n"@
        + "imports:\n"@ + bullets(string_views(f.dependencies.imports@)) + "\nexports:\n"@ + bullets(
        string_views(f.dependencies.exports@),
    ) + "\n"@ + "## Recent Changes\n"@ + bullets(string_views(f.recent_changes@)) + "\n"@
        + "## Linked Decisions\n"@ + bullets(string_views(f.linked_decisions@)) + "\n"@
        + "## Notes\n"@ + bullets(string_views(f.notes@))
}

/// Appends one `- item` line per string.
fn append_bullets(v: &mut Vec<char>, items: &Vec<String>)
    ensures
        final(v)@ == old(v)@ + bullets(string_views(items@)),
{
    let ghost v0 = v@;
    let ghost sv = string_views(items@);
    let mut k: usize = 0;
    while k < items.len()
        invariant
            k <= items@.len(),
            sv == string_views(items@),
            v@ == v0 + bullets(sv.take(k as int)),
        decreases items@.len() - k,
    {
        append_str(v, "- ");
        append_str(v, items[k].as_str());
        append_str(v, "\n");
        k = k + 1;
        proof {
            assert(sv.take(k as int).drop_last() == sv.take(k - 1));
            assert(v@ =~= v0 + bullets(sv.take(k as int)));
        }
    }
    proof {
        assert(sv.take(items@.len() as int) == sv);
    }
}

/// Appends the symbol lines.
fn append_symbol_lines(v: &mut Vec<char>, ss: &Vec<ParsedSymbol>)
    requires
        lines_countable(ss@),
    ensures
        final(v)@ == old(v)@ + symbol_lines(ss@),
{
    let ghost v0 = v@;
    let mut k: usize = 0;
    while k < ss.len()
        invariant
            k <= ss@.len(),
            lines_countable(ss@),
            v@ == v0 + symbol_lines(ss@.take(k as int)),
        decreases ss@.len() - k,
    {
        let s = &ss[k];
        assert(s.start_line < usize::MAX && s.end_line < usize::MAX);
        append_str(v, "- ");
        append_str(v, s.symbol_type.as_str());
        append_str(v, ": ");
        append_str(v, s.name.as_str());
        append_str(v, " (lines ");
        append_decimal(v, (s.start_line + 1) as u64);
        append_str(v, "-");
        append_decimal(v, (s.end_line + 1) as u64);
        append_str(v, ")\n");
        k = k + 1;
        proof {
            assert(ss@.take(k as int).drop_last() == ss@.take(k - 1));
            assert(ss@.take(k as int).last() == ss@[k - 1]);
            assert(v@ =~= v0 + symbol_lines(ss@.take(k as int)));
        }
    }
    proof {
        assert(ss@.take(ss@.len() as int) == ss@);
    }
}


/// The symbol kind a parsed symbol type names; unknown types count as functions.
pub open spec fn kind_of_type(t: Seq<char>) -> SymbolKind {
    if t == "function"@ {
        SymbolKind::Function
    } else if t == "class"@ {
        SymbolKind::Class
    } else if t == "variable"@ {
        SymbolKind::Variable
    } else if t == "module"@ {
        SymbolKind::Module
    } else if t == "type"@ {
        SymbolKind::Type
    } else {
        SymbolKind::Function
    }
}

/// A parsed symbol as the summary generator sees it: no hash, signature or
/// documentation.
pub open spec fn as_symbol(p: ParsedSymbol) -> Symbol {
    Symbol {
        name: p.name,
        kind: kind_of_type(p.symbol_type@),
        path: p.file_path,
        language: p.language,
        content_hash: None,
        signature: None,
        documentation: None,
    }
}

/// The symbol kind of a parsed symbol type.
fn kind_of(t: &String) -> (r: SymbolKind)
    ensures
        r == kind_of_type(t@),
{
    let c = chars_of(t.as_str());
    if eq_str(&c, "function") {
        SymbolKind::Function
    } else if eq_str(&c, "class") {
        SymbolKind::Class
    } else if eq_str(&c, "variable") {
        SymbolKind::Variable
    } else if eq_str(&c, "module") {
        SymbolKind::Module
    } else if eq_str(&c, "type") {
        SymbolKind::Type
    } else {
        SymbolKind::Function
    }
}

/// Reads source files into file logs. Holds the grammars of the languages
/// it parses.
pub struct CodebaseParser {
    python_language: tree_sitter::Language,
    typescript_language: tree_sitter::Language,
}

impl CodebaseParser {
    /// A parser with the Python and TypeScript grammars loaded.
    pub fn new() -> (r: Result<CodebaseParser, String>)
        ensures
            r is Ok,
    {
        let python_language = python_grammar();
        let typescript_language = typescript_grammar();
        Ok(CodebaseParser { python_language, typescript_language })
    }

    /// The Python grammar the parser holds.
    pub closed spec fn python_grammar_of(&self) -> tree_sitter::Language {
        self.python_language
    }

    /// The TypeScript grammar the parser holds.
    pub closed spec fn typescript_grammar_of(&self) -> tree_sitter::Language {
        self.typescript_language
    }

    /// The Python grammar.
    pub fn python_language(&self) -> (r: tree_sitter::Language)
        ensures
            r == self.python_grammar_of(),
    {
        self.python_language
    }

    /// The TypeScript grammar.
    pub fn typescript_language(&self) -> (r: tree_sitter::Language)
        ensures
            r == self.typescript_grammar_of(),
    {
        self.typescript_language
    }

    /// Renders a file log as markdown.
    pub fn generate_file_log_markdown(&self, file_log: &FileLog) -> (r: String)
        requires
            lines_countable(file_log.symbols@),
        ensures
            r@ == file_log_markdown(*file_log),
    {
        let mut v = chars_of("# FILE_LOG v1\n");
        append_str(&mut v, "path: ");
        append_str(&mut v, file_log.path.as_str());
        append_str(&mut v, "\n");
        append_str(&mut v, "language: ");
        append_str(&mut v, file_log.language.as_str());
        append_str(&mut v, "\n");
        append_str(&mut v, "last_indexed: ");
        append_str(&mut v, file_log.last_indexed.as_str());
        append_str(&mut v, "\n");
        append_str(&mut v, "content_hash: sha256:");
        append_str(&mut v, file_log.content_hash.as_str());
        append_str(&mut v, "\n\n");
        append_str(&mut v, "## Symbols\n");
        append_symbol_lines(&mut v, &file_log.symbols);
        append_str(&mut v, "\n");
        append_str(&mut v, "## Dependencies\n");
        append_str(&mut v, "imports:\n");
        append_bullets(&mut v, &file_log.dependencies.imports);
        append_str(&mut v, "\nexports:\n");
        append_bullets(&mut v, &file_log.dependencies.exports);
        append_str(&mut v, "\n");
        append_str(&mut v, "## Recent Changes\n");
        append_bullets(&mut v, &file_log.recent_changes);
        append_str(&mut v, "\n");
        append_str(&mut v, "## Linked Decisions\n");
        append_bullets(&mut v, &file_log.linked_decisions);
        append_str(&mut v, "\n");
        append_str(&mut v, "## Notes\n");
        append_bullets(&mut v, &file_log.notes);
        proof {
            assert(v@ =~= file_log_markdown(*file_log));
        }
        string_of(&v)
    }

    /// The lowercase-hex SHA-256 of the file content.
    pub fn compute_hash(&self, content: &str) -> (r: String)
        ensures
            r@ == crate::digest::sha256_hex(content@),
    {
        crate::digest::sha256_hex_of(content)
    }

    /// Splits file content into overlapping windows of 500 words.
    pub fn chunk_file_content(&self, content: &str, language: &str) -> (r: Vec<ChunkData>)
        requires
            chunkable(content@, 500, 100),
        ensures
            r@.map_values(|ch: ChunkData| ch@) == chunks_of(content@, 500, 100),
    {
        let chunking = ChunkingService::new();
        chunking.chunk_file(content, language)
    }

    /// The summary, key symbols and dependencies of a file from its parsed
    /// symbols.
    pub fn generate_filelog_summary(&self, file_path: &str, symbols: &Vec<ParsedSymbol>, language: &str) -> (r: (
        String,
        Vec<String>,
        Vec<String>,
    ))
        ensures
            r.0@ == summary_spec(file_path@, symbols@.map_values(|p: ParsedSymbol| as_symbol(p)), language@),
            string_views(r.1@) == symbols@.map_values(|p: ParsedSymbol| as_symbol(p)).map_values(|s: Symbol| key_symbol(s)),
            string_views(r.2@) == dependencies_of(symbols@.map_values(|p: ParsedSymbol| as_symbol(p))),
    {
        let generator = FileLogGenerator::new();
        let mut converted: Vec<Symbol> = Vec::new();
        let mut k: usize = 0;
        while k < symbols.len()
            invariant
                k <= symbols@.len(),
                converted@ == symbols@.take(k as int).map_values(|p: ParsedSymbol| as_symbol(p)),
            decreases symbols@.len() - k,
        {
            let p = &symbols[k];
            let s = Symbol {
                name: p.name.clone(),
                kind: kind_of(&p.symbol_type),
                path: p.file_path.clone(),
                language: p.language.clone(),
                content_hash: None,
                signature: None,
                documentation: None,
            };
            converted.push(s);
            k = k + 1;
            proof {
                assert(converted@ =~= symbols@.take(k as int).map_values(|p: ParsedSymbol| as_symbol(p)));
            }
        }
        proof {
            assert(symbols@.take(symbols@.len() as int) == symbols@);
        }
        let summary = generator.generate_summary(file_path, &converted, language);
        let key_symbols = generator.extract_key_symbols(&converted);
        let dependencies = generator.extract_dependencies(&converted);
        (summary, key_symbols, dependencies)
    }
}

/// One capture of a query match: the capture's name (such as
/// `function.name` or `class.definition`), the source text it covers, and
/// its position (rows counted from 0).
pub struct QueryCapture {
    pub name: String,
    pub text: String,
    pub start_row: usize,
    pub end_row: usize,
    pub start_byte: usize,
    pub end_byte: usize,
}

/// The plain values of a capture.
pub struct CaptureView {
    pub name: Seq<char>,
    pub text: Seq<char>,
    pub start_row: usize,
    pub end_row: usize,
    pub start_byte: usize,
    pub end_byte: usize,
}

impl View for QueryCapture {
    type V = CaptureView;

    open spec fn view(&self) -> CaptureView {
        CaptureView {
            name: self.name@,
            text: self.text@,
            start_row: self.start_row,
            end_row: self.end_row,
            start_byte: self.start_byte,
            end_byte: self.end_byte,
        }
    }
}

pub open spec fn capture_views(caps: Seq<QueryCapture>) -> Seq<CaptureView> {
    caps.map_values(|c: QueryCapture| c@)
}

/// Whether `s` ends with `p`.
pub open spec fn has_suffix(s: Seq<char>, p: Seq<char>) -> bool {
    p.len() <= s.len() && s.skip(s.len() - p.len()) == p
}

/// The part of `s` before its first `.` (all of it without one).
pub open spec fn before_dot(s: Seq<char>) -> Seq<char>
    decreases s.len(),
{
    if s.len() == 0 || s[0] == '.' {
        Seq::empty()
    } else {
        seq![s[0]] + before_dot(s.drop_first())
    }
}

/// What reading the captures of a match gives: the symbol's name and type
/// from the last `*.name` capture, and the capture its position is taken
/// from (that name capture, else the first `*.definition` capture before it).
pub open spec fn capture_state(caps: Seq<CaptureView>) -> (Seq<char>, Seq<char>, Option<int>)
    decreases caps.len(),
{
    if caps.len() == 0 {
        (Seq::empty(), "unknown"@, None)
    } else {
        let prev = capture_state(caps.drop_last());
        let c = caps.last();
        let i = caps.len() - 1;
        if has_suffix(c.name, ".name"@) {
            (c.text, before_dot(c.name), Some(i))
        } else if has_suffix(c.name, ".definition"@) && prev.2 is None {
            (prev.0, prev.1, Some(i))
        } else {
            prev
        }
    }
}

/// The plain values of a parsed symbol.
pub open spec fn parsed_view(p: ParsedSymbol) -> (Seq<char>, Seq<char>, usize, usize, usize, usize, Seq<char>, Seq<char>) {
    (p.name@, p.symbol_type@, p.start_line, p.end_line, p.start_byte, p.end_byte, p.file_path@, p.language@)
}

/// The symbol a match describes: none without a non-empty name.
pub open spec fn symbol_of_captures(caps: Seq<CaptureView>, file_path: Seq<char>, language: Seq<char>) -> Option<
    (Seq<char>, Seq<char>, usize, usize, usize, usize, Seq<char>, Seq<char>),
> {
    let st = capture_state(caps);
    if st.0.len() > 0 && st.2 is Some {
        let c = caps[st.2->0];
        Some((st.0, st.1, c.start_row, c.end_row, c.start_byte, c.end_byte, file_path, language))
    } else {
        None
    }
}

/// Whether `s` ends with the characters of `p`.
pub(crate) fn ends_with_str(s: &Vec<char>, p: &str) -> (r: bool)
    ensures
        r == has_suffix(s@, p@),
{
    let pc = chars_of(p);
    if pc.len() > s.len() {
        return false;
    }
    let off = s.len() - pc.len();
    let mut i: usize = 0;
    while i < pc.len()
        invariant
            off + pc@.len() == s@.len(),
            off + pc.len() == s.len(),
            pc@ == p@,
            i <= pc@.len(),
            forall|j: int| 0 <= j < i ==> s@[off + j] == pc@[j],
        decreases pc@.len() - i,
    {
        if s[off + i] != pc[i] {
            proof {
                assert(s@.skip(off as int)[i as int] != pc@[i as int]);
            }
            return false;
        }
        i = i + 1;
    }
    proof {
        assert(s@.skip(off as int) =~= pc@);
    }
    true
}

/// The part of `s` before its first `.`.
fn prefix_before_dot(s: &Vec<char>) -> (r: Vec<char>)
    ensures
        r@ == before_dot(s@),
{
    let mut i: usize = 0;
    let mut out: Vec<char> = Vec::new();
    proof {
        assert(s@.skip(0) =~= s@);
    }
    while i < s.len() && s[i] != '.'
        invariant
            i <= s@.len(),
            before_dot(s@) == out@ + before_dot(s@.skip(i as int)),
        decreases s@.len() - i,
    {
        proof {
            assert(s@.skip(i as int).drop_first() =~= s@.skip(i + 1));
            assert(s@.skip(i as int)[0] == s@[i as int]);
        }
        out.push(s[i]);
        i = i + 1;
        proof {
            assert(out@ + before_dot(s@.skip(i as int)) =~= out@.drop_last() + (seq![s@[i - 1]] + before_dot(
                s@.skip(i as int),
            )));
        }
    }
    proof {
        if i < s@.len() {
            assert(s@.skip(i as int)[0] == '.');
        }
        assert(out@ + Seq::<char>::empty() =~= out@);
    }
    out
}

/// The symbol a query match describes: its name and type come from the
/// `*.name` capture, its position from that capture or an earlier
/// `*.definition` one; none when no name was captured.
pub fn symbol_from_captures(captures: &Vec<QueryCapture>, file_path: &str, language: &str) -> (r: Option<ParsedSymbol>)
    ensures
        match r {
            Some(p) => symbol_of_captures(capture_views(captures@), file_path@, language@) == Some(parsed_view(p)),
            None => symbol_of_captures(capture_views(captures@), file_path@, language@) is None,
        },
{
    let ghost cv = capture_views(captures@);
    let mut name: Vec<char> = Vec::new();
    let mut ty: Vec<char> = chars_of("unknown");
    let mut pos: Option<usize> = None;
    let mut k: usize = 0;
    while k < captures.len()
        invariant
            k <= captures@.len(),
            cv == capture_views(captures@),
            capture_state(cv.take(k as int)) == (name@, ty@, match pos {
                Some(p) => Some(p as int),
                None => None::<int>,
            }),
            pos matches Some(p) ==> p < k,
        decreases captures@.len() - k,
    {
        proof {
            assert(cv.take(k + 1).drop_last() =~= cv.take(k as int));
            assert(cv.take(k + 1).last() == captures@[k as int]@);
        }
        let cname = chars_of(captures[k].name.as_str());
        if ends_with_str(&cname, ".name") {
            ty = prefix_before_dot(&cname);
            name = chars_of(captures[k].text.as_str());
            pos = Some(k);
        } else if ends_with_str(&cname, ".definition") && pos.is_none() {
            pos = Some(k);
        }
        k = k + 1;
    }
    proof {
        assert(cv.take(cv.len() as int) =~= cv);
    }
    match pos {
        Some(p) => {
            if name.len() > 0 {
                let c = &captures[p];
                Some(ParsedSymbol {
                    name: string_of(&name),
                    symbol_type: string_of(&ty),
                    start_line: c.start_row,
                    end_line: c.end_row,
                    start_byte: c.start_byte,
                    end_byte: c.end_byte,
                    file_path: crate::text::string_from_str(file_path),
                    language: crate::text::string_from_str(language),
                })
            } else {
                None
            }
        },
        None => None,
    }
}

/// An import as captured, without surrounding double quotes.
pub fn import_text(text: &str) -> (r: String)
    ensures
        r@ == crate::text::trim_char(text@, '"'),
{
    string_of(&crate::text::trim_matches_char(&chars_of(text), '"'))
}

/// The language a source file is parsed as, by its extension: `py` is
/// Python, `ts` and `tsx` TypeScript; other files are not parsed.
pub fn parsed_language(extension: &str) -> (r: Option<&'static str>)
    ensures
        match r {
            Some(l) => (extension@ == "py"@ && l@ == "python"@) || ((extension@ == "ts"@ || extension@ == "tsx"@)
                && l@ == "typescript"@),
            None => extension@ != "py"@ && extension@ != "ts"@ && extension@ != "tsx"@,
        },
{
    let e = chars_of(extension);
    if eq_str(&e, "py") {
        Some("python")
    } else if eq_str(&e, "ts") || eq_str(&e, "tsx") {
        Some("typescript")
    } else {
        None
    }
}

/// The note of a file whose language is not parsed.
pub open spec fn unsupported_note(language: Seq<char>) -> Seq<char> {
    "Language '"@ + language + "' not yet supported for parsing"@
}

/// The file log of a file whose language is not parsed: no symbols or
/// dependencies, and a note that says so.
pub fn unsupported_file_log(path: &str, language: &str, last_indexed: &str, content_hash: &str) -> (r: FileLog)
    ensures
        r.path@ == path@,
        r.language@ == language@,
        r.last_indexed@ == last_indexed@,
        r.content_hash@ == content_hash@,
        r.symbols@.len() == 0,
        r.dependencies.imports@.len() == 0,
        r.dependencies.exports@.len() == 0,
        r.recent_changes@.len() == 0,
        r.linked_decisions@.len() == 0,
        r.notes@.len() == 1,
        r.notes@[0]@ == unsupported_note(language@),
{
    let mut note = chars_of("Language '");
    append_str(&mut note, language);
    append_str(&mut note, "' not yet supported for parsing");
    let mut notes: Vec<String> = Vec::new();
    notes.push(string_of(&note));
    FileLog {
        path: crate::text::string_from_str(path),
        language: crate::text::string_from_str(language),
        last_indexed: crate::text::string_from_str(last_indexed),
        content_hash: crate::text::string_from_str(content_hash),
        symbols: Vec::new(),
        dependencies: FileDependencies { imports: Vec::new(), exports: Vec::new() },
        recent_changes: Vec::new(),
        linked_decisions: Vec::new(),
        notes,
    }
}

} // verus!
