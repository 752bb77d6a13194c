//! Summaries of source files from their symbols: purpose, symbol list and
//! the imports named in the symbols' documentation.
use vstd::prelude::*;

use crate::models::SymbolKind;
use crate::text::{
    append_chars, append_decimal, append_str, chars_of, contains_chars, contains_sub, decimal,
    join_parts, join_with, string_of, trim, trim_ws, views,
};

verus! {

/// The parts of a code symbol that file summaries read.
pub struct Symbol {
    pub name: String,
    pub kind: SymbolKind,
    pub path: String,
    pub language: String,
    pub content_hash: Option<String>,
    pub signature: Option<String>,
    pub documentation: Option<String>,
}

/// The index of the first `\n` at or after `i`, or the length when there is none.
pub open spec fn line_end(s: Seq<char>, i: int) -> int
    decreases s.len() - i,
{
    if i >= s.len() {
        s.len() as int
    } else if s[i] == '\n' {
        i
    } else {
        line_end(s, i + 1)
    }
}

proof fn lemma_line_end(s: Seq<char>, i: int)
    requires
        0 <= i <= s.len(),
    ensures
        i <= line_end(s, i) <= s.len(),
        line_end(s, i) < s.len() ==> s[line_end(s, i)] == '\n',
        forall|j: int| i <= j < line_end(s, i) ==> s[j] != '\n',
    decreases s.len() - i,
{
    if i < s.len() && s[i] != '\n' {
        lemma_line_end(s, i + 1);
    }
}

/// A line ended by `\n` loses a `\r` before it.
pub open spec fn strip_cr(line: Seq<char>, terminated: bool) -> Seq<char> {
    if terminated && line.len() > 0 && line.last() == '\r' {
        line.drop_last()
    } else {
        line
    }
}

/// The lines of `s` from position `i` on, as `str::lines` yields them.
pub open spec fn lines_from(s: Seq<char>, i: int) -> Seq<Seq<char>>
    decreases s.len() - i,
{
    if i < 0 || i >= s.len() {
        Seq::empty()
    } else {
        let e = line_end(s, i);
        if e < i || e > s.len() {
            Seq::empty()
        } else if e < s.len() {
            seq![strip_cr(s.subrange(i, e), true)] + lines_from(s, e + 1)
        } else {
            seq![strip_cr(s.subrange(i, e), false)]
        }
    }
}

/// The lines of `s`.
pub open spec fn lines(s: Seq<char>) -> Seq<Seq<char>> {
    lines_from(s, 0)
}

/// Whether a documentation line names an import.
pub open spec fn is_import_line(line: Seq<char>) -> bool {
    contains_sub(line, "import"@) || contains_sub(line, "from"@)
}

/// The trimmed lines that mention `import` or `from`.
pub open spec fn import_lines(ls: Seq<Seq<char>>) -> Seq<Seq<char>>
    decreases ls.len(),
{
    if ls.len() == 0 {
        Seq::empty()
    } else {
        import_lines(ls.drop_last()) + if is_import_line(ls.last()) {
            seq![trim_ws(ls.last())]
        } else {
            Seq::empty()
        }
    }
}

/// The imports that a documentation text names.
pub open spec fn imports_from_doc(doc: Seq<char>) -> Seq<Seq<char>> {
    import_lines(lines(doc))
}

/// The imports named in the documentation of the symbols, in order.
pub open spec fn dependencies_of(ss: Seq<Symbol>) -> Seq<Seq<char>>
    decreases ss.len(),
{
    if ss.len() == 0 {
        Seq::empty()
    } else {
        dependencies_of(ss.drop_last()) + match ss.last().documentation {
            Some(d) => imports_from_doc(d@),
            None => Seq::empty(),
        }
    }
}

/// `kind:name` for a symbol.
pub open spec fn key_symbol(s: Symbol) -> Seq<char> {
    s.kind.name_spec() + ":"@ + s.name@
}

/// The number of symbols of a kind.
pub open spec fn count_kind(ss: Seq<Symbol>, k: SymbolKind) -> nat
    decreases ss.len(),
{
    if ss.len() == 0 {
        0
    } else {
        count_kind(ss.drop_last(), k) + if ss.last().kind == k {
            1nat
        } else {
            0nat
        }
    }
}

/// What a file is for, judged by its classes and functions.
pub open spec fn purpose_spec(ss: Seq<Symbol>) -> Seq<char> {
    let classes = count_kind(ss, SymbolKind::Class);
    let functions = count_kind(ss, SymbolKind::Function);
    if ss.len() == 0 {
        "No symbols found"@
    } else if classes > 0 && functions > 0 {
        "Module containing "@ + decimal(classes) + " classes and "@ + decimal(functions) + " functions"@
    } else if classes > 0 {
        "Class definitions ("@ + decimal(classes) + " classes)"@
    } else if functions > 0 {
        "Function definitions ("@ + decimal(functions) + " functions)"@
    } else {
        "Code file with various symbols"@
    }
}

/// One symbol of the symbol section: `` - `name` (kind) ``.
pub open spec fn symbol_entry(s: Symbol) -> Seq<char> {
    "- `"@ + s.name@ + "` ("@ + s.kind.name_spec() + ")"@
}

/// The first twenty symbols, one per line, or `No symbols`.
pub open spec fn symbols_section(ss: Seq<Symbol>) -> Seq<char> {
    if ss.len() == 0 {
        "No symbols"@
    } else {
        join_with(ss.take(if ss.len() < 20 { ss.len() as int } else { 20 }).map_values(|s: Symbol| symbol_entry(s)), "\n"@)
    }
}

/// The first ten dependencies, one `- dep` per line, or a note that there are none.
pub open spec fn dependencies_section(ss: Seq<Symbol>) -> Seq<char> {
    let deps = dependencies_of(ss);
    if deps.len() == 0 {
        "No dependencies detected"@
    } else {
        join_with(deps.take(if deps.len() < 10 { deps.len() as int } else { 10 }).map_values(|d: Seq<char>| "- "@ + d), "\n"@)
    }
}

/// The summary document of a file.
pub open spec fn summary_spec(file_path: Seq<char>, ss: Seq<Symbol>, language: Seq<char>) -> Seq<char> {
    "# "@ + file_path + "\n\n**Language**: "@ + language + "\n\n## Purpose\n"@ + purpose_spec(ss)
        + "\n\n## Symbols\n"@ + symbols_section(ss) + "\n\n## Dependencies\n"@ + dependencies_section(ss)
}


/// The lines of `s` (`str::lines`).
pub fn split_lines(s: &Vec<char>) -> (r: Vec<Vec<char>>)
    ensures
        views(r@) == lines(s@),
{
    let mut out: Vec<Vec<char>> = Vec::new();
    let mut i: usize = 0;
    while i < s.len()
        invariant
            i <= s@.len(),
            lines(s@) == views(out@) + lines_from(s@, i as int),
        decreases s@.len() - i,
    {
        let mut e: usize = i;
        while e < s.len() && s[e] != '\n'
            invariant
                i <= e <= s@.len(),
                forall|j: int| i <= j < e ==> s@[j] != '\n',
            decreases s@.len() - e,
        {
            e = e + 1;
        }
        proof {
            lemma_line_end(s@, i as int);
            if line_end(s@, i as int) < e {
                assert(s@[line_end(s@, i as int)] != '\n');
            }
            if e < line_end(s@, i as int) {
                assert(s@[e as int] == '\n');
            }
            assert(line_end(s@, i as int) == e);
        }
        let terminated = e < s.len();
        let mut line = crate::text::slice_vec(s, i, e);
        if terminated && line.len() > 0 && line[line.len() - 1] == '\r' {
            line.pop();
        }
        let ghost l = strip_cr(s@.subrange(i as int, e as int), terminated);
        proof {
            assert(line@ =~= l);
            assert(lines_from(s@, i as int) =~= seq![l] + lines_from(s@, e + 1));
        }
        let ghost o = views(out@);
        out.push(line);
        proof {
            assert(views(out@) =~= o.push(l));
        }
        if terminated {
            i = e + 1;
        } else {
            i = e;
            proof {
                assert(lines_from(s@, e + 1) == Seq::<Seq<char>>::empty());
            }
        }
        proof {
            assert(lines(s@) =~= views(out@) + lines_from(s@, i as int));
        }
    }
    proof {
        assert(lines_from(s@, i as int) == Seq::<Seq<char>>::empty());
        assert(views(out@) + Seq::<Seq<char>>::empty() =~= views(out@));
    }
    out
}

/// Builds file summaries from symbols.
pub struct FileLogGenerator;

impl FileLogGenerator {
    pub fn new() -> (r: Self) {
        FileLogGenerator
    }

    /// The trimmed lines of `doc` that mention `import` or `from`.
    pub fn extract_imports_from_doc(&self, doc: &str) -> (r: Vec<String>)
        ensures
            crate::text::string_views(r@) == imports_from_doc(doc@),
    {
        let s = chars_of(doc);
        let import = chars_of("import");
        let from = chars_of("from");
        let mut out: Vec<String> = Vec::new();
        let ghost mut done: Seq<Seq<char>> = Seq::empty();
        let mut i: usize = 0;
        while i < s.len()
            invariant
                i <= s@.len(),
                s@ == doc@,
                import@ == "import"@,
                from@ == "from"@,
                imports_from_doc(doc@) == import_lines(done + lines_from(s@, i as int)),
                crate::text::string_views(out@) == import_lines(done),
            decreases s@.len() - i,
        {
            let mut e: usize = i;
            while e < s.len() && s[e] != '\n'
                invariant
                    i <= e <= s@.len(),
                    forall|j: int| i <= j < e ==> s@[j] != '\n',
                decreases s@.len() - e,
            {
                e = e + 1;
            }
            proof {
                lemma_line_end(s@, i as int);
                if line_end(s@, i as int) < e {
                    assert(s@[line_end(s@, i as int)] != '\n');
                }
                if e < line_end(s@, i as int) {
                    assert(s@[e as int] == '\n');
                }
                assert(line_end(s@, i as int) == e);
            }
            let terminated = e < s.len();
            let mut line = crate::text::slice_vec(&s, i, e);
            if terminated && line.len() > 0 && line[line.len() - 1] == '\r' {
                line.pop();
            }
            let ghost l = strip_cr(s@.subrange(i as int, e as int), terminated);
            proof {
                assert(line@ =~= l);
                assert(lines_from(s@, i as int) =~= seq![l] + lines_from(s@, e + 1));
                assert(done + lines_from(s@, i as int) =~= (done.push(l)) + lines_from(s@, e + 1));
                assert(done.push(l).drop_last() == done);
            }
            if contains_chars(&line, &import) || contains_chars(&line, &from) {
                let t = trim(&line);
                out.push(string_of(&t));
            }
            proof {
                done = done.push(l);
                assert(crate::text::string_views(out@) =~= import_lines(done));
            }
            if terminated {
                i = e + 1;
            } else {
                i = e;
                proof {
                    assert(lines_from(s@, e + 1) == Seq::<Seq<char>>::empty());
                    assert(lines_from(s@, e as int) == Seq::<Seq<char>>::empty());
                }
            }
        }
        proof {
            assert(lines_from(s@, i as int) == Seq::<Seq<char>>::empty());
            assert(done + Seq::<Seq<char>>::empty() == done);
        }
        out
    }

    /// `kind:name` for every symbol.
    pub fn extract_key_symbols(&self, symbols: &Vec<Symbol>) -> (r: Vec<String>)
        ensures
            crate::text::string_views(r@) == symbols@.map_values(|s: Symbol| key_symbol(s)),
    {
        let mut out: Vec<String> = Vec::new();
        let mut k: usize = 0;
        while k < symbols.len()
            invariant
                k <= symbols@.len(),
                crate::text::string_views(out@) == symbols@.take(k as int).map_values(|s: Symbol| key_symbol(s)),
            decreases symbols@.len() - k,
        {
            let s = &symbols[k];
            let mut v = chars_of(s.kind.as_str());
            append_str(&mut v, ":");
            append_str(&mut v, s.name.as_str());
            let e = string_of(&v);
            out.push(e);
            k = k + 1;
            proof {
                assert(symbols@.take(k as int).map_values(|s: Symbol| key_symbol(s)) =~= symbols@.take(k - 1).map_values(
                    |s: Symbol| key_symbol(s),
                ).push(key_symbol(symbols@[k - 1])));
                assert(crate::text::string_views(out@) =~= crate::text::string_views(out@.drop_last()).push(e@));
            }
        }
        proof {
            assert(symbols@.take(symbols@.len() as int) == symbols@);
        }
        out
    }

    /// The imports named in the symbols' documentation, in order.
    pub fn extract_dependencies(&self, symbols: &Vec<Symbol>) -> (r: Vec<String>)
        ensures
            crate::text::string_views(r@) == dependencies_of(symbols@),
    {
        let mut out: Vec<String> = Vec::new();
        let mut k: usize = 0;
        while k < symbols.len()
            invariant
                k <= symbols@.len(),
                crate::text::string_views(out@) == dependencies_of(symbols@.take(k as int)),
            decreases symbols@.len() - k,
        {
            let ghost before = crate::text::string_views(out@);
            if let Some(doc) = &symbols[k].documentation {
                let found = self.extract_imports_from_doc(doc.as_str());
                let mut j: usize = 0;
                while j < found.len()
                    invariant
                        j <= found@.len(),
                        crate::text::string_views(out@) == before + crate::text::string_views(found@).take(j as int),
                    decreases found@.len() - j,
                {
                    let d = found[j].clone();
                    let ghost o = out@;
                    out.push(d);
                    j = j + 1;
                    proof {
                        assert(out@ == o.push(d));
                        assert(crate::text::string_views(out@) =~= crate::text::string_views(o).push(d@));
                        assert(crate::text::string_views(found@).take(j as int) =~= crate::text::string_views(found@).take(j - 1).push(found@[j - 1]@));
                        assert(crate::text::string_views(out@) =~= before + crate::text::string_views(found@).take(j as int));
                    }
                }
                proof {
                    assert(crate::text::string_views(found@).take(found@.len() as int) == crate::text::string_views(found@));
                }
            }
            k = k + 1;
            proof {
                assert(symbols@.take(k as int).drop_last() == symbols@.take(k - 1));
                assert(crate::text::string_views(out@) =~= dependencies_of(symbols@.take(k as int)));
            }
        }
        proof {
            assert(symbols@.take(symbols@.len() as int) == symbols@);
        }
        out
    }

    /// What the file is for, judged by its classes and functions.
    pub fn infer_purpose(&self, symbols: &Vec<Symbol>) -> (r: String)
        ensures
            r@ == purpose_spec(symbols@),
    {
        let mut classes: u64 = 0;
        let mut functions: u64 = 0;
        let mut k: usize = 0;
        while k < symbols.len()
            invariant
                k <= symbols@.len(),
                classes == count_kind(symbols@.take(k as int), SymbolKind::Class),
                functions == count_kind(symbols@.take(k as int), SymbolKind::Function),
                classes <= k,
                functions <= k,
            decreases symbols@.len() - k,
        {
            proof {
                assert(symbols@.take(k + 1).drop_last() == symbols@.take(k as int));
            }
            if symbols[k].kind == SymbolKind::Class {
                classes = classes + 1;
            }
            if symbols[k].kind == SymbolKind::Function {
                functions = functions + 1;
            }
            k = k + 1;
        }
        proof {
            assert(symbols@.take(symbols@.len() as int) == symbols@);
        }
        if symbols.len() == 0 {
            return crate::text::string_from_str("No symbols found");
        }
        let mut v: Vec<char>;
        if classes > 0 && functions > 0 {
            v = chars_of("Module containing ");
            append_decimal(&mut v, classes);
            append_str(&mut v, " classes and ");
            append_decimal(&mut v, functions);
            append_str(&mut v, " functions");
        } else if classes > 0 {
            v = chars_of("Class definitions (");
            append_decimal(&mut v, classes);
            append_str(&mut v, " classes)");
        } else if functions > 0 {
            v = chars_of("Function definitions (");
            append_decimal(&mut v, functions);
            append_str(&mut v, " functions)");
        } else {
            v = chars_of("Code file with various symbols");
        }
        proof {
            assert(v@ =~= purpose_spec(symbols@));
        }
        string_of(&v)
    }

    /// The first twenty symbols as `` - `name` (kind) `` lines.
    pub fn format_symbols(&self, symbols: &Vec<Symbol>) -> (r: String)
        ensures
            r@ == symbols_section(symbols@),
    {
        if symbols.len() == 0 {
            return crate::text::string_from_str("No symbols");
        }
        let n: usize = if symbols.len() < 20 { symbols.len() } else { 20 };
        let ghost taken = symbols@.take(n as int);
        let mut parts: Vec<Vec<char>> = Vec::new();
        let mut k: usize = 0;
        while k < n
            invariant
                k <= n <= symbols@.len(),
                taken == symbols@.take(n as int),
                views(parts@) == taken.take(k as int).map_values(|s: Symbol| symbol_entry(s)),
            decreases n - k,
        {
            let s = &symbols[k];
            let mut v = chars_of("- `");
            append_str(&mut v, s.name.as_str());
            append_str(&mut v, "` (");
            append_str(&mut v, s.kind.as_str());
            append_str(&mut v, ")");
            parts.push(v);
            k = k + 1;
            proof {
                assert(taken.take(k as int).map_values(|s: Symbol| symbol_entry(s)) =~= taken.take(k - 1).map_values(
                    |s: Symbol| symbol_entry(s),
                ).push(symbol_entry(taken[k - 1])));
                assert(views(parts@) =~= views(parts@.drop_last()).push(v@));
            }
        }
        proof {
            assert(taken.take(n as int) == taken);
        }
        let sep = chars_of("\n");
        let joined = join_parts(&parts, &sep);
        string_of(&joined)
    }

    /// The first ten dependencies as `- dep` lines.
    pub fn format_dependencies(&self, symbols: &Vec<Symbol>) -> (r: String)
        ensures
            r@ == dependencies_section(symbols@),
    {
        let deps = self.extract_dependencies(symbols);
        if deps.len() == 0 {
            return crate::text::string_from_str("No dependencies detected");
        }
        let ghost dv = crate::text::string_views(deps@);
        let n: usize = if deps.len() < 10 { deps.len() } else { 10 };
        let ghost taken = dv.take(n as int);
        let mut parts: Vec<Vec<char>> = Vec::new();
        let mut k: usize = 0;
        while k < n
            invariant
                k <= n <= deps@.len(),
                dv == crate::text::string_views(deps@),
                taken == dv.take(n as int),
                views(parts@) == taken.take(k as int).map_values(|d: Seq<char>| "- "@ + d),
            decreases n - k,
        {
            let mut v = chars_of("- ");
            append_str(&mut v, deps[k].as_str());
            parts.push(v);
            k = k + 1;
            proof {
                assert(taken.take(k as int).map_values(|d: Seq<char>| "- "@ + d) =~= taken.take(k - 1).map_values(
                    |d: Seq<char>| "- "@ + d,
                ).push("- "@ + taken[k - 1]));
                assert(views(parts@) =~= views(parts@.drop_last()).push(v@));
            }
        }
        proof {
            assert(taken.take(n as int) == taken);
        }
        let sep = chars_of("\n");
        let joined = join_parts(&parts, &sep);
        string_of(&joined)
    }

    /// The summary document of a file: its path, language, purpose, symbols
    /// and dependencies.
    pub fn generate_summary(&self, file_path: &str, symbols: &Vec<Symbol>, language: &str) -> (r: String)
        ensures
            r@ == summary_spec(file_path@, symbols@, language@),
    {
        let purpose = self.infer_purpose(symbols);
        let symbols_part = self.format_symbols(symbols);
        let deps_part = self.format_dependencies(symbols);
        let mut v = chars_of("# ");
        append_str(&mut v, file_path);
        append_str(&mut v, "\n\n**Language**: ");
        append_str(&mut v, language);
        append_str(&mut v, "\n\n## Purpose\n");
        append_str(&mut v, purpose.as_str());
        append_str(&mut v, "\n\n## Symbols\n");
        append_str(&mut v, symbols_part.as_str());
        append_str(&mut v, "\n\n## Dependencies\n");
        append_str(&mut v, deps_part.as_str());
        proof {
            assert(v@ =~= summary_spec(file_path@, symbols@, language@));
        }
        string_of(&v)
    }
}

impl Default for FileLogGenerator {
    fn default() -> (r: Self) {
        FileLogGenerator::new()
    }
}

} // verus!
