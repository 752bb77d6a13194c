//! Model-written file logs: the prompt sent to the index model, locating
//! the JSON in its answer, and the request each provider is sent.
use vstd::prelude::*;

use crate::json::{deref_json, find_first_key, find_key, lookup, lookup_first, str_items, string_items, to_char_vecs, JsonValue};
use crate::models::SettingsConfig;
use crate::text::{
    append_chars, append_str, chars_of, eq_str, join_parts, join_with, matches_at, slice_vec,
    string_from_str, string_of, string_views, trim, trim_ws, views,
};

verus! {

/// What the index model is told about a file.
pub struct AiFileLogInput {
    pub path: String,
    pub language: String,
    pub content_hash: String,
    pub content: String,
    pub symbols: Vec<String>,
    pub dependencies: Vec<String>,
}

/// The file log the index model returns.
pub struct AiFileLogOutput {
    pub summary_markdown: String,
    pub purpose: Option<String>,
    pub key_symbols: Vec<String>,
    pub dependencies: Vec<String>,
    pub notes: Option<String>,
}

/// The pieces of the file-log prompt between the file's values.
pub const PROMPT_0: &'static str = "Generate a FILE_LOG in JSON with keys: summary_markdown, purpose, key_symbols, dependencies, notes.\nsummary_markdown must follow this template:\n# FILE_LOG v1\npath: ";
pub const PROMPT_1: &'static str = "\nlanguage: ";
pub const PROMPT_2: &'static str = "\nlast_indexed: <ISO8601>\ncontent_hash: ";
pub const PROMPT_3: &'static str = "\n\n## Symbols (current snapshot)\n- <symbol list>\n\n## Dependencies (best-effort)\nimports:\n- <import paths>\nexports:\n- <exported symbols>\n\n## Recent Changes (rolling, last N)\n- <if available, otherwise 'None'>\n\n## Notes / Decisions linked\n- <if available, otherwise 'None'>\n\nNotes must include a concise 1-2 sentence overview of what this file/directory does (even if there are no decisions).\nUse the file content and symbols provided. Return ONLY valid JSON.\n\nFile path: ";
pub const PROMPT_4: &'static str = "\nLanguage: ";
pub const PROMPT_5: &'static str = "\nSymbols:\n- ";
pub const PROMPT_6: &'static str = "\n\nDependencies:\n- ";
pub const PROMPT_7: &'static str = "\n\nFile content:\n";
pub const PROMPT_8: &'static str = "\n";

/// A list joined as further `- ` lines, or `None` when it is empty.
pub open spec fn list_or_none(items: Seq<Seq<char>>) -> Seq<char> {
    if items.len() == 0 {
        "None"@
    } else {
        join_with(items, "\n- "@)
    }
}

/// The prompt for a file log: the template of the log with the file's
/// path, language and hash filled in, then the file's path, language,
/// symbols, dependencies and content.
pub open spec fn filelog_prompt(input: AiFileLogInput) -> Seq<char> {
    PROMPT_0@ + input.path@ + PROMPT_1@ + input.language@ + PROMPT_2@ + input.content_hash@ + PROMPT_3@ + input.path@ + PROMPT_4@ + input.language@ + PROMPT_5@ + list_or_none(string_views(input.symbols@)) + PROMPT_6@ + list_or_none(string_views(input.dependencies@)) + PROMPT_7@ + input.content@ + PROMPT_8@
}

/// A list as `- ` lines after the first, or `None`.
fn list_or_none_chars(items: &Vec<String>) -> (r: Vec<char>)
    ensures
        r@ == list_or_none(string_views(items@)),
{
    if items.len() == 0 {
        return chars_of("None");
    }
    let mut parts: Vec<Vec<char>> = Vec::new();
    let mut k: usize = 0;
    while k < items.len()
        invariant
            k <= items@.len(),
            views(parts@) == string_views(items@).take(k as int),
        decreases items@.len() - k,
    {
        let c = chars_of(items[k].as_str());
        parts.push(c);
        k = k + 1;
        proof {
            assert(views(parts@) =~= views(parts@.drop_last()).push(c@));
            assert(string_views(items@).take(k as int) =~= string_views(items@).take(k - 1).push(items@[k - 1]@));
        }
    }
    proof {
        assert(string_views(items@).take(items@.len() as int) == string_views(items@));
    }
    let sep = chars_of("\n- ");
    join_parts(&parts, &sep)
}

/// Writes the prompt that asks the index model for a file log.
pub fn build_filelog_prompt(input: &AiFileLogInput) -> (r: String)
    ensures
        r@ == filelog_prompt(*input),
{
    let symbols = list_or_none_chars(&input.symbols);
    let deps = list_or_none_chars(&input.dependencies);
    let mut v: Vec<char> = Vec::new();
        append_str(&mut v, PROMPT_0);
        append_str(&mut v, input.path.as_str());
        append_str(&mut v, PROMPT_1);
        append_str(&mut v, input.language.as_str());
        append_str(&mut v, PROMPT_2);
        append_str(&mut v, input.content_hash.as_str());
        append_str(&mut v, PROMPT_3);
        append_str(&mut v, input.path.as_str());
        append_str(&mut v, PROMPT_4);
        append_str(&mut v, input.language.as_str());
        append_str(&mut v, PROMPT_5);
        append_chars(&mut v, &symbols);
        append_str(&mut v, PROMPT_6);
        append_chars(&mut v, &deps);
        append_str(&mut v, PROMPT_7);
        append_str(&mut v, input.content.as_str());
        append_str(&mut v, PROMPT_8);
    proof {
        assert(v@ =~= filelog_prompt(*input));
    }
    string_of(&v)
}

/// Whether `p` occurs in `s` at `i`.
pub open spec fn occurs_at(s: Seq<char>, p: Seq<char>, i: int) -> bool {
    0 <= i && i + p.len() <= s.len() && s.subrange(i, i + p.len()) == p
}

/// The first position at or after `i` where `p` occurs in `s` (`str::find`).
pub open spec fn find_from(s: Seq<char>, p: Seq<char>, i: int) -> Option<int>
    decreases s.len() + 1 - i,
{
    if i < 0 || i + p.len() > s.len() {
        None
    } else if occurs_at(s, p, i) {
        Some(i)
    } else {
        find_from(s, p, i + 1)
    }
}

/// The last position before `n` that holds `c` (`str::rfind` for `n` the length).
pub open spec fn rfind_before(s: Seq<char>, c: char, n: int) -> Option<int>
    decreases n,
{
    if n <= 0 || n > s.len() {
        None
    } else if s[n - 1] == c {
        Some(n - 1)
    } else {
        rfind_before(s, c, n - 1)
    }
}

/// The first position of `p` in `s`.
pub fn find_chars(s: &Vec<char>, p: &Vec<char>) -> (r: Option<usize>)
    ensures
        match r {
            Some(i) => find_from(s@, p@, 0) == Some(i as int),
            None => find_from(s@, p@, 0) is None,
        },
{
    if p.len() == 0 {
        proof {
            assert(s@.subrange(0, 0) =~= p@);
        }
        return Some(0);
    }
    let mut i: usize = 0;
    while i < s.len()
        invariant
            i <= s@.len(),
            p@.len() > 0,
            find_from(s@, p@, 0) == find_from(s@, p@, i as int),
        decreases s@.len() - i,
    {
        if p.len() > s.len() - i {
            return None;
        }
        if matches_at(s, i, p) {
            return Some(i);
        }
        i = i + 1;
    }
    None
}

/// The last position of `c` in `s`.
pub fn rfind_char(s: &Vec<char>, c: char) -> (r: Option<usize>)
    ensures
        match r {
            Some(i) => rfind_before(s@, c, s@.len() as int) == Some(i as int),
            None => rfind_before(s@, c, s@.len() as int) is None,
        },
{
    let mut n: usize = s.len();
    while n > 0
        invariant
            n <= s@.len(),
            rfind_before(s@, c, s@.len() as int) == rfind_before(s@, c, n as int),
        decreases n,
    {
        if s[n - 1] == c {
            return Some(n - 1);
        }
        n = n - 1;
    }
    None
}

/// The trimmed text between the end of the first `open` and the next ```` ``` ````.
pub open spec fn fenced(raw: Seq<char>, open: Seq<char>) -> Option<Seq<char>> {
    match find_from(raw, open, 0) {
        Some(st) => {
            let after = raw.skip(st + open.len());
            match find_from(after, "```"@, 0) {
                Some(e) => Some(trim_ws(after.take(e))),
                None => None,
            }
        },
        None => None,
    }
}

/// The JSON an answer holds: the inside of a ```` ```json ```` fence, else
/// of any ```` ``` ```` fence, else the text from the first `{` to the last
/// `}`; trimmed. None when there is no such text.
pub open spec fn json_block(raw: Seq<char>) -> Option<Seq<char>> {
    if fenced(raw, "```json"@) is Some {
        fenced(raw, "```json"@)
    } else if fenced(raw, "```"@) is Some {
        fenced(raw, "```"@)
    } else {
        match (find_from(raw, seq!['{'], 0), rfind_before(raw, '}', raw.len() as int)) {
            (Some(first), Some(last)) => if last <= first {
                None
            } else {
                Some(trim_ws(raw.subrange(first, last + 1)))
            },
            _ => None,
        }
    }
}

proof fn lemma_find_from_bounds(s: Seq<char>, p: Seq<char>, i: int)
    ensures
        find_from(s, p, i) matches Some(k) ==> i <= k && k + p.len() <= s.len() && occurs_at(s, p, k),
    decreases s.len() + 1 - i,
{
    if !(i < 0 || i + p.len() > s.len()) && !occurs_at(s, p, i) {
        lemma_find_from_bounds(s, p, i + 1);
    }
}

proof fn lemma_rfind_bounds(s: Seq<char>, c: char, n: int)
    ensures
        rfind_before(s, c, n) matches Some(k) ==> 0 <= k < n && k < s.len() && s[k] == c,
    decreases n,
{
    if !(n <= 0 || n > s.len()) && s[n - 1] != c {
        lemma_rfind_bounds(s, c, n - 1);
    }
}

/// The trimmed inside of the first fence opened by `open`.
fn fenced_chars(raw: &Vec<char>, open: &str) -> (r: Option<Vec<char>>)
    ensures
        match r {
            Some(v) => fenced(raw@, open@) == Some(v@),
            None => fenced(raw@, open@) is None,
        },
{
    let o = chars_of(open);
    match find_chars(raw, &o) {
        Some(st) => {
            proof {
                lemma_find_from_bounds(raw@, o@, 0);
            }
            let n = raw.len();
            let after = slice_vec(raw, st + o.len(), n);
            proof {
                assert(after@ =~= raw@.skip(st + o@.len()));
            }
            let fence = chars_of("```");
            match find_chars(&after, &fence) {
                Some(e) => {
                    proof {
                        lemma_find_from_bounds(after@, fence@, 0);
                    }
                    let inner = slice_vec(&after, 0, e);
                    proof {
                        assert(inner@ =~= after@.take(e as int));
                    }
                    Some(trim(&inner))
                },
                None => None,
            }
        },
        None => None,
    }
}

/// Finds the JSON in a model answer.
pub fn extract_json_block(raw: &str) -> (r: Option<String>)
    ensures
        match r {
            Some(s) => json_block(raw@) == Some(s@),
            None => json_block(raw@) is None,
        },
{
    let cs = chars_of(raw);
    if let Some(v) = fenced_chars(&cs, "```json") {
        return Some(string_of(&v));
    }
    if let Some(v) = fenced_chars(&cs, "```") {
        return Some(string_of(&v));
    }
    let mut brace: Vec<char> = Vec::new();
    brace.push('{');
    let first = find_chars(&cs, &brace);
    let last = rfind_char(&cs, '}');
    proof {
        assert(brace@ == seq!['{']);
    }
    match (first, last) {
        (Some(f), Some(l)) => {
            if l <= f {
                None
            } else {
                proof {
                    lemma_rfind_bounds(cs@, '}', cs@.len() as int);
                }
                let inner = slice_vec(&cs, f, l + 1);
                let t = trim(&inner);
                Some(string_of(&t))
            }
        },
        _ => None,
    }
}

/// A text list as `coerce` reads it: each line trimmed, stripped of
/// leading `-`, trimmed again, and kept when not empty.
pub open spec fn list_item(line: Seq<char>) -> Seq<char> {
    trim_ws(crate::text::trim_start_char(trim_ws(line), '-'))
}

/// The non-empty list items of the lines.
pub open spec fn list_items(ls: Seq<Seq<char>>) -> Seq<Seq<char>>
    decreases ls.len(),
{
    if ls.len() == 0 {
        Seq::empty()
    } else {
        list_items(ls.drop_last()) + if list_item(ls.last()).len() > 0 {
            seq![list_item(ls.last())]
        } else {
            Seq::empty()
        }
    }
}

/// The non-empty trimmed strings, in order.
pub open spec fn trimmed_nonempty_spec(items: Seq<Seq<char>>) -> Seq<Seq<char>>
    decreases items.len(),
{
    if items.len() == 0 {
        Seq::empty()
    } else {
        trimmed_nonempty_spec(items.drop_last()) + if trim_ws(items.last()).len() > 0 {
            seq![trim_ws(items.last())]
        } else {
            Seq::empty()
        }
    }
}

/// The strings trimmed, without the empty ones.
pub fn trimmed_nonempty(items: &Vec<String>) -> (r: Vec<String>)
    ensures
        string_views(r@) == trimmed_nonempty_spec(string_views(items@)),
{
    let ghost sv = string_views(items@);
    let mut out: Vec<String> = Vec::new();
    let mut k: usize = 0;
    while k < items.len()
        invariant
            k <= items@.len(),
            sv == string_views(items@),
            string_views(out@) == trimmed_nonempty_spec(sv.take(k as int)),
        decreases items@.len() - k,
    {
        proof {
            assert(sv.take(k + 1).drop_last() == sv.take(k as int));
        }
        let c = chars_of(items[k].as_str());
        let t = trim(&c);
        if t.len() > 0 {
            let ghost o = out@;
            let s = string_of(&t);
            out.push(s);
            proof {
                assert(string_views(out@) =~= string_views(o).push(t@));
            }
        }
        k = k + 1;
    }
    proof {
        assert(sv.take(items@.len() as int) == sv);
    }
    out
}

/// A dependency list written as an object: each non-empty trimmed import as
/// `imports: x`, then each export as `exports: x`.
pub open spec fn dependency_entries_spec(imports: Seq<Seq<char>>, exports: Seq<Seq<char>>) -> Seq<Seq<char>> {
    trimmed_nonempty_spec(imports).map_values(|x: Seq<char>| "imports: "@ + x) + trimmed_nonempty_spec(exports).map_values(
        |x: Seq<char>| "exports: "@ + x,
    )
}

/// Prefixes every string with `prefix`.
fn prefixed(items: &Vec<String>, prefix: &str, out: &mut Vec<String>)
    ensures
        string_views(final(out)@) == string_views(old(out)@) + string_views(items@).map_values(|x: Seq<char>| prefix@ + x),
{
    let ghost o0 = string_views(out@);
    let mut k: usize = 0;
    while k < items.len()
        invariant
            k <= items@.len(),
            string_views(out@) == o0 + string_views(items@).take(k as int).map_values(|x: Seq<char>| prefix@ + x),
        decreases items@.len() - k,
    {
        let mut v = chars_of(prefix);
        append_str(&mut v, items[k].as_str());
        let ghost o = out@;
        let s = string_of(&v);
        out.push(s);
        k = k + 1;
        proof {
            assert(string_views(out@) =~= string_views(o).push(prefix@ + items@[k - 1]@));
            assert(string_views(items@).take(k as int).map_values(|x: Seq<char>| prefix@ + x) =~= string_views(items@).take(
                k - 1,
            ).map_values(|x: Seq<char>| prefix@ + x).push(prefix@ + items@[k - 1]@));
        }
    }
    proof {
        assert(string_views(items@).take(items@.len() as int) == string_views(items@));
    }
}

/// The dependency entries of a dependency object.
pub fn dependency_entries(imports: &Vec<String>, exports: &Vec<String>) -> (r: Vec<String>)
    ensures
        string_views(r@) == dependency_entries_spec(string_views(imports@), string_views(exports@)),
{
    let mut out: Vec<String> = Vec::new();
    let i = trimmed_nonempty(imports);
    prefixed(&i, "imports: ", &mut out);
    let e = trimmed_nonempty(exports);
    prefixed(&e, "exports: ", &mut out);
    proof {
        assert(string_views(out@) =~= dependency_entries_spec(string_views(imports@), string_views(exports@)));
    }
    out
}


/// The items of a list written as text lines.
pub fn list_from_text(text: &str) -> (r: Vec<String>)
    ensures
        string_views(r@) == list_items(crate::filelog::lines(text@)),
{
    let cs = chars_of(text);
    let ls = crate::filelog::split_lines(&cs);
    let ghost lv = views(ls@);
    let mut out: Vec<String> = Vec::new();
    let mut k: usize = 0;
    while k < ls.len()
        invariant
            k <= ls@.len(),
            lv == views(ls@),
            string_views(out@) == list_items(lv.take(k as int)),
        decreases ls@.len() - k,
    {
        proof {
            assert(lv.take(k + 1).drop_last() == lv.take(k as int));
        }
        let a = trim(&ls[k]);
        let b = crate::text::trim_start_matches_char(&a, '-');
        let item = trim(&b);
        if item.len() > 0 {
            let ghost o = out@;
            out.push(string_of(&item));
            proof {
                assert(string_views(out@) =~= string_views(o).push(item@));
            }
        }
        k = k + 1;
    }
    proof {
        assert(lv.take(ls@.len() as int) == lv);
    }
    out
}

/// The model services that write file logs.
#[derive(Debug, Clone, Copy, PartialEq, Eq, Structural)]
pub enum IndexProvider {
    OpenAi,
    OpenRouter,
    Ollama,
}

/// The request a file-log generation sends: where, with which model and
/// key, and whether the OpenRouter headers go along.
pub struct IndexRequestPlan {
    pub provider: IndexProvider,
    pub url: String,
    pub model: String,
    pub api_key: Option<String>,
    pub openrouter_headers: bool,
}

/// The chat endpoint of an OpenAI-style provider.
pub const OPENAI_CHAT_URL: &'static str = "https://api.openai.com/v1/chat/completions";

/// The chat endpoint of OpenRouter.
pub const OPENROUTER_CHAT_URL: &'static str = "https://openrouter.ai/api/v1/chat/completions";

/// The plan for an OpenAI-style request, or the error when the key is blank.
pub open spec fn openai_plan(
    provider: IndexProvider,
    url: Seq<char>,
    model: Seq<char>,
    key: Seq<char>,
) -> Result<(IndexProvider, Seq<char>, Seq<char>, Option<Seq<char>>, bool), Seq<char>> {
    if trim_ws(key).len() == 0 {
        Err("API key is missing for index model provider"@)
    } else {
        Ok((provider, url, model, Some(key), crate::text::contains_sub(url, "openrouter.ai"@)))
    }
}

/// The request a file-log generation sends under the settings: OpenAI and
/// OpenRouter need a non-blank key; Ollama is reached at its URL without a
/// trailing `/` plus `/api/chat`; any other provider is disabled.
pub open spec fn index_plan_spec(s: SettingsConfig) -> Result<
    (IndexProvider, Seq<char>, Seq<char>, Option<Seq<char>>, bool),
    Seq<char>,
> {
    let p = s.index_provider@;
    if p == "openai"@ {
        openai_plan(IndexProvider::OpenAi, OPENAI_CHAT_URL@, s.index_openai_model@, s.openai_api_key@)
    } else if p == "openrouter"@ {
        openai_plan(
            IndexProvider::OpenRouter,
            OPENROUTER_CHAT_URL@,
            s.index_openrouter_model@,
            s.openrouter_api_key@,
        )
    } else if p == "ollama"@ {
        Ok(
            (
                IndexProvider::Ollama,
                crate::text::trim_end_char(s.ollama_url@, '/') + "/api/chat"@,
                s.index_ollama_model@,
                None,
                false,
            ),
        )
    } else {
        Err("Index model provider is disabled"@)
    }
}

/// The plain values of a plan.
pub open spec fn plan_view(p: IndexRequestPlan) -> (IndexProvider, Seq<char>, Seq<char>, Option<Seq<char>>, bool) {
    (p.provider, p.url@, p.model@, crate::text::opt_view(p.api_key), p.openrouter_headers)
}

/// An OpenAI-style plan.
fn openai_plan_exec(provider: IndexProvider, url: &str, model: &String, key: &String) -> (r: Result<IndexRequestPlan, String>)
    ensures
        match r {
            Ok(p) => openai_plan(provider, url@, model@, key@) == Ok::<_, Seq<char>>(plan_view(p)),
            Err(e) => openai_plan(provider, url@, model@, key@) == Err::<(IndexProvider, Seq<char>, Seq<char>, Option<Seq<char>>, bool), _>(e@),
        },
{
    let kc = chars_of(key.as_str());
    let kt = trim(&kc);
    if kt.len() == 0 {
        return Err(string_from_str("API key is missing for index model provider"));
    }
    let uc = chars_of(url);
    let marker = chars_of("openrouter.ai");
    let headers = crate::text::contains_chars(&uc, &marker);
    Ok(IndexRequestPlan {
        provider,
        url: string_from_str(url),
        model: model.clone(),
        api_key: Some(key.clone()),
        openrouter_headers: headers,
    })
}

/// Decides the request a file-log generation sends.
pub fn plan_index_request(settings: &SettingsConfig) -> (r: Result<IndexRequestPlan, String>)
    ensures
        match r {
            Ok(p) => index_plan_spec(*settings) == Ok::<_, Seq<char>>(plan_view(p)),
            Err(e) => index_plan_spec(*settings) == Err::<(IndexProvider, Seq<char>, Seq<char>, Option<Seq<char>>, bool), _>(e@),
        },
{
    let p = chars_of(settings.index_provider.as_str());
    if eq_str(&p, "openai") {
        openai_plan_exec(IndexProvider::OpenAi, OPENAI_CHAT_URL, &settings.index_openai_model, &settings.openai_api_key)
    } else if eq_str(&p, "openrouter") {
        openai_plan_exec(
            IndexProvider::OpenRouter,
            OPENROUTER_CHAT_URL,
            &settings.index_openrouter_model,
            &settings.openrouter_api_key,
        )
    } else if eq_str(&p, "ollama") {
        let uc = chars_of(settings.ollama_url.as_str());
        let mut u = crate::text::trim_end_matches_char(&uc, '/');
        append_str(&mut u, "/api/chat");
        Ok(IndexRequestPlan {
            provider: IndexProvider::Ollama,
            url: string_of(&u),
            model: settings.index_ollama_model.clone(),
            api_key: None,
            openrouter_headers: false,
        })
    } else {
        Err(string_from_str("Index model provider is disabled"))
    }
}

/// A JSON value read as text: a string trimmed, a number or boolean as it
/// prints, an array as its string items joined by `, `; none otherwise.
pub open spec fn coerce_string_spec(v: Option<JsonValue>) -> Option<Seq<char>> {
    match v {
        Some(JsonValue::Str(s)) => Some(trim_ws(s@)),
        Some(JsonValue::Number(n, _)) => Some(n@),
        Some(JsonValue::Bool(b)) => Some(
            if b {
                "true"@
            } else {
                "false"@
            },
        ),
        Some(JsonValue::Array(items)) => Some(join_with(str_items(items@), ", "@)),
        _ => None,
    }
}

/// Reads a JSON value as text.
pub fn coerce_string(value: Option<&JsonValue>) -> (r: Option<String>)
    ensures
        crate::text::opt_view(r) == coerce_string_spec(deref_json(value)),
{
    match value {
        Some(JsonValue::Str(s)) => {
            let c = chars_of(s.as_str());
            Some(string_of(&trim(&c)))
        },
        Some(JsonValue::Number(n, _)) => Some(string_from_str(n.as_str())),
        Some(JsonValue::Bool(b)) => {
            if *b {
                Some(string_from_str("true"))
            } else {
                Some(string_from_str("false"))
            }
        },
        Some(JsonValue::Array(items)) => {
            let strs = string_items(items);
            let parts = to_char_vecs(&strs);
            let sep = chars_of(", ");
            Some(string_of(&join_parts(&parts, &sep)))
        },
        _ => None,
    }
}

/// A JSON value read as a list: the non-empty trimmed string items of an
/// array, or the items of a text written one per line; empty otherwise.
pub open spec fn coerce_list_spec(v: Option<JsonValue>) -> Seq<Seq<char>> {
    match v {
        Some(JsonValue::Array(items)) => trimmed_nonempty_spec(str_items(items@)),
        Some(JsonValue::Str(s)) => list_items(crate::filelog::lines(s@)),
        _ => Seq::empty(),
    }
}

/// Reads a JSON value as a list.
pub fn coerce_string_list(value: Option<&JsonValue>) -> (r: Vec<String>)
    ensures
        string_views(r@) == coerce_list_spec(deref_json(value)),
{
    match value {
        Some(JsonValue::Array(items)) => {
            let strs = string_items(items);
            trimmed_nonempty(&strs)
        },
        Some(JsonValue::Str(s)) => list_from_text(s.as_str()),
        _ => Vec::new(),
    }
}

/// The string items of a value that is an array; none otherwise.
pub open spec fn array_strs(v: Option<JsonValue>) -> Seq<Seq<char>> {
    match v {
        Some(JsonValue::Array(items)) => str_items(items@),
        _ => Seq::empty(),
    }
}

/// A JSON value read as dependencies: a list as `coerce_list_spec` reads
/// it, or for an object its `imports` and `exports` arrays as entries.
pub open spec fn coerce_dependencies_spec(v: Option<JsonValue>) -> Seq<Seq<char>> {
    match v {
        Some(JsonValue::Object(m)) => dependency_entries_spec(
            array_strs(lookup(m@, "imports"@)),
            array_strs(lookup(m@, "exports"@)),
        ),
        _ => coerce_list_spec(v),
    }
}

/// The string items of the array at `key`, if the entry is an array.
fn array_items_at(entries: &Vec<(String, JsonValue)>, key: &str) -> (r: Vec<String>)
    ensures
        string_views(r@) == array_strs(lookup(entries@, key@)),
{
    match find_key(entries, key) {
        Some(i) => match &entries[i].1 {
            JsonValue::Array(items) => string_items(items),
            _ => Vec::new(),
        },
        None => Vec::new(),
    }
}

/// Reads a JSON value as dependencies.
pub fn coerce_dependencies(value: Option<&JsonValue>) -> (r: Vec<String>)
    ensures
        string_views(r@) == coerce_dependencies_spec(deref_json(value)),
{
    match value {
        Some(JsonValue::Object(m)) => {
            let imports = array_items_at(m, "imports");
            let exports = array_items_at(m, "exports");
            dependency_entries(&imports, &exports)
        },
        _ => coerce_string_list(value),
    }
}

/// The keys a file log's summary may be written under, in order of preference.
pub open spec fn summary_keys() -> Seq<Seq<char>> {
    seq!["summary_markdown"@, "summaryMarkdown"@, "summary"@, "file_log"@]
}

/// The keys a file log's key symbols may be written under, in order of preference.
pub open spec fn key_symbol_keys() -> Seq<Seq<char>> {
    seq!["key_symbols"@, "keySymbols"@, "symbols"@]
}

/// The plain values of a file log.
pub open spec fn filelog_output_view(o: AiFileLogOutput) -> (Seq<char>, Option<Seq<char>>, Seq<Seq<char>>, Seq<Seq<char>>, Option<Seq<char>>) {
    (
        o.summary_markdown@,
        crate::text::opt_view(o.purpose),
        string_views(o.key_symbols@),
        string_views(o.dependencies@),
        crate::text::opt_view(o.notes),
    )
}

/// The file log a loosely written JSON answer describes: it must be an
/// object (`Expected JSON object for file log`) with a non-empty summary
/// under one of the summary keys (`Missing summary_markdown in index model
/// JSON`); purpose and notes are read as text, key symbols as a list and
/// dependencies as dependencies.
pub open spec fn filelog_from_json(v: JsonValue) -> Result<
    (Seq<char>, Option<Seq<char>>, Seq<Seq<char>>, Seq<Seq<char>>, Option<Seq<char>>),
    Seq<char>,
> {
    match v {
        JsonValue::Object(m) => {
            let summary = match coerce_string_spec(lookup_first(m@, summary_keys())) {
                Some(s) => s,
                None => Seq::empty(),
            };
            if summary.len() == 0 {
                Err("Missing summary_markdown in index model JSON"@)
            } else {
                Ok(
                    (
                        summary,
                        coerce_string_spec(lookup(m@, "purpose"@)),
                        coerce_list_spec(lookup_first(m@, key_symbol_keys())),
                        coerce_dependencies_spec(lookup(m@, "dependencies"@)),
                        coerce_string_spec(lookup(m@, "notes"@)),
                    ),
                )
            }
        },
        _ => Err("Expected JSON object for file log"@),
    }
}

/// The value of the first entry named by the first of `keys` that occurs.
fn get_first<'a>(entries: &'a Vec<(String, JsonValue)>, keys: &Vec<&str>) -> (r: Option<&'a JsonValue>)
    ensures
        deref_json(r) == lookup_first(entries@, keys@.map_values(|k: &str| k@)),
{
    match find_first_key(entries, keys) {
        Some(i) => Some(&entries[i].1),
        None => None,
    }
}

/// The value of the first entry named `key`.
fn get<'a>(entries: &'a Vec<(String, JsonValue)>, key: &str) -> (r: Option<&'a JsonValue>)
    ensures
        deref_json(r) == lookup(entries@, key@),
{
    match find_key(entries, key) {
        Some(i) => Some(&entries[i].1),
        None => None,
    }
}

/// Reads a file log from a loosely written JSON answer.
pub fn coerce_filelog_value(value: &JsonValue) -> (r: Result<AiFileLogOutput, String>)
    ensures
        match r {
            Ok(o) => filelog_from_json(*value) == Ok::<_, Seq<char>>(filelog_output_view(o)),
            Err(e) => filelog_from_json(*value) == Err::<
                (Seq<char>, Option<Seq<char>>, Seq<Seq<char>>, Seq<Seq<char>>, Option<Seq<char>>),
                _,
            >(e@),
        },
{
    let m = match value {
        JsonValue::Object(m) => m,
        _ => return Err(string_from_str("Expected JSON object for file log")),
    };
    let summary_keys_v: Vec<&str> = vec!["summary_markdown", "summaryMarkdown", "summary", "file_log"];
    proof {
        assert(summary_keys_v@.map_values(|k: &str| k@) =~= summary_keys());
    }
    let summary = match coerce_string(get_first(m, &summary_keys_v)) {
        Some(s) => s,
        None => String::new(),
    };
    let summary_chars = chars_of(summary.as_str());
    if summary_chars.len() == 0 {
        return Err(string_from_str("Missing summary_markdown in index model JSON"));
    }
    let purpose = coerce_string(get(m, "purpose"));
    let symbol_keys_v: Vec<&str> = vec!["key_symbols", "keySymbols", "symbols"];
    proof {
        assert(symbol_keys_v@.map_values(|k: &str| k@) =~= key_symbol_keys());
    }
    let key_symbols = coerce_string_list(get_first(m, &symbol_keys_v));
    let dependencies = coerce_dependencies(get(m, "dependencies"));
    let notes = coerce_string(get(m, "notes"));
    Ok(AiFileLogOutput { summary_markdown: summary, purpose, key_symbols, dependencies, notes })
}

} // verus!
