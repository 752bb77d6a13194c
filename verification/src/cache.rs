//! The memory cache: packing cached items under a token budget, and the
//! rolling window of episodic blocks.
use vstd::prelude::*;

use crate::text::{
    append_chars, append_str, byte_len, chars_of, contains_chars, contains_sub, has_prefix,
    join_parts, join_with, lowercase, str_len, string_of, strip_prefix, to_lowercase, trim,
    trim_char, trim_matches_char, trim_start_matches_str, trim_start_str, trim_ws, views,
    eq_str, string_views, opt_view, contains_string,
};

verus! {

/// Errors of the cache service.
#[derive(Debug)]
pub enum CacheError {
    DatabaseError(String),
    CacheMiss(String),
    EmbeddingError(String),
}

impl CacheError {
    pub open spec fn message_spec(&self) -> Seq<char> {
        match self {
            CacheError::DatabaseError(m) => "Database error: "@ + m@,
            CacheError::CacheMiss(m) => "Cache miss for scope: "@ + m@,
            CacheError::EmbeddingError(m) => "Embedding error: "@ + m@,
        }
    }

    /// The error's message.
    pub fn to_display_string(&self) -> (r: String)
        ensures
            r@ == self.message_spec(),
    {
        let mut v: Vec<char> = Vec::new();
        match self {
            CacheError::DatabaseError(m) => {
                append_str(&mut v, "Database error: ");
                append_str(&mut v, m.as_str());
            },
            CacheError::CacheMiss(m) => {
                append_str(&mut v, "Cache miss for scope: ");
                append_str(&mut v, m.as_str());
            },
            CacheError::EmbeddingError(m) => {
                append_str(&mut v, "Embedding error: ");
                append_str(&mut v, m.as_str());
            },
        }
        string_of(&v)
    }
}

/// The kind of a cached item.
#[derive(Debug, Clone, Copy, PartialEq, Eq, Structural)]
pub enum CacheItemKind {
    Fact,
    Decision,
    Snippet,
    Warning,
}

impl CacheItemKind {
    /// The lowercase name a kind is stored and exchanged under.
    pub open spec fn name_spec(self) -> Seq<char> {
        match self {
            CacheItemKind::Fact => "fact"@,
            CacheItemKind::Decision => "decision"@,
            CacheItemKind::Snippet => "snippet"@,
            CacheItemKind::Warning => "warning"@,
        }
    }

    pub fn as_str(&self) -> (r: &'static str)
        ensures
            r@ == self.name_spec(),
    {
        match self {
            CacheItemKind::Fact => "fact",
            CacheItemKind::Decision => "decision",
            CacheItemKind::Snippet => "snippet",
            CacheItemKind::Warning => "warning",
        }
    }

    /// The kind whose stored name is exactly `name`, if any.
    pub fn parse(name: &str) -> (r: Option<CacheItemKind>)
        ensures
            match r {
                Some(k) => k.name_spec() == name@,
                None => forall|k: CacheItemKind| k.name_spec() != name@,
            },
    {
        let n = chars_of(name);
        if eq_str(&n, "fact") {
            Some(CacheItemKind::Fact)
        } else if eq_str(&n, "decision") {
            Some(CacheItemKind::Decision)
        } else if eq_str(&n, "snippet") {
            Some(CacheItemKind::Snippet)
        } else if eq_str(&n, "warning") {
            Some(CacheItemKind::Warning)
        } else {
            proof {
                assert forall|k: CacheItemKind| k.name_spec() != name@ by {
                    match k {
                        CacheItemKind::Fact => {},
                        CacheItemKind::Decision => {},
                        CacheItemKind::Snippet => {},
                        CacheItemKind::Warning => {},
                    }
                }
            }
            None
        }
    }

    /// The kind a written item asks for: its name compared after lowercasing,
    /// with anything unknown taken as a fact.
    pub fn from_input(kind: &str) -> (r: CacheItemKind)
        ensures
            (exists|k: CacheItemKind| k.name_spec() == lowercase(kind@)) ==> r.name_spec()
                == lowercase(kind@),
            (forall|k: CacheItemKind| k.name_spec() != lowercase(kind@)) ==> r
                == CacheItemKind::Fact,
    {
        let lower = to_lowercase(kind);
        match CacheItemKind::parse(lower.as_str()) {
            Some(k) => k,
            None => CacheItemKind::Fact,
        }
    }
}


/// Estimated tokens of a text: its length in bytes divided by 4.
pub open spec fn estimate_tokens_spec(text: Seq<char>) -> usize {
    (str_len(text) / 4) as usize
}

/// A cached item as the pack builder sees it: its kind, preview, facts and
/// the artifact it points to.
pub struct PackCandidate {
    pub kind: CacheItemKind,
    pub preview: String,
    pub facts: Vec<String>,
    pub artifact_id: Option<String>,
}

/// The plain values of a candidate.
pub struct CandidateView {
    pub kind: CacheItemKind,
    pub preview: Seq<char>,
    pub facts: Seq<Seq<char>>,
    pub artifact_id: Option<Seq<char>>,
}



impl View for PackCandidate {
    type V = CandidateView;

    open spec fn view(&self) -> CandidateView {
        CandidateView {
            kind: self.kind,
            preview: self.preview@,
            facts: string_views(self.facts@),
            artifact_id: opt_view(self.artifact_id),
        }
    }
}

/// The summed token estimates of some texts.
pub open spec fn tokens_of_all(texts: Seq<Seq<char>>) -> int
    decreases texts.len(),
{
    if texts.len() == 0 {
        0
    } else {
        tokens_of_all(texts.drop_last()) + estimate_tokens_spec(texts.last()) as int
    }
}

/// The token estimate of a candidate: its preview plus all its facts.
pub open spec fn item_cost(c: CandidateView) -> int {
    estimate_tokens_spec(c.preview) as int + tokens_of_all(c.facts)
}

/// The state of packing after some of the candidates.
pub struct PackState {
    pub remaining: int,
    pub token_count: int,
    pub facts: Seq<int>,
    pub decisions: Seq<int>,
    pub snippets: Seq<int>,
    pub warnings: Seq<int>,
    pub pointers: Seq<Seq<char>>,
}

/// Considers candidate `i`: when its cost fits what remains of the budget
/// it is taken (into the list of its kind, its artifact noted once);
/// otherwise it is skipped.
pub open spec fn pack_step(st: PackState, i: int, c: CandidateView) -> PackState {
    let cost = item_cost(c);
    if cost > st.remaining {
        st
    } else {
        let pointers = match c.artifact_id {
            Some(a) => if st.pointers.contains(a) {
                st.pointers
            } else {
                st.pointers.push(a)
            },
            None => st.pointers,
        };
        PackState {
            remaining: st.remaining - cost,
            token_count: st.token_count + cost,
            facts: if c.kind == CacheItemKind::Fact { st.facts.push(i) } else { st.facts },
            decisions: if c.kind == CacheItemKind::Decision { st.decisions.push(i) } else { st.decisions },
            snippets: if c.kind == CacheItemKind::Snippet { st.snippets.push(i) } else { st.snippets },
            warnings: if c.kind == CacheItemKind::Warning { st.warnings.push(i) } else { st.warnings },
            pointers,
        }
    }
}

/// Packing the first `k` candidates, in order, from `init`.
pub open spec fn pack_fold(items: Seq<CandidateView>, k: int, init: PackState) -> PackState
    decreases k,
{
    if k <= 0 {
        init
    } else {
        pack_step(pack_fold(items, k - 1, init), k - 1, items[k - 1])
    }
}

/// The number of leading characters of `s` whose UTF-8 encoding fits in
/// `n` bytes.
pub open spec fn chars_within_bytes(s: Seq<char>, n: int) -> nat
    decreases s.len(),
{
    if s.len() == 0 {
        0
    } else {
        let w = vstd::utf8::encode_scalar(s[0] as u32).len() as int;
        if w <= n {
            1 + chars_within_bytes(s.drop_first(), n - w)
        } else {
            0
        }
    }
}

/// The summary kept in a pack: the frame's summary, or, when its estimate
/// exceeds the summary's fifth of the budget, its longest prefix of at most
/// four bytes per token of that fifth (cut at a character boundary).
pub open spec fn pack_summary(summary: Seq<char>, budget: nat) -> Seq<char> {
    let sb = budget / 5;
    if estimate_tokens_spec(summary) > sb {
        summary.take(chars_within_bytes(summary, (sb * 4) as int) as int)
    } else {
        summary
    }
}

pub open spec fn min_nat(a: nat, b: nat) -> nat {
    if a < b {
        a
    } else {
        b
    }
}

/// The packing state before any candidate: the items' share of the budget
/// (all but a fifth) remains, and the summary's estimate is counted.
pub open spec fn pack_init(summary: Seq<char>, budget: nat) -> PackState {
    PackState {
        remaining: budget - budget / 5,
        token_count: estimate_tokens_spec(pack_summary(summary, budget)) as int,
        facts: Seq::empty(),
        decisions: Seq::empty(),
        snippets: Seq::empty(),
        warnings: Seq::empty(),
        pointers: Seq::empty(),
    }
}

/// Which candidates go into a memory pack, and the pack's header values.
/// The lists hold indices into the candidates.
pub struct PackPlan {
    pub scope_id: String,
    pub summary: String,
    pub facts: Vec<usize>,
    pub decisions: Vec<usize>,
    pub snippets: Vec<usize>,
    pub warnings: Vec<usize>,
    pub artifact_pointers: Vec<String>,
    pub token_count: usize,
    pub version: u64,
    pub is_fresh: bool,
}

pub open spec fn index_views(v: Seq<usize>) -> Seq<int> {
    v.map_values(|i: usize| i as int)
}

impl PackPlan {
    /// Whether the stored frame is refreshed after building this pack:
    /// when it was stale and facts were packed, or whenever decisions were.
    pub open spec fn needs_frame_update_spec(&self) -> bool {
        (!self.is_fresh && self.facts@.len() > 0) || self.decisions@.len() > 0
    }

    pub fn needs_frame_update(&self) -> (r: bool)
        ensures
            r == self.needs_frame_update_spec(),
    {
        !self.is_fresh && !self.facts.is_empty() || !self.decisions.is_empty()
    }
}

/// The stored summary frame of a scope, as the pack builder reads it.
pub struct CacheFrame {
    pub scope_id: String,
    pub summary: String,
    pub version: u64,
    pub token_count: usize,
    /// The time of the last update, RFC 3339.
    pub updated_at: String,
}

/// Settings of the cache: how long items live and how long a frame counts
/// as fresh.
pub struct CacheService {
    pub default_ttl_minutes: i64,
    pub freshness_threshold_seconds: i64,
}

impl CacheService {
    /// Items live 30 minutes; a frame is fresh for 300 seconds.
    pub fn new() -> (r: Self)
        ensures
            r.default_ttl_minutes == 30,
            r.freshness_threshold_seconds == 300,
    {
        CacheService { default_ttl_minutes: 30, freshness_threshold_seconds: 300 }
    }

    /// Estimated tokens of a text: its byte length divided by 4.
    pub fn estimate_tokens(text: &str) -> (r: usize)
        ensures
            r == estimate_tokens_spec(text@),
    {
        text.len() / 4
    }

    /// Whether a frame last updated `age_seconds` ago is still fresh.
    pub fn is_fresh(&self, age_seconds: i64) -> (r: bool)
        ensures
            r == (age_seconds < self.freshness_threshold_seconds),
    {
        age_seconds < self.freshness_threshold_seconds
    }

    /// Chooses the cached items for a pack: a fifth of the budget is kept
    /// for the summary (a longer summary is cut at a character boundary to
    /// the bytes that fifth allows), the rest is handed to the items in
    /// order, each taken when its estimate still fits. The pack's token
    /// count never exceeds the budget.
    pub fn build_pack(
        &self,
        scope_id: &str,
        frame: &Option<CacheFrame>,
        items: &Vec<PackCandidate>,
        token_budget: usize,
        is_fresh: bool,
    ) -> (r: PackPlan)
        requires
            forall|i: int| 0 <= i < items@.len() ==> item_cost(#[trigger] items@[i]@)
                <= usize::MAX,
        ensures
            r.token_count <= token_budget,
            ({
                let summary = match frame {
                    Some(f) => f.summary@,
                    None => Seq::empty(),
                };
                let st = pack_fold(
                    items@.map_values(|c: PackCandidate| c@),
                    items@.len() as int,
                    pack_init(summary, token_budget as nat),
                );
                &&& r.scope_id@ == scope_id@
                &&& r.summary@ == pack_summary(summary, token_budget as nat)
                &&& r.version == match frame {
                    Some(f) => f.version,
                    None => 0,
                }
                &&& r.is_fresh == is_fresh
                &&& r.token_count == st.token_count
                &&& index_views(r.facts@) == st.facts
                &&& index_views(r.decisions@) == st.decisions
                &&& index_views(r.snippets@) == st.snippets
                &&& index_views(r.warnings@) == st.warnings
                &&& string_views(r.artifact_pointers@) == st.pointers
            }),
    {
        let summary0: Vec<char> = match frame {
            Some(f) => chars_of(f.summary.as_str()),
            None => Vec::new(),
        };
        let version: u64 = match frame {
            Some(f) => f.version,
            None => 0,
        };
        let summary_budget = token_budget / 5;
        let items_budget = token_budget - summary_budget;
        let est0 = byte_len(&summary0) / 4;
        let ghost sv = match frame {
            Some(f) => f.summary@,
            None => Seq::<char>::empty(),
        };
        let summary: Vec<char> = if est0 > summary_budget {
            assert(summary_budget * 4 <= token_budget);
            let limit = summary_budget * 4;
            let keep = chars_within(&summary0, limit);
            proof {
                lemma_chars_within_bytes(sv, limit as int);
            }
            crate::text::slice_vec(&summary0, 0, keep)
        } else {
            summary0
        };
        proof {
            assert(summary@ == pack_summary(sv, token_budget as nat));
            lemma_summary_within_share(sv, token_budget as nat);
        }
        let summary_tokens = byte_len(&summary) / 4;
        let ghost cands = items@.map_values(|c: PackCandidate| c@);
        let ghost init = pack_init(sv, token_budget as nat);
        let mut remaining = items_budget;
        let mut token_count = summary_tokens;
        let mut facts: Vec<usize> = Vec::new();
        let mut decisions: Vec<usize> = Vec::new();
        let mut snippets: Vec<usize> = Vec::new();
        let mut warnings: Vec<usize> = Vec::new();
        let mut pointers: Vec<String> = Vec::new();
        let mut i: usize = 0;
        while i < items.len()
            invariant
                i <= items@.len(),
                cands == items@.map_values(|c: PackCandidate| c@),
                forall|j: int| 0 <= j < items@.len() ==> item_cost(#[trigger] items@[j]@)
                    <= usize::MAX,
                token_count + remaining <= token_budget,
                ({
                    let st = pack_fold(cands, i as int, init);
                    &&& st.remaining == remaining as int
                    &&& st.token_count == token_count as int
                    &&& st.facts == index_views(facts@)
                    &&& st.decisions == index_views(decisions@)
                    &&& st.snippets == index_views(snippets@)
                    &&& st.warnings == index_views(warnings@)
                    &&& st.pointers == string_views(pointers@)
                }),
            decreases items@.len() - i,
        {
            let item = &items[i];
            proof {
                assert(cands[i as int] == item@);
            }
            let cost = candidate_cost(item);
            if cost <= remaining {
                remaining = remaining - cost;
                token_count = token_count + cost;
                match &item.artifact_id {
                    Some(a) => {
                        if !contains_string(&pointers, a) {
                            let ghost before = pointers@;
                            pointers.push(a.clone());
                            proof {
                                assert(string_views(pointers@) == string_views(before).push(a@));
                            }
                        }
                    },
                    None => {},
                }
                let ghost fb = facts@;
                let ghost db = decisions@;
                let ghost sb = snippets@;
                let ghost wb = warnings@;
                match item.kind {
                    CacheItemKind::Fact => facts.push(i),
                    CacheItemKind::Decision => decisions.push(i),
                    CacheItemKind::Snippet => snippets.push(i),
                    CacheItemKind::Warning => warnings.push(i),
                }
                proof {
                    assert(index_views(fb.push(i)) == index_views(fb).push(i as int));
                    assert(index_views(db.push(i)) == index_views(db).push(i as int));
                    assert(index_views(sb.push(i)) == index_views(sb).push(i as int));
                    assert(index_views(wb.push(i)) == index_views(wb).push(i as int));
                }
            }
            i = i + 1;
        }
        PackPlan {
            scope_id: crate::text::string_from_str(scope_id),
            summary: string_of(&summary),
            facts,
            decisions,
            snippets,
            warnings,
            artifact_pointers: pointers,
            token_count,
            version,
            is_fresh,
        }
    }
}

proof fn lemma_chars_within_bytes(s: Seq<char>, n: int)
    requires
        n >= 0,
    ensures
        chars_within_bytes(s, n) <= s.len(),
        vstd::utf8::encode_utf8(s.take(chars_within_bytes(s, n) as int)).len() <= n,
    decreases s.len(),
{
    let k = chars_within_bytes(s, n);
    if s.len() == 0 {
        assert(s.take(0) =~= Seq::<char>::empty());
    } else {
        let w = vstd::utf8::encode_scalar(s[0] as u32).len() as int;
        if w <= n {
            lemma_chars_within_bytes(s.drop_first(), n - w);
            let t = s.take(k as int);
            assert(t.drop_first() =~= s.drop_first().take(k - 1));
            assert(t[0] == s[0]);
        } else {
            assert(s.take(0) =~= Seq::<char>::empty());
        }
    }
}

/// The number of leading characters of `v` whose UTF-8 encoding fits in
/// `limit` bytes.
fn chars_within(v: &Vec<char>, limit: usize) -> (k: usize)
    ensures
        k == chars_within_bytes(v@, limit as int),
{
    let mut k: usize = 0;
    let mut left: usize = limit;
    let mut full = false;
    assert(v@.skip(0) =~= v@);
    while k < v.len() && !full
        invariant
            k <= v@.len(),
            left <= limit,
            chars_within_bytes(v@, limit as int) == k + if full {
                0
            } else {
                chars_within_bytes(v@.skip(k as int), left as int)
            },
        decreases v@.len() - k + if full { 0int } else { 1int },
    {
        let w = crate::text::utf8_width(v[k]);
        proof {
            assert(v@.skip(k as int)[0] == v@[k as int]);
            assert(v@.skip(k as int).drop_first() =~= v@.skip(k + 1));
        }
        if w > left {
            full = true;
        } else {
            left = left - w;
            k = k + 1;
        }
    }
    proof {
        if !full {
            assert(v@.skip(k as int) =~= Seq::<char>::empty());
        }
    }
    k
}

/// The summary a pack keeps is estimated at no more than a fifth of the
/// budget.
pub proof fn lemma_summary_within_share(s: Seq<char>, budget: nat)
    requires
        vstd::utf8::encode_utf8(s).len() <= usize::MAX,
    ensures
        estimate_tokens_spec(pack_summary(s, budget)) <= budget / 5,
{
    let sb = budget / 5;
    if estimate_tokens_spec(s) > sb {
        lemma_chars_within_bytes(s, (sb * 4) as int);
        let t = pack_summary(s, budget);
        let k = chars_within_bytes(s, (sb * 4) as int);
        assert(s =~= t + s.skip(k as int));
        lemma_encode_len_append(t, s.skip(k as int));
    }
}

pub proof fn lemma_encode_len_append(a: Seq<char>, b: Seq<char>)
    ensures
        vstd::utf8::encode_utf8(a + b).len() == vstd::utf8::encode_utf8(a).len()
            + vstd::utf8::encode_utf8(b).len(),
    decreases a.len(),
{
    if a.len() > 0 {
        assert((a + b).drop_first() == a.drop_first() + b);
        lemma_encode_len_append(a.drop_first(), b);
    } else {
        assert(a + b == b);
    }
}

/// The token estimate of a candidate.
fn candidate_cost(c: &PackCandidate) -> (r: usize)
    requires
        item_cost(c@) <= usize::MAX,
    ensures
        r == item_cost(c@),
{
    let mut total = CacheService::estimate_tokens(c.preview.as_str());
    let mut k: usize = 0;
    while k < c.facts.len()
        invariant
            k <= c.facts@.len(),
            item_cost(c@) <= usize::MAX,
            total == estimate_tokens_spec(c.preview@) + tokens_of_all(
                string_views(c.facts@).take(k as int),
            ),
        decreases c.facts@.len() - k,
    {
        proof {
            let fs = string_views(c.facts@);
            assert(fs.take(k + 1).drop_last() == fs.take(k as int));
            lemma_tokens_of_all_prefix(fs, k + 1);
        }
        total = total + CacheService::estimate_tokens(c.facts[k].as_str());
        k = k + 1;
    }
    proof {
        assert(string_views(c.facts@).take(c.facts@.len() as int) == string_views(c.facts@));
    }
    total
}

proof fn lemma_tokens_of_all_prefix(fs: Seq<Seq<char>>, k: int)
    requires
        0 <= k <= fs.len(),
    ensures
        tokens_of_all(fs.take(k)) <= tokens_of_all(fs),
    decreases fs.len() - k,
{
    if k < fs.len() {
        assert(fs.drop_last().take(k) == fs.take(k));
        lemma_tokens_of_all_prefix(fs.drop_last(), k);
    } else {
        assert(fs.take(k) == fs);
    }
}


/// The most blocks a scope keeps; beyond it the oldest is evicted.
pub const MAX_BLOCKS: usize = 20;

/// The token count at which an open block is closed and a new one opened.
pub const TOKEN_THRESHOLD: usize = 1800;

/// Token budget of a pack when the request names none.
pub fn default_token_budget() -> (r: usize)
    ensures
        r == 600,
{
    600
}

/// Number of block matches returned when the request names no limit.
pub fn default_search_limit() -> (r: usize)
    ensures
        r == 5,
{
    5
}

/// Whether a scope holding `count` blocks must evict its oldest one.
pub fn should_evict(count: usize) -> (r: bool)
    ensures
        r == (count > MAX_BLOCKS),
{
    count > MAX_BLOCKS
}

/// How many blocks a scope holds after a write closes its open block: the
/// oldest is evicted when it holds more than `MAX_BLOCKS`, then a new open
/// block is created.
pub open spec fn blocks_after_rotation(count: nat) -> nat {
    (if count > MAX_BLOCKS {
        (count - 1) as nat
    } else {
        count
    }) + 1
}

/// The episodic cache is a rolling window: a scope holding at most one
/// block more than `MAX_BLOCKS` still does after a write rotates its block.
pub proof fn rotation_keeps_window_bounded(count: nat)
    requires
        count <= MAX_BLOCKS + 1,
    ensures
        blocks_after_rotation(count) <= MAX_BLOCKS + 1,
{
}

/// The block id written the way queries need it: `cache_block:` and the id
/// in backticks, the angle brackets SurrealDB prints removed; ids that
/// already hold a backtick are kept as they are.
pub open spec fn escape_block_id_spec(id: Seq<char>) -> Seq<char> {
    if id.contains('`') {
        id
    } else {
        let raw = if has_prefix(id, "cache_block:"@) {
            id.skip("cache_block:"@.len() as int)
        } else {
            id
        };
        "cache_block:`"@ + trim_char(trim_char(raw, '⟨'), '⟩') + "`"@
    }
}

pub fn escape_block_id(id: &str) -> (r: String)
    ensures
        r@ == escape_block_id_spec(id@),
{
    let cs = chars_of(id);
    if crate::text::seq_contains(&cs, '`') {
        return string_of(&cs);
    }
    let prefix = chars_of("cache_block:");
    let raw = match strip_prefix(&cs, &prefix) {
        Some(rest) => rest,
        None => cs,
    };
    let clean = trim_matches_char(&trim_matches_char(&raw, '⟨'), '⟩');
    let mut out: Vec<char> = Vec::new();
    append_str(&mut out, "cache_block:`");
    append_chars(&mut out, &clean);
    append_str(&mut out, "`");
    string_of(&out)
}

/// A run id cleaned of surrounding whitespace, angle brackets, backticks and
/// a leading `objects:` table prefix.
pub open spec fn normalize_run_id_spec(raw: Seq<char>) -> Seq<char> {
    trim_start_str(trim_char(trim_char(trim_char(trim_ws(raw), '⟨'), '⟩'), '`'), "objects:"@)
}

pub fn normalize_run_id(raw: &str) -> (r: String)
    ensures
        r@ == normalize_run_id_spec(raw@),
{
    let cs = chars_of(raw);
    let t = trim(&cs);
    let t = trim_matches_char(&t, '⟨');
    let t = trim_matches_char(&t, '⟩');
    let t = trim_matches_char(&t, '`');
    let prefix = chars_of("objects:");
    proof {
        reveal_strlit("objects:");
    }
    let t = trim_start_matches_str(&t, &prefix);
    string_of(&t)
}

/// The scopes a block write is copied to besides its own: for a
/// `project:` scope, the run and session scope of every active run.
pub open spec fn fanout_scopes_spec(scope_id: Seq<char>, run_ids: Seq<Seq<char>>) -> Seq<Seq<char>>
    decreases run_ids.len(),
{
    if !has_prefix(scope_id, "project:"@) || run_ids.len() == 0 {
        Seq::empty()
    } else {
        let n = normalize_run_id_spec(run_ids.last());
        fanout_scopes_spec(scope_id, run_ids.drop_last()) + if n.len() == 0 {
            Seq::<Seq<char>>::empty()
        } else {
            seq!["run:"@ + n, "session:"@ + n]
        }
    }
}

pub fn fanout_scopes(scope_id: &str, run_ids: &Vec<String>) -> (r: Vec<String>)
    ensures
        string_views(r@) == fanout_scopes_spec(scope_id@, string_views(run_ids@)),
{
    let mut out: Vec<String> = Vec::new();
    let sc = chars_of(scope_id);
    let prefix = chars_of("project:");
    if !crate::text::starts_with(&sc, &prefix) {
        proof {
            assert(string_views(out@) == Seq::<Seq<char>>::empty());
        }
        return out;
    }
    let ghost ids = string_views(run_ids@);
    let mut k: usize = 0;
    while k < run_ids.len()
        invariant
            k <= run_ids@.len(),
            ids == string_views(run_ids@),
            has_prefix(scope_id@, "project:"@),
            string_views(out@) == fanout_scopes_spec(scope_id@, ids.take(k as int)),
        decreases run_ids@.len() - k,
    {
        proof {
            assert(ids.take(k + 1).drop_last() == ids.take(k as int));
            assert(ids.take(k + 1).last() == run_ids@[k as int]@);
        }
        let n = normalize_run_id(run_ids[k].as_str());
        let nc = chars_of(n.as_str());
        if nc.len() > 0 {
            let mut a: Vec<char> = Vec::new();
            append_str(&mut a, "run:");
            append_chars(&mut a, &nc);
            let mut b: Vec<char> = Vec::new();
            append_str(&mut b, "session:");
            append_chars(&mut b, &nc);
            let ghost before = out@;
            out.push(string_of(&a));
            out.push(string_of(&b));
            proof {
                assert(string_views(out@) == string_views(before) + seq![
                    "run:"@ + n@,
                    "session:"@ + n@,
                ]);
            }
        } else {
            proof {
                assert(string_views(out@) == string_views(out@) + Seq::<Seq<char>>::empty());
            }
        }
        k = k + 1;
    }
    proof {
        assert(ids.take(run_ids@.len() as int) == ids);
    }
    out
}

/// The open block of a scope, as a write sees it.
pub struct OpenBlock {
    pub block_id: String,
    pub token_count: usize,
    pub item_count: usize,
    pub sequence: usize,
}

/// What a block write does: whether a first block had to be created, whether
/// the open block was closed for a new one, and the resulting block state.
pub struct BlockWritePlan {
    pub create_first: bool,
    pub rotate: bool,
    pub sequence: usize,
    pub token_count: usize,
    pub items_in_block: usize,
    /// `"closed"` when the previous block was closed by this write, else `"open"`.
    pub block_status: String,
}

/// Decides a block write of `content` given the scope's open block (none
/// means a first block with sequence 1 is created). When the item would
/// bring the block to the threshold, the block is closed and the item opens
/// the next one.
pub fn plan_block_write(open: &Option<OpenBlock>, content: &str) -> (r: BlockWritePlan)
    requires
        match open {
            Some(b) => b.token_count + estimate_tokens_spec(content@) <= usize::MAX && b.sequence
                < usize::MAX && b.item_count < usize::MAX,
            None => true,
        },
    ensures
        ({
            let item_tokens = estimate_tokens_spec(content@);
            let (tc, items, seq) = match open {
                Some(b) => (b.token_count as int, b.item_count as int, b.sequence as int),
                None => (0int, 0int, 1int),
            };
            let rotate = tc + item_tokens >= TOKEN_THRESHOLD;
            &&& r.create_first == open is None
            &&& r.rotate == rotate
            &&& r.sequence == if rotate { seq + 1 } else { seq }
            &&& r.token_count == if rotate { item_tokens as int } else { tc + item_tokens }
            &&& r.items_in_block == if rotate { 1 } else { items + 1 }
            &&& r.block_status@ == if rotate { "closed"@ } else { "open"@ }
        }),
        r.token_count < TOKEN_THRESHOLD || r.items_in_block == 1,
{
    let item_tokens = CacheService::estimate_tokens(content);
    let (tc, items, seq): (usize, usize, usize) = match open {
        Some(b) => (b.token_count, b.item_count, b.sequence),
        None => (0, 0, 1),
    };
    if tc + item_tokens >= TOKEN_THRESHOLD {
        BlockWritePlan {
            create_first: open.is_none(),
            rotate: true,
            sequence: seq + 1,
            token_count: item_tokens,
            items_in_block: 1,
            block_status: crate::text::string_from_str("closed"),
        }
    } else {
        BlockWritePlan {
            create_first: open.is_none(),
            rotate: false,
            sequence: seq,
            token_count: tc + item_tokens,
            items_in_block: items + 1,
            block_status: crate::text::string_from_str("open"),
        }
    }
}

/// An item stored in a block: its kind and content, as far as present.
pub struct BlockItem {
    pub kind: Option<String>,
    pub content: Option<String>,
}

pub open spec fn block_item_view(i: BlockItem) -> (Option<Seq<char>>, Option<Seq<char>>) {
    (opt_view(i.kind), opt_view(i.content))
}

/// The summary line of an item with content: `[kind] content`, the kind
/// taken as `item` when missing.
pub open spec fn item_part(kind: Option<Seq<char>>, content: Seq<char>) -> Seq<char> {
    "["@ + match kind {
        Some(k) => k,
        None => "item"@,
    } + "] "@ + content
}

/// Summary parts of a closing block: the items with content, in order,
/// as long as their estimates together stay within 200 tokens; the first
/// part that would pass that ends the summary.
pub open spec fn close_parts(items: Seq<(Option<Seq<char>>, Option<Seq<char>>)>, i: int, used: int) -> Seq<Seq<char>>
    decreases items.len() - i,
{
    if i < 0 || i >= items.len() {
        Seq::empty()
    } else {
        match items[i].1 {
            None => close_parts(items, i + 1, used),
            Some(c) => {
                let part = item_part(items[i].0, c);
                let t = estimate_tokens_spec(part) as int;
                if used + t > 200 {
                    Seq::empty()
                } else {
                    seq![part] + close_parts(items, i + 1, used + t)
                }
            },
        }
    }
}

/// The `[kind] content` line of an item with content.
fn item_part_of(kind: &Option<String>, content: &String) -> (r: Vec<char>)
    ensures
        r@ == item_part(opt_view(*kind), content@),
{
    let mut v: Vec<char> = Vec::new();
    append_str(&mut v, "[");
    match kind {
        Some(k) => append_str(&mut v, k.as_str()),
        None => append_str(&mut v, "item"),
    }
    append_str(&mut v, "] ");
    append_str(&mut v, content.as_str());
    v
}

/// The summary stored when a block is closed: its parts joined by `"; "`.
pub fn summarize_block_items(items: &Vec<BlockItem>) -> (r: String)
    ensures
        r@ == join_with(close_parts(items@.map_values(|i: BlockItem| block_item_view(i)), 0, 0), "; "@),
{
    let ghost iv = items@.map_values(|i: BlockItem| block_item_view(i));
    let mut parts: Vec<Vec<char>> = Vec::new();
    let mut used: usize = 0;
    let mut i: usize = 0;
    while i < items.len()
        invariant_except_break
            close_parts(iv, 0, 0) == views(parts@) + close_parts(iv, i as int, used as int),
        invariant
            i <= items@.len(),
            iv == items@.map_values(|i: BlockItem| block_item_view(i)),
            used <= 200,
        ensures
            close_parts(iv, 0, 0) == views(parts@),
        decreases items@.len() - i,
    {
        proof {
            assert(iv[i as int] == block_item_view(items@[i as int]));
        }
        match &items[i].content {
            None => {},
            Some(c) => {
                let part = item_part_of(&items[i].kind, c);
                let t = byte_len(&part) / 4;
                if used + t > 200 {
                    proof {
                        assert(close_parts(iv, i as int, used as int) == Seq::<Seq<char>>::empty());
                        assert(views(parts@) + Seq::<Seq<char>>::empty() == views(parts@));
                    }
                    break;
                }
                let ghost before = parts@;
                parts.push(part);
                proof {
                    assert(views(parts@) == views(before).push(part@));
                    assert(views(before) + (seq![part@] + close_parts(iv, i + 1, used + t)) == views(parts@) + close_parts(iv, i + 1, used + t));
                }
                used = used + t;
            },
        }
        i = i + 1;
    }
    proof {
        if i >= items.len() {
            assert(close_parts(iv, i as int, used as int) == Seq::<Seq<char>>::empty());
            assert(views(parts@) + Seq::<Seq<char>>::empty() == views(parts@));
        }
    }
    let sep = chars_of("; ");
    let joined = join_parts(&parts, &sep);
    string_of(&joined)
}

/// The `[kind] content` lines of the items that have content, in order.
pub open spec fn content_parts(items: Seq<(Option<Seq<char>>, Option<Seq<char>>)>) -> Seq<Seq<char>>
    decreases items.len(),
{
    if items.len() == 0 {
        Seq::empty()
    } else {
        content_parts(items.drop_last()) + match items.last().1 {
            Some(c) => seq![item_part(items.last().0, c)],
            None => Seq::empty(),
        }
    }
}

/// Whether one item has content whose lowercased form holds the lowercased
/// query, or the query is `*`.
pub open spec fn item_hits(item: (Option<Seq<char>>, Option<Seq<char>>), query_lower: Seq<char>) -> bool {
    match item.1 {
        Some(c) => contains_sub(lowercase(c), query_lower) || query_lower == "*"@,
        None => false,
    }
}

/// Whether some item with content matches the lowercased query.
pub open spec fn open_block_matches(
    items: Seq<(Option<Seq<char>>, Option<Seq<char>>)>,
    query_lower: Seq<char>,
) -> bool {
    exists|i: int| 0 <= i < items.len() && #[trigger] item_hits(items[i], query_lower)
}

/// The match an open block contributes to a search: present when an item
/// matches or the query is `*`; its summary is the first five parts joined
/// by `"; "`, or a placeholder when the block holds no content yet.
pub open spec fn open_block_match_spec(
    items: Seq<(Option<Seq<char>>, Option<Seq<char>>)>,
    query: Seq<char>,
) -> Option<Seq<char>> {
    if open_block_matches(items, lowercase(query)) || query == "*"@ {
        let parts = content_parts(items);
        Some(
            if parts.len() == 0 {
                "[open block - no items yet]"@
            } else {
                join_with(parts.take(min_nat(5, parts.len()) as int), "; "@)
            },
        )
    } else {
        None
    }
}

pub fn open_block_match(items: &Vec<BlockItem>, query: &str) -> (r: Option<String>)
    ensures
        match r {
            Some(s) => open_block_match_spec(
                items@.map_values(|i: BlockItem| block_item_view(i)),
                query@,
            ) == Some(s@),
            None => open_block_match_spec(
                items@.map_values(|i: BlockItem| block_item_view(i)),
                query@,
            ) is None,
        },
{
    let ghost iv = items@.map_values(|i: BlockItem| block_item_view(i));
    let ql = to_lowercase(query);
    let qlc = chars_of(ql.as_str());
    let star_lower = eq_str(&qlc, "*");
    let mut parts: Vec<Vec<char>> = Vec::new();
    let mut count: usize = 0;
    let mut matched = false;
    let mut i: usize = 0;
    while i < items.len()
        invariant
            i <= items@.len(),
            iv == items@.map_values(|i: BlockItem| block_item_view(i)),
            qlc@ == lowercase(query@),
            star_lower == (lowercase(query@) == "*"@),
            count == content_parts(iv.take(i as int)).len(),
            count <= i,
            views(parts@) == content_parts(iv.take(i as int)).take(min_nat(5, count as nat) as int),
            matched == open_block_matches(iv.take(i as int), lowercase(query@)),
        decreases items@.len() - i,
    {
        proof {
            assert(iv.take(i + 1).drop_last() == iv.take(i as int));
            assert(iv.take(i + 1).last() == block_item_view(items@[i as int]));
        }
        let ghost prev = content_parts(iv.take(i as int));
        let ghost was = matched;
        match &items[i].content {
            None => {
                proof {
                    assert(content_parts(iv.take(i + 1)) == prev + Seq::<Seq<char>>::empty());
                    assert(prev + Seq::<Seq<char>>::empty() == prev);
                    assert(open_block_matches(iv.take(i + 1), lowercase(query@)) == was) by {
                        if open_block_matches(iv.take(i + 1), lowercase(query@)) {
                            let j = choose|j: int| 0 <= j < iv.take(i + 1).len() && #[trigger] item_hits(iv.take(i + 1)[j], lowercase(query@));
                            assert(j < i);
                            assert(iv.take(i as int)[j] == iv.take(i + 1)[j]);
                        }
                        if was {
                            let j = choose|j: int| 0 <= j < iv.take(i as int).len() && #[trigger] item_hits(iv.take(i as int)[j], lowercase(query@));
                            assert(iv.take(i + 1)[j] == iv.take(i as int)[j]);
                        }
                    }
                }
            },
            Some(c) => {
                let part = item_part_of(&items[i].kind, c);
                let lc = to_lowercase(c.as_str());
                let lcc = chars_of(lc.as_str());
                let hit = contains_chars(&lcc, &qlc) || star_lower;
                if hit {
                    matched = true;
                }
                if count < 5 {
                    let ghost before = parts@;
                    parts.push(part);
                    proof {
                        assert(views(parts@) == views(before).push(part@));
                    }
                }
                count = count + 1;
                proof {
                    let cur = content_parts(iv.take(i + 1));
                    assert(cur == prev + seq![part@]);
                    assert(cur.take(min_nat(5, count as nat) as int) == if count <= 5 {
                        prev.take(min_nat(5, (count - 1) as nat) as int).push(part@)
                    } else {
                        prev.take(min_nat(5, (count - 1) as nat) as int)
                    });
                    let t1 = iv.take(i + 1);
                    assert(t1[i as int].1 == Some(c@));
                    assert(matched == open_block_matches(t1, lowercase(query@))) by {
                        if hit {
                            assert(item_hits(t1[i as int], lowercase(query@)));
                        }
                        if open_block_matches(t1, lowercase(query@)) && !hit {
                            let j = choose|j: int| 0 <= j < t1.len() && #[trigger] item_hits(t1[j], lowercase(query@));
                            assert(j < i);
                            assert(iv.take(i as int)[j] == t1[j]);
                        }
                        if was {
                            let j = choose|j: int| 0 <= j < iv.take(i as int).len() && #[trigger] item_hits(iv.take(i as int)[j], lowercase(query@));
                            assert(t1[j] == iv.take(i as int)[j]);
                        }
                    }
                }
            },
        }
        i = i + 1;
    }
    proof {
        assert(iv.take(items@.len() as int) == iv);
    }
    let qc = chars_of(query);
    if matched || eq_str(&qc, "*") {
        if count == 0 {
            Some(crate::text::string_from_str("[open block - no items yet]"))
        } else {
            let sep = chars_of("; ");
            let joined = join_parts(&parts, &sep);
            Some(string_of(&joined))
        }
    } else {
        None
    }
}


/// A request for the cache pack of a scope.
pub struct GetPackRequest {
    pub scope_id: String,
    /// The token budget of the pack (600 by default).
    pub token_budget: usize,
    pub query: Option<String>,
    /// Reserved for delta packs.
    pub since_version: Option<u64>,
}

/// How many cache items a write stored and merged.
pub struct WriteItemsResponse {
    pub written: usize,
    pub merged: usize,
}

/// The outcome of writing an item into the block window.
pub struct BlockWriteResponse {
    pub block_id: String,
    pub block_status: String,
    pub token_count: usize,
    pub items_in_block: usize,
    pub new_block_id: Option<String>,
    pub evicted_block: Option<String>,
}

/// A request to close the open block of a scope and open a new one.
pub struct BlockCompactRequest {
    pub scope_id: String,
}

/// The outcome of compacting a scope's block window.
pub struct BlockCompactResponse {
    pub closed_block_id: Option<String>,
    pub new_block_id: String,
    pub summary_generated: bool,
}

/// A search of a scope's blocks.
pub struct BlockSearchRequest {
    pub scope_id: String,
    pub query: String,
    /// How many matches at most (5 by default).
    pub limit: usize,
    /// Whether the open block may match (not by default).
    pub include_open: bool,
}

/// A read of a scope's blocks, as a request body.
pub struct BlockReadRequest {
    pub scope_id: String,
    pub list_all: Option<bool>,
    pub query: Option<String>,
    pub include_content: Option<bool>,
    pub include_open: Option<bool>,
    pub limit: Option<usize>,
    pub block_id: Option<String>,
}

/// A read of a scope's blocks, as query parameters.
pub struct BlockReadQuery {
    pub scope_id: String,
    pub list_all: Option<bool>,
    pub query: Option<String>,
    pub include_content: Option<bool>,
    pub include_open: Option<bool>,
    pub limit: Option<usize>,
    pub block_id: Option<String>,
}

impl BlockReadQuery {
    /// The request these parameters make.
    pub fn into_read_request(self) -> (r: BlockReadRequest)
        ensures
            r.scope_id == self.scope_id,
            r.list_all == self.list_all,
            r.query == self.query,
            r.include_content == self.include_content,
            r.include_open == self.include_open,
            r.limit == self.limit,
            r.block_id == self.block_id,
    {
        BlockReadRequest {
            scope_id: self.scope_id,
            list_all: self.list_all,
            query: self.query,
            include_content: self.include_content,
            include_open: self.include_open,
            limit: self.limit,
            block_id: self.block_id,
        }
    }

    /// The listing request these parameters make: everything listed, no
    /// query and no single block.
    pub fn into_list_request(self) -> (r: BlockReadRequest)
        ensures
            r.scope_id == self.scope_id,
            r.list_all == Some(true),
            r.query is None,
            r.include_content == self.include_content,
            r.include_open == self.include_open,
            r.limit == self.limit,
            r.block_id is None,
    {
        BlockReadRequest {
            scope_id: self.scope_id,
            list_all: Some(true),
            query: None,
            include_content: self.include_content,
            include_open: self.include_open,
            limit: self.limit,
            block_id: None,
        }
    }
}

impl BlockReadRequest {
    /// This request turned into a listing: everything listed, no query and
    /// no single block.
    pub fn into_list_request(self) -> (r: BlockReadRequest)
        ensures
            r.scope_id == self.scope_id,
            r.list_all == Some(true),
            r.query is None,
            r.include_content == self.include_content,
            r.include_open == self.include_open,
            r.limit == self.limit,
            r.block_id is None,
    {
        BlockReadRequest {
            scope_id: self.scope_id,
            list_all: Some(true),
            query: None,
            include_content: self.include_content,
            include_open: self.include_open,
            limit: self.limit,
            block_id: None,
        }
    }
}

/// How a block read is answered.
pub enum BlockReadPlan {
    /// The block with this id.
    ById(String),
    /// A search of the scope's blocks, with their contents when asked.
    Search { query: String, limit: usize, include_open: bool, include_content: bool },
    /// The scope's open block, created when there is none.
    CurrentOpen,
}

/// The plain values of a read plan.
pub enum ReadPlanView {
    ById(Seq<char>),
    Search(Seq<char>, usize, bool, bool),
    CurrentOpen,
}

/// The plain values of a read plan.
pub open spec fn read_plan_view(p: BlockReadPlan) -> ReadPlanView {
    match p {
        BlockReadPlan::ById(id) => ReadPlanView::ById(id@),
        BlockReadPlan::Search { query, limit, include_open, include_content } => ReadPlanView::Search(
            query@,
            limit,
            include_open,
            include_content,
        ),
        BlockReadPlan::CurrentOpen => ReadPlanView::CurrentOpen,
    }
}

/// `o`'s value, or `d`.
pub open spec fn or_default<T>(o: Option<T>, d: T) -> T {
    match o {
        Some(v) => v,
        None => d,
    }
}

/// How a block read is answered: a named block first; else a listing is a
/// search for `*` that includes the open block unless told not to; else a
/// query is a search that leaves the open block out unless told to; else
/// the open block. Searches return 5 matches and no contents unless told
/// otherwise.
pub open spec fn block_read_plan_spec(r: BlockReadRequest) -> ReadPlanView {
    match r.block_id {
        Some(id) => ReadPlanView::ById(id@),
        None => if or_default(r.list_all, false) {
            ReadPlanView::Search(
                "*"@,
                or_default(r.limit, 5usize),
                or_default(r.include_open, true),
                or_default(r.include_content, false),
            )
        } else {
            match r.query {
                Some(q) => ReadPlanView::Search(
                    q@,
                    or_default(r.limit, 5usize),
                    or_default(r.include_open, false),
                    or_default(r.include_content, false),
                ),
                None => ReadPlanView::CurrentOpen,
            }
        },
    }
}

/// Decides how a block read is answered.
pub fn plan_block_read(request: &BlockReadRequest) -> (r: BlockReadPlan)
    ensures
        read_plan_view(r) == block_read_plan_spec(*request),
{
    if let Some(id) = &request.block_id {
        return BlockReadPlan::ById(id.clone());
    }
    let limit: usize = match request.limit {
        Some(l) => l,
        None => default_search_limit(),
    };
    let include_content = match request.include_content {
        Some(b) => b,
        None => false,
    };
    let list_all = match request.list_all {
        Some(b) => b,
        None => false,
    };
    if list_all {
        let include_open = match request.include_open {
            Some(b) => b,
            None => true,
        };
        return BlockReadPlan::Search {
            query: crate::text::string_from_str("*"),
            limit,
            include_open,
            include_content,
        };
    }
    match &request.query {
        Some(q) => {
            let include_open = match request.include_open {
                Some(b) => b,
                None => false,
            };
            BlockReadPlan::Search { query: q.clone(), limit, include_open, include_content }
        },
        None => BlockReadPlan::CurrentOpen,
    }
}

/// The record id of a new block: `cache_block:` and its UUID in backticks.
pub fn new_block_record_id(uuid: &str) -> (r: String)
    ensures
        r@ == "cache_block:`"@ + uuid@ + "`"@,
{
    let mut v = chars_of("cache_block:`");
    append_str(&mut v, uuid);
    append_str(&mut v, "`");
    string_of(&v)
}

/// The statement that creates an empty open block.
pub fn create_block_statement(record_id: &str) -> (r: String)
    ensures
        r@ == "CREATE "@ + record_id@
            + " SET scope_id = $scope_id, sequence = $seq, status = 'open', items = [], token_count = 0, created_at = time::now()"@,
{
    let mut v = chars_of("CREATE ");
    append_str(&mut v, record_id);
    append_str(
        &mut v,
        " SET scope_id = $scope_id, sequence = $seq, status = 'open', items = [], token_count = 0, created_at = time::now()",
    );
    string_of(&v)
}

/// The sequence number of the block a compaction opens: one past the closed
/// block's (a missing sequence counts as 1), or 1 when no block was open.
pub fn compacted_sequence(closed_sequence: Option<Option<u64>>) -> (r: u64)
    requires
        closed_sequence matches Some(Some(s)) ==> s < u64::MAX,
    ensures
        r == match closed_sequence {
            Some(Some(s)) => s + 1,
            Some(None) => 2,
            None => 1,
        },
{
    match closed_sequence {
        Some(Some(s)) => s + 1,
        Some(None) => 2,
        None => 1,
    }
}


/// A token estimate is never negative.
proof fn lemma_tokens_of_all_nonneg(texts: Seq<Seq<char>>)
    ensures
        tokens_of_all(texts) >= 0,
    decreases texts.len(),
{
    if texts.len() > 0 {
        lemma_tokens_of_all_nonneg(texts.drop_last());
    }
}

/// Packing never spends more than it has: what remains of the items'
/// budget stays non-negative, and what was spent plus what remains is what
/// there was at the start.
pub proof fn pack_spends_within_budget(items: Seq<CandidateView>, k: int, init: PackState)
    requires
        init.remaining >= 0,
    ensures
        pack_fold(items, k, init).remaining >= 0,
        pack_fold(items, k, init).token_count + pack_fold(items, k, init).remaining == init.token_count
            + init.remaining,
    decreases k,
{
    if k > 0 {
        pack_spends_within_budget(items, k - 1, init);
        lemma_tokens_of_all_nonneg(items[k - 1].facts);
    }
}

/// The items of a pack never cost more than four fifths of its budget: the
/// pack's token count is at most its summary's estimate plus
/// `budget - budget / 5`.
pub proof fn pack_items_fit_budget(summary: Seq<char>, budget: nat, items: Seq<CandidateView>)
    ensures
        pack_fold(items, items.len() as int, pack_init(summary, budget)).token_count
            <= estimate_tokens_spec(pack_summary(summary, budget)) + budget - budget / 5,
{
    pack_spends_within_budget(items, items.len() as int, pack_init(summary, budget));
}

/// The positions packed into the list of kind `k`.
pub open spec fn kind_list(st: PackState, k: CacheItemKind) -> Seq<int> {
    match k {
        CacheItemKind::Fact => st.facts,
        CacheItemKind::Decision => st.decisions,
        CacheItemKind::Snippet => st.snippets,
        CacheItemKind::Warning => st.warnings,
    }
}

/// What the candidates that fit spend, one after another: a candidate
/// whose estimate is within what remains at its turn spends its estimate.
pub open spec fn spent_on_fits(items: Seq<CandidateView>, n: int, init: PackState) -> int
    decreases n,
{
    if n <= 0 {
        0
    } else {
        spent_on_fits(items, n - 1, init) + if item_cost(items[n - 1]) <= pack_fold(items, n - 1, init).remaining {
            item_cost(items[n - 1])
        } else {
            0
        }
    }
}

/// Packing spends on exactly the candidates that fit: what remains is the
/// items' share less what they spent, and the token count is the summary's
/// estimate plus it.
pub proof fn pack_spends_on_what_fits(items: Seq<CandidateView>, n: int, init: PackState)
    requires
        0 <= n <= items.len(),
    ensures
        pack_fold(items, n, init).remaining == init.remaining - spent_on_fits(items, n, init),
        pack_fold(items, n, init).token_count == init.token_count + spent_on_fits(items, n, init),
    decreases n,
{
    if n > 0 {
        pack_spends_on_what_fits(items, n - 1, init);
    }
}

/// Once packed at its turn, a candidate stays in its list; one not packed
/// never enters a list later.
proof fn lemma_pack_membership_stays(items: Seq<CandidateView>, m: int, init: PackState, i: int, k: CacheItemKind)
    requires
        0 <= i < m <= items.len(),
    ensures
        kind_list(pack_fold(items, m, init), k).contains(i) <==> kind_list(pack_fold(items, i + 1, init), k).contains(i),
    decreases m,
{
    if m > i + 1 {
        lemma_pack_membership_stays(items, m - 1, init, i, k);
        let before = kind_list(pack_fold(items, m - 1, init), k);
        let after = kind_list(pack_fold(items, m, init), k);
        assert(after == before || after == before.push(m - 1));
        if after == before.push(m - 1) {
            if before.contains(i) {
                let j = choose|j: int| 0 <= j < before.len() && before[j] == i;
                assert(after[j] == i);
            }
            if after.contains(i) {
                let j = choose|j: int| 0 <= j < after.len() && after[j] == i;
                assert(j < before.len());
                assert(before[j] == i);
            }
        }
    }
}

/// Every candidate whose estimate fits what remains of the items' budget
/// at its turn is packed, into the list of its own kind, and no other
/// candidate is packed: candidate `i` is in the list of kind `k` exactly
/// when it is of kind `k` and its estimate was at most what remained.
pub proof fn pack_takes_each_candidate_that_fits(
    items: Seq<CandidateView>,
    summary: Seq<char>,
    budget: nat,
    i: int,
    k: CacheItemKind,
)
    requires
        0 <= i < items.len(),
    ensures
        kind_list(pack_fold(items, items.len() as int, pack_init(summary, budget)), k).contains(i) <==> (items[i].kind == k
            && item_cost(items[i]) <= pack_fold(items, i, pack_init(summary, budget)).remaining),
{
    let init = pack_init(summary, budget);
    lemma_pack_membership_stays(items, items.len() as int, init, i, k);
    pack_lists_hold_their_kind(items, i, init);
    let before = kind_list(pack_fold(items, i, init), k);
    let after = kind_list(pack_fold(items, i + 1, init), k);
    match k {
        CacheItemKind::Fact => {},
        CacheItemKind::Decision => {},
        CacheItemKind::Snippet => {},
        CacheItemKind::Warning => {},
    }
    assert(!before.contains(i)) by {
        if before.contains(i) {
            let j = choose|j: int| 0 <= j < before.len() && before[j] == i;
            assert(before[j] < i);
        }
    }
    if items[i].kind == k && item_cost(items[i]) <= pack_fold(items, i, init).remaining {
        assert(after == before.push(i));
        assert(after[before.len() as int] == i);
    } else {
        assert(after == before);
    }
}

/// Candidate `i` fits what remains of the items' budget at its turn.
pub open spec fn fits_at(items: Seq<CandidateView>, i: int, init: PackState) -> bool {
    item_cost(items[i]) <= pack_fold(items, i, init).remaining
}

/// A pack points at exactly the artifacts of the candidates it takes: an
/// artifact is among its pointers when, and only when, one of the first
/// `n` candidates that fit at its turn names it.
pub proof fn pack_points_at_taken_artifacts(items: Seq<CandidateView>, n: int, init: PackState, a: Seq<char>)
    requires
        0 <= n <= items.len(),
        init.pointers.len() == 0,
    ensures
        pack_fold(items, n, init).pointers.contains(a) <==> exists|i: int|
            0 <= i < n && items[i].artifact_id == Some(a) && #[trigger] fits_at(items, i, init),
    decreases n,
{
    if n > 0 {
        pack_points_at_taken_artifacts(items, n - 1, init, a);
        let st = pack_fold(items, n - 1, init);
        let after = pack_fold(items, n, init).pointers;
        let last_names = items[n - 1].artifact_id == Some(a) && fits_at(items, n - 1, init);
        assert(after.contains(a) <==> st.pointers.contains(a) || last_names) by {
            if fits_at(items, n - 1, init) {
                if let Some(b) = items[n - 1].artifact_id {
                    if !st.pointers.contains(b) {
                        assert(after == st.pointers.push(b));
                        assert(after[st.pointers.len() as int] == b);
                        if after.contains(a) && a != b {
                            let j = choose|j: int| 0 <= j < after.len() && after[j] == a;
                            assert(st.pointers[j] == a);
                        }
                        if st.pointers.contains(a) {
                            let j = choose|j: int| 0 <= j < st.pointers.len() && st.pointers[j] == a;
                            assert(after[j] == a);
                        }
                    }
                }
            }
        }
        if last_names {
            assert(fits_at(items, n - 1, init));
        }
        if exists|i: int| 0 <= i < n && items[i].artifact_id == Some(a) && #[trigger] fits_at(items, i, init) {
            let i = choose|i: int| 0 <= i < n && items[i].artifact_id == Some(a) && #[trigger] fits_at(items, i, init);
            if i < n - 1 {
                assert(exists|i: int| 0 <= i < n - 1 && items[i].artifact_id == Some(a) && #[trigger] fits_at(items, i, init));
            }
        }
    }
}

/// A pack names each artifact at most once.
pub proof fn pack_pointers_distinct(items: Seq<CandidateView>, k: int, init: PackState)
    requires
        init.pointers.no_duplicates(),
    ensures
        pack_fold(items, k, init).pointers.no_duplicates(),
    decreases k,
{
    if k > 0 {
        pack_pointers_distinct(items, k - 1, init);
        let st = pack_fold(items, k - 1, init);
        if let Some(a) = items[k - 1].artifact_id {
            if !st.pointers.contains(a) {
                assert forall|i: int, j: int| 0 <= i < j < st.pointers.push(a).len() implies st.pointers.push(a)[i]
                    != st.pointers.push(a)[j] by {
                    if j == st.pointers.len() {
                        assert(st.pointers.contains(st.pointers[i]));
                    }
                }
            }
        }
    }
}

/// Whether `list` holds, in increasing order, positions below `k` of
/// candidates of `kind`.
pub open spec fn positions_of_kind(list: Seq<int>, items: Seq<CandidateView>, kind: CacheItemKind, k: int) -> bool {
    &&& forall|j: int| 0 <= j < list.len() ==> 0 <= #[trigger] list[j] < k && items[list[j]].kind == kind
    &&& forall|a: int, b: int| 0 <= a < b < list.len() ==> list[a] < list[b]
}

/// Taking one more candidate keeps a list of positions in order.
proof fn lemma_positions_step(list: Seq<int>, items: Seq<CandidateView>, kind: CacheItemKind, k: int)
    requires
        positions_of_kind(list, items, kind, k - 1),
        0 < k,
    ensures
        positions_of_kind(list, items, kind, k),
        items[k - 1].kind == kind ==> positions_of_kind(list.push(k - 1), items, kind, k),
{
}

/// Each list of a pack holds, in candidate order, only candidates of its
/// own kind.
pub proof fn pack_lists_hold_their_kind(items: Seq<CandidateView>, k: int, init: PackState)
    requires
        0 <= k,
        init.facts.len() == 0,
        init.decisions.len() == 0,
        init.snippets.len() == 0,
        init.warnings.len() == 0,
    ensures
        positions_of_kind(pack_fold(items, k, init).facts, items, CacheItemKind::Fact, k),
        positions_of_kind(pack_fold(items, k, init).decisions, items, CacheItemKind::Decision, k),
        positions_of_kind(pack_fold(items, k, init).snippets, items, CacheItemKind::Snippet, k),
        positions_of_kind(pack_fold(items, k, init).warnings, items, CacheItemKind::Warning, k),
    decreases k,
{
    if k > 0 {
        pack_lists_hold_their_kind(items, k - 1, init);
        let st = pack_fold(items, k - 1, init);
        lemma_positions_step(st.facts, items, CacheItemKind::Fact, k);
        lemma_positions_step(st.decisions, items, CacheItemKind::Decision, k);
        lemma_positions_step(st.snippets, items, CacheItemKind::Snippet, k);
        lemma_positions_step(st.warnings, items, CacheItemKind::Warning, k);
    }
}

/// A kind's name determines the kind, so parsing the name a kind is stored
/// under gives the kind back.
pub proof fn kind_name_determines_kind(a: CacheItemKind, b: CacheItemKind)
    ensures
        a.name_spec() == b.name_spec() ==> a == b,
{
    reveal_strlit("fact");
    reveal_strlit("decision");
    reveal_strlit("snippet");
    reveal_strlit("warning");
    if a.name_spec() == b.name_spec() && a != b {
        assert(a.name_spec().len() != b.name_spec().len() || a.name_spec()[0] != b.name_spec()[0]);
    }
}

/// Escaping a block id twice changes nothing: an escaped id already holds a
/// backtick.
pub proof fn escape_block_id_idempotent(id: Seq<char>)
    ensures
        escape_block_id_spec(escape_block_id_spec(id)) == escape_block_id_spec(id),
{
    let e = escape_block_id_spec(id);
    if !id.contains('`') {
        reveal_strlit("cache_block:`");
        let raw = if has_prefix(id, "cache_block:"@) {
            id.skip("cache_block:"@.len() as int)
        } else {
            id
        };
        let mid = trim_char(trim_char(raw, '⟨'), '⟩');
        assert(e == "cache_block:`"@ + mid + "`"@);
        assert(e[12] == '`');
    }
}

} // verus!
