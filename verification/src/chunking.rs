//! Splits file content into overlapping word windows for embedding.
use vstd::prelude::*;
use vstd::utf8::{encode_utf8, is_char_boundary};

use crate::digest::{sha256_hex, sha256_hex_of};
use crate::text::{
    chars_of, count_lines, join_range_spaced, join_spaced, line_count, split_whitespace, string_of,
    views, words,
};

verus! {

/// One chunk of a file: its text, the line range it came from, its size in
/// words and the hex SHA-256 of its text.
#[derive(Debug)]
pub struct ChunkData {
    pub content: String,
    pub start_line: u32,
    pub end_line: u32,
    pub token_count: u32,
    pub hash: String,
}

/// The plain values a chunk holds.
pub struct ChunkView {
    pub content: Seq<char>,
    pub start_line: u32,
    pub end_line: u32,
    pub token_count: u32,
    pub hash: Seq<char>,
}

impl View for ChunkData {
    type V = ChunkView;

    open spec fn view(&self) -> ChunkView {
        ChunkView {
            content: self.content@,
            start_line: self.start_line,
            end_line: self.end_line,
            token_count: self.token_count,
            hash: self.hash@,
        }
    }
}

impl Clone for ChunkData {
    fn clone(&self) -> (r: Self)
        ensures
            r@ == self@,
    {
        ChunkData {
            content: self.content.clone(),
            start_line: self.start_line,
            end_line: self.end_line,
            token_count: self.token_count,
            hash: self.hash.clone(),
        }
    }
}

/// Splits text into windows of `chunk_size` words, consecutive windows
/// sharing `overlap_size` words.
pub struct ChunkingService {
    chunk_size: usize,
    overlap_size: usize,
}

/// The number of UTF-8 bytes of a word.
pub open spec fn token_bytes(t: Seq<char>) -> nat {
    encode_utf8(t).len()
}

/// The byte position estimated for word `k`: each earlier word counts its
/// bytes plus one separator.
pub open spec fn token_offset(ws: Seq<Seq<char>>, k: int) -> nat
    decreases k,
{
    if k <= 0 {
        0
    } else {
        token_offset(ws, k - 1) + token_bytes(ws[k - 1]) + 1
    }
}

pub proof fn lemma_token_offset_mono(ws: Seq<Seq<char>>, j: int, k: int)
    requires
        0 <= j <= k,
    ensures
        token_offset(ws, j) <= token_offset(ws, k),
    decreases k - j,
{
    if j < k {
        lemma_token_offset_mono(ws, j, k - 1);
    }
}

pub open spec fn min_int(a: int, b: int) -> int {
    if a < b {
        a
    } else {
        b
    }
}

/// The word windows `[start, end)` the chunker walks through, from `start`
/// on, over `n` words with window `c` and overlap `o`.
pub open spec fn spans_from(start: int, n: int, c: int, o: int) -> Seq<(int, int)>
    decreases n - start,
{
    if start < 0 || start >= n {
        Seq::empty()
    } else if c <= o || o < 0 || min_int(start + c, n) >= n {
        seq![(start, min_int(start + c, n))]
    } else {
        let e = start + c;
        seq![(start, e)] + spans_from(e - o, n, c, o)
    }
}

/// The line (counted from 1) that byte position `pos` falls on, as the
/// line estimate computes it: the number of lines of the text up to
/// `pos` (clamped to the text's length), and at least 1.
pub open spec fn line_at(bytes: Seq<u8>, pos: int) -> u32 {
    let lc = line_count(bytes.take(min_int(pos, bytes.len() as int)));
    (if lc == 0 {
        1
    } else {
        lc
    }) as u32
}

/// Whether the byte position that word `k` is estimated to start at
/// (clamped to the text's length) is a character boundary of the text.
pub open spec fn offset_on_boundary(bytes: Seq<u8>, ws: Seq<Seq<char>>, k: int) -> bool {
    is_char_boundary(bytes, min_int(token_offset(ws, k) as int, bytes.len() as int))
}

/// The chunk for the word window `[s, e)` of `content`.
pub open spec fn chunk_for(content: Seq<char>, s: int, e: int) -> ChunkView {
    let ws = words(content);
    let bytes = encode_utf8(content);
    let text = join_spaced(ws.subrange(s, e));
    ChunkView {
        content: text,
        start_line: line_at(bytes, token_offset(ws, s) as int),
        end_line: line_at(bytes, token_offset(ws, e) as int),
        token_count: (e - s) as u32,
        hash: sha256_hex(text),
    }
}

/// The estimated token count of text with `n` words: `n * 13 / 10`.
pub open spec fn estimated_tokens(n: nat) -> nat {
    n * 13 / 10
}

/// What chunking `content` yields: nothing for empty text; the whole text
/// as one chunk when its estimated token count fits the window; else one
/// chunk per word window.
pub open spec fn chunks_of(content: Seq<char>, c: nat, o: nat) -> Seq<ChunkView> {
    let ws = words(content);
    let total = estimated_tokens(ws.len());
    if content.len() == 0 {
        Seq::empty()
    } else if total <= c {
        seq![
            ChunkView {
                content: content,
                start_line: 1,
                end_line: line_count(encode_utf8(content)) as u32,
                token_count: total as u32,
                hash: sha256_hex(content),
            },
        ]
    } else {
        chunks_for_spans(content, spans_from(0, ws.len() as int, c as int, o as int))
    }
}

/// The chunks for a sequence of word windows of `content`.
pub open spec fn chunks_for_spans(content: Seq<char>, spans: Seq<(int, int)>) -> Seq<ChunkView> {
    spans.map_values(|sp: (int, int)| chunk_for(content, sp.0, sp.1))
}

/// The inputs on which chunking runs to completion without a panic: the
/// window must move forward, and every estimated byte position that is
/// cut at must be a character boundary.
pub open spec fn chunkable(content: Seq<char>, c: nat, o: nat) -> bool {
    let ws = words(content);
    let bytes = encode_utf8(content);
    &&& ws.len() * 13 <= usize::MAX
    &&& token_offset(ws, ws.len() as int) <= usize::MAX
    &&& (estimated_tokens(ws.len()) <= c || content.len() == 0) || ((ws.len() <= c || o < c)
        && forall|i: int|
        0 <= i < spans_from(0, ws.len() as int, c as int, o as int).len() ==> {
            let sp = #[trigger] spans_from(0, ws.len() as int, c as int, o as int)[i];
            offset_on_boundary(bytes, ws, sp.0) && offset_on_boundary(bytes, ws, sp.1)
        })
}

impl ChunkingService {
    pub closed spec fn chunk_size_spec(self) -> nat {
        self.chunk_size as nat
    }

    pub closed spec fn overlap_size_spec(self) -> nat {
        self.overlap_size as nat
    }

    /// Windows of 500 words with an overlap of 100.
    pub fn new() -> (r: Self)
        ensures
            r.chunk_size_spec() == 500,
            r.overlap_size_spec() == 100,
    {
        ChunkingService { chunk_size: 500, overlap_size: 100 }
    }

    pub fn with_settings(chunk_size: usize, overlap_size: usize) -> (r: Self)
        ensures
            r.chunk_size_spec() == chunk_size,
            r.overlap_size_spec() == overlap_size,
    {
        ChunkingService { chunk_size, overlap_size }
    }

    /// Estimated tokens of `text`: its word count times 1.3, rounded down.
    pub fn estimate_token_count(&self, text: &str) -> (r: usize)
        requires
            words(text@).len() * 13 <= usize::MAX,
        ensures
            r == estimated_tokens(words(text@).len()),
    {
        let cs = chars_of(text);
        let ws = split_whitespace(&cs);
        proof {
            assert(views(ws@).len() == ws@.len());
        }
        ws.len() * 13 / 10
    }

    /// The hex SHA-256 of `content`.
    fn compute_hash(&self, content: &str) -> (r: String)
        ensures
            r@ == sha256_hex(content@),
    {
        sha256_hex_of(content)
    }

    /// The lines that words `start_token` and `end_token` are estimated to
    /// fall on.
    fn estimate_line_range(
        &self,
        content: &str,
        start_token: usize,
        end_token: usize,
        tokens: &Vec<Vec<char>>,
    ) -> (r: (u32, u32))
        requires
            start_token <= end_token <= tokens@.len(),
            token_offset(views(tokens@), end_token as int) <= usize::MAX,
            offset_on_boundary(encode_utf8(content@), views(tokens@), start_token as int),
            offset_on_boundary(encode_utf8(content@), views(tokens@), end_token as int),
        ensures
            r.0 == line_at(encode_utf8(content@), token_offset(views(tokens@), start_token as int)
                as int),
            r.1 == line_at(encode_utf8(content@), token_offset(views(tokens@), end_token as int)
                as int),
    {
        let ghost ws = views(tokens@);
        let mut start_pos: usize = 0;
        let mut end_pos: usize = 0;
        let mut k: usize = 0;
        while k < end_token
            invariant
                start_token <= end_token <= tokens@.len(),
                ws == views(tokens@),
                token_offset(ws, end_token as int) <= usize::MAX,
                k <= end_token,
                end_pos == token_offset(ws, k as int),
                start_pos == token_offset(ws, min_int(k as int, start_token as int)),
            decreases end_token - k,
        {
            let tok = string_of(&tokens[k]);
            let blen = tok.as_str().len();
            proof {
                lemma_token_offset_mono(ws, k + 1, end_token as int);
                assert(ws[k as int] == tokens@[k as int]@);
                assert(blen == token_bytes(ws[k as int]));
            }
            end_pos = end_pos + blen + 1;
            if k < start_token {
                start_pos = start_pos + blen + 1;
            }
            k = k + 1;
        }
        let bytes = content.as_bytes();
        let sp = if start_pos < bytes.len() {
            start_pos
        } else {
            bytes.len()
        };
        let ep = if end_pos < bytes.len() {
            end_pos
        } else {
            bytes.len()
        };
        let sl = count_lines(bytes, sp);
        let el = count_lines(bytes, ep);
        let start_line = if sl == 0 {
            1
        } else {
            sl
        };
        let end_line = if el == 0 {
            1
        } else {
            el
        };
        (start_line as u32, end_line as u32)
    }

    /// Splits `content` into chunks (see `chunks_of`); the language is not used.
    #[verifier::rlimit(40)]
    pub fn chunk_file(&self, content: &str, _language: &str) -> (r: Vec<ChunkData>)
        requires
            chunkable(content@, self.chunk_size_spec(), self.overlap_size_spec()),
        ensures
            r@.map_values(|ch: ChunkData| ch@) == chunks_of(
                content@,
                self.chunk_size_spec(),
                self.overlap_size_spec(),
            ),
    {
        let cs = chars_of(content);
        if cs.len() == 0 {
            let r: Vec<ChunkData> = Vec::new();
            proof {
                assert(r@.map_values(|ch: ChunkData| ch@) == Seq::<ChunkView>::empty());
            }
            return r;
        }
        let tokens = split_whitespace(&cs);
        let ghost ws = views(tokens@);
        let n = tokens.len();
        assert(ws.len() == n);
        let total_tokens = n * 13 / 10;
        if total_tokens <= self.chunk_size {
            let bytes = content.as_bytes();
            let lines = count_lines(bytes, bytes.len());
            proof {
                assert(bytes@.take(bytes@.len() as int) == bytes@);
            }
            let chunk = ChunkData {
                content: string_of(&cs),
                start_line: 1,
                end_line: lines as u32,
                token_count: total_tokens as u32,
                hash: self.compute_hash(content),
            };
            let mut r: Vec<ChunkData> = Vec::new();
            r.push(chunk);
            proof {
                assert(r@.map_values(|ch: ChunkData| ch@) == chunks_of(
                    content@,
                    self.chunk_size_spec(),
                    self.overlap_size_spec(),
                ));
            }
            return r;
        }
        let c = self.chunk_size;
        let o = self.overlap_size;
        let ghost all = spans_from(0, n as int, c as int, o as int);
        let mut chunks: Vec<ChunkData> = Vec::new();
        let mut start: usize = 0;
        let ghost mut done: int = 0;
        proof {
            lemma_token_offset_mono(ws, 0, n as int);
        }
        loop
            invariant_except_break
                0 <= start < n,
                0 <= done < all.len(),
                all[done] == (start as int, min_int(start as int + c as int, n as int)),
                spans_from(start as int, n as int, c as int, o as int) == all.subrange(
                    done,
                    all.len() as int,
                ),
            invariant
                n == tokens@.len(),
                ws == views(tokens@),
                ws == words(content@),
                n * 13 <= usize::MAX,
                total_tokens == n * 13 / 10,
                total_tokens > c,
                all == spans_from(0, n as int, c as int, o as int),
                chunkable(content@, c as nat, o as nat),
                token_offset(ws, n as int) <= usize::MAX,
                chunks@.map_values(|ch: ChunkData| ch@) == chunks_for_spans(content@, all.take(done)),
            ensures
                chunks@.map_values(|ch: ChunkData| ch@) == chunks_for_spans(content@, all),
            decreases n - start,
        {
            let end = if start + c < n {
                start + c
            } else {
                n
            };
            let text = join_range_spaced(&tokens, start, end);
            let text_string = string_of(&text);
            proof {
                assert(all[done] == (start as int, end as int));
                assert(0 <= done < all.len());
                let sp = all[done];
                assert(offset_on_boundary(encode_utf8(content@), ws, sp.0));
                assert(offset_on_boundary(encode_utf8(content@), ws, sp.1));
                lemma_token_offset_mono(ws, end as int, n as int);
            }
            let (start_line, end_line) = self.estimate_line_range(content, start, end, &tokens);
            let hash = self.compute_hash(text_string.as_str());
            let chunk = ChunkData {
                content: text_string,
                start_line,
                end_line,
                token_count: (end - start) as u32,
                hash,
            };
            let ghost old_views = chunks@.map_values(|ch: ChunkData| ch@);
            chunks.push(chunk);
            proof {
                let want = chunk_for(content@, start as int, end as int);
                assert(chunk@.content == want.content);
                assert(chunk@.start_line == want.start_line);
                assert(chunk@.end_line == want.end_line);
                assert(chunk@.token_count == want.token_count);
                assert(chunk@.hash == want.hash);
                assert(chunk@ == want);
                assert(chunks@.map_values(|ch: ChunkData| ch@) == old_views.push(chunk@));
                assert(all.take(done + 1) == all.take(done).push(all[done]));
                assert(chunks_for_spans(content@, all.take(done + 1)) == chunks_for_spans(
                    content@,
                    all.take(done),
                ).push(want));
            }
            if end < n {
                proof {
                    assert(o < c);
                    let rest = spans_from((end - o) as int, n as int, c as int, o as int);
                    assert(spans_from(start as int, n as int, c as int, o as int) == seq![
                        (start as int, end as int),
                    ] + rest);
                    assert(all.subrange(done, all.len() as int).drop_first() == all.subrange(
                        done + 1,
                        all.len() as int,
                    ));
                    assert((seq![(start as int, end as int)] + rest).drop_first() == rest);
                    assert(rest == all.subrange(done + 1, all.len() as int));
                    assert(rest.len() > 0);
                    assert(rest[0] == all[done + 1]);
                }
                start = end - o;
                proof {
                    done = done + 1;
                }
            } else {
                proof {
                    assert(spans_from(start as int, n as int, c as int, o as int) == seq![
                        (start as int, end as int),
                    ]);
                    assert(all.subrange(done, all.len() as int).len() == 1);
                    assert(done + 1 == all.len());
                    assert(all.take(done + 1) == all);
                    done = done + 1;
                }
                break;
            }
        }
        proof {
            assert(chunks@.map_values(|ch: ChunkData| ch@) == chunks_of(
                content@,
                self.chunk_size_spec(),
                self.overlap_size_spec(),
            ));
        }
        chunks
    }
}

impl Default for ChunkingService {
    fn default() -> (r: Self)
        ensures
            r.chunk_size_spec() == 500,
            r.overlap_size_spec() == 100,
    {
        Self::new()
    }
}


/// The word windows from `start` on: the first starts at `start`, the last
/// ends at `n`, each window but the last holds `c` words, and each window
/// after the first starts `o` words before the end of the one before it.
proof fn lemma_spans_from(start: int, n: int, c: int, o: int)
    requires
        0 <= start < n,
        0 <= o < c,
    ensures
        ({
            let s = spans_from(start, n, c, o);
            &&& s.len() > 0
            &&& s[0].0 == start
            &&& s[s.len() - 1].1 == n
            &&& forall|i: int| 0 <= i < s.len() ==> #[trigger] s[i].0 < s[i].1 <= n
            &&& forall|i: int| 0 <= i < s.len() - 1 ==> #[trigger] s[i].1 - s[i].0 == c && s[i + 1].0 == s[i].1 - o
        }),
    decreases n - start,
{
    if min_int(start + c, n) >= n {
    } else {
        let e = start + c;
        lemma_spans_from(e - o, n, c, o);
        let rest = spans_from(e - o, n, c, o);
        let s = spans_from(start, n, c, o);
        assert(s == seq![(start, e)] + rest);
        assert forall|i: int| 0 <= i < s.len() implies #[trigger] s[i].0 < s[i].1 <= n by {
            if i > 0 {
                assert(s[i] == rest[i - 1]);
            }
        }
        assert forall|i: int| 0 <= i < s.len() - 1 implies #[trigger] s[i].1 - s[i].0 == c && s[i + 1].0 == s[i].1 - o by {
            if i > 0 {
                assert(s[i] == rest[i - 1]);
                assert(s[i + 1] == rest[i]);
            }
        }
    }
}

/// The chunk windows of `n` words cover them all: the first window starts
/// at word 0, the last ends at word `n`, every window but the last holds
/// `c` words, and consecutive windows share `o` words.
pub proof fn chunk_windows_cover_all_words(n: int, c: int, o: int)
    requires
        n > 0,
        0 <= o < c,
    ensures
        ({
            let s = spans_from(0, n, c, o);
            &&& s.len() > 0
            &&& s[0].0 == 0
            &&& s[s.len() - 1].1 == n
            &&& forall|i: int| 0 <= i < s.len() ==> #[trigger] s[i].0 < s[i].1 <= n
            &&& forall|i: int| 0 <= i < s.len() - 1 ==> #[trigger] s[i].1 - s[i].0 == c && s[i + 1].0 == s[i].1 - o
        }),
{
    lemma_spans_from(0, n, c, o);
}

} // verus!
