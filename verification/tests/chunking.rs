use amp::chunking::ChunkingService;
use sha2::{Digest, Sha256};

fn sha_hex(s: &str) -> String {
    let mut h = Sha256::new();
    h.update(s.as_bytes());
    hex::encode(h.finalize())
}

#[test]
fn token_estimate_is_words_times_one_point_three() {
    let svc = ChunkingService::new();
    assert_eq!(svc.estimate_token_count(""), 0);
    assert_eq!(svc.estimate_token_count("a b c"), 3);
    assert_eq!(svc.estimate_token_count("one two three four five six seven eight nine ten"), 13);
    assert_eq!(svc.estimate_token_count("  spaced\n\tout  "), 2);
}

#[test]
fn empty_content_has_no_chunks() {
    let svc = ChunkingService::new();
    assert!(svc.chunk_file("", "rust").is_empty());
}

#[test]
fn small_content_is_one_chunk() {
    let svc = ChunkingService::new();
    let content = "fn main() {\n    println!(\"hi\");\n}\n";
    let chunks = svc.chunk_file(content, "rust");
    assert_eq!(chunks.len(), 1);
    assert_eq!(chunks[0].content, content);
    assert_eq!(chunks[0].start_line, 1);
    assert_eq!(chunks[0].end_line, 3);
    assert_eq!(chunks[0].token_count, 6);
    assert_eq!(chunks[0].hash, sha_hex(content));
}

#[test]
fn large_content_is_cut_into_overlapping_windows() {
    let svc = ChunkingService::with_settings(4, 1);
    let content = "a b c d e f g";
    let chunks = svc.chunk_file(content, "text");
    assert_eq!(chunks.len(), 2);
    assert_eq!(chunks[0].content, "a b c d");
    assert_eq!(chunks[1].content, "d e f g");
    assert_eq!(chunks[0].token_count, 4);
    assert_eq!(chunks[1].token_count, 4);
    assert_eq!(chunks[0].hash, sha_hex("a b c d"));
    assert_eq!(chunks[1].hash, sha_hex("d e f g"));
    assert_eq!(chunks[0].start_line, 1);
    assert_eq!(chunks[1].end_line, 1);
}

#[test]
fn windows_follow_lines() {
    let svc = ChunkingService::with_settings(2, 0);
    let content = "aa bb\ncc dd\nee";
    let chunks = svc.chunk_file(content, "text");
    assert_eq!(chunks.len(), 3);
    assert_eq!(chunks[0].content, "aa bb");
    assert_eq!(chunks[1].content, "cc dd");
    assert_eq!(chunks[2].content, "ee");
    assert_eq!((chunks[0].start_line, chunks[0].end_line), (1, 1));
    assert_eq!((chunks[1].start_line, chunks[1].end_line), (1, 2));
    assert_eq!((chunks[2].start_line, chunks[2].end_line), (2, 3));
    assert_eq!(chunks[2].token_count, 1);
}
