use std::io::Write;
use vm_recovery::challenge::CloudflareChallengeOptions;
use vm_recovery::encoding::{decompress_body, DecompressError};
use vm_recovery::solver::{generate_solve_url, generate_widget_id, SolverError, TurnstileSolver};

#[test]
fn gzip_round_trip() {
    let original = b"an instruction stream compressed for transfer".to_vec();
    let mut enc = flate2::write::GzEncoder::new(Vec::new(), flate2::Compression::default());
    enc.write_all(&original).unwrap();
    let packed = enc.finish().unwrap();
    assert_eq!(decompress_body(&packed, "gzip"), Ok(original));
}

#[test]
fn deflate_round_trip_ignores_case() {
    let original = b"zlib framed body".to_vec();
    let mut enc = flate2::write::ZlibEncoder::new(Vec::new(), flate2::Compression::default());
    enc.write_all(&original).unwrap();
    let packed = enc.finish().unwrap();
    assert_eq!(decompress_body(&packed, "DeFlAtE"), Ok(original));
}

#[test]
fn brotli_round_trip() {
    let original = b"brotli framed body with some length to it".to_vec();
    let mut packed = Vec::new();
    {
        let mut enc = brotli::CompressorWriter::new(&mut packed, 4096, 5, 22);
        enc.write_all(&original).unwrap();
    }
    assert_eq!(decompress_body(&packed, "br"), Ok(original));
}

#[test]
fn zstd_round_trip() {
    let original = b"zstd framed body".to_vec();
    let packed = zstd::encode_all(&original[..], 3).unwrap();
    assert_eq!(decompress_body(&packed, "zstd"), Ok(original));
}

#[test]
fn identity_and_empty_encodings_pass_through() {
    let body = b"plain".to_vec();
    assert_eq!(decompress_body(&body, ""), Ok(body.clone()));
    assert_eq!(decompress_body(&body, "identity"), Ok(body));
}

#[test]
fn unknown_encoding_is_unsupported() {
    assert_eq!(decompress_body(b"x", "snappy"), Err(DecompressError::Unsupported));
}

#[test]
fn corrupt_gzip_fails() {
    assert_eq!(
        decompress_body(b"definitely not a gzip stream", "gzip"),
        Err(DecompressError::Failed)
    );
}

#[test]
fn widget_id_shape() {
    let mut seen = Vec::new();
    for _ in 0..32 {
        let w = generate_widget_id();
        assert_eq!(w.len(), 5);
        assert!(w.chars().all(|c| c.is_ascii_lowercase() || c.is_ascii_digit()));
        seen.extend(w.chars());
    }
    // A draw stuck on one alphabet position would repeat one character.
    let first = seen[0];
    assert!(seen.iter().any(|c| *c != first));
}

#[test]
fn solve_url_shape() {
    let url = generate_solve_url("b", "1x00000000000000000000AA");
    let prefix = "https://challenges.cloudflare.com/cdn-cgi/challenge-platform/h/b/turnstile/f/ov2/av0/rch/";
    assert!(url.starts_with(prefix));
    let rest = &url[prefix.len()..];
    let widget = &rest[..5];
    assert!(widget.chars().all(|c| c.is_ascii_lowercase() || c.is_ascii_digit()));
    assert_eq!(
        &rest[5..],
        "/1x00000000000000000000AA/auto/fbE/new/normal?lang=auto"
    );
}

#[test]
fn turnstile_marker_detection() {
    let with = "<script>window.chlTimeoutMs = 30000;</script>";
    let without = "<script>nothing of note</script>";
    assert_eq!(CloudflareChallengeOptions::extract_turnstile_u(with), Some(String::new()));
    assert_eq!(CloudflareChallengeOptions::extract_turnstile_u(without), None);
}

#[test]
fn default_options_are_empty() {
    let o = CloudflareChallengeOptions::default();
    assert!(o.site_key.is_empty());
    assert!(o.c_arg.is_empty());
    assert!(o.ch.is_empty());
    assert!(o.turnstile_u.is_empty());
}

#[test]
fn solver_needs_a_fingerprint_pool() {
    assert_eq!(TurnstileSolver::new(Vec::new()).err(), Some(SolverError::NoFingerprints));
    let pool = vec!["fp-one".to_string(), "fp-two".to_string()];
    let solver = TurnstileSolver::new(pool.clone()).expect("non-empty pool");
    for _ in 0..8 {
        let fp = solver.get_fingerprint();
        assert!(pool.contains(fp));
    }
}
