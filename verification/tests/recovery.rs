use vm_recovery::ast::{Expr, Program, Stmt};
use vm_recovery::challenge::CloudflareChallengeOptions;
use vm_recovery::webgl::WebGLEntry;

fn st(s: &str) -> Expr {
    Expr::Str(s.to_string())
}

#[test]
fn candidates_come_from_the_target_object() {
    let site_key = "0x4AAAAAABdbdHypG5Crbw0P";
    let target = Expr::Object(vec![
        st(site_key),
        st("challenges.cloudflare.com"),
        Expr::Num(5),
        st("managed"),
    ]);
    let decoy = Expr::Object(vec![st("unrelated"), st("values")]);
    let p = Program { body: vec![Stmt::Expr(decoy), Stmt::Expr(target)] };
    let cands = CloudflareChallengeOptions::collect_candidates(&p);
    assert_eq!(
        cands,
        vec![
            site_key.to_string(),
            "challenges.cloudflare.com".to_string(),
            "managed".to_string(),
        ]
    );
}

#[test]
fn candidate_mapping_classifies_fields() {
    let site_key = "0x4AAAAAABdbdHypG5Crbw0P".to_string();
    let c_ray = "89abcdef01234567".to_string();
    let zone = "challenges.cloudflare.com".to_string();
    let widget = "ab3de".to_string();
    let mode = "managed".to_string();
    let sig = "-1767074958-1.2.1.1-";
    let payload = format!("{}{}{}", "p".repeat(300), sig, "q".repeat(380));
    let ch_long = format!("tokenXYZ{}{}", sig, "f".repeat(572));
    let cands = vec![
        site_key.clone(),
        payload.clone(),
        c_ray.clone(),
        zone.clone(),
        widget.clone(),
        mode.clone(),
        ch_long,
    ];
    let o = CloudflareChallengeOptions::map_candidates(&cands);
    assert_eq!(o.c_arg, payload);
    assert_eq!(o.site_key, site_key);
    assert_eq!(o.c_ray, c_ray);
    assert_eq!(o.zone, zone);
    assert_eq!(o.widget_id, widget);
    assert_eq!(o.api_mode, mode);
    // The signature-matched hash, cut at its first dash.
    assert_eq!(o.ch, "tokenXYZ");
    assert!(o.turnstile_u.is_empty());
}

#[test]
fn candidate_mapping_hash_fallback() {
    // No payload, so no version signature; the hash comes from the loose
    // fallback shape and is cut at its first dash.
    let cands = vec![
        "someHashLikeValue.withDots.and_more_padding_here_yes-123456".to_string(),
    ];
    let o = CloudflareChallengeOptions::map_candidates(&cands);
    assert_eq!(o.c_arg, "");
    assert_eq!(o.ch, "someHashLikeValue.withDots.and_more_padding_here_yes");
}

fn table() -> (Vec<(String, usize)>, Vec<String>) {
    let strings: Vec<String> = [
        "ngp",
        "info",
        "mask0",
        "mv1",
        "getParameter",
        "x",
        "mr4",
        "WEBGL_debug_renderer_info",
        "um8",
        "uv9",
        "UNMASKED_VENDOR_WEBGL",
        "ur11",
        "pre",
        "substring",
        "suf",
        "ck42x",
    ]
    .iter()
    .map(|s| s.to_string())
    .collect();
    let map: Vec<(String, usize)> = strings
        .iter()
        .enumerate()
        .map(|(i, s)| (s.clone(), i))
        .collect();
    (map, strings)
}

#[test]
fn webgl_keys_resolve_at_fixed_offsets() {
    let (map, strings) = table();
    let w = WebGLEntry::parse(&map, &strings).expect("keys should resolve");
    assert_eq!(w.masked_gpu_info_key, "mask0");
    assert_eq!(w.gpu_masked_vendor_key, "mv1");
    assert_eq!(w.gpu_masked_renderer_key, "mr4");
    assert_eq!(w.unmasked_gpu_info_key, "um8");
    assert_eq!(w.gpu_unmasked_vendor_key, "uv9");
    assert_eq!(w.gpu_unmasked_renderer_key, "ur11");
    assert_eq!(w.prefix_key, "pre");
    assert_eq!(w.suffix_key, "suf");
    assert_eq!(w.no_navigator_gpu_data_key, "ngp");
    assert_eq!(w.encrypted_content_key, "ck42x");
}

#[test]
fn webgl_missing_anchor_yields_nothing() {
    let (mut map, strings) = table();
    map.retain(|p| p.0 != "getParameter");
    assert_eq!(WebGLEntry::parse(&map, &strings), None);
}

#[test]
fn orchestrate_hash_from_direct_assignment() {
    let text = "prelude; window._cf_chl_opt.cH = 'abcdefghij0123456789XY'; rest";
    let (ch, url) = CloudflareChallengeOptions::extract_from_orchestrate(text);
    assert_eq!(ch, "abcdefghij0123456789XY");
    assert_eq!(url, "");
}

#[test]
fn orchestrate_hash_from_flow_address() {
    let text = "fetch('/flow/ov1abc/0123456789abcdef/tokentokentokentoken1')";
    let (ch, url) = CloudflareChallengeOptions::extract_from_orchestrate(text);
    assert_eq!(ch, "tokentokentokentoken1");
    assert_eq!(url, "");
}

#[test]
fn orchestrate_url_field_when_no_flow_matches() {
    let text = "config = { 'url': 'https://example.test/next' }";
    let (ch, url) = CloudflareChallengeOptions::extract_from_orchestrate(text);
    assert_eq!(ch, "");
    assert_eq!(url, "https://example.test/next");
}

#[test]
fn script_span_brackets_the_marker_script() {
    let html = "<head><script>var _cf_chl_opt = {a:1};</script></head>";
    let (start, end) = CloudflareChallengeOptions::script_span(html).expect("marker present");
    let inner: String = html.chars().skip(start).take(end - start).collect();
    assert_eq!(inner, "var _cf_chl_opt = {a:1};");
    assert_eq!(CloudflareChallengeOptions::script_span("<p>no marker</p>"), None);
}

#[test]
fn regex_fallback_finds_hash_and_payload() {
    let payload: String = "A".repeat(520);
    let html = format!(
        "<script>x = '.dotHash_0123456789abcdef0123456789'; y = '{}';</script>",
        payload
    );
    let o = CloudflareChallengeOptions::parse_with_regex(&html);
    assert_eq!(o.ch, ".dotHash_0123456789abcdef0123456789");
    assert_eq!(o.c_arg, payload);
    assert!(o.site_key.is_empty());
}

#[test]
fn solve_url_hash_segment() {
    let url = "https://host/cdn-cgi/x/ch/abcdefghijklmnopqrst/rest";
    assert_eq!(
        CloudflareChallengeOptions::extract_or_generate_ch(url),
        Some("abcdefghijklmnopqrst".to_string())
    );
    assert_eq!(CloudflareChallengeOptions::extract_or_generate_ch("https://host/none"), None);
}

#[test]
fn page_options_fall_back_when_incomplete() {
    let payload: String = "B".repeat(510);
    let html = format!("<script>h = '.fallbackHash_abcdefghij0123456789'; p = '{}';</script>", payload);
    // Complete tree-derived options stand.
    let mut complete = CloudflareChallengeOptions::default();
    complete.site_key = "0x4AAAAAABdbdHypG5Crbw0P".to_string();
    complete.c_arg = "c".repeat(120);
    let kept = CloudflareChallengeOptions::resolve_page_options(Some(complete.clone()), &html);
    assert_eq!(kept, complete);
    // Incomplete ones yield the document fallback.
    let mut incomplete = CloudflareChallengeOptions::default();
    incomplete.c_arg = "c".repeat(120);
    let fell = CloudflareChallengeOptions::resolve_page_options(Some(incomplete), &html);
    assert_eq!(fell.ch, ".fallbackHash_abcdefghij0123456789");
    assert_eq!(fell.c_arg, payload);
    let none = CloudflareChallengeOptions::resolve_page_options(None, &html);
    assert_eq!(none.c_arg, payload);
}
