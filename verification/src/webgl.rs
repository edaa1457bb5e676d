//! Recovering the graphics-fingerprint entry's obfuscated keys.
//!
//! The entry's keys sit in the interpreter's string table at small fixed
//! offsets from stable anchor strings. The encrypted-content key has no
//! anchor of its own: it is the first short unknown string in a window
//! around the unmasked-info anchor, and failing that, the first five- or
//! six-character unknown string anywhere. Writing the entry itself belongs
//! to an outside collaborator.

use vstd::prelude::*;
use vstd::string::StrSliceExecFns;
use crate::smap::{lemma_get_absent, lemma_get_present, spec_get};
use crate::strutil::str_eq;

verus! {

/// The keys the graphics entry is written under.
#[derive(Debug, Clone, PartialEq, Eq)]
pub struct WebGLEntry {
    pub masked_gpu_info_key: String,
    pub gpu_masked_vendor_key: String,
    pub gpu_masked_renderer_key: String,
    pub unmasked_gpu_info_key: String,
    pub gpu_unmasked_vendor_key: String,
    pub gpu_unmasked_renderer_key: String,
    pub no_navigator_gpu_data_key: String,
    pub prefix_key: String,
    pub suffix_key: String,
    pub encrypted_content_key: String,
}

/// The keys, at the level of views.
#[verifier::ext_equal]
pub struct WebGLView {
    pub masked_gpu_info_key: Seq<char>,
    pub gpu_masked_vendor_key: Seq<char>,
    pub gpu_masked_renderer_key: Seq<char>,
    pub unmasked_gpu_info_key: Seq<char>,
    pub gpu_unmasked_vendor_key: Seq<char>,
    pub gpu_unmasked_renderer_key: Seq<char>,
    pub no_navigator_gpu_data_key: Seq<char>,
    pub prefix_key: Seq<char>,
    pub suffix_key: Seq<char>,
    pub encrypted_content_key: Seq<char>,
}

/// The view of one entry.
pub open spec fn webgl_view(w: WebGLEntry) -> WebGLView {
    WebGLView {
        masked_gpu_info_key: w.masked_gpu_info_key@,
        gpu_masked_vendor_key: w.gpu_masked_vendor_key@,
        gpu_masked_renderer_key: w.gpu_masked_renderer_key@,
        unmasked_gpu_info_key: w.unmasked_gpu_info_key@,
        gpu_unmasked_vendor_key: w.gpu_unmasked_vendor_key@,
        gpu_unmasked_renderer_key: w.gpu_unmasked_renderer_key@,
        no_navigator_gpu_data_key: w.no_navigator_gpu_data_key@,
        prefix_key: w.prefix_key@,
        suffix_key: w.suffix_key@,
        encrypted_content_key: w.encrypted_content_key@,
    }
}

/// The string at a fixed offset from a key's table position.
pub open spec fn spec_at_offset(
    mapv: Seq<(Seq<char>, usize)>,
    stringsv: Seq<Seq<char>>,
    key: Seq<char>,
    off: int,
) -> Option<Seq<char>> {
    match spec_get(mapv, key) {
        Some(i) => if 0 <= i + off < stringsv.len() {
            Some(stringsv[i + off])
        } else {
            None
        },
        None => None,
    }
}

/// Whether a candidate equals a resolved key or an anchor literal.
pub open spec fn spec_is_known(c: Seq<char>, w: WebGLView) -> bool {
    ||| c == w.masked_gpu_info_key
    ||| c == w.gpu_masked_vendor_key
    ||| c == w.gpu_masked_renderer_key
    ||| c == w.unmasked_gpu_info_key
    ||| c == w.gpu_unmasked_vendor_key
    ||| c == w.gpu_unmasked_renderer_key
    ||| c == w.prefix_key
    ||| c == w.suffix_key
    ||| c == w.no_navigator_gpu_data_key
    ||| c == "getParameter"@
    ||| c == "WEBGL_debug_renderer_info"@
    ||| c == "UNMASKED_VENDOR_WEBGL"@
}

/// First short unknown string in `[i, hi)`.
pub open spec fn spec_cluster_find(
    stringsv: Seq<Seq<char>>,
    i: int,
    hi: int,
    w: WebGLView,
) -> Option<Seq<char>>
    decreases hi - i,
{
    if i < 0 || i >= hi || i >= stringsv.len() {
        None
    } else {
        let c = stringsv[i];
        if 2 <= c.len() <= 6 && !spec_is_known(c, w) {
            Some(c)
        } else {
            spec_cluster_find(stringsv, i + 1, hi, w)
        }
    }
}

/// First five- or six-character unknown string from `i` on.
pub open spec fn spec_global_find(stringsv: Seq<Seq<char>>, i: int, w: WebGLView) -> Option<
    Seq<char>,
>
    decreases stringsv.len() - i,
{
    if i < 0 || i >= stringsv.len() {
        None
    } else {
        let c = stringsv[i];
        if (c.len() == 5 || c.len() == 6) && !spec_is_known(c, w) {
            Some(c)
        } else {
            spec_global_find(stringsv, i + 1, w)
        }
    }
}

/// Looks up a key's table position, first match.
fn map_lookup(map: &Vec<(String, usize)>, key: &str) -> (r: Option<usize>)
    ensures
        r == spec_get(map@.map_values(|p: (String, usize)| (p.0@, p.1)), key@),
{
    let ghost mv = map@.map_values(|p: (String, usize)| (p.0@, p.1));
    let n = map.len();
    let mut i: usize = 0;
    while i < n
        invariant
            i <= n,
            n == map@.len(),
            mv == map@.map_values(|p: (String, usize)| (p.0@, p.1)),
            forall|j: int| 0 <= j < i ==> (#[trigger] mv[j]).0 != key@,
        decreases n - i,
    {
        if str_eq(map[i].0.as_str(), key) {
            proof {
                assert(mv[i as int].0 == key@);
                lemma_get_present(mv, key@, i as int);
            }
            return Some(map[i].1);
        }
        proof {
            assert(mv[i as int].0 == map@[i as int].0@);
        }
        i = i + 1;
    }
    proof {
        lemma_get_absent(mv, key@);
    }
    None
}

/// The string at a fixed offset from a key's position, per
/// `spec_at_offset`.
fn at_offset(map: &Vec<(String, usize)>, strings: &Vec<String>, key: &str, off: i64) -> (r:
    Option<String>)
    ensures
        match r {
            Some(s) => spec_at_offset(
                map@.map_values(|p: (String, usize)| (p.0@, p.1)),
                strings@.map_values(|s2: String| s2@),
                key@,
                off as int,
            ) == Some(s@),
            None => spec_at_offset(
                map@.map_values(|p: (String, usize)| (p.0@, p.1)),
                strings@.map_values(|s2: String| s2@),
                key@,
                off as int,
            ) is None,
        },
{
    let ghost sv = strings@.map_values(|s2: String| s2@);
    match map_lookup(map, key) {
        Some(i) => {
            let t: i128 = i as i128 + off as i128;
            if t >= 0 && t < strings.len() as i128 {
                let u = t as usize;
                proof {
                    assert(sv[u as int] == strings@[u as int]@);
                }
                Some(strings[u].clone())
            } else {
                None
            }
        },
        None => None,
    }
}

impl WebGLEntry {
    /// Recovers the entry's keys from the string table and its index map;
    /// nothing when any anchor offset leaves the table or no
    /// encrypted-content candidate exists.
    pub fn parse(quick_idx_map: &Vec<(String, usize)>, strings: &Vec<String>) -> (r: Option<
        WebGLEntry,
    >)
        ensures
            match r {
                Some(w) => spec_parse_webgl(
                    quick_idx_map@.map_values(|p: (String, usize)| (p.0@, p.1)),
                    strings@.map_values(|s2: String| s2@),
                ) == Some(webgl_view(w)),
                None => spec_parse_webgl(
                    quick_idx_map@.map_values(|p: (String, usize)| (p.0@, p.1)),
                    strings@.map_values(|s2: String| s2@),
                ) is None,
            },
    {
        let ghost mv = quick_idx_map@.map_values(|p: (String, usize)| (p.0@, p.1));
        let ghost sv = strings@.map_values(|s2: String| s2@);
        let masked_gpu_info_key = match at_offset(quick_idx_map, strings, "getParameter", -2) {
            Some(s) => s,
            None => {
                return None;
            },
        };
        let gpu_masked_vendor_key = match at_offset(quick_idx_map, strings, "getParameter", -1) {
            Some(s) => s,
            None => {
                return None;
            },
        };
        let gpu_masked_renderer_key = match at_offset(quick_idx_map, strings, "getParameter", 2) {
            Some(s) => s,
            None => {
                return None;
            },
        };
        let unmasked_gpu_info_key = match at_offset(
            quick_idx_map,
            strings,
            "WEBGL_debug_renderer_info",
            1,
        ) {
            Some(s) => s,
            None => {
                return None;
            },
        };
        let anchor_idx = match map_lookup(quick_idx_map, unmasked_gpu_info_key.as_str()) {
            Some(i) => i,
            None => {
                return None;
            },
        };
        let gpu_unmasked_vendor_key = match at_offset(
            quick_idx_map,
            strings,
            "WEBGL_debug_renderer_info",
            2,
        ) {
            Some(s) => s,
            None => {
                return None;
            },
        };
        let gpu_unmasked_renderer_key = match at_offset(
            quick_idx_map,
            strings,
            "UNMASKED_VENDOR_WEBGL",
            1,
        ) {
            Some(s) => s,
            None => {
                return None;
            },
        };
        let prefix_key = match at_offset(quick_idx_map, strings, "substring", -1) {
            Some(s) => s,
            None => {
                return None;
            },
        };
        let suffix_key = match at_offset(quick_idx_map, strings, "substring", 1) {
            Some(s) => s,
            None => {
                return None;
            },
        };
        let no_navigator_gpu_data_key = match at_offset(quick_idx_map, strings, "info", -1) {
            Some(s) => s,
            None => {
                return None;
            },
        };
        let mut w = WebGLEntry {
            masked_gpu_info_key,
            gpu_masked_vendor_key,
            gpu_masked_renderer_key,
            unmasked_gpu_info_key,
            gpu_unmasked_vendor_key,
            gpu_unmasked_renderer_key,
            no_navigator_gpu_data_key,
            prefix_key,
            suffix_key,
            encrypted_content_key: String::new(),
        };
        let start: usize = if anchor_idx >= 5 {
            anchor_idx - 5
        } else {
            0
        };
        let end: usize = if anchor_idx <= usize::MAX - 10 && anchor_idx + 10 <= strings.len() {
            anchor_idx + 10
        } else {
            strings.len()
        };
        let found = cluster_scan(strings, start, end, &w);
        let found2 = match found {
            Some(s) => Some(s),
            None => global_scan(strings, 0, &w),
        };
        match found2 {
            Some(s) => {
                w.encrypted_content_key = s;
                Some(w)
            },
            None => None,
        }
    }
}

/// What recovery yields on the table views.
pub open spec fn spec_parse_webgl(mapv: Seq<(Seq<char>, usize)>, sv: Seq<Seq<char>>) -> Option<
    WebGLView,
> {
    match spec_at_offset(mapv, sv, "getParameter"@, -2) {
        None => None,
        Some(masked_gpu_info_key) => match spec_at_offset(mapv, sv, "getParameter"@, -1) {
            None => None,
            Some(gpu_masked_vendor_key) => match spec_at_offset(mapv, sv, "getParameter"@, 2) {
                None => None,
                Some(gpu_masked_renderer_key) => match spec_at_offset(
                    mapv,
                    sv,
                    "WEBGL_debug_renderer_info"@,
                    1,
                ) {
                    None => None,
                    Some(unmasked_gpu_info_key) => match spec_get(mapv, unmasked_gpu_info_key) {
                        None => None,
                        Some(anchor_idx) => match spec_at_offset(
                            mapv,
                            sv,
                            "WEBGL_debug_renderer_info"@,
                            2,
                        ) {
                            None => None,
                            Some(gpu_unmasked_vendor_key) => match spec_at_offset(
                                mapv,
                                sv,
                                "UNMASKED_VENDOR_WEBGL"@,
                                1,
                            ) {
                                None => None,
                                Some(gpu_unmasked_renderer_key) => match spec_at_offset(
                                    mapv,
                                    sv,
                                    "substring"@,
                                    -1,
                                ) {
                                    None => None,
                                    Some(prefix_key) => match spec_at_offset(
                                        mapv,
                                        sv,
                                        "substring"@,
                                        1,
                                    ) {
                                        None => None,
                                        Some(suffix_key) => match spec_at_offset(
                                            mapv,
                                            sv,
                                            "info"@,
                                            -1,
                                        ) {
                                            None => None,
                                            Some(no_navigator_gpu_data_key) => {
                                                let w = WebGLView {
                                                    masked_gpu_info_key,
                                                    gpu_masked_vendor_key,
                                                    gpu_masked_renderer_key,
                                                    unmasked_gpu_info_key,
                                                    gpu_unmasked_vendor_key,
                                                    gpu_unmasked_renderer_key,
                                                    no_navigator_gpu_data_key,
                                                    prefix_key,
                                                    suffix_key,
                                                    encrypted_content_key: Seq::empty(),
                                                };
                                                let start: int = if anchor_idx >= 5 {
                                                    anchor_idx - 5
                                                } else {
                                                    0
                                                };
                                                let end: int = if anchor_idx + 10 <= sv.len() {
                                                    anchor_idx + 10
                                                } else {
                                                    sv.len() as int
                                                };
                                                let found = match spec_cluster_find(
                                                    sv,
                                                    start,
                                                    end,
                                                    w,
                                                ) {
                                                    Some(c) => Some(c),
                                                    None => spec_global_find(sv, 0, w),
                                                };
                                                match found {
                                                    Some(c) => Some(
                                                        WebGLView {
                                                            encrypted_content_key: c,
                                                            ..w
                                                        },
                                                    ),
                                                    None => None,
                                                }
                                            },
                                        },
                                    },
                                },
                            },
                        },
                    },
                },
            },
        },
    }
}

/// Whether a candidate equals a resolved key or an anchor literal.
fn is_known(c: &String, w: &WebGLEntry) -> (r: bool)
    ensures
        r == spec_is_known(c@, webgl_view(*w)),
{
    str_eq(c.as_str(), w.masked_gpu_info_key.as_str()) || str_eq(
        c.as_str(),
        w.gpu_masked_vendor_key.as_str(),
    ) || str_eq(c.as_str(), w.gpu_masked_renderer_key.as_str()) || str_eq(
        c.as_str(),
        w.unmasked_gpu_info_key.as_str(),
    ) || str_eq(c.as_str(), w.gpu_unmasked_vendor_key.as_str()) || str_eq(
        c.as_str(),
        w.gpu_unmasked_renderer_key.as_str(),
    ) || str_eq(c.as_str(), w.prefix_key.as_str()) || str_eq(c.as_str(), w.suffix_key.as_str())
        || str_eq(c.as_str(), w.no_navigator_gpu_data_key.as_str()) || str_eq(
        c.as_str(),
        "getParameter",
    ) || str_eq(c.as_str(), "WEBGL_debug_renderer_info") || str_eq(
        c.as_str(),
        "UNMASKED_VENDOR_WEBGL",
    )
}

/// First short unknown string in `[from, hi)`, per `spec_cluster_find`.
fn cluster_scan(strings: &Vec<String>, from: usize, hi: usize, w: &WebGLEntry) -> (r: Option<
    String,
>)
    requires
        w.encrypted_content_key@.len() == 0,
    ensures
        match r {
            Some(s) => spec_cluster_find(
                strings@.map_values(|s2: String| s2@),
                from as int,
                hi as int,
                webgl_view(*w),
            ) == Some(s@),
            None => spec_cluster_find(
                strings@.map_values(|s2: String| s2@),
                from as int,
                hi as int,
                webgl_view(*w),
            ) is None,
        },
    decreases hi - from,
{
    let ghost sv = strings@.map_values(|s2: String| s2@);
    if from >= hi || from >= strings.len() {
        return None;
    }
    proof {
        assert(sv[from as int] == strings@[from as int]@);
    }
    let c = &strings[from];
    let n = c.as_str().unicode_len();
    if 2 <= n && n <= 6 && !is_known(c, w) {
        Some(c.clone())
    } else {
        cluster_scan(strings, from + 1, hi, w)
    }
}

/// First five- or six-character unknown string, per `spec_global_find`.
fn global_scan(strings: &Vec<String>, from: usize, w: &WebGLEntry) -> (r: Option<String>)
    requires
        w.encrypted_content_key@.len() == 0,
    ensures
        match r {
            Some(s) => spec_global_find(
                strings@.map_values(|s2: String| s2@),
                from as int,
                webgl_view(*w),
            ) == Some(s@),
            None => spec_global_find(
                strings@.map_values(|s2: String| s2@),
                from as int,
                webgl_view(*w),
            ) is None,
        },
    decreases strings@.len() - from,
{
    let ghost sv = strings@.map_values(|s2: String| s2@);
    if from >= strings.len() {
        return None;
    }
    proof {
        assert(sv[from as int] == strings@[from as int]@);
    }
    let c = &strings[from];
    let n = c.as_str().unicode_len();
    if (n == 5 || n == 6) && !is_known(c, w) {
        Some(c.clone())
    } else {
        global_scan(strings, from + 1, w)
    }
}

} // verus!
