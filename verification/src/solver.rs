//! Solve-page addressing.
//!
//! A solve URL names the challenge platform's branch, a fresh five-character
//! widget identifier, the site key, and fixed theme, feedback and language
//! parameters.

use vstd::prelude::*;
use vstd::string::StrSliceExecFns;
use vstd::string::StringExecFns;
use rand::RngExt;

verus! {

/// Platform version information.
#[derive(Debug, Clone, PartialEq, Eq)]
pub struct VersionInfo {
    pub branch: String,
    pub version: String,
}

/// Whether a character may appear in a widget identifier: a lower-case
/// letter or a digit.
pub open spec fn spec_is_widget_char(c: char) -> bool {
    (97 <= c as u32 <= 122) || (48 <= c as u32 <= 57)
}

/// Whether a string is a well-formed widget identifier.
pub open spec fn spec_is_widget_id(s: Seq<char>) -> bool {
    s.len() == 5 && forall|i: int| 0 <= i < s.len() ==> spec_is_widget_char(#[trigger] s[i])
}

/// Relies on `rand::RngExt::random_range` over `rand::rng()`: a draw from
/// `0..n`, below the bound for any non-empty range.
#[verifier::external_body]
fn random_below(n: usize) -> (r: usize)
    requires
        n > 0,
    ensures
        r < n,
{
    rand::rng().random_range(0..n)
}

/// One widget-identifier character, by alphabet position.
fn widget_char_at(i: usize) -> (r: &'static str)
    requires
        i < 36,
    ensures
        r@.len() == 1,
        spec_is_widget_char(r@[0]),
{
    let r: &'static str = if i == 0 {
        "a"
    } else if i == 1 {
        "b"
    } else if i == 2 {
        "c"
    } else if i == 3 {
        "d"
    } else if i == 4 {
        "e"
    } else if i == 5 {
        "f"
    } else if i == 6 {
        "g"
    } else if i == 7 {
        "h"
    } else if i == 8 {
        "i"
    } else if i == 9 {
        "j"
    } else if i == 10 {
        "k"
    } else if i == 11 {
        "l"
    } else if i == 12 {
        "m"
    } else if i == 13 {
        "n"
    } else if i == 14 {
        "o"
    } else if i == 15 {
        "p"
    } else if i == 16 {
        "q"
    } else if i == 17 {
        "r"
    } else if i == 18 {
        "s"
    } else if i == 19 {
        "t"
    } else if i == 20 {
        "u"
    } else if i == 21 {
        "v"
    } else if i == 22 {
        "w"
    } else if i == 23 {
        "x"
    } else if i == 24 {
        "y"
    } else if i == 25 {
        "z"
    } else if i == 26 {
        "0"
    } else if i == 27 {
        "1"
    } else if i == 28 {
        "2"
    } else if i == 29 {
        "3"
    } else if i == 30 {
        "4"
    } else if i == 31 {
        "5"
    } else if i == 32 {
        "6"
    } else if i == 33 {
        "7"
    } else if i == 34 {
        "8"
    } else {
        "9"
    };
    proof {
        reveal_strlit("a");
        reveal_strlit("b");
        reveal_strlit("c");
        reveal_strlit("d");
        reveal_strlit("e");
        reveal_strlit("f");
        reveal_strlit("g");
        reveal_strlit("h");
        reveal_strlit("i");
        reveal_strlit("j");
        reveal_strlit("k");
        reveal_strlit("l");
        reveal_strlit("m");
        reveal_strlit("n");
        reveal_strlit("o");
        reveal_strlit("p");
        reveal_strlit("q");
        reveal_strlit("r");
        reveal_strlit("s");
        reveal_strlit("t");
        reveal_strlit("u");
        reveal_strlit("v");
        reveal_strlit("w");
        reveal_strlit("x");
        reveal_strlit("y");
        reveal_strlit("z");
        reveal_strlit("0");
        reveal_strlit("1");
        reveal_strlit("2");
        reveal_strlit("3");
        reveal_strlit("4");
        reveal_strlit("5");
        reveal_strlit("6");
        reveal_strlit("7");
        reveal_strlit("8");
        reveal_strlit("9");
    }
    r
}

/// Draws a fresh five-character widget identifier of lower-case letters
/// and digits.
pub fn generate_widget_id() -> (r: String)
    ensures
        spec_is_widget_id(r@),
{
    let mut out = String::new();
    let mut k: usize = 0;
    while k < 5
        invariant
            k <= 5,
            out@.len() == k,
            forall|i: int| 0 <= i < out@.len() ==> spec_is_widget_char(#[trigger] out@[i]),
        decreases 5 - k,
    {
        let idx = random_below(36);
        let c = widget_char_at(idx);
        out.append(c);
        k = k + 1;
    }
    out
}

/// Builds the solve URL for a branch and site key, around a fresh widget
/// identifier.
pub fn generate_solve_url(branch: &str, site_key: &str) -> (r: String)
    ensures
        exists|w: Seq<char>|
            spec_is_widget_id(w) && r@
                == "https://challenges.cloudflare.com/cdn-cgi/challenge-platform/h/"@ + branch@
                + "/turnstile/f/ov2/av0/rch/"@ + w + "/"@ + site_key@
                + "/auto/fbE/new/normal?lang=auto"@,
{
    let widget = generate_widget_id();
    let mut s = String::from_str("https://challenges.cloudflare.com/cdn-cgi/challenge-platform/h/");
    s.append(branch);
    s.append("/turnstile/f/ov2/av0/rch/");
    s.append(widget.as_str());
    s.append("/");
    s.append(site_key);
    s.append("/auto/fbE/new/normal?lang=auto");
    proof {
        let w = widget@;
        assert(s@ =~= "https://challenges.cloudflare.com/cdn-cgi/challenge-platform/h/"@
            + branch@ + "/turnstile/f/ov2/av0/rch/"@ + w + "/"@ + site_key@
            + "/auto/fbE/new/normal?lang=auto"@);
    }
    s
}

/// Why a solver could not be built.
#[derive(Debug, Clone, Copy, PartialEq, Eq, Structural)]
pub enum SolverError {
    /// The fingerprint pool is empty.
    NoFingerprints,
}

/// A solver over a pool of browser fingerprints. Reading and decoding the
/// pool belongs to the caller; the solver owns the pool and the draw.
pub struct TurnstileSolver {
    pub fingerprints: Vec<String>,
}

impl TurnstileSolver {
    /// A solver over a non-empty fingerprint pool.
    pub fn new(fingerprints: Vec<String>) -> (r: Result<TurnstileSolver, SolverError>)
        ensures
            match r {
                Ok(s) => s.fingerprints@ == fingerprints@ && fingerprints@.len() > 0,
                Err(e) => e == SolverError::NoFingerprints && fingerprints@.len() == 0,
            },
    {
        if fingerprints.len() == 0 {
            Err(SolverError::NoFingerprints)
        } else {
            Ok(TurnstileSolver { fingerprints })
        }
    }

    /// Draws one fingerprint from the pool.
    pub fn get_fingerprint(&self) -> (r: &String)
        requires
            self.fingerprints@.len() > 0,
        ensures
            self.fingerprints@.contains(*r),
    {
        let idx = random_below(self.fingerprints.len());
        proof {
            assert(self.fingerprints@[idx as int] == self.fingerprints@[idx as int]);
        }
        &self.fingerprints[idx]
    }
}

} // verus!
