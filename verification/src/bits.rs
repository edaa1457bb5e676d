//! Normalization of raw operand sequences.
//!
//! Raw operand bits captured from array literals carry known marker and
//! separator tokens. Normalization strips every maximal consecutive run of
//! the marker pair (195, 188) and every isolated separator 127, preserving
//! the relative order of all other elements. A 195 that is not immediately
//! followed by 188 is preserved. Normalized sequences are used for fuzzy
//! equality when a direct opcode-index lookup fails.

use vstd::prelude::*;

verus! {

/// First element of the marker pair.
pub const MARKER_A: u16 = 195;
/// Second element of the marker pair.
pub const MARKER_B: u16 = 188;
/// Separator token, stripped wherever it occurs.
pub const SEPARATOR: u16 = 127;

/// What `normalize_bits` returns, as a function of the input sequence.
pub open spec fn spec_normalize(s: Seq<u16>) -> Seq<u16>
    decreases s.len(),
{
    if s.len() >= 2 && s[0] == MARKER_A && s[1] == MARKER_B {
        spec_normalize(s.skip(2))
    } else if s.len() >= 1 && s[0] == SEPARATOR {
        spec_normalize(s.skip(1))
    } else if s.len() >= 1 {
        seq![s[0]] + spec_normalize(s.skip(1))
    } else {
        Seq::empty()
    }
}

/// Whether the sequence holds the marker pair at two adjacent positions.
pub open spec fn has_marker_pair(s: Seq<u16>) -> bool {
    exists|j: int| 0 <= j && j + 1 < s.len() && #[trigger] s[j] == MARKER_A && s[j + 1] == MARKER_B
}

/// Whether the sequence holds no separator token.
pub open spec fn has_no_separator(s: Seq<u16>) -> bool {
    forall|j: int| 0 <= j < s.len() ==> s[j] != SEPARATOR
}

/// Strips marker-pair runs and separators from a raw bit sequence.
pub fn normalize_bits(raw: &[u16]) -> (out: Vec<u16>)
    ensures
        out@ == spec_normalize(raw@),
{
    let mut out: Vec<u16> = Vec::new();
    let mut i: usize = 0;
    proof {
        assert(raw@.skip(0) =~= raw@);
        assert(Seq::<u16>::empty() + spec_normalize(raw@) =~= spec_normalize(raw@));
    }
    while i < raw.len()
        invariant
            i <= raw.len(),
            spec_normalize(raw@) == out@ + spec_normalize(raw@.skip(i as int)),
        decreases raw.len() - i,
    {
        if i + 1 < raw.len() && raw[i] == MARKER_A && raw[i + 1] == MARKER_B {
            proof {
                assert(raw@.skip(i as int).skip(2) =~= raw@.skip(i as int + 2));
            }
            i = i + 2;
        } else if raw[i] == SEPARATOR {
            proof {
                assert(raw@.skip(i as int).skip(1) =~= raw@.skip(i as int + 1));
            }
            i = i + 1;
        } else {
            out.push(raw[i]);
            proof {
                assert(raw@.skip(i as int).skip(1) =~= raw@.skip(i as int + 1));
                assert(out@ + spec_normalize(raw@.skip(i as int + 1)) =~= (out@.drop_last()
                    + seq![raw@[i as int]]) + spec_normalize(raw@.skip(i as int + 1)));
            }
            i = i + 1;
        }
    }
    proof {
        assert(raw@.skip(raw@.len() as int) =~= Seq::<u16>::empty());
        assert(out@ =~= out@ + Seq::<u16>::empty());
    }
    out
}

/// A normalized sequence never holds the separator token.
pub proof fn lemma_normalize_no_separator(s: Seq<u16>)
    ensures
        has_no_separator(spec_normalize(s)),
    decreases s.len(),
{
    if s.len() >= 2 && s[0] == MARKER_A && s[1] == MARKER_B {
        lemma_normalize_no_separator(s.skip(2));
    } else if s.len() >= 1 && s[0] == SEPARATOR {
        lemma_normalize_no_separator(s.skip(1));
    } else if s.len() >= 1 {
        lemma_normalize_no_separator(s.skip(1));
        assert forall|j: int| 0 <= j < spec_normalize(s).len() implies spec_normalize(s)[j]
            != SEPARATOR by {
            if j > 0 {
                assert(spec_normalize(s)[j] == spec_normalize(s.skip(1))[j - 1]);
            }
        }
    }
}

/// Normalization leaves a sequence unchanged when there is nothing to strip:
/// no separator token and no adjacent marker pair.
pub proof fn lemma_normalize_identity(s: Seq<u16>)
    requires
        has_no_separator(s),
        !has_marker_pair(s),
    ensures
        spec_normalize(s) == s,
    decreases s.len(),
{
    if s.len() == 0 {
        assert(spec_normalize(s) =~= s);
    } else {
        assert(!(s.len() >= 2 && s[0] == MARKER_A && s[1] == MARKER_B)) by {
            if s.len() >= 2 && s[0] == MARKER_A && s[1] == MARKER_B {
                assert(0 + 1 < s.len() && s[0] == MARKER_A && s[1] == MARKER_B);
            }
        }
        assert(s[0] != SEPARATOR);
        assert(has_no_separator(s.skip(1)));
        assert(!has_marker_pair(s.skip(1))) by {
            if has_marker_pair(s.skip(1)) {
                let j = choose|j: int|
                    0 <= j && j + 1 < s.skip(1).len() && #[trigger] s.skip(1)[j] == MARKER_A
                        && s.skip(1)[j + 1] == MARKER_B;
                assert(0 <= j + 1 && j + 2 < s.len() && s[j + 1] == MARKER_A && s[j + 2]
                    == MARKER_B);
            }
        }
        lemma_normalize_identity(s.skip(1));
        assert(seq![s[0]] + s.skip(1) =~= s);
    }
}

/// Normalization is idempotent on every input whose normal form holds no
/// adjacent marker pair. (Stripping can create a new adjacency, as in a
/// sequence whose separator stands between the two halves of a marker pair;
/// on such inputs a second pass strips further.)
pub proof fn lemma_normalize_idempotent(s: Seq<u16>)
    requires
        !has_marker_pair(spec_normalize(s)),
    ensures
        spec_normalize(spec_normalize(s)) == spec_normalize(s),
{
    lemma_normalize_no_separator(s);
    lemma_normalize_identity(spec_normalize(s));
}

} // verus!
