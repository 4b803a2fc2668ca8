//! Nullable-array collapsing and optional-with-default field encoders.
//!
//! Collapsing is asymmetric by design: an empty sequence encodes to an
//! absent wire field, and an absent wire field decodes to an empty
//! sequence, so emptiness and absence are one domain state. A non-empty
//! sequence passes through with element order and count kept exactly.

use vstd::prelude::*;

verus! {

/// Collapse a sequence for the wire: empty becomes absent.
pub open spec fn collapse(s: Seq<Seq<u8>>) -> Option<Seq<Seq<u8>>> {
    if s.len() == 0 {
        None
    } else {
        Some(s)
    }
}

/// Expand a wire field: absent becomes empty.
pub open spec fn expand(o: Option<Seq<Seq<u8>>>) -> Seq<Seq<u8>> {
    match o {
        None => Seq::<Seq<u8>>::empty(),
        Some(s) => s,
    }
}

/// Expanding inverts collapsing on every sequence: emptiness and absence
/// are the same domain state, and non-empty sequences pass through with
/// order and count kept.
pub proof fn lemma_collapse_round_trip(s: Seq<Seq<u8>>)
    ensures
        expand(collapse(s)) == s,
{
    if s.len() == 0 {
        assert(expand(collapse(s)) =~= s);
    }
}

/// Encode a list of byte sequences for the wire, collapsing the empty list
/// to an absent field.
pub fn nullable_encode(v: Vec<Vec<u8>>) -> (r: Option<Vec<Vec<u8>>>)
    ensures
        r.deep_view() == collapse(v.deep_view()),
{
    if v.len() == 0 {
        proof {
            assert(v.deep_view() =~= Seq::<Seq<u8>>::empty());
        }
        None
    } else {
        proof {
            assert(v.deep_view().len() > 0);
        }
        Some(v)
    }
}

/// Decode a possibly absent wire list, expanding absence to the empty list.
pub fn nullable_decode(o: Option<Vec<Vec<u8>>>) -> (v: Vec<Vec<u8>>)
    ensures
        v.deep_view() == expand(o.deep_view()),
{
    match o {
        None => {
            let v: Vec<Vec<u8>> = Vec::new();
            proof {
                assert(v.deep_view() =~= Seq::<Seq<u8>>::empty());
            }
            v
        },
        Some(w) => w,
    }
}

/// Decode an optional wire field, substituting the given default when the
/// field is absent.
pub fn optional_decode(o: Option<u64>, default: u64) -> (r: u64)
    ensures
        r == (match o {
            None => default,
            Some(x) => x,
        }),
{
    match o {
        None => default,
        Some(x) => x,
    }
}

} // verus!
