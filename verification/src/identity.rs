//! The order of identities.
//!
//! An identity is the text of an address, already validated by the host. The
//! ledger lists its entries by ascending identity, where identities compare
//! as their UTF-8 bytes do: byte by byte, a proper prefix first.

use vstd::prelude::*;
use vstd::utf8::*;

verus! {

/// Whether `a` comes before `b` in the lexicographic order of bytes, given
/// that the two agree on their first `from` bytes.
pub open spec fn bytes_before_from(a: Seq<u8>, b: Seq<u8>, from: nat) -> bool
    decreases a.len() - from,
{
    if from >= b.len() {
        false
    } else if from >= a.len() {
        true
    } else if a[from as int] != b[from as int] {
        a[from as int] < b[from as int]
    } else {
        bytes_before_from(a, b, from + 1)
    }
}

/// Whether `a` comes strictly before `b` in the lexicographic order of bytes.
pub open spec fn bytes_before(a: Seq<u8>, b: Seq<u8>) -> bool {
    bytes_before_from(a, b, 0)
}

/// Whether identity `a` comes strictly before identity `b`.
pub open spec fn precedes(a: Seq<char>, b: Seq<char>) -> bool {
    bytes_before(encode_utf8(a), encode_utf8(b))
}

proof fn lemma_bytes_irreflexive_from(a: Seq<u8>, from: nat)
    ensures
        !bytes_before_from(a, a, from),
    decreases a.len() - from,
{
    if from < a.len() {
        lemma_bytes_irreflexive_from(a, from + 1);
    }
}

proof fn lemma_bytes_connected_from(a: Seq<u8>, b: Seq<u8>, from: nat)
    requires
        from <= a.len(),
        from <= b.len(),
        forall|k: int| 0 <= k < from ==> a[k] == b[k],
        !bytes_before_from(a, b, from),
        !bytes_before_from(b, a, from),
    ensures
        a == b,
    decreases a.len() - from,
{
    if from < a.len() && from < b.len() {
        lemma_bytes_connected_from(a, b, from + 1);
    } else {
        assert(a =~= b);
    }
}

proof fn lemma_bytes_transitive_from(a: Seq<u8>, b: Seq<u8>, c: Seq<u8>, from: nat)
    requires
        bytes_before_from(a, b, from),
        bytes_before_from(b, c, from),
    ensures
        bytes_before_from(a, c, from),
    decreases a.len() - from,
{
    if from < a.len() && a[from as int] == b[from as int] && b[from as int] == c[from as int] {
        lemma_bytes_transitive_from(a, b, c, from + 1);
    }
}

/// Two identities with the same bytes are the same identity.
pub proof fn lemma_bytes_determine_identity(a: Seq<char>, b: Seq<char>)
    requires
        encode_utf8(a) == encode_utf8(b),
    ensures
        a == b,
{
    encode_utf8_decode_utf8(a);
    encode_utf8_decode_utf8(b);
}

/// No identity comes before itself.
pub proof fn lemma_precedes_irreflexive(a: Seq<char>)
    ensures
        !precedes(a, a),
{
    lemma_bytes_irreflexive_from(encode_utf8(a), 0);
}

/// Of two different identities one comes before the other.
pub proof fn lemma_precedes_connected(a: Seq<char>, b: Seq<char>)
    requires
        a != b,
    ensures
        precedes(a, b) || precedes(b, a),
{
    if !precedes(a, b) && !precedes(b, a) {
        lemma_bytes_connected_from(encode_utf8(a), encode_utf8(b), 0);
        lemma_bytes_determine_identity(a, b);
    }
}

/// The order of identities is transitive.
pub proof fn lemma_precedes_transitive(a: Seq<char>, b: Seq<char>, c: Seq<char>)
    requires
        precedes(a, b),
        precedes(b, c),
    ensures
        precedes(a, c),
{
    lemma_bytes_transitive_from(encode_utf8(a), encode_utf8(b), encode_utf8(c), 0);
}

/// Tells whether identity `a` comes strictly before identity `b`.
pub fn comes_before(a: &String, b: &String) -> (before: bool)
    ensures
        before == precedes(a@, b@),
{
    let x = a.as_str().as_bytes();
    let y = b.as_str().as_bytes();
    let mut i: usize = 0;
    while i < x.len() && i < y.len()
        invariant
            i <= x@.len(),
            i <= y@.len(),
            x@ == encode_utf8(a@),
            y@ == encode_utf8(b@),
            bytes_before(x@, y@) == bytes_before_from(x@, y@, i as nat),
        decreases x@.len() - i,
    {
        if x[i] != y[i] {
            return x[i] < y[i];
        }
        i += 1;
    }
    i < y.len()
}

} // verus!
