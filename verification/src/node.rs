//! The identity of a peer: a public key on secp256k1 in its compressed encoding.

use bitcoin::secp256k1::key::PublicKey;
use lightning::util::ser::Readable;
use vstd::prelude::*;

verus! {

/// Number of bytes of a compressed point encoding.
pub const POINT_LEN: usize = 33;

/// Whether the 33 bytes are read as a public key by `lightning`, that is
/// whether `<PublicKey as Readable>::read` returns a key for them. Which byte
/// strings encode a point of the curve is decided there (by the parser of
/// `secp256k1` that it hands the bytes to); nothing in this crate computes it.
pub uninterp spec fn is_point_encoding(bytes: Seq<u8>) -> bool;

/// Calls `<PublicKey as Readable>::read` of `lightning::util::ser` on a
/// reader over the 33 bytes and reports whether it returned a key. That
/// function takes 33 bytes from the reader and gives them to
/// `PublicKey::from_slice`. The contract claims only that the answer is the
/// predicate `is_point_encoding` of the bytes: the parse looks at nothing
/// but them, so equal bytes always get the same answer.
#[verifier::external_body]
fn parses_as_point(bytes: &[u8; 33]) -> (ok: bool)
    ensures
        ok == is_point_encoding(bytes@),
{
    <PublicKey as Readable>::read(&mut &bytes[..]).is_ok()
}

/// An array whose first `n` bytes are the first `n` bytes of `bytes`.
spec fn array_of_prefix(bytes: Seq<u8>, n: nat) -> [u8; 33]
    decreases n,
{
    if n == 0 {
        vstd::array::spec_array_fill_for_copy_type::<u8, 33>(0u8)
    } else {
        vstd::array::spec_array_update(array_of_prefix(bytes, (n - 1) as nat), n - 1, bytes[n - 1])
    }
}

/// `array_of_prefix` holds the first `n` bytes of `bytes` where it says.
proof fn lemma_array_of_prefix(bytes: Seq<u8>, n: nat)
    requires
        n <= 33,
    ensures
        forall|j: int| 0 <= j < n ==> array_of_prefix(bytes, n)@[j] == bytes[j],
    decreases n,
{
    if n > 0 {
        let shorter = array_of_prefix(bytes, (n - 1) as nat);
        lemma_array_of_prefix(bytes, (n - 1) as nat);
        vstd::array::axiom_spec_array_update(shorter, n - 1, bytes[n - 1]);
    }
}

/// A peer's identity: the 33 bytes of a compressed public key.
///
/// A value can only be made from bytes that parse as a curve point, so every
/// `NodeId` holds a valid encoding.
#[derive(Clone, Copy, Debug, PartialEq, Eq, Hash)]
pub struct NodeId {
    point: [u8; 33],
}

impl View for NodeId {
    type V = Seq<u8>;

    closed spec fn view(&self) -> Seq<u8> {
        self.point@
    }
}

impl NodeId {
    /// The invariant of the type: the bytes encode a curve point.
    #[verifier::type_invariant]
    pub closed spec fn wf(self) -> bool {
        is_point_encoding(self.point@)
    }

    /// The identity whose bytes are the first 33 of `bytes`.
    pub closed spec fn from_seq(bytes: Seq<u8>) -> NodeId {
        NodeId { point: array_of_prefix(bytes, 33) }
    }

    /// What `wf` means over the view, and that the view has 33 bytes.
    pub proof fn lemma_wf(self)
        ensures
            self@.len() == 33,
            self.wf() <==> is_point_encoding(self@),
    {
    }

    /// `from_seq` keeps the first 33 bytes, and gives back the identity that
    /// the bytes were taken from.
    pub proof fn lemma_from_seq(bytes: Seq<u8>)
        requires
            bytes.len() >= 33,
        ensures
            NodeId::from_seq(bytes)@ == bytes.take(33),
            forall|id: NodeId| id@ == bytes.take(33) ==> id == NodeId::from_seq(bytes),
    {
        lemma_array_of_prefix(bytes, 33);
        assert(NodeId::from_seq(bytes)@ =~= bytes.take(33));
        assert forall|id: NodeId| id@ == bytes.take(33) implies id == NodeId::from_seq(bytes) by {
            id.lemma_view_injective(NodeId::from_seq(bytes));
        }
    }

    /// Two identities with the same bytes are the same identity.
    pub proof fn lemma_view_injective(self, other: NodeId)
        requires
            self@ == other@,
        ensures
            self == other,
    {
        assert(self.point =~= other.point);
    }

    /// The identity with the given bytes, where they encode a curve point.
    pub fn from_bytes(bytes: [u8; 33]) -> (r: Option<NodeId>)
        ensures
            r == (if is_point_encoding(bytes@) {
                Some(NodeId::from_seq(bytes@))
            } else {
                None
            }),
            r matches Some(id) ==> id@ == bytes@ && id.wf(),
    {
        if parses_as_point(&bytes) {
            let id = NodeId { point: bytes };
            proof {
                assert(bytes@.take(33) =~= bytes@);
                NodeId::lemma_from_seq(bytes@);
                id.lemma_view_injective(NodeId::from_seq(bytes@));
            }
            Some(id)
        } else {
            None
        }
    }

    /// The identity whose bytes are the first 33 of `bytes`, where there are
    /// that many and they encode a curve point.
    pub fn from_slice(bytes: &[u8]) -> (r: Option<NodeId>)
        ensures
            r == (if bytes@.len() >= 33 && is_point_encoding(bytes@.take(33)) {
                Some(NodeId::from_seq(bytes@))
            } else {
                None
            }),
            r matches Some(id) ==> id@ == bytes@.take(33) && id.wf(),
    {
        if bytes.len() < POINT_LEN {
            return None;
        }
        let mut point: [u8; 33] = [0u8; 33];
        let mut i: usize = 0;
        while i < POINT_LEN
            invariant
                i <= 33,
                bytes@.len() >= 33,
                forall|j: int| 0 <= j < i ==> point@[j] == bytes@[j],
            decreases 33 - i,
        {
            point[i] = bytes[i];
            i += 1;
        }
        proof {
            assert(point@ =~= bytes@.take(33));
            assert(point@.take(33) =~= point@);
            NodeId::lemma_from_seq(bytes@);
            NodeId::lemma_from_seq(point@);
        }
        NodeId::from_bytes(point)
    }

    /// The 33 bytes of the identity; they encode a curve point.
    pub fn serialize(&self) -> (bytes: [u8; 33])
        ensures
            bytes@ == self@,
            is_point_encoding(bytes@),
    {
        proof {
            use_type_invariant(self);
        }
        self.point
    }

    /// Appends the 33 bytes of the identity to `out`.
    pub fn write(&self, out: &mut Vec<u8>)
        ensures
            final(out)@ == old(out)@ + self@,
    {
        let mut i: usize = 0;
        while i < POINT_LEN
            invariant
                i <= 33,
                out@ == old(out)@ + self@.take(i as int),
            decreases 33 - i,
        {
            out.push(self.point[i]);
            i += 1;
            assert(out@ =~= old(out)@ + self@.take(i as int));
        }
        assert(self@.take(33) =~= self@);
    }
}

} // verus!
