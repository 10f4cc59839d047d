//! Fixed-size identities: the public keys of nodes and the identities of chains.
//!
//! Both are 32 opaque bytes. Two identities are the same exactly when their
//! bytes are the same, and public keys are ordered by their bytes: the first
//! byte in which two keys differ decides.

use std::cmp::Ordering;

use vstd::prelude::*;

verus! {

/// The number of bytes in an identity.
pub const IDENTITY_LEN: usize = 32;

/// `left` comes before `right` in the order of their bytes: at the first place
/// where the two differ, `left` has the smaller byte.
pub open spec fn bytes_precede(left: Seq<u8>, right: Seq<u8>) -> bool {
    exists|place: int|
        0 <= place < left.len() && place < right.len() && #[trigger] left.take(place)
            == right.take(place) && left[place] < right[place]
}

/// The first place at which two 32-byte values differ, or 32 if they are the same.
fn first_difference(left: &[u8; 32], right: &[u8; 32]) -> (place: usize)
    ensures
        place <= IDENTITY_LEN,
        left@.take(place as int) == right@.take(place as int),
        place < IDENTITY_LEN ==> left[place as int] != right[place as int],
{
    let mut place: usize = 0;
    while place < IDENTITY_LEN
        invariant
            place <= IDENTITY_LEN,
            forall|i: int| 0 <= i < place ==> left[i] == right[i],
        decreases IDENTITY_LEN - place,
    {
        if left[place] != right[place] {
            assert(left@.take(place as int) =~= right@.take(place as int));
            return place;
        }
        place += 1;
    }
    assert(left@.take(place as int) =~= right@.take(place as int));
    place
}

/// What the first difference of two byte sequences of one length says of them:
/// without one they are equal, and with one its bytes decide which comes first.
proof fn lemma_first_difference_decides(left: Seq<u8>, right: Seq<u8>, place: usize)
    requires
        left.len() == right.len(),
        place <= left.len(),
        left.take(place as int) == right.take(place as int),
        place < left.len() ==> left[place as int] != right[place as int],
    ensures
        place == left.len() ==> left == right,
        place < left.len() ==> left != right,
        place < left.len() ==> (bytes_precede(left, right) <==> left[place as int]
            < right[place as int]),
        place < left.len() ==> (bytes_precede(right, left) <==> right[place as int]
            < left[place as int]),
{
    let first = place as int;
    if first == left.len() {
        assert(left =~= left.take(first));
        assert(right =~= right.take(first));
    } else {
        assert forall|other: int|
            0 <= other < left.len() && left.take(other) == right.take(other) && left[other]
                != right[other] implies other == first by {
            if other < first {
                assert(left.take(first)[other] == right.take(first)[other]);
            } else if other > first {
                assert(left.take(other)[first] == right.take(other)[first]);
            }
        }
        if left[first] < right[first] {
            assert(left.take(first) == right.take(first));
        } else {
            assert(right.take(first) == left.take(first));
        }
    }
}

/// Finds the first place from `start` on at which two byte sequences of one
/// length differ, where they agree before `start`.
proof fn lemma_find_first_difference(left: Seq<u8>, right: Seq<u8>, start: usize) -> (place: usize)
    requires
        left.len() == right.len(),
        left.len() <= usize::MAX,
        start <= left.len(),
        left.take(start as int) == right.take(start as int),
    ensures
        start <= place <= left.len(),
        left.take(place as int) == right.take(place as int),
        place < left.len() ==> left[place as int] != right[place as int],
    decreases left.len() - start,
{
    if start == left.len() || left[start as int] != right[start as int] {
        start
    } else {
        assert(left.take(start + 1) =~= left.take(start as int).push(left[start as int]));
        assert(right.take(start + 1) =~= right.take(start as int).push(right[start as int]));
        lemma_find_first_difference(left, right, (start + 1) as usize)
    }
}

/// Representation of a node's public key.
#[derive(Clone, Copy, Debug, Eq, Hash, Ord)]
pub struct PublicKey(pub [u8; 32]);

impl View for PublicKey {
    type V = Seq<u8>;

    open spec fn view(&self) -> Seq<u8> {
        self.0@
    }
}

impl PublicKey {
    /// Two keys are the same key exactly when they have the same bytes.
    pub proof fn lemma_same_bytes_same_key(self, other: PublicKey)
        ensures
            self@.len() == IDENTITY_LEN,
            (self@ == other@) <==> (self == other),
    {
        if self@ == other@ {
            assert(self.0 =~= other.0);
        }
    }

    /// Of two different keys, exactly one comes before the other.
    pub proof fn lemma_order_is_total(self, other: PublicKey)
        ensures
            self == other ==> !bytes_precede(self@, other@) && !bytes_precede(other@, self@),
            self != other ==> (bytes_precede(self@, other@) <==> !bytes_precede(other@, self@)),
    {
        self.lemma_same_bytes_same_key(other);
        assert(self@.take(0) =~= other@.take(0));
        let place = lemma_find_first_difference(self@, other@, 0);
        lemma_first_difference_decides(self@, other@, place);
        if self == other {
            assert forall|place: int| 0 <= place < self@.len() implies !(self@[place]
                < other@[place]) by {}
        }
    }

    /// The bytes of the key.
    pub fn to_bytes(&self) -> (bytes: [u8; 32])
        ensures
            bytes@ == self@,
    {
        self.0
    }
}

impl From<[u8; 32]> for PublicKey {
    /// The key with the given bytes.
    fn from(bytes: [u8; 32]) -> (key: Self) {
        PublicKey(bytes)
    }
}

impl vstd::std_specs::convert::FromSpecImpl<[u8; 32]> for PublicKey {
    open spec fn obeys_from_spec() -> bool {
        true
    }

    open spec fn from_spec(bytes: [u8; 32]) -> Self {
        PublicKey(bytes)
    }
}

impl PartialEq for PublicKey {
    /// Whether two keys are the same key.
    fn eq(&self, other: &Self) -> (same: bool) {
        let place = first_difference(&self.0, &other.0);
        proof {
            lemma_first_difference_decides(self.0@, other.0@, place);
            self.lemma_same_bytes_same_key(*other);
        }
        place == IDENTITY_LEN
    }
}

impl vstd::std_specs::cmp::PartialEqSpecImpl for PublicKey {
    open spec fn obeys_eq_spec() -> bool {
        true
    }

    open spec fn eq_spec(&self, other: &Self) -> bool {
        *self == *other
    }
}

impl PartialOrd for PublicKey {
    /// How two keys stand in the order of their bytes.
    fn partial_cmp(&self, other: &Self) -> (order: Option<Ordering>) {
        let place = first_difference(&self.0, &other.0);
        proof {
            lemma_first_difference_decides(self.0@, other.0@, place);
        }
        if place == IDENTITY_LEN {
            Some(Ordering::Equal)
        } else if self.0[place] < other.0[place] {
            Some(Ordering::Less)
        } else {
            Some(Ordering::Greater)
        }
    }
}

impl vstd::std_specs::cmp::PartialOrdSpecImpl for PublicKey {
    open spec fn obeys_partial_cmp_spec() -> bool {
        true
    }

    open spec fn partial_cmp_spec(&self, other: &Self) -> Option<Ordering> {
        if self@ == other@ {
            Some(Ordering::Equal)
        } else if bytes_precede(self@, other@) {
            Some(Ordering::Less)
        } else {
            Some(Ordering::Greater)
        }
    }
}

/// The identity of a chain.
#[derive(Clone, Copy, Debug, Eq, Hash)]
pub struct ChainId(pub [u8; 32]);

impl View for ChainId {
    type V = Seq<u8>;

    open spec fn view(&self) -> Seq<u8> {
        self.0@
    }
}

impl ChainId {
    /// Two identities name the same chain exactly when they have the same bytes.
    pub proof fn lemma_same_bytes_same_chain(self, other: ChainId)
        ensures
            self@.len() == IDENTITY_LEN,
            (self@ == other@) <==> (self == other),
    {
        if self@ == other@ {
            assert(self.0 =~= other.0);
        }
    }

    /// The bytes of the identity.
    pub fn to_bytes(&self) -> (bytes: [u8; 32])
        ensures
            bytes@ == self@,
    {
        self.0
    }
}

impl From<[u8; 32]> for ChainId {
    /// The identity with the given bytes.
    fn from(bytes: [u8; 32]) -> (id: Self) {
        ChainId(bytes)
    }
}

impl vstd::std_specs::convert::FromSpecImpl<[u8; 32]> for ChainId {
    open spec fn obeys_from_spec() -> bool {
        true
    }

    open spec fn from_spec(bytes: [u8; 32]) -> Self {
        ChainId(bytes)
    }
}

impl PartialEq for ChainId {
    /// Whether two identities name the same chain.
    fn eq(&self, other: &Self) -> (same: bool) {
        let place = first_difference(&self.0, &other.0);
        proof {
            lemma_first_difference_decides(self.0@, other.0@, place);
            self.lemma_same_bytes_same_chain(*other);
        }
        place == IDENTITY_LEN
    }
}

impl vstd::std_specs::cmp::PartialEqSpecImpl for ChainId {
    open spec fn obeys_eq_spec() -> bool {
        true
    }

    open spec fn eq_spec(&self, other: &Self) -> bool {
        *self == *other
    }
}

} // verus!
