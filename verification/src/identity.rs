//! Identities: fixed-width public addresses naming accounts and parties.

use vstd::prelude::*;

verus! {

/// A fixed-width public address. The host runtime tracks ownership of
/// storage and value per identity.
#[derive(Clone, Copy, Debug)]
pub struct Identity {
    pub bytes: [u8; 32],
}

impl View for Identity {
    type V = Seq<u8>;

    open spec fn view(&self) -> Seq<u8> {
        self.bytes@
    }
}

impl Identity {
    /// Builds an identity from its raw bytes.
    pub fn new(bytes: [u8; 32]) -> (r: Identity)
        ensures
            r@ == bytes@,
    {
        Identity { bytes }
    }

    /// Two identities with the same bytes are the same identity.
    pub proof fn lemma_view_injective(a: Identity, b: Identity)
        ensures
            a@ == b@ ==> a == b,
    {
        broadcast use vstd::array::group_array_axioms;

        if a@ == b@ {
            assert(a.bytes@ =~= b.bytes@);
            assert(a.bytes == b.bytes);
        }
    }
}

impl PartialEq for Identity {
    fn eq(&self, other: &Identity) -> (r: bool) {
        let mut i: usize = 0;
        while i < 32
            invariant
                i <= 32,
                forall|j: int| 0 <= j < i ==> self.bytes@[j] == other.bytes@[j],
            decreases 32 - i,
        {
            if self.bytes[i] != other.bytes[i] {
                return false;
            }
            i = i + 1;
        }
        proof {
            assert(self.bytes@ =~= other.bytes@);
        }
        true
    }
}

impl Eq for Identity {}

impl vstd::std_specs::cmp::PartialEqSpecImpl for Identity {
    open spec fn obeys_eq_spec() -> bool {
        true
    }

    open spec fn eq_spec(&self, other: &Identity) -> bool {
        self@ == other@
    }
}

/// The identities of an optional identity value, as raw bytes.
pub open spec fn spec_option_view(o: Option<Identity>) -> Option<Seq<u8>> {
    match o {
        Some(id) => Some(id@),
        None => None,
    }
}

/// Reads the identity stored at offset `at` of a byte buffer.
pub fn read_identity(src: &[u8], at: usize) -> (r: Identity)
    requires
        at + 32 <= src@.len(),
    ensures
        r@ == src@.subrange(at as int, at + 32),
{
    let n: usize = src.len();
    let mut bytes: [u8; 32] = vstd::array::array_fill_for_copy_types(0u8);
    let mut i: usize = 0;
    while i < 32
        invariant
            i <= 32,
            at + 32 <= n == src@.len(),
            forall|j: int| 0 <= j < i ==> bytes@[j] == src@[at + j],
        decreases 32 - i,
    {
        bytes[i] = src[at + i];
        i = i + 1;
    }
    proof {
        assert(bytes@ =~= src@.subrange(at as int, at + 32));
    }
    Identity { bytes }
}

/// Compares two identities byte for byte.
pub fn identity_eq(a: &Identity, b: &Identity) -> (r: bool)
    ensures
        r == (a@ == b@),
{
    a == b
}

/// Compares two optional identities; two absent identities are equal.
pub fn option_identity_eq(a: &Option<Identity>, b: &Option<Identity>) -> (r: bool)
    ensures
        r == match (a, b) {
            (Some(x), Some(y)) => x@ == y@,
            (None, None) => true,
            _ => false,
        },
{
    match (a, b) {
        (Some(x), Some(y)) => identity_eq(x, y),
        (None, None) => true,
        _ => false,
    }
}

} // verus!
