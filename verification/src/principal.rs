use vstd::prelude::*;

verus! {

/// What `Principal::to_text` of the candid crate returns for a principal
/// with the given bytes: the lower-case, dash-grouped base32 rendering of a
/// CRC32 checksum followed by the bytes.
pub uninterp spec fn principal_text(bytes: Seq<u8>) -> Seq<char>;

/// The longest byte string that identifies a principal.
pub const MAX_PRINCIPAL_BYTES: usize = 29;

/// An identity: who performed an action, or who is asking.
///
/// A principal is an opaque byte string of at most 29 bytes.
#[derive(Debug)]
pub struct Principal {
    bytes: Vec<u8>,
}

impl View for Principal {
    type V = Seq<u8>;

    closed spec fn view(&self) -> Seq<u8> {
        self.bytes@
    }
}

/// Renders the principal bytes as text.
///
/// Calls `candid::Principal::from_slice` and then `to_text` on the result.
/// `from_slice` panics on more than 29 bytes, which the precondition
/// excludes; the text is a function of the bytes alone.
#[verifier::external_body]
fn candid_text(bytes: &Vec<u8>) -> (text: String)
    requires
        bytes@.len() <= MAX_PRINCIPAL_BYTES,
    ensures
        text@ == principal_text(bytes@),
{
    candid::Principal::from_slice(bytes.as_slice()).to_text()
}

impl Principal {
    #[verifier::type_invariant]
    spec fn bounded(self) -> bool {
        self.bytes@.len() <= MAX_PRINCIPAL_BYTES
    }

    /// The principal with the given bytes, or `None` if there are more than 29.
    pub fn from_slice(bytes: &[u8]) -> (p: Option<Principal>)
        ensures
            p is Some <==> bytes@.len() <= MAX_PRINCIPAL_BYTES,
            p is Some ==> p->0@ == bytes@,
    {
        if bytes.len() <= MAX_PRINCIPAL_BYTES {
            let mut copy: Vec<u8> = Vec::new();
            copy.extend_from_slice(bytes);
            assert(copy@ =~= bytes@);
            Some(Principal { bytes: copy })
        } else {
            None
        }
    }

    /// The anonymous principal: the single byte 4.
    pub fn anonymous() -> (p: Principal)
        ensures
            p@ == seq![4u8],
    {
        let mut bytes: Vec<u8> = Vec::new();
        bytes.push(4u8);
        assert(bytes@ =~= seq![4u8]);
        Principal { bytes }
    }

    /// The bytes of the principal, of which there are at most 29.
    pub fn as_slice(&self) -> (bytes: &[u8])
        ensures
            bytes@ == self@,
            bytes@.len() <= MAX_PRINCIPAL_BYTES,
    {
        proof {
            use_type_invariant(self);
        }
        self.bytes.as_slice()
    }

    /// The textual form of the principal.
    pub fn to_text(&self) -> (text: String)
        ensures
            text@ == principal_text(self@),
    {
        proof {
            use_type_invariant(self);
        }
        candid_text(&self.bytes)
    }

    /// Whether two principals are the same identity.
    pub fn same_as(&self, other: &Principal) -> (same: bool)
        ensures
            same == (self@ == other@),
    {
        let same = self.bytes == other.bytes;
        assert(same == (self.bytes@ =~= other.bytes@));
        same
    }
}

impl Clone for Principal {
    fn clone(&self) -> (copy: Principal)
        ensures
            copy@ == self@,
    {
        proof {
            use_type_invariant(self);
        }
        let bytes = self.bytes.clone();
        assert(bytes@ =~= self.bytes@);
        Principal { bytes }
    }
}

} // verus!
