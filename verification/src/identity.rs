//! Identities of execution units and of the principals that administer them.

use vstd::prelude::*;
use candid::Principal;

verus! {

/// The longest byte string that names an identity.
pub const MAX_IDENTITY_BYTES: usize = 29;

/// The opaque address of an execution unit or of a caller: a byte string of
/// at most [`MAX_IDENTITY_BYTES`] bytes. It is a plain value, copied freely
/// and never changed once made.
#[derive(Clone, Copy, Debug, PartialEq, Eq, Hash)]
pub struct UnitIdentity {
    len: u8,
    bytes: [u8; 29],
}

impl View for UnitIdentity {
    type V = Seq<u8>;

    /// The bytes that the identity consists of.
    closed spec fn view(&self) -> Seq<u8> {
        self.bytes@.subrange(0, self.len as int)
    }
}

impl UnitIdentity {
    /// What every identity in executable code satisfies: its length is within
    /// the limit and the storage past its length is zero, so that two
    /// identities with the same bytes are the same value.
    #[verifier::type_invariant]
    pub closed spec fn well_formed(self) -> bool {
        &&& self.len <= 29
        &&& forall|i: int| self.len <= i < 29 ==> self.bytes[i] == 0
    }

    /// The identity with the given bytes, or nothing when there are more than
    /// [`MAX_IDENTITY_BYTES`] of them.
    pub fn from_slice(bytes: &[u8]) -> (made: Option<UnitIdentity>)
        ensures
            bytes@.len() <= MAX_IDENTITY_BYTES ==> made is Some && made->0@ == bytes@
                && made->0.well_formed(),
            bytes@.len() > MAX_IDENTITY_BYTES ==> made is None,
    {
        if bytes.len() > MAX_IDENTITY_BYTES {
            return None;
        }
        let mut stored: [u8; 29] = [0u8; 29];
        let mut i: usize = 0;
        while i < bytes.len()
            invariant
                i <= bytes@.len() <= 29,
                forall|j: int| 0 <= j < i ==> stored[j] == bytes@[j],
                forall|j: int| i <= j < 29 ==> stored[j] == 0,
            decreases bytes@.len() - i,
        {
            stored[i] = bytes[i];
            i += 1;
        }
        let made = UnitIdentity { len: bytes.len() as u8, bytes: stored };
        assert(made@ =~= bytes@);
        Some(made)
    }

    /// The identity with no bytes at all.
    pub fn empty() -> (made: UnitIdentity)
        ensures
            made@ == Seq::<u8>::empty(),
            made.well_formed(),
    {
        let made = UnitIdentity { len: 0, bytes: [0u8; 29] };
        assert(made@ =~= Seq::<u8>::empty());
        made
    }

    /// The number of bytes in the identity.
    pub fn len(&self) -> (n: usize)
        ensures
            n == self@.len(),
            n <= MAX_IDENTITY_BYTES,
    {
        proof {
            use_type_invariant(self);
        }
        self.len as usize
    }

    /// The bytes of the identity, in order.
    pub fn to_vec(&self) -> (bytes: Vec<u8>)
        ensures
            bytes@ == self@,
    {
        proof {
            use_type_invariant(self);
        }
        let mut bytes: Vec<u8> = Vec::new();
        let mut i: usize = 0;
        let n: usize = self.len as usize;
        while i < n
            invariant
                i <= n <= 29,
                n == self.len,
                bytes@ == self.bytes@.subrange(0, i as int),
            decreases n - i,
        {
            bytes.push(self.bytes[i]);
            assert(bytes@ =~= self.bytes@.subrange(0, i + 1));
            i += 1;
        }
        bytes
    }
}

/// `candid::Principal::management_canister`, read through
/// `Principal::as_slice`: the bytes that name the platform's management
/// service. The contract claims that there are none.
#[verifier::external_body]
fn management_canister_bytes() -> (bytes: Vec<u8>)
    ensures
        bytes@ == Seq::<u8>::empty(),
{
    Principal::management_canister().as_slice().to_vec()
}

/// The identity of the platform's management service, which creates units
/// and installs code into them.
pub fn management_canister() -> (service: UnitIdentity)
    ensures
        service@ == Seq::<u8>::empty(),
{
    let bytes = management_canister_bytes();
    match UnitIdentity::from_slice(bytes.as_slice()) {
        Some(service) => service,
        None => UnitIdentity::empty(),
    }
}

/// Where a remote call goes: the unit that is called and the name of the
/// method that is called on it.
#[derive(Clone, Copy, Debug, PartialEq, Eq)]
pub struct Destination {
    pub unit: UnitIdentity,
    pub method: &'static str,
}

/// A destination as a plain value: the bytes of the unit's identity and the
/// name of the method.
pub struct DestinationView {
    pub unit: Seq<u8>,
    pub method: Seq<char>,
}

impl View for Destination {
    type V = DestinationView;

    open spec fn view(&self) -> DestinationView {
        DestinationView { unit: self.unit@, method: self.method@ }
    }
}

/// The destination of the calls that go to the platform's management
/// service: the identity without bytes, and the given method.
pub open spec fn at_management(method: Seq<char>) -> DestinationView {
    DestinationView { unit: Seq::empty(), method }
}

/// Two well-formed identities with the same bytes are one and the same.
pub proof fn identity_determined_by_bytes(a: UnitIdentity, b: UnitIdentity)
    requires
        a.well_formed(),
        b.well_formed(),
        a@ == b@,
    ensures
        a == b,
{
    assert(a.len == b.len) by {
        assert(a@.len() == a.len);
        assert(b@.len() == b.len);
    }
    assert forall|i: int| 0 <= i < 29 implies a.bytes[i] == b.bytes[i] by {
        if i < a.len {
            assert(a@[i] == a.bytes[i]);
            assert(b@[i] == b.bytes[i]);
        }
    }
    assert(a.bytes =~= b.bytes);
}

/// Who is asking, and on whose behalf: the immediate caller of an operation
/// and the orchestrator itself.
#[derive(Clone, Copy, Debug, PartialEq, Eq)]
pub struct CallerContext {
    pub caller: UnitIdentity,
    pub self_identity: UnitIdentity,
}

} // verus!
