//! Plain values for object ids, points in time and identities.
use vstd::prelude::*;

verus! {

/// The number of bytes of an object id.
pub const OID_RAW_SIZE: usize = 20;

/// An object id: the raw bytes of an object's hash.
#[derive(Clone, Copy, PartialEq, Eq, Debug)]
pub struct Oid {
    bytes: [u8; 20],
}

impl View for Oid {
    type V = Seq<u8>;

    closed spec fn view(&self) -> Seq<u8> {
        self.bytes@
    }
}

impl Oid {
    /// The id with these raw bytes.
    pub fn from_bytes(bytes: [u8; 20]) -> (r: Oid)
        ensures
            r@ == bytes@,
    {
        Oid { bytes }
    }

    /// The raw bytes of the id.
    pub fn as_bytes(&self) -> (r: &[u8; 20])
        ensures
            r@ == self@,
    {
        &self.bytes
    }

    /// A copy of the id.
    pub fn copy(&self) -> (r: Oid)
        ensures
            r@ == self@,
    {
        Oid { bytes: self.bytes }
    }
}

/// A point in time: seconds since the epoch and the offset, in minutes, of
/// the time zone it was recorded in.
#[derive(Clone, Copy, PartialEq, Eq, Structural, Debug)]
pub struct Time {
    pub seconds: i64,
    pub offset_minutes: i32,
}

impl Time {
    /// The time with these seconds and this offset.
    pub fn new(seconds: i64, offset_minutes: i32) -> (r: Time)
        ensures
            r.seconds == seconds,
            r.offset_minutes == offset_minutes,
    {
        Time { seconds, offset_minutes }
    }
}

/// What a signature holds.
pub ghost struct SignatureView {
    pub name: Seq<char>,
    pub email: Seq<char>,
    pub when: Time,
}

/// An identity with a point in time: who authored or committed, and when.
pub struct Signature {
    name: String,
    email: String,
    when: Time,
}

impl View for Signature {
    type V = SignatureView;

    closed spec fn view(&self) -> SignatureView {
        SignatureView { name: self.name@, email: self.email@, when: self.when }
    }
}

impl Signature {
    /// The signature of this name and e-mail address at this time.
    pub fn new(name: &str, email: &str, when: Time) -> (r: Signature)
        ensures
            r@ == (SignatureView { name: name@, email: email@, when }),
    {
        Signature { name: name.to_string(), email: email.to_string(), when }
    }

    /// The name.
    pub fn name(&self) -> (r: &str)
        ensures
            r@ == self@.name,
    {
        self.name.as_str()
    }

    /// The e-mail address.
    pub fn email(&self) -> (r: &str)
        ensures
            r@ == self@.email,
    {
        self.email.as_str()
    }

    /// The point in time.
    pub fn when(&self) -> (r: Time)
        ensures
            r == self@.when,
    {
        self.when
    }
}

} // verus!
