//! Public opaque identifiers: 128-bit values exposed to clients in place of
//! internal sequential ids. Stored as 16 raw bytes; shown to clients in the
//! hyphenated UUID text form, through the uuid crate.

use vstd::prelude::*;
use crate::errors::AppError;

verus! {

/// The hyphenated text form that `uuid::Uuid::to_string` gives to 16 bytes.
pub uninterp spec fn uuid_str_of(b: Seq<u8>) -> Seq<char>;

/// What `uuid::Uuid::try_parse` recovers from a text form: the 16 bytes, or
/// nothing when the text is not a UUID.
pub uninterp spec fn uuid_parsed_of(s: Seq<char>) -> Option<Seq<u8>>;

/// A public opaque identifier: exactly 16 bytes.
pub struct Pid {
    bytes: Vec<u8>,
}

impl View for Pid {
    type V = Seq<u8>;

    closed spec fn view(&self) -> Seq<u8> {
        self.bytes@
    }
}

impl Clone for Pid {
    fn clone(&self) -> (r: Self)
        ensures
            r@ == self@,
    {
        Pid { bytes: self.bytes.clone() }
    }
}

impl Pid {
    /// An identifier is well formed when it holds exactly 16 bytes. Every
    /// constructor of this type establishes this.
    pub open spec fn wf(&self) -> bool {
        self@.len() == 16
    }

    /// Wraps raw bytes from the store; refuses any length but 16.
    pub fn from_bytes(bytes: Vec<u8>) -> (r: Option<Pid>)
        ensures
            match r {
                Some(p) => p.wf() && p@ == bytes@,
                None => bytes@.len() != 16,
            },
    {
        if bytes.len() == 16 {
            Some(Pid { bytes })
        } else {
            None
        }
    }

    /// The raw bytes, as the store persists them.
    pub fn as_bytes(&self) -> (r: &Vec<u8>)
        ensures
            r@ == self@,
    {
        &self.bytes
    }

    /// Byte-for-byte equality of two identifiers.
    pub fn matches(&self, other: &Pid) -> (r: bool)
        ensures
            r == (self@ == other@),
    {
        if self.bytes.len() != other.bytes.len() {
            assert(self@ !~= other@);
            return false;
        }
        let n = self.bytes.len();
        let mut i: usize = 0;
        while i < n
            invariant
                n == self@.len() == other@.len(),
                i <= n,
                forall|j: int| 0 <= j < i ==> self@[j] == other@[j],
            decreases n - i,
        {
            if self.bytes[i] != other.bytes[i] {
                assert(self@ !~= other@);
                return false;
            }
            i += 1;
        }
        assert(self@ =~= other@);
        true
    }

    /// Relies on `uuid::Uuid::new_v4`: a freshly drawn random identifier.
    /// Nothing is promised of its value.
    #[verifier::external_body]
    pub fn fresh() -> (r: Pid)
        ensures
            r.wf(),
    {
        Pid { bytes: uuid::Uuid::new_v4().as_bytes().to_vec() }
    }

    /// Relies on `uuid::Uuid::to_string` (via `from_slice` on 16 bytes): the
    /// 36-character hyphenated form, which `try_parse` maps back to the same
    /// bytes.
    #[verifier::external_body]
    pub fn to_uuid_string(&self) -> (r: String)
        requires
            self.wf(),
        ensures
            r@ == uuid_str_of(self@),
            r@.len() == 36,
            uuid_parsed_of(r@) == Some(self@),
    {
        uuid::Uuid::from_slice(self.bytes.as_slice()).unwrap().to_string()
    }

    /// Relies on `uuid::Uuid::try_parse`: recovers the 16 bytes from a UUID
    /// text form, and refuses any other text.
    #[verifier::external_body]
    pub fn parse(s: &str) -> (r: Option<Pid>)
        ensures
            match r {
                Some(p) => p.wf() && uuid_parsed_of(s@) == Some(p@),
                None => uuid_parsed_of(s@) is None,
            },
    {
        match uuid::Uuid::try_parse(s) {
            Ok(u) => Some(Pid { bytes: u.as_bytes().to_vec() }),
            Err(_) => None,
        }
    }

    /// Wraps optional raw bytes from a store row; a missing or malformed
    /// value is the store invariant violation `InternalServerError`.
    pub fn from_row_bytes(bytes: &Option<Vec<u8>>) -> (r: Result<Pid, AppError>)
        ensures
            match r {
                Ok(p) => p.wf() && (bytes matches Some(b) && p@ == b@),
                Err(e) => e == AppError::InternalServerError && (bytes matches Some(b)
                    ==> b@.len() != 16),
            },
    {
        match bytes {
            Some(b) => match Pid::from_bytes(b.clone()) {
                Some(p) => Ok(p),
                None => Err(AppError::InternalServerError),
            },
            None => Err(AppError::InternalServerError),
        }
    }
}

} // verus!
