//! Access rights of object dictionary entries, and raw entry values.

use vstd::prelude::*;
use vstd::string::StringSliceAdditionalSpecFns;

verus! {

/// Whether an object dictionary entry can be read and written.
#[derive(Debug, Clone, Copy, PartialEq, Eq, Structural)]
pub struct AccessType {
    pub read_access: bool,
    pub write_access: bool,
}

/// Whether the bytes `b` spell `word` (lower-case ASCII letters), in any letter case.
pub open spec fn is_word(b: Seq<u8>, word: Seq<u8>) -> bool {
    b.len() == word.len() && forall|i: int| 0 <= i < b.len() ==> (#[trigger] b[i] == word[i] || b[i] + 32 == word[i])
}

fn byte_matches(b: u8, lower: u8) -> (r: bool)
    requires
        97 <= lower <= 122,
    ensures
        r == (b == lower || b + 32 == lower),
{
    b == lower || b as u16 + 32 == lower as u16
}

fn is_two_letters(b: &[u8], first: u8, second: u8) -> (r: bool)
    requires
        97 <= first <= 122,
        97 <= second <= 122,
    ensures
        r == is_word(b@, seq![first, second]),
{
    let r = b.len() == 2 && byte_matches(b[0], first) && byte_matches(b[1], second);
    proof {
        if b@.len() == 2 {
            assert(r == is_word(b@, seq![first, second])) by {
                if is_word(b@, seq![first, second]) {
                    assert(b@[0] == first || b@[0] + 32 == first);
                    assert(b@[1] == second || b@[1] + 32 == second);
                }
            }
        }
    }
    r
}

impl AccessType {
    /// The access type with the given rights.
    pub fn new(read: bool, write: bool) -> (r: Self)
        ensures
            r == (AccessType { read_access: read, write_access: write }),
    {
        AccessType { read_access: read, write_access: write }
    }

    /// The access type that an EDS file writes as `rw`, `ro` or `wo`, in any
    /// letter case; any other text gives no access.
    pub fn from_str(s: &str) -> (r: Self)
        ensures
            r == (if is_word(s.spec_bytes(), seq![114u8, 119u8]) {
                AccessType { read_access: true, write_access: true }
            } else if is_word(s.spec_bytes(), seq![114u8, 111u8]) {
                AccessType { read_access: true, write_access: false }
            } else if is_word(s.spec_bytes(), seq![119u8, 111u8]) {
                AccessType { read_access: false, write_access: true }
            } else {
                AccessType { read_access: false, write_access: false }
            }),
    {
        let b = s.as_bytes();
        if is_two_letters(b, 114, 119) {
            AccessType { read_access: true, write_access: true }
        } else if is_two_letters(b, 114, 111) {
            AccessType { read_access: true, write_access: false }
        } else if is_two_letters(b, 119, 111) {
            AccessType { read_access: false, write_access: true }
        } else {
            AccessType { read_access: false, write_access: false }
        }
    }

    /// Whether the entry can be read.
    pub fn is_readable(&self) -> (r: bool)
        ensures
            r == self.read_access,
    {
        self.read_access
    }

    /// Whether the entry can be written.
    pub fn is_writable(&self) -> (r: bool)
        ensures
            r == self.write_access,
    {
        self.write_access
    }
}

/// The raw bytes of an object dictionary entry.
#[derive(Debug, Clone)]
pub struct Value {
    data: Vec<u8>,
}

impl View for Value {
    type V = Seq<u8>;

    closed spec fn view(&self) -> Seq<u8> {
        self.data@
    }
}

impl Value {
    /// The value with a copy of the given bytes.
    pub fn from_bytes(data: &[u8]) -> (r: Self)
        ensures
            r@ == data@,
    {
        let mut v: Vec<u8> = Vec::new();
        crate::upload::append_bytes(&mut v, data);
        assert(v@ =~= data@);
        Value { data: v }
    }

    /// Replace the bytes of the value.
    pub fn set_data(&mut self, data: Vec<u8>)
        ensures
            final(self)@ == data@,
    {
        self.data = data;
    }

    /// The bytes of the value.
    pub fn as_slice(&self) -> (r: &[u8])
        ensures
            r@ == self@,
    {
        self.data.as_slice()
    }
}

} // verus!
