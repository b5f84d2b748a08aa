//! Names in the form the platform loader takes them: bytes closed by a NUL.

use vstd::prelude::*;
use vstd::string::StringSliceAdditionalSpecFns;

verus! {

/// Whether `bytes` holds a NUL byte anywhere.
pub open spec fn has_nul(bytes: Seq<u8>) -> bool {
    exists|i: int| 0 <= i < bytes.len() && bytes[i] == 0u8
}

/// A name that can be handed to a C interface: its bytes hold no NUL, and
/// the stored form ends in a single terminating NUL.
#[derive(Debug)]
pub struct CName {
    terminated: Vec<u8>,
}

impl View for CName {
    type V = Seq<u8>;

    /// The bytes of the name, without the terminator.
    closed spec fn view(&self) -> Seq<u8> {
        self.terminated@.drop_last()
    }
}

impl CName {
    #[verifier::type_invariant]
    spec fn well_formed(self) -> bool {
        &&& self.terminated@.len() >= 1
        &&& self.terminated@.last() == 0u8
        &&& !has_nul(self.terminated@.drop_last())
    }

    /// Encodes `name`. A name with a NUL byte inside cannot be told apart
    /// from its prefix by a C interface, so it has no encoding.
    pub fn from_bytes(name: &[u8]) -> (encoded: Option<CName>)
        ensures
            encoded is Some <==> !has_nul(name@),
            encoded matches Some(c) ==> c@ == name@,
    {
        let mut terminated: Vec<u8> = Vec::new();
        let mut i: usize = 0;
        while i < name.len()
            invariant
                i <= name.len(),
                terminated@ == name@.subrange(0, i as int),
                !has_nul(name@.subrange(0, i as int)),
            decreases name.len() - i,
        {
            let byte: u8 = name[i];
            if byte == 0u8 {
                return None;
            }
            terminated.push(byte);
            proof {
                let before = name@.subrange(0, i as int);
                let after = name@.subrange(0, i + 1);
                assert(after == before.push(byte));
                assert forall|j: int| 0 <= j < after.len() implies after[j] != 0u8 by {
                    if j < i {
                        assert(before[j] == after[j]);
                    }
                }
            }
            i += 1;
        }
        proof {
            assert(name@.subrange(0, i as int) == name@);
        }
        terminated.push(0u8);
        proof {
            assert(terminated@.drop_last() == name@);
        }
        Some(CName { terminated })
    }

    /// Encodes the UTF-8 bytes of `name`.
    pub fn new(name: &str) -> (encoded: Option<CName>)
        ensures
            encoded is Some <==> !has_nul(name.spec_bytes()),
            encoded matches Some(c) ==> c@ == name.spec_bytes(),
    {
        CName::from_bytes(name.as_bytes())
    }

    /// The stored form: the name followed by its terminator, with no other
    /// NUL in it.
    pub fn as_bytes_with_nul(&self) -> (bytes: &Vec<u8>)
        ensures
            bytes@ == self@.push(0u8),
            !has_nul(self@),
    {
        proof {
            use_type_invariant(self);
            assert(self.terminated@ == self.terminated@.drop_last().push(0u8));
        }
        &self.terminated
    }

    /// The number of bytes in the name, the terminator not counted.
    pub fn len(&self) -> (n: usize)
        ensures
            n == self@.len(),
    {
        proof {
            use_type_invariant(self);
        }
        self.terminated.len() - 1
    }
}

} // verus!
