use crate::bimap::Internable;
use crate::hashing::{bytes_spec, hash_bytes};
use vstd::prelude::*;
use vstd::utf8::encode_utf8;

verus! {

/// An interned string.
pub type IString = String;

impl Internable for String {
    open spec fn hash_spec(v: Seq<char>) -> u64 {
        bytes_spec(encode_utf8(v))
    }

    fn hash_code(&self) -> (h: u64) {
        hash_bytes(self.as_str().as_bytes())
    }

    fn same(&self, other: &Self) -> (b: bool) {
        *self == *other
    }

    fn duplicate(&self) -> (r: Self) {
        self.clone()
    }
}

} // verus!
