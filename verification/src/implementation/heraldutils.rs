//! Pure helpers that the view calls.
use vstd::prelude::*;

verus! {

/// A collection of pure functions that the view uses.
pub struct HeraldUtils;

impl HeraldUtils {
    /// Whether two byte strings are equal.
    pub fn compare_byte_array(&self, bs1: &[u8], bs2: &[u8]) -> (same: bool)
        ensures
            same == (bs1@ == bs2@),
    {
        if bs1.len() != bs2.len() {
            return false;
        }
        let mut i: usize = 0;
        while i < bs1.len()
            invariant
                i <= bs1@.len(),
                bs1@.len() == bs2@.len(),
                forall|j: int| 0 <= j < i ==> bs1@[j] == bs2@[j],
            decreases bs1@.len() - i,
        {
            if bs1[i] != bs2[i] {
                return false;
            }
            i = i + 1;
        }
        assert(bs1@ =~= bs2@);
        true
    }

    /// Whether `bs` can be a random id: 32 bytes long.
    pub fn is_valid_rand_id(&self, bs: &[u8]) -> (valid: bool)
        ensures
            valid == (bs@.len() == 32),
    {
        bs.len() == 32
    }
}

} // verus!
