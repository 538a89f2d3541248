//! Access to the data of a `*.sub` file that is modified in place.
use vstd::prelude::*;

verus! {

/// A window on data that can be modified: the bytes that are left to go
/// through.
pub struct DataAccessor<'a> {
    /// The bytes that are left.
    pub data: &'a mut [u8],
}

impl<'a> DataAccessor<'a> {
    /// Leaves out the first `bytes` bytes of what is left.
    pub fn shift(&'a mut self, bytes: usize)
        requires
            bytes <= old(self).data@.len(),
        ensures
            final(self).data@ == old(self).data@.skip(bytes as int),
    {
        let (_, rest) = self.data.split_at_mut(bytes);
        self.data = rest;
    }

    /// Leaves out all that is left.
    pub fn clear(&'a mut self)
        ensures
            final(self).data@.len() == 0,
    {
        let len: usize = self.data.len();
        let (_, rest) = self.data.split_at_mut(len);
        self.data = rest;
    }
}

} // verus!
