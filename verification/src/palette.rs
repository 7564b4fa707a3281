//! The palette store: a raw buffer of 2-byte color entries, read whole
//! from a header-given position or left untouched when no entries are
//! declared.
use vstd::prelude::*;

use crate::BtiError;

verus! {

/// Raw palette bytes, two per entry; empty when the texture has none.
#[derive(Clone, Debug, PartialEq, Eq)]
pub struct Palette {
    pub data: Vec<u8>,
}

impl Default for Palette {
    fn default() -> (r: Self)
        ensures
            r.data@ == Seq::<u8>::empty(),
    {
        Palette { data: Vec::new() }
    }
}

impl Palette {
    /// Reads exactly `entrycount * 2` bytes at `offset`; zero entries read
    /// nothing and keep the buffer as it is; too short a source is an
    /// `IOError` and also leaves the buffer as it is.
    pub fn load(&mut self, data: &[u8], offset: usize, entrycount: u32) -> (r: Result<
        (),
        BtiError,
    >)
        ensures
            (r == Ok::<(), BtiError>(())) <==> (entrycount == 0 || offset + 2 * (
            entrycount as int) <= data@.len()),
            (r is Err) ==> r == Err::<(), BtiError>(BtiError::IOError),
            entrycount == 0 ==> final(self).data@ == old(self).data@,
            entrycount > 0 && offset + 2 * (entrycount as int) <= data@.len()
                ==> final(self).data@ == data@.subrange(offset as int, offset + 2 * (entrycount as int)),
            (r is Err) ==> final(self).data@ == old(self).data@,
    {
        if entrycount == 0 {
            return Ok(());
        }
        let dlen: usize = data.len();
        if offset > dlen {
            return Err(BtiError::IOError);
        }
        let need: u64 = 2 * (entrycount as u64);
        if need > (dlen - offset) as u64 {
            return Err(BtiError::IOError);
        }
        let end: usize = offset + (need as usize);
        self.data = vstd::slice::slice_to_vec(vstd::slice::slice_subrange(data, offset, end));
        Ok(())
    }
}

} // verus!
