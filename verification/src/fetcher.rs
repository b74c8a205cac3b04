//! Reading from a bus while keeping the record of the reads.

use crate::context::{AddressError, Bus};
use crate::trace::{covers, pair_run, Access};
use vstd::prelude::*;

verus! {

/// A bus, with the record of every read made through this value.
///
/// The record exists in proofs only. It is what the contracts of the
/// operations that read from a bus are stated over.
pub struct Fetcher<'a> {
    bus: &'a dyn Bus,
    log: Ghost<Seq<Access>>,
}

impl<'a> Fetcher<'a> {
    /// The reads made so far, oldest first.
    pub closed spec fn log(&self) -> Seq<Access> {
        self.log@
    }

    /// Starts an empty record for `bus`.
    pub fn new(bus: &'a dyn Bus) -> (f: Self)
        ensures
            f.log() == Seq::<Access>::empty(),
    {
        Fetcher { bus, log: Ghost(Seq::empty()) }
    }

    /// Reads the byte at `at`.
    pub fn get(&mut self, at: u16) -> (r: Result<u8, AddressError>)
        ensures
            final(self).log() == old(self).log().push(Access::Byte { at, got: r }),
    {
        let r = self.bus.get(at);
        self.log = Ghost(self.log@.push(Access::Byte { at, got: r }));
        r
    }

    /// Reads the word at `at`.
    pub fn get_pointer(&mut self, at: u16) -> (r: Result<u16, AddressError>)
        ensures
            final(self).log() == old(self).log().push(Access::Word { at, word: r }),
    {
        let r = self.bus.get_pointer(at);
        self.log = Ghost(self.log@.push(Access::Word { at, word: r }));
        r
    }

    /// Reads the byte at `first` and then the byte at `second`. The second
    /// read is not made where the first fails.
    pub fn get_pair(&mut self, first: u16, second: u16) -> (r: Result<(u8, u8), AddressError>)
        ensures
            old(self).log().is_prefix_of(final(self).log()),
            covers(
                pair_run(final(self).log(), old(self).log().len() as int, first, second),
                final(self).log(),
                old(self).log().len() as int,
                r,
            ),
    {
        let lo = match self.get(first) {
            Ok(b) => b,
            Err(e) => {
                return Err(e);
            },
        };
        let hi = match self.get(second) {
            Ok(b) => b,
            Err(e) => {
                return Err(e);
            },
        };
        Ok((lo, hi))
    }
}

} // verus!
