//! A model of the kernel's interface configuration table: the state that
//! the get-address and set-address control calls read and write. Each
//! entry pairs a fixed-width interface name field with the interface's
//! current address record. The surrounding program issues the real
//! control calls against the kernel; this table gives the same two
//! operations a checked meaning, so that the whole get/set pipeline can
//! be exercised end to end.

use vstd::prelude::*;

use crate::addr::AddrRecord;
use crate::addr::IfError;
use crate::iface::IfReq;

verus! {

/// The interface configuration table: one address record per interface
/// name.
pub struct InterfaceTable {
    pub entries: Vec<(Vec<u8>, AddrRecord)>,
}

/// True when the two byte slices hold the same bytes.
fn bytes_eq(a: &[u8], b: &[u8]) -> (r: bool)
    ensures
        r == (a@ == b@),
{
    if a.len() != b.len() {
        return false;
    }
    let n = a.len();
    let mut i: usize = 0;
    while i < n
        invariant
            i <= n,
            n == a@.len(),
            n == b@.len(),
            forall|j: int| 0 <= j < i ==> a@[j] == b@[j],
        decreases n - i,
    {
        if a[i] != b[i] {
            return false;
        }
        i = i + 1;
    }
    proof {
        assert(a@ =~= b@);
    }
    true
}

impl InterfaceTable {
    /// A table is well formed when its interface names are pairwise
    /// distinct and every address record is well formed.
    pub open spec fn wf(&self) -> bool {
        &&& forall|i: int| 0 <= i < self.entries@.len() ==> (#[trigger] self.entries@[i]).1.wf()
        &&& forall|i: int, j: int|
            0 <= i < j < self.entries@.len() ==> self.entries@[i].0@ != self.entries@[j].0@
    }

    /// True when the table has an interface under this name field.
    pub open spec fn contains_name(&self, name: Seq<u8>) -> bool {
        exists|i: int| 0 <= i < self.entries@.len() && (#[trigger] self.entries@[i]).0@ == name
    }

    /// An empty table: no interfaces.
    pub fn new() -> (r: InterfaceTable)
        ensures
            r.wf(),
            r.entries@.len() == 0,
    {
        InterfaceTable { entries: Vec::new() }
    }

    /// Add an interface under a name field not yet in the table, with its
    /// current address record.
    pub fn add_interface(&mut self, name: Vec<u8>, rec: AddrRecord)
        requires
            old(self).wf(),
            rec.wf(),
            !old(self).contains_name(name@),
        ensures
            final(self).wf(),
            final(self).entries@ == old(self).entries@.push((name, rec)),
    {
        self.entries.push((name, rec));
    }

    /// The get-address control call: look the interface up by the
    /// record's name field and fill the record's address payload with the
    /// interface's current address. A name the table does not hold earns
    /// the control error and leaves the record untouched.
    pub fn control_get(&self, ifr: &mut IfReq) -> (r: Result<(), IfError>)
        requires
            self.wf(),
            old(ifr).wf(),
        ensures
            final(ifr).wf(),
            final(ifr).name@ == old(ifr).name@,
            (!self.contains_name(old(ifr).name@) ==> r == Err::<(), IfError>(
                IfError::NoSuchInterface,
            ) && *final(ifr) == *old(ifr)),
            (self.contains_name(old(ifr).name@) ==> r is Ok && exists|i: int|
                0 <= i < self.entries@.len() && (#[trigger] self.entries@[i]).0@ == old(ifr).name@
                    && final(ifr).addr.family == self.entries@[i].1.family
                    && final(ifr).addr.data@ == self.entries@[i].1.data@),
    {
        let n = self.entries.len();
        let mut i: usize = 0;
        while i < n
            invariant
                i <= n,
                n == self.entries@.len(),
                self.wf(),
                ifr.wf(),
                *ifr == *old(ifr),
                forall|j: int| 0 <= j < i ==> (#[trigger] self.entries@[j]).0@ != old(ifr).name@,
            decreases n - i,
        {
            if bytes_eq(self.entries[i].0.as_slice(), ifr.name.as_slice()) {
                ifr.addr = self.entries[i].1.copy_of();
                return Ok(());
            }
            i = i + 1;
        }
        Err(IfError::NoSuchInterface)
    }

    /// The set-address control call: look the interface up by the
    /// record's name field and replace the interface's address record
    /// with the record's address payload. A name the table does not hold
    /// earns the control error and leaves the table untouched.
    pub fn control_set(&mut self, ifr: &IfReq) -> (r: Result<(), IfError>)
        requires
            old(self).wf(),
            ifr.wf(),
        ensures
            final(self).wf(),
            (!old(self).contains_name(ifr.name@) ==> r == Err::<(), IfError>(
                IfError::NoSuchInterface,
            ) && final(self).entries@ == old(self).entries@),
            (old(self).contains_name(ifr.name@) ==> r is Ok
                && final(self).entries@.len() == old(self).entries@.len()
                && (exists|i: int|
                    0 <= i < old(self).entries@.len()
                    && (#[trigger] old(self).entries@[i]).0@ == ifr.name@
                    && final(self).entries@[i].0 == old(self).entries@[i].0
                    && final(self).entries@[i].1.family == ifr.addr.family
                    && final(self).entries@[i].1.data@ == ifr.addr.data@
                    && (forall|j: int|
                        0 <= j < old(self).entries@.len() && j != i
                            ==> final(self).entries@[j] == old(self).entries@[j]))),
    {
        let n = self.entries.len();
        let mut i: usize = 0;
        while i < n
            invariant
                i <= n,
                n == self.entries@.len(),
                old(self).wf(),
                ifr.wf(),
                *self == *old(self),
                forall|j: int| 0 <= j < i ==> (#[trigger] self.entries@[j]).0@ != ifr.name@,
            decreases n - i,
        {
            if bytes_eq(self.entries[i].0.as_slice(), ifr.name.as_slice()) {
                self.entries[i].1 = ifr.addr.copy_of();
                proof {
                    assert(forall|k: int|
                        0 <= k < self.entries@.len() ==> (#[trigger] self.entries@[k]).0
                            == old(self).entries@[k].0);
                }
                return Ok(());
            }
            i = i + 1;
        }
        Err(IfError::NoSuchInterface)
    }
}

} // verus!
