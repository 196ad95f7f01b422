//! The interface record: the fixed-layout value that the kernel's
//! get/set address control calls take. It pairs a fixed-width,
//! NUL-padded interface name field with an embedded address record.

use vstd::prelude::*;

use crate::addr::AddrRecord;
use crate::addr::IfError;
use crate::addr::IpAddress;
use crate::addr::decode_spec;
use crate::addr::sockaddr_from_ip;
use crate::addr::ip_from_sockaddr;
use crate::addr::AF_INET;
use crate::addr::v4_data;

verus! {

/// Width of the fixed interface name field, as the kernel defines it.
/// A name must leave room for its NUL terminator, so at most 15 name
/// bytes fit.
pub const IFNAMSIZ: usize = 16;

/// An interface record: the fixed-width name field and the embedded
/// address payload.
#[derive(Debug)]
pub struct IfReq {
    pub name: Vec<u8>,
    pub addr: AddrRecord,
}

/// True of name bytes that fit the fixed-width field: no interior NUL
/// (the field is NUL-terminated) and short enough to leave room for the
/// terminator.
pub open spec fn name_fits(name: Seq<u8>) -> bool {
    name.len() < IFNAMSIZ && no_nul(name)
}

/// True when none of the name bytes is NUL.
pub open spec fn no_nul(name: Seq<u8>) -> bool {
    forall|i: int| 0 <= i < name.len() ==> name[i] != 0
}

/// The fixed-width name field that a name produces: the name bytes
/// followed by NUL padding up to the field width.
pub open spec fn padded_name(name: Seq<u8>) -> Seq<u8>
    recommends
        name.len() <= IFNAMSIZ,
{
    name + Seq::new((IFNAMSIZ - name.len()) as nat, |i: int| 0u8)
}

impl IfReq {
    /// A record is well formed when its name field has the fixed width
    /// and its address payload is well formed.
    pub open spec fn wf(&self) -> bool {
        self.name@.len() == IFNAMSIZ && self.addr.wf()
    }

    /// Build an interface record from a name: the name field carries the
    /// name bytes NUL-padded to the fixed width, and the address payload
    /// is zero-initialised. A name with an interior NUL byte is malformed;
    /// one at or over the field width does not fit.
    pub fn from_name(name: &[u8]) -> (r: Result<IfReq, IfError>)
        ensures
            !no_nul(name@) ==> r == Err::<IfReq, IfError>(IfError::MalformedName),
            no_nul(name@) && name@.len() >= IFNAMSIZ ==> r == Err::<IfReq, IfError>(
                IfError::NameTooLong,
            ),
            (name_fits(name@) ==> r is Ok && r->Ok_0.wf() && r->Ok_0.name@ == padded_name(name@)
                && r->Ok_0.addr.family == 0 && (forall|i: int|
                0 <= i < r->Ok_0.addr.data@.len() ==> r->Ok_0.addr.data@[i] == 0)),
    {
        let n = name.len();
        let mut i: usize = 0;
        while i < n
            invariant
                i <= n,
                n == name@.len(),
                forall|j: int| 0 <= j < i ==> name@[j] != 0,
            decreases n - i,
        {
            if name[i] == 0 {
                return Err(IfError::MalformedName);
            }
            i = i + 1;
        }
        if n >= IFNAMSIZ {
            return Err(IfError::NameTooLong);
        }
        let mut field: Vec<u8> = Vec::new();
        let mut k: usize = 0;
        while k < n
            invariant
                k <= n,
                n == name@.len(),
                field@.len() == k,
                forall|j: int| 0 <= j < k ==> field@[j] == name@[j],
            decreases n - k,
        {
            field.push(name[k]);
            k = k + 1;
        }
        while k < IFNAMSIZ
            invariant
                n <= k <= IFNAMSIZ,
                n == name@.len(),
                field@.len() == k,
                forall|j: int| 0 <= j < n ==> field@[j] == name@[j],
                forall|j: int| n <= j < k ==> field@[j] == 0,
            decreases IFNAMSIZ - k,
        {
            field.push(0);
            k = k + 1;
        }
        proof {
            assert(field@ =~= padded_name(name@));
        }
        Ok(IfReq { name: field, addr: AddrRecord::zeroed() })
    }

}

/// Read the IP address held in an interface record's embedded address
/// payload, as the record stands after a successful get-address control
/// call.
pub fn get_ip(ifr: &IfReq) -> (r: Result<IpAddress, IfError>)
    requires
        ifr.wf(),
    ensures
        r == decode_spec(ifr.addr.family, ifr.addr.data@),
{
    ip_from_sockaddr(&ifr.addr)
}

/// Embed a generic IP address in an interface record's address payload,
/// readying the record for a set-address control call. An IPv4 address
/// replaces the payload; an IPv6 address is rejected and leaves the
/// record untouched.
pub fn set_ip(ifr: &mut IfReq, ip_addr: &IpAddress) -> (r: Result<(), IfError>)
    requires
        old(ifr).wf(),
    ensures
        final(ifr).wf(),
        final(ifr).name@ == old(ifr).name@,
        (*ip_addr matches IpAddress::V4(a, b, c, d) ==> r is Ok
            && final(ifr).addr.family == AF_INET
            && final(ifr).addr.data@ == v4_data(a, b, c, d)),
        (*ip_addr is V6 ==> r == Err::<(), IfError>(IfError::UnsupportedFamily) && *final(ifr)
            == *old(ifr)),
{
    match sockaddr_from_ip(ip_addr) {
        Ok(rec) => {
            ifr.addr = rec;
            Ok(())
        },
        Err(e) => Err(e),
    }
}

} // verus!
