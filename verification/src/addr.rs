//! The address codec: conversion between a kernel-level socket address
//! record (a two-byte family discriminant followed by fourteen opaque data
//! bytes) and a generic IP address value. For IPv4 the four address octets
//! sit at data offsets 2 through 5; all other data bytes are zero on encode
//! and ignored on decode. IPv6 records are recognised but rejected.

use vstd::prelude::*;

verus! {

/// Address-family discriminant for IPv4, as the kernel defines it.
pub const AF_INET: u16 = 2;

/// Address-family discriminant for IPv6, as the kernel defines it.
pub const AF_INET6: u16 = 10;

/// Number of opaque data bytes in an address record.
pub const SA_DATA_LEN: usize = 14;

/// A generic IP address value: four octets for IPv4, or eight 16-bit
/// groups for IPv6.
#[derive(Clone, Copy, Debug, PartialEq, Eq, Structural)]
pub enum IpAddress {
    V4(u8, u8, u8, u8),
    V6(u16, u16, u16, u16, u16, u16, u16, u16),
}

/// Everything that can go wrong short of the kernel itself refusing.
#[derive(Clone, Copy, Debug, PartialEq, Eq, Structural)]
pub enum IfError {
    /// The address or record is IPv6, which this crate does not support.
    UnsupportedFamily,
    /// The record's family discriminant is neither the IPv4 nor the IPv6 tag.
    UnknownFamily,
    /// The interface name does not fit the fixed-width name field.
    NameTooLong,
    /// The interface name holds a NUL byte, which the NUL-terminated
    /// name field cannot carry.
    MalformedName,
    /// The control operation named an interface that does not exist.
    NoSuchInterface,
}

/// A kernel-level socket address record: a family discriminant followed by
/// a fixed number of opaque data bytes.
#[derive(Debug)]
pub struct AddrRecord {
    pub family: u16,
    pub data: Vec<u8>,
}

/// The data area of an IPv4 address record: the four octets at offsets
/// 2 through 5, every other byte zero.
pub open spec fn v4_data(a: u8, b: u8, c: u8, d: u8) -> Seq<u8> {
    seq![0u8, 0u8, a, b, c, d, 0u8, 0u8, 0u8, 0u8, 0u8, 0u8, 0u8, 0u8]
}

/// What decoding an address record yields: the IPv4 octets at data offsets
/// 2 through 5, or the error that the family discriminant earns.
pub open spec fn decode_spec(family: u16, data: Seq<u8>) -> Result<IpAddress, IfError> {
    if family == AF_INET {
        Ok(IpAddress::V4(data[2], data[3], data[4], data[5]))
    } else if family == AF_INET6 {
        Err(IfError::UnsupportedFamily)
    } else {
        Err(IfError::UnknownFamily)
    }
}

impl AddrRecord {
    /// A record is well formed when its data area has the fixed width.
    pub open spec fn wf(&self) -> bool {
        self.data@.len() == SA_DATA_LEN
    }

    /// A record with family zero and every data byte zero, as the kernel
    /// expects an unfilled address payload.
    pub fn zeroed() -> (r: AddrRecord)
        ensures
            r.wf(),
            r.family == 0,
            forall|i: int| 0 <= i < SA_DATA_LEN ==> r.data@[i] == 0,
    {
        let mut data: Vec<u8> = Vec::new();
        let mut i: usize = 0;
        while i < SA_DATA_LEN
            invariant
                i <= SA_DATA_LEN,
                data@.len() == i,
                forall|j: int| 0 <= j < i ==> data@[j] == 0,
            decreases SA_DATA_LEN - i,
        {
            data.push(0);
            i = i + 1;
        }
        AddrRecord { family: 0, data }
    }

    /// A fresh record with the same family and the same data bytes.
    pub fn copy_of(&self) -> (r: AddrRecord)
        ensures
            r.family == self.family,
            r.data@ == self.data@,
    {
        let mut data: Vec<u8> = Vec::new();
        let mut i: usize = 0;
        while i < self.data.len()
            invariant
                i <= self.data@.len(),
                data@.len() == i,
                forall|j: int| 0 <= j < i ==> data@[j] == self.data@[j],
            decreases self.data@.len() - i,
        {
            data.push(self.data[i]);
            i = i + 1;
        }
        proof {
            assert(data@ =~= self.data@);
        }
        AddrRecord { family: self.family, data }
    }
}

/// Decode an address record into a generic IP address: an IPv4 record
/// yields the four octets at data offsets 2 through 5; an IPv6 record is
/// rejected as unsupported; any other discriminant is unknown.
pub fn ip_from_sockaddr(rec: &AddrRecord) -> (r: Result<IpAddress, IfError>)
    requires
        rec.wf(),
    ensures
        r == decode_spec(rec.family, rec.data@),
{
    if rec.family == AF_INET {
        Ok(IpAddress::V4(rec.data[2], rec.data[3], rec.data[4], rec.data[5]))
    } else if rec.family == AF_INET6 {
        Err(IfError::UnsupportedFamily)
    } else {
        Err(IfError::UnknownFamily)
    }
}

/// Encode a generic IP address as an address record: an IPv4 address gives
/// a record tagged with the IPv4 family whose data area carries the four
/// octets at offsets 2 through 5 and zero everywhere else; an IPv6 address
/// is rejected as unsupported.
pub fn sockaddr_from_ip(ip_addr: &IpAddress) -> (r: Result<AddrRecord, IfError>)
    ensures
        (*ip_addr matches IpAddress::V4(a, b, c, d) ==> r matches Ok(rec)
            && rec.wf()
            && rec.family == AF_INET
            && rec.data@ == v4_data(a, b, c, d)),
        (*ip_addr is V6 ==> r == Err::<AddrRecord, IfError>(IfError::UnsupportedFamily)),
{
    match ip_addr {
        IpAddress::V4(a, b, c, d) => {
            let mut rec = AddrRecord::zeroed();
            rec.family = AF_INET;
            rec.data[2] = *a;
            rec.data[3] = *b;
            rec.data[4] = *c;
            rec.data[5] = *d;
            proof {
                assert(rec.data@ =~= v4_data(*a, *b, *c, *d));
            }
            Ok(rec)
        }
        IpAddress::V6(..) => Err(IfError::UnsupportedFamily),
    }
}

/// Round trip: decoding the record that encoding produces for any IPv4
/// address yields exactly that address back.
pub proof fn lemma_encode_decode_round_trip(ip: IpAddress)
    requires
        ip is V4,
    ensures
        (ip matches IpAddress::V4(a, b, c, d) ==>
            decode_spec(AF_INET, v4_data(a, b, c, d)) == Ok::<IpAddress, IfError>(ip)),
{
}

} // verus!
