//! Other constant byte strings: PKCS #1 digest prefixes.
use vstd::prelude::*;

use crate::endian::ConstTable;

verus! {

/// The DER prefix of a PKCS #1 DigestInfo for MD2.
pub fn pkcs_digest_md2() -> (r: ConstTable)
    ensures
        r.width() == 1,
        r.values().len() == 18,
{
    let v: Vec<u8> = vec![
        0x30, 0x20, 0x30, 0x0c, 0x06, 0x08, 0x2a, 0x86, 0x48, 0x86, 0xf7, 0x0d,
        0x02, 0x02, 0x05, 0x00, 0x04, 0x10,
    ];
    ConstTable::U8(v)
}

/// The DER prefix of a PKCS #1 DigestInfo for MD5.
pub fn pkcs_digest_md5() -> (r: ConstTable)
    ensures
        r.width() == 1,
        r.values().len() == 18,
{
    let v: Vec<u8> = vec![
        0x30, 0x20, 0x30, 0x0c, 0x06, 0x08, 0x2a, 0x86, 0x48, 0x86, 0xf7, 0x0d,
        0x02, 0x05, 0x05, 0x00, 0x04, 0x10,
    ];
    ConstTable::U8(v)
}

/// The DER prefix of a PKCS #1 DigestInfo for RIPEMD160.
pub fn pkcs_digest_ripemd160() -> (r: ConstTable)
    ensures
        r.width() == 1,
        r.values().len() == 15,
{
    let v: Vec<u8> = vec![
        0x30, 0x21, 0x30, 0x09, 0x06, 0x05, 0x2b, 0x24, 0x03, 0x02, 0x01, 0x05,
        0x00, 0x04, 0x14,
    ];
    ConstTable::U8(v)
}

/// The DER prefix of a PKCS #1 DigestInfo for TIGER.
pub fn pkcs_digest_tiger() -> (r: ConstTable)
    ensures
        r.width() == 1,
        r.values().len() == 19,
{
    let v: Vec<u8> = vec![
        0x30, 0x29, 0x30, 0x0d, 0x06, 0x09, 0x2b, 0x06, 0x01, 0x04, 0x01, 0xda,
        0x47, 0x0c, 0x02, 0x05, 0x00, 0x04, 0x18,
    ];
    ConstTable::U8(v)
}

/// The DER prefix of a PKCS #1 DigestInfo for SHA256.
pub fn pkcs_digest_sha256() -> (r: ConstTable)
    ensures
        r.width() == 1,
        r.values().len() == 19,
{
    let v: Vec<u8> = vec![
        0x30, 0x31, 0x30, 0x0d, 0x06, 0x09, 0x60, 0x86, 0x48, 0x01, 0x65, 0x03,
        0x04, 0x02, 0x01, 0x05, 0x00, 0x04, 0x20,
    ];
    ConstTable::U8(v)
}

/// The DER prefix of a PKCS #1 DigestInfo for SHA384.
pub fn pkcs_digest_sha384() -> (r: ConstTable)
    ensures
        r.width() == 1,
        r.values().len() == 19,
{
    let v: Vec<u8> = vec![
        0x30, 0x41, 0x30, 0x0d, 0x06, 0x09, 0x60, 0x86, 0x48, 0x01, 0x65, 0x03,
        0x04, 0x02, 0x02, 0x05, 0x00, 0x04, 0x30,
    ];
    ConstTable::U8(v)
}

/// The DER prefix of a PKCS #1 DigestInfo for SHA512.
pub fn pkcs_digest_sha512() -> (r: ConstTable)
    ensures
        r.width() == 1,
        r.values().len() == 19,
{
    let v: Vec<u8> = vec![
        0x30, 0x51, 0x30, 0x0d, 0x06, 0x09, 0x60, 0x86, 0x48, 0x01, 0x65, 0x03,
        0x04, 0x02, 0x03, 0x05, 0x00, 0x04, 0x40,
    ];
    ConstTable::U8(v)
}

} // verus!
