//! Reading the frame of DER encodings: elements with their tags and lengths, the
//! kind of a private key from its PKCS#8 encoding, and a chain of certificates
//! written back to back.

use vstd::prelude::*;
use vstd::slice::slice_subrange;

verus! {

/// The tag of a sequence.
pub const SEQUENCE: u8 = 0x30;

/// The tag of an integer.
pub const INTEGER: u8 = 0x02;

/// The tag of an object identifier.
pub const OBJECT_IDENTIFIER: u8 = 0x06;

/// The tag of an octet string.
pub const OCTET_STRING: u8 = 0x04;

/// One element of an encoding: its tag, and where its contents start and end.
#[derive(Clone, Copy, Debug, PartialEq, Eq, Structural)]
pub struct Element {
    pub tag: u8,
    pub start: usize,
    pub end: usize,
}

/// The length that is written at place `at`, and the number of bytes that it is
/// written in: the byte itself where it is below 128, else the one or two bytes
/// that follow a byte 0x81 or 0x82. Longer lengths are not read.
pub open spec fn length_at(bytes: Seq<u8>, at: int) -> Option<(int, int)> {
    if !(0 <= at < bytes.len()) {
        None
    } else if bytes[at] < 0x80 {
        Some((bytes[at] as int, 1))
    } else if bytes[at] == 0x81 && at + 1 < bytes.len() {
        Some((bytes[at + 1] as int, 2))
    } else if bytes[at] == 0x82 && at + 2 < bytes.len() {
        Some((bytes[at + 1] as int * 256 + bytes[at + 2] as int, 3))
    } else {
        None
    }
}

/// The element that starts at place `at`: a tag, a length, and as many bytes of
/// contents as the length says, all within `bytes`.
pub open spec fn element_at(bytes: Seq<u8>, at: int) -> Option<Element> {
    if !(0 <= at < bytes.len()) {
        None
    } else {
        match length_at(bytes, at + 1) {
            None => None,
            Some((length, width)) => if at + 1 + width + length <= bytes.len() {
                Some(
                    Element {
                        tag: bytes[at],
                        start: (at + 1 + width) as usize,
                        end: (at + 1 + width + length) as usize,
                    },
                )
            } else {
                None
            },
        }
    }
}

/// The element that starts at place `at`, where it has the tag `tag` and ends at
/// or before `limit`.
pub open spec fn tagged_at(bytes: Seq<u8>, at: int, tag: u8, limit: int) -> Option<Element> {
    match element_at(bytes, at) {
        Some(element) => if element.tag == tag && element.end <= limit {
            Some(element)
        } else {
            None
        },
        None => None,
    }
}

/// Reads the element that starts at place `at`.
pub fn read_element(bytes: &[u8], at: usize) -> (r: Option<Element>)
    ensures
        r == element_at(bytes@, at as int),
        r matches Some(element) ==> at < element.start <= element.end <= bytes@.len(),
{
    let len = bytes.len();
    if at >= len || len - at < 2 {
        return None;
    }
    let first = bytes[at + 1];
    let (length, width): (usize, usize) = if first < 0x80 {
        (first as usize, 1)
    } else if first == 0x81 && len - at >= 3 {
        (bytes[at + 2] as usize, 2)
    } else if first == 0x82 && len - at >= 4 {
        (bytes[at + 2] as usize * 256 + bytes[at + 3] as usize, 3)
    } else {
        return None;
    };
    let start = at + 1 + width;
    if len - start < length {
        return None;
    }
    Some(Element { tag: bytes[at], start, end: start + length })
}

/// Reads the element that starts at place `at`, where it has the tag `tag` and
/// ends at or before `limit`.
pub fn read_tagged(bytes: &[u8], at: usize, tag: u8, limit: usize) -> (r: Option<Element>)
    ensures
        r == tagged_at(bytes@, at as int, tag, limit as int),
        r matches Some(element) ==> at < element.start <= element.end <= bytes@.len()
            && element.end <= limit,
{
    match read_element(bytes, at) {
        Some(element) => if element.tag == tag && element.end <= limit {
            Some(element)
        } else {
            None
        },
        None => None,
    }
}

/// Whether `a` and `b` hold the same bytes.
pub fn same_bytes(a: &[u8], b: &[u8]) -> (r: bool)
    ensures
        r == (a@ == b@),
{
    if a.len() != b.len() {
        return false;
    }
    let same = holds(a, 0, a.len(), b);
    assert(a@.subrange(0, a@.len() as int) =~= a@);
    same
}

/// Whether the bytes from `start` to `end` are those of `expected`.
fn holds(bytes: &[u8], start: usize, end: usize, expected: &[u8]) -> (r: bool)
    requires
        start <= end <= bytes@.len(),
    ensures
        r == (bytes@.subrange(start as int, end as int) == expected@),
{
    if end - start != expected.len() {
        return false;
    }
    let mut i: usize = 0;
    while i < expected.len()
        invariant
            i <= expected@.len(),
            start <= end <= bytes@.len(),
            end - start == expected@.len(),
            forall|j: int| 0 <= j < i ==> bytes@[start + j] == expected@[j],
        decreases expected@.len() - i,
    {
        if bytes[start + i] != expected[i] {
            assert(bytes@.subrange(start as int, end as int)[i as int] != expected@[i as int]);
            return false;
        }
        i = i + 1;
    }
    assert(bytes@.subrange(start as int, end as int) =~= expected@);
    true
}

/// The kind of a private key, as the algorithm identifier of its PKCS#8 encoding
/// names it.
#[derive(Clone, Copy, Debug, PartialEq, Eq, Structural)]
pub enum KeyKind {
    /// A key for EdDSA on the curve Ed25519.
    Ed25519,
    /// An RSA key.
    Rsa,
    /// A key on the curve P-256.
    P256,
    /// A key on the curve P-384.
    P384,
    /// A key on the curve P-521.
    P521,
    /// A key of a kind that the library does not sign with.
    Other,
}

/// The object identifier 1.3.101.112, of Ed25519.
pub open spec fn ed25519_name() -> Seq<u8> {
    seq![0x2bu8, 0x65, 0x70]
}

/// The object identifier 1.2.840.113549.1.1.1, of RSA.
pub open spec fn rsa_name() -> Seq<u8> {
    seq![0x2au8, 0x86, 0x48, 0x86, 0xf7, 0x0d, 0x01, 0x01, 0x01]
}

/// The object identifier 1.2.840.113549.1.1.10, of RSA with the PSS padding.
pub open spec fn rsa_pss_name() -> Seq<u8> {
    seq![0x2au8, 0x86, 0x48, 0x86, 0xf7, 0x0d, 0x01, 0x01, 0x0a]
}

/// The object identifier 1.2.840.10045.2.1, of a key on an elliptic curve.
pub open spec fn curve_key_name() -> Seq<u8> {
    seq![0x2au8, 0x86, 0x48, 0xce, 0x3d, 0x02, 0x01]
}

/// The object identifier 1.2.840.10045.3.1.7, of the curve P-256.
pub open spec fn p256_name() -> Seq<u8> {
    seq![0x2au8, 0x86, 0x48, 0xce, 0x3d, 0x03, 0x01, 0x07]
}

/// The object identifier 1.3.132.0.34, of the curve P-384.
pub open spec fn p384_name() -> Seq<u8> {
    seq![0x2bu8, 0x81, 0x04, 0x00, 0x22]
}

/// The object identifier 1.3.132.0.35, of the curve P-521.
pub open spec fn p521_name() -> Seq<u8> {
    seq![0x2bu8, 0x81, 0x04, 0x00, 0x23]
}

/// The kind of the curve that the parameters of an algorithm identifier name:
/// the object identifier that follows the one of the algorithm, at place `at`.
pub open spec fn curve_kind(der: Seq<u8>, at: int, limit: int) -> KeyKind {
    match tagged_at(der, at, OBJECT_IDENTIFIER, limit) {
        None => KeyKind::Other,
        Some(curve) => {
            let name = der.subrange(curve.start as int, curve.end as int);
            if name == p256_name() {
                KeyKind::P256
            } else if name == p384_name() {
                KeyKind::P384
            } else if name == p521_name() {
                KeyKind::P521
            } else {
                KeyKind::Other
            }
        },
    }
}

/// The kind of the private key with the PKCS#8 encoding `der`, or `None` where
/// `der` is no such encoding: a sequence that spans all of `der` and holds an
/// integer (the version), a sequence that starts with an object identifier (the
/// algorithm identifier), and an octet string (the key).
pub open spec fn key_kind(der: Seq<u8>) -> Option<KeyKind> {
    match tagged_at(der, 0, SEQUENCE, der.len() as int) {
        None => None,
        Some(outer) => if outer.end != der.len() {
            None
        } else {
            match tagged_at(der, outer.start as int, INTEGER, outer.end as int) {
                None => None,
                Some(version) => match tagged_at(
                    der,
                    version.end as int,
                    SEQUENCE,
                    outer.end as int,
                ) {
                    None => None,
                    Some(algorithm) => match tagged_at(
                        der,
                        algorithm.start as int,
                        OBJECT_IDENTIFIER,
                        algorithm.end as int,
                    ) {
                        None => None,
                        Some(name) => match tagged_at(
                            der,
                            algorithm.end as int,
                            OCTET_STRING,
                            outer.end as int,
                        ) {
                            None => None,
                            Some(_) => Some(
                                named_kind(
                                    der,
                                    der.subrange(name.start as int, name.end as int),
                                    name.end as int,
                                    algorithm.end as int,
                                ),
                            ),
                        },
                    },
                },
            }
        },
    }
}

/// The kind of key that the object identifier `name` stands for; for a key on
/// an elliptic curve, the parameters behind the name tell the curve.
pub open spec fn named_kind(der: Seq<u8>, name: Seq<u8>, parameters: int, limit: int) -> KeyKind {
    if name == ed25519_name() {
        KeyKind::Ed25519
    } else if name == rsa_name() || name == rsa_pss_name() {
        KeyKind::Rsa
    } else if name == curve_key_name() {
        curve_kind(der, parameters, limit)
    } else {
        KeyKind::Other
    }
}

/// Tells the kind of the curve from the parameters of an algorithm identifier.
fn read_curve_kind(der: &[u8], at: usize, limit: usize) -> (r: KeyKind)
    ensures
        r == curve_kind(der@, at as int, limit as int),
{
    match read_tagged(der, at, OBJECT_IDENTIFIER, limit) {
        None => KeyKind::Other,
        Some(curve) => {
            let p256: [u8; 8] = [0x2a, 0x86, 0x48, 0xce, 0x3d, 0x03, 0x01, 0x07];
            let p384: [u8; 5] = [0x2b, 0x81, 0x04, 0x00, 0x22];
            let p521: [u8; 5] = [0x2b, 0x81, 0x04, 0x00, 0x23];
            assert(p256@ =~= p256_name());
            assert(p384@ =~= p384_name());
            assert(p521@ =~= p521_name());
            if holds(der, curve.start, curve.end, p256.as_slice()) {
                KeyKind::P256
            } else if holds(der, curve.start, curve.end, p384.as_slice()) {
                KeyKind::P384
            } else if holds(der, curve.start, curve.end, p521.as_slice()) {
                KeyKind::P521
            } else {
                KeyKind::Other
            }
        },
    }
}

/// Tells the kind of a private key from its PKCS#8 encoding.
pub fn read_key_kind(der: &[u8]) -> (r: Option<KeyKind>)
    ensures
        r == key_kind(der@),
{
    let outer = match read_tagged(der, 0, SEQUENCE, der.len()) {
        None => {
            return None;
        },
        Some(outer) => outer,
    };
    if outer.end != der.len() {
        return None;
    }
    let version = match read_tagged(der, outer.start, INTEGER, outer.end) {
        None => {
            return None;
        },
        Some(version) => version,
    };
    let algorithm = match read_tagged(der, version.end, SEQUENCE, outer.end) {
        None => {
            return None;
        },
        Some(algorithm) => algorithm,
    };
    let name = match read_tagged(der, algorithm.start, OBJECT_IDENTIFIER, algorithm.end) {
        None => {
            return None;
        },
        Some(name) => name,
    };
    if read_tagged(der, algorithm.end, OCTET_STRING, outer.end).is_none() {
        return None;
    }
    let ed25519: [u8; 3] = [0x2b, 0x65, 0x70];
    let rsa: [u8; 9] = [0x2a, 0x86, 0x48, 0x86, 0xf7, 0x0d, 0x01, 0x01, 0x01];
    let rsa_pss: [u8; 9] = [0x2a, 0x86, 0x48, 0x86, 0xf7, 0x0d, 0x01, 0x01, 0x0a];
    let curve_key: [u8; 7] = [0x2a, 0x86, 0x48, 0xce, 0x3d, 0x02, 0x01];
    assert(ed25519@ =~= ed25519_name());
    assert(rsa@ =~= rsa_name());
    assert(rsa_pss@ =~= rsa_pss_name());
    assert(curve_key@ =~= curve_key_name());
    let kind = if holds(der, name.start, name.end, ed25519.as_slice()) {
        KeyKind::Ed25519
    } else if holds(der, name.start, name.end, rsa.as_slice()) || holds(
        der,
        name.start,
        name.end,
        rsa_pss.as_slice(),
    ) {
        KeyKind::Rsa
    } else if holds(der, name.start, name.end, curve_key.as_slice()) {
        read_curve_kind(der, name.end, algorithm.end)
    } else {
        KeyKind::Other
    };
    Some(kind)
}

/// Whether `bytes` from place `at` on are certificates written back to back:
/// sequences, one behind the other, up to the end of `bytes`.
pub open spec fn is_chain_from(bytes: Seq<u8>, at: int) -> bool
    decreases bytes.len() - at,
{
    if at >= bytes.len() {
        at == bytes.len()
    } else {
        match tagged_at(bytes, at, SEQUENCE, bytes.len() as int) {
            Some(certificate) => at < certificate.end && is_chain_from(
                bytes,
                certificate.end as int,
            ),
            None => false,
        }
    }
}

/// Whether `bytes` are one or more DER certificates written back to back.
pub open spec fn is_der_chain(bytes: Seq<u8>) -> bool {
    bytes.len() > 0 && is_chain_from(bytes, 0)
}

} // verus!
