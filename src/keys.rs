//! The rules of DSA key-pair export: which key sizes are generated and how
//! the keys are written out.

use vstd::prelude::*;
use crate::hex::{format_hex, hex_lines};
use crate::media::{decimal, decimal_text};

verus! {

/// An exported key pair, and the format it was written in.
#[derive(Clone, Debug, PartialEq, Eq)]
pub struct DsaKeyPair {
    pub public_key: String,
    pub private_key: String,
    pub format: String,
}

/// A signature, DER-encoded and then base64-encoded.
#[derive(Clone, Debug, PartialEq, Eq)]
pub struct DsaSignResult {
    pub signature: String,
}

/// Whether a signature checked out.
#[derive(PartialEq, Eq, Structural, Clone, Copy, Debug)]
pub struct DsaVerifyResult {
    pub valid: bool,
}

/// The DSA parameter sizes that keys are generated with: the modulus
/// length in bits, and the subgroup length.
#[derive(PartialEq, Eq, Structural, Clone, Copy, Debug)]
pub enum DsaKeySize {
    Dsa1024With160,
    Dsa2048With256,
    Dsa3072With256,
}

/// How the keys of a pair are written out.
#[derive(PartialEq, Eq, Structural, Clone, Copy, Debug)]
pub enum KeyEncoding {
    /// PKCS#8 / SubjectPublicKeyInfo PEM.
    Pem,
    /// DER in uppercase hexadecimal, 32 digits to a line.
    DerHex,
}

/// The parameter size for a key size in bits, if keys of that size are made.
pub open spec fn size_for_bits(bits: u32) -> Option<DsaKeySize> {
    if bits == 1024 {
        Some(DsaKeySize::Dsa1024With160)
    } else if bits == 2048 {
        Some(DsaKeySize::Dsa2048With256)
    } else if bits == 3072 {
        Some(DsaKeySize::Dsa3072With256)
    } else {
        None
    }
}

/// The parameter size for a key size in bits; other sizes are refused.
pub fn dsa_key_size(bits: u32) -> (r: Result<DsaKeySize, String>)
    ensures
        match size_for_bits(bits) {
            Some(s) => r == Ok::<DsaKeySize, String>(s),
            None => r is Err && r->Err_0@ == "Unsupported key size: "@ + decimal_text(bits as nat)
                + ". Supported sizes: 1024, 2048, 3072"@,
        },
{
    if bits == 1024 {
        Ok(DsaKeySize::Dsa1024With160)
    } else if bits == 2048 {
        Ok(DsaKeySize::Dsa2048With256)
    } else if bits == 3072 {
        Ok(DsaKeySize::Dsa3072With256)
    } else {
        let mut m = String::from_str("Unsupported key size: ");
        m.append(decimal(bits).as_str());
        m.append(". Supported sizes: 1024, 2048, 3072");
        Err(m)
    }
}

/// The encoding a format name asks for: PEM for `pem`, hexadecimal DER for
/// any other name.
pub fn key_encoding(format: &str) -> (r: KeyEncoding)
    ensures
        r == (if format@ == "pem"@ {
            KeyEncoding::Pem
        } else {
            KeyEncoding::DerHex
        }),
{
    if crate::names::same_text(format, "pem") {
        KeyEncoding::Pem
    } else {
        KeyEncoding::DerHex
    }
}

/// A key pair written out from its DER encodings, in hexadecimal.
pub fn hex_key_pair(public_der: &[u8], private_der: &[u8], format: String) -> (r: DsaKeyPair)
    ensures
        r.public_key@ == hex_lines(public_der@),
        r.private_key@ == hex_lines(private_der@),
        r.format == format,
{
    DsaKeyPair { public_key: format_hex(public_der), private_key: format_hex(private_der), format }
}

} // verus!
