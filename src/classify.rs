//! The suite classifier: a cipher-suite name determines the protocol
//! generation it belongs to and a coarse security tier.

use vstd::prelude::*;
use crate::text::{chars_of, contains_str, has_infix, has_prefix, starts_with_str};

verus! {

/// The protocol generation a cipher suite is attributed to.
#[derive(PartialEq, Eq, Structural, Clone, Copy, Debug)]
pub enum SuiteGeneration {
    Tls12,
    Tls13,
}

/// A coarse, qualitative ranking of a cipher suite.
#[derive(PartialEq, Eq, Structural, Clone, Copy, Debug)]
pub enum SecurityLevel {
    Secure,
    Moderate,
    Weak,
    Insecure,
}

/// The classification of a suite name. The rules are a priority cascade:
/// the first that matches decides.
pub open spec fn suite_class(s: Seq<char>) -> (SuiteGeneration, SecurityLevel) {
    if has_prefix(s, "TLS_AES_"@) || has_prefix(s, "TLS_CHACHA20_"@) {
        (SuiteGeneration::Tls13, SecurityLevel::Secure)
    } else if has_infix(s, "_GCM_"@) {
        if has_infix(s, "ECDHE"@) {
            (SuiteGeneration::Tls12, SecurityLevel::Secure)
        } else if has_infix(s, "RSA_WITH"@) {
            (SuiteGeneration::Tls12, SecurityLevel::Moderate)
        } else {
            (SuiteGeneration::Tls12, SecurityLevel::Secure)
        }
    } else if has_infix(s, "_CHACHA20_POLY1305_"@) {
        (SuiteGeneration::Tls12, SecurityLevel::Secure)
    } else if has_infix(s, "_CBC_SHA384"@) || has_infix(s, "_CBC_SHA256"@) {
        (SuiteGeneration::Tls12, SecurityLevel::Moderate)
    } else if has_infix(s, "_CBC_SHA"@) {
        if has_infix(s, "ECDHE"@) {
            (SuiteGeneration::Tls12, SecurityLevel::Weak)
        } else {
            (SuiteGeneration::Tls12, SecurityLevel::Insecure)
        }
    } else {
        (SuiteGeneration::Tls12, SecurityLevel::Moderate)
    }
}

/// How a generation is written in a report.
pub open spec fn generation_text(g: SuiteGeneration) -> Seq<char> {
    match g {
        SuiteGeneration::Tls12 => "TLSv1.2"@,
        SuiteGeneration::Tls13 => "TLSv1.3"@,
    }
}

/// How a security tier is written in a report.
pub open spec fn level_text(l: SecurityLevel) -> Seq<char> {
    match l {
        SecurityLevel::Secure => "secure"@,
        SecurityLevel::Moderate => "moderate"@,
        SecurityLevel::Weak => "weak"@,
        SecurityLevel::Insecure => "insecure"@,
    }
}

/// The generation text of a suite name.
pub open spec fn suite_version_text(s: Seq<char>) -> Seq<char> {
    generation_text(suite_class(s).0)
}

/// The tier text of a suite name.
pub open spec fn suite_level_text(s: Seq<char>) -> Seq<char> {
    level_text(suite_class(s).1)
}

/// Classifies a suite name given as characters.
pub fn classify_suite(s: &Vec<char>) -> (r: (SuiteGeneration, SecurityLevel))
    ensures
        r == suite_class(s@),
{
    if starts_with_str(s, "TLS_AES_") || starts_with_str(s, "TLS_CHACHA20_") {
        (SuiteGeneration::Tls13, SecurityLevel::Secure)
    } else if contains_str(s, "_GCM_") {
        if contains_str(s, "ECDHE") {
            (SuiteGeneration::Tls12, SecurityLevel::Secure)
        } else if contains_str(s, "RSA_WITH") {
            (SuiteGeneration::Tls12, SecurityLevel::Moderate)
        } else {
            (SuiteGeneration::Tls12, SecurityLevel::Secure)
        }
    } else if contains_str(s, "_CHACHA20_POLY1305_") {
        (SuiteGeneration::Tls12, SecurityLevel::Secure)
    } else if contains_str(s, "_CBC_SHA384") || contains_str(s, "_CBC_SHA256") {
        (SuiteGeneration::Tls12, SecurityLevel::Moderate)
    } else if contains_str(s, "_CBC_SHA") {
        if contains_str(s, "ECDHE") {
            (SuiteGeneration::Tls12, SecurityLevel::Weak)
        } else {
            (SuiteGeneration::Tls12, SecurityLevel::Insecure)
        }
    } else {
        (SuiteGeneration::Tls12, SecurityLevel::Moderate)
    }
}

/// The report text of a generation.
pub fn generation_string(g: SuiteGeneration) -> (r: String)
    ensures
        r@ == generation_text(g),
{
    match g {
        SuiteGeneration::Tls12 => String::from_str("TLSv1.2"),
        SuiteGeneration::Tls13 => String::from_str("TLSv1.3"),
    }
}

/// The report text of a tier.
pub fn level_string(l: SecurityLevel) -> (r: String)
    ensures
        r@ == level_text(l),
{
    match l {
        SecurityLevel::Secure => String::from_str("secure"),
        SecurityLevel::Moderate => String::from_str("moderate"),
        SecurityLevel::Weak => String::from_str("weak"),
        SecurityLevel::Insecure => String::from_str("insecure"),
    }
}

/// The protocol generation and security tier of a cipher-suite name, as
/// report text. Every name gets exactly one pair; the tier is one of
/// `secure`, `moderate`, `weak` or `insecure`.
pub fn get_cipher_suite_info(suite_name: &str) -> (r: (String, String))
    ensures
        r.0@ == suite_version_text(suite_name@),
        r.1@ == suite_level_text(suite_name@),
        r.0@ == "TLSv1.2"@ || r.0@ == "TLSv1.3"@,
        r.1@ == "secure"@ || r.1@ == "moderate"@ || r.1@ == "weak"@ || r.1@ == "insecure"@,
{
    let (g, l) = classify_suite(&chars_of(suite_name));
    (generation_string(g), level_string(l))
}

} // verus!
