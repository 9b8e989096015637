//! Cipher-suite naming: the curated probe list, the canonical (IANA-style)
//! form of a name reported by the diagnostic tool, and the tool's spelling
//! of a canonical name.

use vstd::prelude::*;

verus! {

/// What `str::to_uppercase` makes of a character sequence.
pub uninterp spec fn upper_of(s: Seq<char>) -> Seq<char>;

/// Relies on `str::to_uppercase`: the Unicode uppercase mapping, which
/// depends on the characters alone.
#[verifier::external_body]
fn uppercase(s: &str) -> (r: String)
    ensures
        r@ == upper_of(s@),
{
    s.to_uppercase()
}

/// Every `:` replaced by `_`.
pub open spec fn colons_to_underscores(s: Seq<char>) -> Seq<char> {
    s.map_values(|c: char| if c == ':' { '_' } else { c })
}

/// The canonical form of a name reported by the diagnostic tool: the
/// curated suite it spells, as given or once underscore-delimited and
/// uppercased; otherwise that underscore-delimited uppercase form itself.
pub open spec fn canonical_form(s: Seq<char>) -> Seq<char> {
    match curated_for_spelling(s) {
        Some(n) => n,
        None => {
            let u = upper_of(colons_to_underscores(s));
            match curated_for_spelling(u) {
                Some(n) => n,
                None => u,
            }
        },
    }
}

/// `s` with every `:` replaced by `_`.
pub fn replace_colons(s: &str) -> (r: String)
    ensures
        r@ == colons_to_underscores(s@),
{
    let n = s.unicode_len();
    let mut r = String::new();
    let mut i: usize = 0;
    proof {
        reveal_strlit("_");
    }
    while i < n
        invariant
            n == s@.len(),
            i <= n,
            r@ == colons_to_underscores(s@.subrange(0, i as int)),
            "_"@ == seq!['_'],
        decreases n - i,
    {
        let c = s.get_char(i);
        if c == ':' {
            r.append("_");
        } else {
            r.append(s.substring_char(i, i + 1));
        }
        assert(r@ =~= colons_to_underscores(s@.subrange(0, i + 1)));
        i += 1;
    }
    assert(s@.subrange(0, n as int) =~= s@);
    r
}

/// Normalises a cipher name as the diagnostic tool prints it into the
/// canonical naming scheme used by the curated list: the tool's spelling of
/// a curated suite (as printed, or once uppercased) becomes that suite's
/// name; any other name is underscore-delimited and uppercased.
pub fn convert_openssl_to_iana(openssl_name: &str) -> (r: String)
    ensures
        r@ == canonical_form(openssl_name@),
{
    match curated_name_for(openssl_name) {
        Some(n) => n,
        None => {
            let replaced = replace_colons(openssl_name);
            let upper = uppercase(replaced.as_str());
            match curated_name_for(upper.as_str()) {
                Some(n) => n,
                None => upper,
            }
        },
    }
}

/// Whether two texts are equal.
pub fn same_text(a: &str, b: &str) -> (r: bool)
    ensures
        r == (a@ == b@),
{
    let x = String::from_str(a);
    let y = String::from_str(b);
    x == y
}

/// The diagnostic tool's spelling of a canonical suite name. Names without
/// a known spelling are handed over as they are.
pub open spec fn openssl_spelling(s: Seq<char>) -> Seq<char> {
    if s == "TLS_AES_256_GCM_SHA384"@ {
        "TLS_AES_256_GCM_SHA384"@
    } else if s == "TLS_CHACHA20_POLY1305_SHA256"@ {
        "TLS_CHACHA20_POLY1305_SHA256"@
    } else if s == "TLS_AES_128_GCM_SHA256"@ {
        "TLS_AES_128_GCM_SHA256"@
    } else if s == "TLS_ECDHE_RSA_WITH_AES_256_GCM_SHA384"@ {
        "ECDHE-RSA-AES256-GCM-SHA384"@
    } else if s == "TLS_ECDHE_RSA_WITH_AES_128_GCM_SHA256"@ {
        "ECDHE-RSA-AES128-GCM-SHA256"@
    } else if s == "TLS_ECDHE_ECDSA_WITH_AES_256_GCM_SHA384"@ {
        "ECDHE-ECDSA-AES256-GCM-SHA384"@
    } else if s == "TLS_ECDHE_ECDSA_WITH_AES_128_GCM_SHA256"@ {
        "ECDHE-ECDSA-AES128-GCM-SHA256"@
    } else if s == "TLS_ECDHE_RSA_WITH_CHACHA20_POLY1305_SHA256"@ {
        "ECDHE-RSA-CHACHA20-POLY1305"@
    } else if s == "TLS_ECDHE_ECDSA_WITH_CHACHA20_POLY1305_SHA256"@ {
        "ECDHE-ECDSA-CHACHA20-POLY1305"@
    } else if s == "TLS_RSA_WITH_AES_256_GCM_SHA384"@ {
        "AES256-GCM-SHA384"@
    } else if s == "TLS_RSA_WITH_AES_128_GCM_SHA256"@ {
        "AES128-GCM-SHA256"@
    } else {
        s
    }
}

/// The diagnostic tool's spelling of a canonical suite name.
pub fn convert_iana_to_openssl(iana_name: &str) -> (r: String)
    ensures
        r@ == openssl_spelling(iana_name@),
{
    let s = iana_name;
    let t = if same_text(s, "TLS_AES_256_GCM_SHA384") {
        "TLS_AES_256_GCM_SHA384"
    } else if same_text(s, "TLS_CHACHA20_POLY1305_SHA256") {
        "TLS_CHACHA20_POLY1305_SHA256"
    } else if same_text(s, "TLS_AES_128_GCM_SHA256") {
        "TLS_AES_128_GCM_SHA256"
    } else if same_text(s, "TLS_ECDHE_RSA_WITH_AES_256_GCM_SHA384") {
        "ECDHE-RSA-AES256-GCM-SHA384"
    } else if same_text(s, "TLS_ECDHE_RSA_WITH_AES_128_GCM_SHA256") {
        "ECDHE-RSA-AES128-GCM-SHA256"
    } else if same_text(s, "TLS_ECDHE_ECDSA_WITH_AES_256_GCM_SHA384") {
        "ECDHE-ECDSA-AES256-GCM-SHA384"
    } else if same_text(s, "TLS_ECDHE_ECDSA_WITH_AES_128_GCM_SHA256") {
        "ECDHE-ECDSA-AES128-GCM-SHA256"
    } else if same_text(s, "TLS_ECDHE_RSA_WITH_CHACHA20_POLY1305_SHA256") {
        "ECDHE-RSA-CHACHA20-POLY1305"
    } else if same_text(s, "TLS_ECDHE_ECDSA_WITH_CHACHA20_POLY1305_SHA256") {
        "ECDHE-ECDSA-CHACHA20-POLY1305"
    } else if same_text(s, "TLS_RSA_WITH_AES_256_GCM_SHA384") {
        "AES256-GCM-SHA384"
    } else if same_text(s, "TLS_RSA_WITH_AES_128_GCM_SHA256") {
        "AES128-GCM-SHA256"
    } else {
        s
    };
    String::from_str(t)
}

/// The number of suites on the curated probe list.
pub const CURATED_SUITE_COUNT: usize = 21;

/// The curated probe list: TLS 1.3 AEAD suites, then TLS 1.2 suites from
/// the strongest to the weakest.
pub open spec fn curated_suites() -> Seq<Seq<char>> {
    seq![
        "TLS_AES_256_GCM_SHA384"@,
        "TLS_CHACHA20_POLY1305_SHA256"@,
        "TLS_AES_128_GCM_SHA256"@,
        "TLS_ECDHE_RSA_WITH_AES_256_GCM_SHA384"@,
        "TLS_ECDHE_RSA_WITH_AES_128_GCM_SHA256"@,
        "TLS_ECDHE_ECDSA_WITH_AES_256_GCM_SHA384"@,
        "TLS_ECDHE_ECDSA_WITH_AES_128_GCM_SHA256"@,
        "TLS_ECDHE_RSA_WITH_CHACHA20_POLY1305_SHA256"@,
        "TLS_ECDHE_ECDSA_WITH_CHACHA20_POLY1305_SHA256"@,
        "TLS_RSA_WITH_AES_256_GCM_SHA384"@,
        "TLS_RSA_WITH_AES_128_GCM_SHA256"@,
        "TLS_ECDHE_RSA_WITH_AES_256_CBC_SHA384"@,
        "TLS_ECDHE_RSA_WITH_AES_128_CBC_SHA256"@,
        "TLS_ECDHE_ECDSA_WITH_AES_256_CBC_SHA384"@,
        "TLS_ECDHE_ECDSA_WITH_AES_128_CBC_SHA256"@,
        "TLS_RSA_WITH_AES_256_CBC_SHA256"@,
        "TLS_RSA_WITH_AES_128_CBC_SHA256"@,
        "TLS_ECDHE_RSA_WITH_AES_256_CBC_SHA"@,
        "TLS_ECDHE_RSA_WITH_AES_128_CBC_SHA"@,
        "TLS_RSA_WITH_AES_256_CBC_SHA"@,
        "TLS_RSA_WITH_AES_128_CBC_SHA"@,
    ]
}

/// The curated probe list, in order.
pub fn curated_cipher_suites() -> (r: Vec<String>)
    ensures
        r@.len() == CURATED_SUITE_COUNT,
        r@.map_values(|s: String| s@) == curated_suites(),
{
    let mut r: Vec<String> = Vec::new();
    r.push(String::from_str("TLS_AES_256_GCM_SHA384"));
    r.push(String::from_str("TLS_CHACHA20_POLY1305_SHA256"));
    r.push(String::from_str("TLS_AES_128_GCM_SHA256"));
    r.push(String::from_str("TLS_ECDHE_RSA_WITH_AES_256_GCM_SHA384"));
    r.push(String::from_str("TLS_ECDHE_RSA_WITH_AES_128_GCM_SHA256"));
    r.push(String::from_str("TLS_ECDHE_ECDSA_WITH_AES_256_GCM_SHA384"));
    r.push(String::from_str("TLS_ECDHE_ECDSA_WITH_AES_128_GCM_SHA256"));
    r.push(String::from_str("TLS_ECDHE_RSA_WITH_CHACHA20_POLY1305_SHA256"));
    r.push(String::from_str("TLS_ECDHE_ECDSA_WITH_CHACHA20_POLY1305_SHA256"));
    r.push(String::from_str("TLS_RSA_WITH_AES_256_GCM_SHA384"));
    r.push(String::from_str("TLS_RSA_WITH_AES_128_GCM_SHA256"));
    r.push(String::from_str("TLS_ECDHE_RSA_WITH_AES_256_CBC_SHA384"));
    r.push(String::from_str("TLS_ECDHE_RSA_WITH_AES_128_CBC_SHA256"));
    r.push(String::from_str("TLS_ECDHE_ECDSA_WITH_AES_256_CBC_SHA384"));
    r.push(String::from_str("TLS_ECDHE_ECDSA_WITH_AES_128_CBC_SHA256"));
    r.push(String::from_str("TLS_RSA_WITH_AES_256_CBC_SHA256"));
    r.push(String::from_str("TLS_RSA_WITH_AES_128_CBC_SHA256"));
    r.push(String::from_str("TLS_ECDHE_RSA_WITH_AES_256_CBC_SHA"));
    r.push(String::from_str("TLS_ECDHE_RSA_WITH_AES_128_CBC_SHA"));
    r.push(String::from_str("TLS_RSA_WITH_AES_256_CBC_SHA"));
    r.push(String::from_str("TLS_RSA_WITH_AES_128_CBC_SHA"));
    assert(r@.map_values(|s: String| s@) =~= curated_suites());
    r
}

/// The curated suite whose tool spelling is `s`, if there is one: the
/// inverse of `openssl_spelling` on the curated list.
pub open spec fn curated_for_spelling(s: Seq<char>) -> Option<Seq<char>> {
    if s == "TLS_AES_256_GCM_SHA384"@ {
        Some("TLS_AES_256_GCM_SHA384"@)
    } else if s == "TLS_CHACHA20_POLY1305_SHA256"@ {
        Some("TLS_CHACHA20_POLY1305_SHA256"@)
    } else if s == "TLS_AES_128_GCM_SHA256"@ {
        Some("TLS_AES_128_GCM_SHA256"@)
    } else if s == "ECDHE-RSA-AES256-GCM-SHA384"@ {
        Some("TLS_ECDHE_RSA_WITH_AES_256_GCM_SHA384"@)
    } else if s == "ECDHE-RSA-AES128-GCM-SHA256"@ {
        Some("TLS_ECDHE_RSA_WITH_AES_128_GCM_SHA256"@)
    } else if s == "ECDHE-ECDSA-AES256-GCM-SHA384"@ {
        Some("TLS_ECDHE_ECDSA_WITH_AES_256_GCM_SHA384"@)
    } else if s == "ECDHE-ECDSA-AES128-GCM-SHA256"@ {
        Some("TLS_ECDHE_ECDSA_WITH_AES_128_GCM_SHA256"@)
    } else if s == "ECDHE-RSA-CHACHA20-POLY1305"@ {
        Some("TLS_ECDHE_RSA_WITH_CHACHA20_POLY1305_SHA256"@)
    } else if s == "ECDHE-ECDSA-CHACHA20-POLY1305"@ {
        Some("TLS_ECDHE_ECDSA_WITH_CHACHA20_POLY1305_SHA256"@)
    } else if s == "AES256-GCM-SHA384"@ {
        Some("TLS_RSA_WITH_AES_256_GCM_SHA384"@)
    } else if s == "AES128-GCM-SHA256"@ {
        Some("TLS_RSA_WITH_AES_128_GCM_SHA256"@)
    } else if s == "TLS_ECDHE_RSA_WITH_AES_256_CBC_SHA384"@ {
        Some("TLS_ECDHE_RSA_WITH_AES_256_CBC_SHA384"@)
    } else if s == "TLS_ECDHE_RSA_WITH_AES_128_CBC_SHA256"@ {
        Some("TLS_ECDHE_RSA_WITH_AES_128_CBC_SHA256"@)
    } else if s == "TLS_ECDHE_ECDSA_WITH_AES_256_CBC_SHA384"@ {
        Some("TLS_ECDHE_ECDSA_WITH_AES_256_CBC_SHA384"@)
    } else if s == "TLS_ECDHE_ECDSA_WITH_AES_128_CBC_SHA256"@ {
        Some("TLS_ECDHE_ECDSA_WITH_AES_128_CBC_SHA256"@)
    } else if s == "TLS_RSA_WITH_AES_256_CBC_SHA256"@ {
        Some("TLS_RSA_WITH_AES_256_CBC_SHA256"@)
    } else if s == "TLS_RSA_WITH_AES_128_CBC_SHA256"@ {
        Some("TLS_RSA_WITH_AES_128_CBC_SHA256"@)
    } else if s == "TLS_ECDHE_RSA_WITH_AES_256_CBC_SHA"@ {
        Some("TLS_ECDHE_RSA_WITH_AES_256_CBC_SHA"@)
    } else if s == "TLS_ECDHE_RSA_WITH_AES_128_CBC_SHA"@ {
        Some("TLS_ECDHE_RSA_WITH_AES_128_CBC_SHA"@)
    } else if s == "TLS_RSA_WITH_AES_256_CBC_SHA"@ {
        Some("TLS_RSA_WITH_AES_256_CBC_SHA"@)
    } else if s == "TLS_RSA_WITH_AES_128_CBC_SHA"@ {
        Some("TLS_RSA_WITH_AES_128_CBC_SHA"@)
    } else {
        None
    }
}

/// The curated suite whose tool spelling is `s`, if there is one.
fn curated_name_for(s: &str) -> (r: Option<String>)
    ensures
        match curated_for_spelling(s@) {
            Some(n) => r is Some && r->0@ == n,
            None => r is None,
        },
{
    let found: Option<&str> = if same_text(s, "TLS_AES_256_GCM_SHA384") {
        Some("TLS_AES_256_GCM_SHA384")
    } else if same_text(s, "TLS_CHACHA20_POLY1305_SHA256") {
        Some("TLS_CHACHA20_POLY1305_SHA256")
    } else if same_text(s, "TLS_AES_128_GCM_SHA256") {
        Some("TLS_AES_128_GCM_SHA256")
    } else if same_text(s, "ECDHE-RSA-AES256-GCM-SHA384") {
        Some("TLS_ECDHE_RSA_WITH_AES_256_GCM_SHA384")
    } else if same_text(s, "ECDHE-RSA-AES128-GCM-SHA256") {
        Some("TLS_ECDHE_RSA_WITH_AES_128_GCM_SHA256")
    } else if same_text(s, "ECDHE-ECDSA-AES256-GCM-SHA384") {
        Some("TLS_ECDHE_ECDSA_WITH_AES_256_GCM_SHA384")
    } else if same_text(s, "ECDHE-ECDSA-AES128-GCM-SHA256") {
        Some("TLS_ECDHE_ECDSA_WITH_AES_128_GCM_SHA256")
    } else if same_text(s, "ECDHE-RSA-CHACHA20-POLY1305") {
        Some("TLS_ECDHE_RSA_WITH_CHACHA20_POLY1305_SHA256")
    } else if same_text(s, "ECDHE-ECDSA-CHACHA20-POLY1305") {
        Some("TLS_ECDHE_ECDSA_WITH_CHACHA20_POLY1305_SHA256")
    } else if same_text(s, "AES256-GCM-SHA384") {
        Some("TLS_RSA_WITH_AES_256_GCM_SHA384")
    } else if same_text(s, "AES128-GCM-SHA256") {
        Some("TLS_RSA_WITH_AES_128_GCM_SHA256")
    } else if same_text(s, "TLS_ECDHE_RSA_WITH_AES_256_CBC_SHA384") {
        Some("TLS_ECDHE_RSA_WITH_AES_256_CBC_SHA384")
    } else if same_text(s, "TLS_ECDHE_RSA_WITH_AES_128_CBC_SHA256") {
        Some("TLS_ECDHE_RSA_WITH_AES_128_CBC_SHA256")
    } else if same_text(s, "TLS_ECDHE_ECDSA_WITH_AES_256_CBC_SHA384") {
        Some("TLS_ECDHE_ECDSA_WITH_AES_256_CBC_SHA384")
    } else if same_text(s, "TLS_ECDHE_ECDSA_WITH_AES_128_CBC_SHA256") {
        Some("TLS_ECDHE_ECDSA_WITH_AES_128_CBC_SHA256")
    } else if same_text(s, "TLS_RSA_WITH_AES_256_CBC_SHA256") {
        Some("TLS_RSA_WITH_AES_256_CBC_SHA256")
    } else if same_text(s, "TLS_RSA_WITH_AES_128_CBC_SHA256") {
        Some("TLS_RSA_WITH_AES_128_CBC_SHA256")
    } else if same_text(s, "TLS_ECDHE_RSA_WITH_AES_256_CBC_SHA") {
        Some("TLS_ECDHE_RSA_WITH_AES_256_CBC_SHA")
    } else if same_text(s, "TLS_ECDHE_RSA_WITH_AES_128_CBC_SHA") {
        Some("TLS_ECDHE_RSA_WITH_AES_128_CBC_SHA")
    } else if same_text(s, "TLS_RSA_WITH_AES_256_CBC_SHA") {
        Some("TLS_RSA_WITH_AES_256_CBC_SHA")
    } else if same_text(s, "TLS_RSA_WITH_AES_128_CBC_SHA") {
        Some("TLS_RSA_WITH_AES_128_CBC_SHA")
    } else {
        None
    };
    match found {
        Some(n) => Some(String::from_str(n)),
        None => None,
    }
}

/// The tool's spelling of every curated suite normalises back to that suite.
pub proof fn lemma_spelling_round_trip(i: int)
    requires
        0 <= i < CURATED_SUITE_COUNT,
    ensures
        canonical_form(openssl_spelling(curated_suites()[i])) == curated_suites()[i],
{
    reveal_strlit("AES128-GCM-SHA256");
    reveal_strlit("AES256-GCM-SHA384");
    reveal_strlit("ECDHE-ECDSA-AES128-GCM-SHA256");
    reveal_strlit("ECDHE-ECDSA-AES256-GCM-SHA384");
    reveal_strlit("ECDHE-ECDSA-CHACHA20-POLY1305");
    reveal_strlit("ECDHE-RSA-AES128-GCM-SHA256");
    reveal_strlit("ECDHE-RSA-AES256-GCM-SHA384");
    reveal_strlit("ECDHE-RSA-CHACHA20-POLY1305");
    reveal_strlit("TLS_AES_128_GCM_SHA256");
    reveal_strlit("TLS_AES_256_GCM_SHA384");
    reveal_strlit("TLS_CHACHA20_POLY1305_SHA256");
    reveal_strlit("TLS_ECDHE_ECDSA_WITH_AES_128_CBC_SHA256");
    reveal_strlit("TLS_ECDHE_ECDSA_WITH_AES_128_GCM_SHA256");
    reveal_strlit("TLS_ECDHE_ECDSA_WITH_AES_256_CBC_SHA384");
    reveal_strlit("TLS_ECDHE_ECDSA_WITH_AES_256_GCM_SHA384");
    reveal_strlit("TLS_ECDHE_ECDSA_WITH_CHACHA20_POLY1305_SHA256");
    reveal_strlit("TLS_ECDHE_RSA_WITH_AES_128_CBC_SHA");
    reveal_strlit("TLS_ECDHE_RSA_WITH_AES_128_CBC_SHA256");
    reveal_strlit("TLS_ECDHE_RSA_WITH_AES_128_GCM_SHA256");
    reveal_strlit("TLS_ECDHE_RSA_WITH_AES_256_CBC_SHA");
    reveal_strlit("TLS_ECDHE_RSA_WITH_AES_256_CBC_SHA384");
    reveal_strlit("TLS_ECDHE_RSA_WITH_AES_256_GCM_SHA384");
    reveal_strlit("TLS_ECDHE_RSA_WITH_CHACHA20_POLY1305_SHA256");
    reveal_strlit("TLS_RSA_WITH_AES_128_CBC_SHA");
    reveal_strlit("TLS_RSA_WITH_AES_128_CBC_SHA256");
    reveal_strlit("TLS_RSA_WITH_AES_128_GCM_SHA256");
    reveal_strlit("TLS_RSA_WITH_AES_256_CBC_SHA");
    reveal_strlit("TLS_RSA_WITH_AES_256_CBC_SHA256");
    reveal_strlit("TLS_RSA_WITH_AES_256_GCM_SHA384");
    if i == 0 {
        assert(curated_suites()[i] == "TLS_AES_256_GCM_SHA384"@);
    } else if i == 1 {
        assert(curated_suites()[i] == "TLS_CHACHA20_POLY1305_SHA256"@);
    } else if i == 2 {
        assert(curated_suites()[i] == "TLS_AES_128_GCM_SHA256"@);
        assert("TLS_AES_128_GCM_SHA256"@[8] != "TLS_AES_256_GCM_SHA384"@[8]);
    } else if i == 3 {
        assert(curated_suites()[i] == "TLS_ECDHE_RSA_WITH_AES_256_GCM_SHA384"@);
    } else if i == 4 {
        assert(curated_suites()[i] == "TLS_ECDHE_RSA_WITH_AES_128_GCM_SHA256"@);
        assert("TLS_ECDHE_RSA_WITH_AES_128_GCM_SHA256"@[23] != "TLS_ECDHE_RSA_WITH_AES_256_GCM_SHA384"@[23]);
        assert("ECDHE-RSA-AES128-GCM-SHA256"@[13] != "ECDHE-RSA-AES256-GCM-SHA384"@[13]);
    } else if i == 5 {
        assert(curated_suites()[i] == "TLS_ECDHE_ECDSA_WITH_AES_256_GCM_SHA384"@);
    } else if i == 6 {
        assert(curated_suites()[i] == "TLS_ECDHE_ECDSA_WITH_AES_128_GCM_SHA256"@);
        assert("TLS_ECDHE_ECDSA_WITH_AES_128_GCM_SHA256"@[25] != "TLS_ECDHE_ECDSA_WITH_AES_256_GCM_SHA384"@[25]);
        assert("ECDHE-ECDSA-AES128-GCM-SHA256"@[15] != "ECDHE-ECDSA-AES256-GCM-SHA384"@[15]);
    } else if i == 7 {
        assert(curated_suites()[i] == "TLS_ECDHE_RSA_WITH_CHACHA20_POLY1305_SHA256"@);
        assert("ECDHE-RSA-CHACHA20-POLY1305"@[10] != "ECDHE-RSA-AES256-GCM-SHA384"@[10]);
        assert("ECDHE-RSA-CHACHA20-POLY1305"@[10] != "ECDHE-RSA-AES128-GCM-SHA256"@[10]);
    } else if i == 8 {
        assert(curated_suites()[i] == "TLS_ECDHE_ECDSA_WITH_CHACHA20_POLY1305_SHA256"@);
        assert("ECDHE-ECDSA-CHACHA20-POLY1305"@[12] != "ECDHE-ECDSA-AES256-GCM-SHA384"@[12]);
        assert("ECDHE-ECDSA-CHACHA20-POLY1305"@[12] != "ECDHE-ECDSA-AES128-GCM-SHA256"@[12]);
    } else if i == 9 {
        assert(curated_suites()[i] == "TLS_RSA_WITH_AES_256_GCM_SHA384"@);
    } else if i == 10 {
        assert(curated_suites()[i] == "TLS_RSA_WITH_AES_128_GCM_SHA256"@);
        assert("TLS_RSA_WITH_AES_128_GCM_SHA256"@[17] != "TLS_RSA_WITH_AES_256_GCM_SHA384"@[17]);
        assert("AES128-GCM-SHA256"@[3] != "AES256-GCM-SHA384"@[3]);
    } else if i == 11 {
        assert(curated_suites()[i] == "TLS_ECDHE_RSA_WITH_AES_256_CBC_SHA384"@);
        assert("TLS_ECDHE_RSA_WITH_AES_256_CBC_SHA384"@[27] != "TLS_ECDHE_RSA_WITH_AES_256_GCM_SHA384"@[27]);
        assert("TLS_ECDHE_RSA_WITH_AES_256_CBC_SHA384"@[23] != "TLS_ECDHE_RSA_WITH_AES_128_GCM_SHA256"@[23]);
    } else if i == 12 {
        assert(curated_suites()[i] == "TLS_ECDHE_RSA_WITH_AES_128_CBC_SHA256"@);
        assert("TLS_ECDHE_RSA_WITH_AES_128_CBC_SHA256"@[23] != "TLS_ECDHE_RSA_WITH_AES_256_GCM_SHA384"@[23]);
        assert("TLS_ECDHE_RSA_WITH_AES_128_CBC_SHA256"@[27] != "TLS_ECDHE_RSA_WITH_AES_128_GCM_SHA256"@[27]);
        assert("TLS_ECDHE_RSA_WITH_AES_128_CBC_SHA256"@[23] != "TLS_ECDHE_RSA_WITH_AES_256_CBC_SHA384"@[23]);
    } else if i == 13 {
        assert(curated_suites()[i] == "TLS_ECDHE_ECDSA_WITH_AES_256_CBC_SHA384"@);
        assert("TLS_ECDHE_ECDSA_WITH_AES_256_CBC_SHA384"@[29] != "TLS_ECDHE_ECDSA_WITH_AES_256_GCM_SHA384"@[29]);
        assert("TLS_ECDHE_ECDSA_WITH_AES_256_CBC_SHA384"@[25] != "TLS_ECDHE_ECDSA_WITH_AES_128_GCM_SHA256"@[25]);
    } else if i == 14 {
        assert(curated_suites()[i] == "TLS_ECDHE_ECDSA_WITH_AES_128_CBC_SHA256"@);
        assert("TLS_ECDHE_ECDSA_WITH_AES_128_CBC_SHA256"@[25] != "TLS_ECDHE_ECDSA_WITH_AES_256_GCM_SHA384"@[25]);
        assert("TLS_ECDHE_ECDSA_WITH_AES_128_CBC_SHA256"@[29] != "TLS_ECDHE_ECDSA_WITH_AES_128_GCM_SHA256"@[29]);
        assert("TLS_ECDHE_ECDSA_WITH_AES_128_CBC_SHA256"@[25] != "TLS_ECDHE_ECDSA_WITH_AES_256_CBC_SHA384"@[25]);
    } else if i == 15 {
        assert(curated_suites()[i] == "TLS_RSA_WITH_AES_256_CBC_SHA256"@);
        assert("TLS_RSA_WITH_AES_256_CBC_SHA256"@[21] != "TLS_RSA_WITH_AES_256_GCM_SHA384"@[21]);
        assert("TLS_RSA_WITH_AES_256_CBC_SHA256"@[17] != "TLS_RSA_WITH_AES_128_GCM_SHA256"@[17]);
    } else if i == 16 {
        assert(curated_suites()[i] == "TLS_RSA_WITH_AES_128_CBC_SHA256"@);
        assert("TLS_RSA_WITH_AES_128_CBC_SHA256"@[17] != "TLS_RSA_WITH_AES_256_GCM_SHA384"@[17]);
        assert("TLS_RSA_WITH_AES_128_CBC_SHA256"@[21] != "TLS_RSA_WITH_AES_128_GCM_SHA256"@[21]);
        assert("TLS_RSA_WITH_AES_128_CBC_SHA256"@[17] != "TLS_RSA_WITH_AES_256_CBC_SHA256"@[17]);
    } else if i == 17 {
        assert(curated_suites()[i] == "TLS_ECDHE_RSA_WITH_AES_256_CBC_SHA"@);
    } else if i == 18 {
        assert(curated_suites()[i] == "TLS_ECDHE_RSA_WITH_AES_128_CBC_SHA"@);
        assert("TLS_ECDHE_RSA_WITH_AES_128_CBC_SHA"@[23] != "TLS_ECDHE_RSA_WITH_AES_256_CBC_SHA"@[23]);
    } else if i == 19 {
        assert(curated_suites()[i] == "TLS_RSA_WITH_AES_256_CBC_SHA"@);
        assert("TLS_RSA_WITH_AES_256_CBC_SHA"@[4] != "TLS_CHACHA20_POLY1305_SHA256"@[4]);
    } else {
        assert(curated_suites()[i] == "TLS_RSA_WITH_AES_128_CBC_SHA"@);
        assert("TLS_RSA_WITH_AES_128_CBC_SHA"@[4] != "TLS_CHACHA20_POLY1305_SHA256"@[4]);
        assert("TLS_RSA_WITH_AES_128_CBC_SHA"@[17] != "TLS_RSA_WITH_AES_256_CBC_SHA"@[17]);
    }
}

} // verus!
