//! The scan report: what a scan asks for, the probes it runs, and how the
//! outcomes of those probes are merged into one report.

use vstd::prelude::*;
use crate::classify::{get_cipher_suite_info, suite_level_text, suite_version_text};
use crate::names::{
    convert_iana_to_openssl, curated_cipher_suites, curated_suites, openssl_spelling, same_text,
    CURATED_SUITE_COUNT,
};
use crate::tool_output::{
    cipher_probe_succeeded, negotiated_suite, negotiated_suite_from_output, probe_succeeded,
};

verus! {

/// The port scanned when the request names none.
pub const DEFAULT_PORT: u16 = 443;

/// The number of protocol versions probed.
pub const PROBED_VERSION_COUNT: usize = 4;

/// Certificate metadata of the peer, as display strings.
#[derive(Clone, Debug, PartialEq, Eq)]
pub struct CertificateInfo {
    pub subject: String,
    pub issuer: String,
    pub valid_from: String,
    pub valid_to: String,
    pub serial_number: String,
}

/// A scan request: the host, and the port if it is not the default.
#[derive(Clone, Debug, PartialEq, Eq)]
pub struct TlsCheckRequest {
    pub host: String,
    pub port: Option<u16>,
}

/// The outcome for one protocol version.
#[derive(Clone, Debug, PartialEq, Eq)]
pub struct TlsVersionInfo {
    pub version: String,
    pub supported: bool,
    pub error: Option<String>,
}

/// The outcome for one cipher suite, with its classification.
#[derive(Clone, Debug, PartialEq, Eq)]
pub struct CipherSuiteInfo {
    pub name: String,
    pub supported: bool,
    pub error: Option<String>,
    pub tls_version: String,
    pub security_level: String,
}

/// The report of one scan.
#[derive(Clone, Debug, PartialEq, Eq)]
pub struct TlsCheckResponse {
    pub host: String,
    pub port: u16,
    pub supported_versions: Vec<TlsVersionInfo>,
    pub preferred_version: Option<String>,
    pub certificate_info: Option<CertificateInfo>,
    pub cipher_suites: Vec<CipherSuiteInfo>,
}

/// Why a scan was not started.
#[derive(PartialEq, Eq, Structural, Clone, Copy, Debug)]
pub enum ScanError {
    InvalidInput,
}

/// A protocol version that a handshake can be pinned to.
#[derive(PartialEq, Eq, Structural, Clone, Copy, Debug)]
pub enum TlsProtocol {
    Tlsv10,
    Tlsv11,
    Tlsv12,
}

/// The range of protocol versions one handshake may negotiate; no upper
/// bound lets the client go as high as it can.
#[derive(PartialEq, Eq, Structural, Clone, Copy, Debug)]
pub struct VersionPin {
    pub min: TlsProtocol,
    pub max: Option<TlsProtocol>,
}

/// A constrained handshake that tells whether one protocol version is accepted.
#[derive(Clone, Debug, PartialEq, Eq)]
pub struct VersionProbe {
    pub version: String,
    pub pin: VersionPin,
}

/// A handshake restricted to one cipher suite: its canonical name and the
/// spelling that the diagnostic tool takes.
#[derive(Clone, Debug, PartialEq, Eq)]
pub struct SuiteProbe {
    pub name: String,
    pub tool_cipher: String,
}

/// Every probe that one scan runs; the unconstrained handshake that shows
/// the naturally negotiated suite comes on top of these.
#[derive(Clone, Debug, PartialEq, Eq)]
pub struct ScanPlan {
    pub host: String,
    pub port: u16,
    pub version_probes: Vec<VersionProbe>,
    pub suite_probes: Vec<SuiteProbe>,
}

/// What one run of the diagnostic tool printed, and whether it reported success.
#[derive(Clone, Debug, PartialEq, Eq)]
pub struct ToolRun {
    pub stdout: String,
    pub exit_success: bool,
}

/// What one version handshake came to: the peer's certificate details when
/// it succeeded (absent when they could not be read), or the failure text.
pub type HandshakeOutcome = Result<Option<CertificateInfo>, String>;

/// An optional text as characters.
pub open spec fn text_of(o: Option<String>) -> Option<Seq<char>> {
    match o {
        Some(s) => Some(s@),
        None => None,
    }
}

/// A version outcome as the contracts see it.
pub struct VersionView {
    pub version: Seq<char>,
    pub supported: bool,
    pub error: Option<Seq<char>>,
}

/// A suite outcome as the contracts see it.
pub struct SuiteView {
    pub name: Seq<char>,
    pub supported: bool,
    pub error: Option<Seq<char>>,
    pub tls_version: Seq<char>,
    pub security_level: Seq<char>,
}

/// A report as the contracts see it.
pub struct ReportView {
    pub host: Seq<char>,
    pub port: u16,
    pub versions: Seq<VersionView>,
    pub preferred: Option<Seq<char>>,
    pub certificate: Option<CertificateInfo>,
    pub suites: Seq<SuiteView>,
}

impl View for TlsVersionInfo {
    type V = VersionView;

    open spec fn view(&self) -> VersionView {
        VersionView { version: self.version@, supported: self.supported, error: text_of(self.error) }
    }
}

impl View for CipherSuiteInfo {
    type V = SuiteView;

    open spec fn view(&self) -> SuiteView {
        SuiteView {
            name: self.name@,
            supported: self.supported,
            error: text_of(self.error),
            tls_version: self.tls_version@,
            security_level: self.security_level@,
        }
    }
}

/// The views of a list of version rows.
pub open spec fn version_views(s: Seq<TlsVersionInfo>) -> Seq<VersionView> {
    s.map_values(|v: TlsVersionInfo| v@)
}

/// The views of a list of suite rows.
pub open spec fn suite_views(s: Seq<CipherSuiteInfo>) -> Seq<SuiteView> {
    s.map_values(|c: CipherSuiteInfo| c@)
}

impl View for TlsCheckResponse {
    type V = ReportView;

    open spec fn view(&self) -> ReportView {
        ReportView {
            host: self.host@,
            port: self.port,
            versions: version_views(self.supported_versions@),
            preferred: text_of(self.preferred_version),
            certificate: self.certificate_info,
            suites: suite_views(self.cipher_suites@),
        }
    }
}

// ---------------------------------------------------------------------------
// The scan plan

/// The probed versions, by descending preference.
pub open spec fn version_labels() -> Seq<Seq<char>> {
    seq!["TLSv1.3"@, "TLSv1.2"@, "TLSv1.1"@, "TLSv1.0"@]
}

/// The pin of each probed version. TLS 1.3 cannot be pinned through the
/// client, so its probe only sets TLS 1.2 as the floor and counts a
/// completed handshake as support.
pub open spec fn version_pins() -> Seq<VersionPin> {
    seq![
        VersionPin { min: TlsProtocol::Tlsv12, max: None },
        VersionPin { min: TlsProtocol::Tlsv12, max: Some(TlsProtocol::Tlsv12) },
        VersionPin { min: TlsProtocol::Tlsv11, max: Some(TlsProtocol::Tlsv11) },
        VersionPin { min: TlsProtocol::Tlsv10, max: Some(TlsProtocol::Tlsv10) },
    ]
}

pub open spec fn port_or_default(port: Option<u16>) -> u16 {
    match port {
        Some(p) => p,
        None => DEFAULT_PORT,
    }
}

/// `plan` is the plan of a scan of `host:port`.
pub open spec fn is_plan_for(plan: ScanPlan, host: Seq<char>, port: u16) -> bool {
    &&& plan.host@ == host
    &&& plan.port == port
    &&& plan.version_probes@.len() == PROBED_VERSION_COUNT
    &&& forall|i: int|
        0 <= i < PROBED_VERSION_COUNT ==> plan.version_probes@[i].version@ == version_labels()[i]
            && plan.version_probes@[i].pin == version_pins()[i]
    &&& plan.suite_probes@.len() == CURATED_SUITE_COUNT
    &&& forall|i: int|
        0 <= i < CURATED_SUITE_COUNT ==> plan.suite_probes@[i].name@ == curated_suites()[i]
            && plan.suite_probes@[i].tool_cipher@ == openssl_spelling(curated_suites()[i])
}

/// The report text of the probed version at `i`.
fn version_label(i: usize) -> (r: String)
    requires
        i < PROBED_VERSION_COUNT,
    ensures
        r@ == version_labels()[i as int],
{
    if i == 0 {
        String::from_str("TLSv1.3")
    } else if i == 1 {
        String::from_str("TLSv1.2")
    } else if i == 2 {
        String::from_str("TLSv1.1")
    } else {
        String::from_str("TLSv1.0")
    }
}

/// The pin of the probed version at `i`.
fn version_pin(i: usize) -> (r: VersionPin)
    requires
        i < PROBED_VERSION_COUNT,
    ensures
        r == version_pins()[i as int],
{
    if i == 0 {
        VersionPin { min: TlsProtocol::Tlsv12, max: None }
    } else if i == 1 {
        VersionPin { min: TlsProtocol::Tlsv12, max: Some(TlsProtocol::Tlsv12) }
    } else if i == 2 {
        VersionPin { min: TlsProtocol::Tlsv11, max: Some(TlsProtocol::Tlsv11) }
    } else {
        VersionPin { min: TlsProtocol::Tlsv10, max: Some(TlsProtocol::Tlsv10) }
    }
}

/// Checks a request and lists the probes of its scan. An empty host is
/// refused before any probe is planned.
pub fn plan_scan(request: &TlsCheckRequest) -> (r: Result<ScanPlan, ScanError>)
    ensures
        r is Err <==> request.host@.len() == 0,
        r is Err ==> r == Err::<ScanPlan, ScanError>(ScanError::InvalidInput),
        r is Ok ==> is_plan_for(r->Ok_0, request.host@, port_or_default(request.port)),
{
    if request.host.as_str().unicode_len() == 0 {
        return Err(ScanError::InvalidInput);
    }
    let port = match request.port {
        Some(p) => p,
        None => DEFAULT_PORT,
    };
    let mut version_probes: Vec<VersionProbe> = Vec::new();
    let mut i: usize = 0;
    while i < PROBED_VERSION_COUNT
        invariant
            i <= PROBED_VERSION_COUNT,
            version_probes@.len() == i,
            forall|k: int|
                0 <= k < i ==> version_probes@[k].version@ == version_labels()[k]
                    && version_probes@[k].pin == version_pins()[k],
        decreases PROBED_VERSION_COUNT - i,
    {
        version_probes.push(VersionProbe { version: version_label(i), pin: version_pin(i) });
        i += 1;
    }
    let names = curated_cipher_suites();
    let mut suite_probes: Vec<SuiteProbe> = Vec::new();
    let mut j: usize = 0;
    while j < names.len()
        invariant
            names@.len() == CURATED_SUITE_COUNT,
            names@.map_values(|s: String| s@) == curated_suites(),
            j <= names@.len(),
            suite_probes@.len() == j,
            forall|k: int|
                0 <= k < j ==> suite_probes@[k].name@ == curated_suites()[k]
                    && suite_probes@[k].tool_cipher@ == openssl_spelling(curated_suites()[k]),
        decreases names@.len() - j,
    {
        assert(names@[j as int]@ == curated_suites()[j as int]);
        let tool_cipher = convert_iana_to_openssl(names[j].as_str());
        suite_probes.push(SuiteProbe { name: names[j].clone(), tool_cipher });
        j += 1;
    }
    Ok(ScanPlan { host: request.host.clone(), port, version_probes, suite_probes })
}

// ---------------------------------------------------------------------------
// Protocol versions

/// The outcome row of the version `label`.
pub open spec fn version_row(label: Seq<char>, o: HandshakeOutcome) -> VersionView {
    VersionView {
        version: label,
        supported: o is Ok,
        error: match o {
            Ok(_) => None,
            Err(e) => Some(e@),
        },
    }
}

/// The version rows of a scan, one per probed version in preference order.
pub open spec fn version_rows(outcomes: Seq<HandshakeOutcome>) -> Seq<VersionView> {
    Seq::new(PROBED_VERSION_COUNT as nat, |i: int| version_row(version_labels()[i], outcomes[i]))
}

/// The first supported version of `rows`, if any.
pub open spec fn first_supported(rows: Seq<VersionView>) -> Option<Seq<char>>
    decreases rows.len(),
{
    if rows.len() == 0 {
        None
    } else if rows[0].supported {
        Some(rows[0].version)
    } else {
        first_supported(rows.drop_first())
    }
}

/// The certificate of the first successful handshake that yielded one.
pub open spec fn first_certificate(outcomes: Seq<HandshakeOutcome>) -> Option<CertificateInfo>
    decreases outcomes.len(),
{
    if outcomes.len() == 0 {
        None
    } else {
        match outcomes[0] {
            Ok(Some(c)) => Some(c),
            _ => first_certificate(outcomes.drop_first()),
        }
    }
}

/// Turns the outcomes of the version handshakes, given in preference order
/// (TLS 1.3, 1.2, 1.1, 1.0), into the version rows, the preferred version
/// (the first supported one) and the certificate of the first handshake
/// that yielded one.
pub fn collect_version_results(outcomes: Vec<HandshakeOutcome>) -> (r: (
    Vec<TlsVersionInfo>,
    Option<String>,
    Option<CertificateInfo>,
))
    requires
        outcomes@.len() == PROBED_VERSION_COUNT,
    ensures
        version_views(r.0@) == version_rows(outcomes@),
        text_of(r.1) == first_supported(version_rows(outcomes@)),
        r.2 == first_certificate(outcomes@),
{
    let ghost all = outcomes@;
    let ghost rows = version_rows(all);
    let mut rest = outcomes;
    let mut results: Vec<TlsVersionInfo> = Vec::new();
    let mut preferred: Option<String> = None;
    let mut certificate: Option<CertificateInfo> = None;
    let mut i: usize = 0;
    assert(rows.subrange(0, PROBED_VERSION_COUNT as int) =~= rows);
    assert(all.subrange(0, PROBED_VERSION_COUNT as int) =~= all);
    while i < PROBED_VERSION_COUNT
        invariant
            i <= PROBED_VERSION_COUNT,
            all.len() == PROBED_VERSION_COUNT,
            rows == version_rows(all),
            rest@ == all.subrange(i as int, PROBED_VERSION_COUNT as int),
            results@.len() == i,
            version_views(results@) == rows.subrange(0, i as int),
            first_supported(rows) == if preferred is Some {
                text_of(preferred)
            } else {
                first_supported(rows.subrange(i as int, PROBED_VERSION_COUNT as int))
            },
            first_certificate(all) == if certificate is Some {
                certificate
            } else {
                first_certificate(all.subrange(i as int, PROBED_VERSION_COUNT as int))
            },
        decreases PROBED_VERSION_COUNT - i,
    {
        let ghost tail = rows.subrange(i as int, PROBED_VERSION_COUNT as int);
        let ghost otail = all.subrange(i as int, PROBED_VERSION_COUNT as int);
        assert(tail.drop_first() =~= rows.subrange(i + 1, PROBED_VERSION_COUNT as int));
        assert(otail.drop_first() =~= all.subrange(i + 1, PROBED_VERSION_COUNT as int));
        assert(tail[0] == rows[i as int]);
        assert(otail[0] == all[i as int]);
        let ghost before = results@;
        let o = rest.remove(0);
        assert(o == all[i as int]);
        let label = version_label(i);
        match o {
            Ok(c) => {
                if preferred.is_none() {
                    preferred = Some(label.clone());
                }
                if certificate.is_none() {
                    certificate = c;
                }
                results.push(TlsVersionInfo { version: label, supported: true, error: None });
            },
            Err(e) => {
                results.push(TlsVersionInfo { version: label, supported: false, error: Some(e) });
            },
        }
        assert(rest@ =~= all.subrange(i + 1, PROBED_VERSION_COUNT as int));
        assert(results@.len() == before.len() + 1);
        assert(results@.subrange(0, i as int) =~= before);
        assert(results@[i as int]@ == rows[i as int]);
        assert(version_views(results@) =~= rows.subrange(0, i + 1));
        i += 1;
    }
    assert(rows.subrange(0, PROBED_VERSION_COUNT as int) =~= rows);
    (results, preferred, certificate)
}

// ---------------------------------------------------------------------------
// Cipher suites

/// The classified row of a suite.
pub open spec fn suite_row(name: Seq<char>, supported: bool) -> SuiteView {
    SuiteView {
        name,
        supported,
        error: None,
        tls_version: suite_version_text(name),
        security_level: suite_level_text(name),
    }
}

/// The rows of the curated list, marked with the outcome of each probe.
pub open spec fn curated_rows(supported: Seq<bool>) -> Seq<SuiteView> {
    Seq::new(
        CURATED_SUITE_COUNT as nat,
        |i: int| suite_row(curated_suites()[i], supported[i]),
    )
}

/// Position of the first row named `n`, or the number of rows if none is.
pub open spec fn index_named(rows: Seq<SuiteView>, n: Seq<char>) -> nat
    decreases rows.len(),
{
    if rows.len() == 0 {
        0
    } else if rows[0].name == n {
        0
    } else {
        1 + index_named(rows.drop_first(), n)
    }
}

/// The name given to a negotiated suite that the list does not hold.
pub open spec fn negotiated_label(n: Seq<char>) -> Seq<char> {
    n + " (negotiated)"@
}

/// The row added for a negotiated suite that the list does not hold; it is
/// classified by the suite's own name.
pub open spec fn negotiated_row(n: Seq<char>) -> SuiteView {
    SuiteView {
        name: negotiated_label(n),
        supported: true,
        error: None,
        tls_version: suite_version_text(n),
        security_level: suite_level_text(n),
    }
}

/// `rows` once the naturally negotiated suite `n` is accounted for: the
/// first row of that name is marked supported, or, with no such row, a
/// synthetic row for it comes first.
pub open spec fn with_negotiated(rows: Seq<SuiteView>, n: Seq<char>) -> Seq<SuiteView> {
    let k = index_named(rows, n);
    if k < rows.len() {
        rows.update(
            k as int,
            SuiteView {
                name: rows[k as int].name,
                supported: true,
                error: rows[k as int].error,
                tls_version: rows[k as int].tls_version,
                security_level: rows[k as int].security_level,
            },
        )
    } else {
        seq![negotiated_row(n)] + rows
    }
}

/// `rows` with the negotiated suite, if one was observed, accounted for.
pub open spec fn reconciled(rows: Seq<SuiteView>, negotiated: Option<Seq<char>>) -> Seq<
    SuiteView,
> {
    match negotiated {
        Some(n) => with_negotiated(rows, n),
        None => rows,
    }
}

/// A suite probe succeeded: the tool ran and its output shows a handshake.
pub open spec fn run_succeeded(run: Option<ToolRun>) -> bool {
    match run {
        Some(t) => probe_succeeded(t.stdout@, t.exit_success),
        None => false,
    }
}

/// The suite that an unconstrained run reported, in canonical form.
pub open spec fn run_negotiated(run: Option<ToolRun>) -> Option<Seq<char>> {
    match run {
        Some(t) => negotiated_suite(t.stdout@),
        None => None,
    }
}

/// The classified row of `name`.
fn suite_result(name: &str, supported: bool) -> (r: CipherSuiteInfo)
    ensures
        r@ == suite_row(name@, supported),
{
    let (tls_version, security_level) = get_cipher_suite_info(name);
    CipherSuiteInfo {
        name: String::from_str(name),
        supported,
        error: None,
        tls_version,
        security_level,
    }
}

/// The classified rows of the curated list, with the outcome of each probe
/// given in list order.
pub fn curated_results(supported: &Vec<bool>) -> (r: Vec<CipherSuiteInfo>)
    requires
        supported@.len() == CURATED_SUITE_COUNT,
    ensures
        suite_views(r@) == curated_rows(supported@),
{
    let names = curated_cipher_suites();
    let mut r: Vec<CipherSuiteInfo> = Vec::new();
    let mut i: usize = 0;
    while i < names.len()
        invariant
            names@.len() == CURATED_SUITE_COUNT,
            names@.map_values(|s: String| s@) == curated_suites(),
            supported@.len() == CURATED_SUITE_COUNT,
            i <= names@.len(),
            r@.len() == i,
            suite_views(r@) == curated_rows(supported@).subrange(0, i as int),
        decreases names@.len() - i,
    {
        assert(names@[i as int]@ == curated_suites()[i as int]);
        let ghost before = r@;
        r.push(suite_result(names[i].as_str(), supported[i]));
        assert(r@.subrange(0, i as int) =~= before);
        assert(suite_views(r@) =~= curated_rows(supported@).subrange(0, i + 1));
        i += 1;
    }
    assert(curated_rows(supported@).subrange(0, CURATED_SUITE_COUNT as int) =~= curated_rows(
        supported@,
    ));
    r
}

/// Accounts for the naturally negotiated suite `negotiated` (in canonical
/// form): the first row of that name is marked supported, or, when no row
/// has that name, a supported row named `"<suite> (negotiated)"` is put first.
pub fn reconcile_negotiated(results: &mut Vec<CipherSuiteInfo>, negotiated: &str)
    ensures
        suite_views(final(results)@) == with_negotiated(suite_views(old(results)@), negotiated@),
{
    let ghost rows = suite_views(results@);
    let n = results.len();
    let mut i: usize = 0;
    assert(rows.subrange(0, n as int) =~= rows);
    while i < n && !same_text(results[i].name.as_str(), negotiated)
        invariant
            n == results@.len(),
            rows == suite_views(results@),
            i <= n,
            index_named(rows, negotiated@) == i + index_named(
                rows.subrange(i as int, n as int),
                negotiated@,
            ),
        decreases n - i,
    {
        assert(rows.subrange(i as int, n as int).drop_first() =~= rows.subrange(
            i + 1,
            n as int,
        ));
        i += 1;
    }
    if i < n {
        let mut found = results.remove(i);
        found.supported = true;
        results.insert(i, found);
        assert(suite_views(results@) =~= with_negotiated(rows, negotiated@));
    } else {
        let (tls_version, security_level) = get_cipher_suite_info(negotiated);
        let mut name = String::from_str(negotiated);
        name.append(" (negotiated)");
        results.insert(
            0,
            CipherSuiteInfo { name, supported: true, error: None, tls_version, security_level },
        );
        assert(suite_views(results@) =~= with_negotiated(rows, negotiated@));
    }
}

/// The cipher-suite rows of a scan: the curated list in order, each marked
/// by its probe run (given in list order; absent when the tool could not be
/// run), reconciled with the suite that the unconstrained run reported.
pub fn detect_cipher_suites(suite_runs: Vec<Option<ToolRun>>, natural_run: Option<ToolRun>) -> (r:
    Vec<CipherSuiteInfo>)
    requires
        suite_runs@.len() == CURATED_SUITE_COUNT,
    ensures
        suite_views(r@) == reconciled(
            curated_rows(suite_runs@.map_values(|t: Option<ToolRun>| run_succeeded(t))),
            run_negotiated(natural_run),
        ),
{
    let ghost flags = suite_runs@.map_values(|t: Option<ToolRun>| run_succeeded(t));
    let mut supported: Vec<bool> = Vec::new();
    let mut i: usize = 0;
    while i < suite_runs.len()
        invariant
            suite_runs@.len() == CURATED_SUITE_COUNT,
            flags == suite_runs@.map_values(|t: Option<ToolRun>| run_succeeded(t)),
            i <= suite_runs@.len(),
            supported@ == flags.subrange(0, i as int),
        decreases suite_runs@.len() - i,
    {
        let ok = match &suite_runs[i] {
            Some(t) => cipher_probe_succeeded(t.stdout.as_str(), t.exit_success),
            None => false,
        };
        supported.push(ok);
        assert(supported@ =~= flags.subrange(0, i + 1));
        i += 1;
    }
    assert(supported@ =~= flags);
    let mut results = curated_results(&supported);
    let negotiated = match &natural_run {
        Some(t) => negotiated_suite_from_output(t.stdout.as_str()),
        None => None,
    };
    match negotiated {
        Some(n) => {
            reconcile_negotiated(&mut results, n.as_str());
        },
        None => {},
    }
    results
}

// ---------------------------------------------------------------------------
// The report

/// The report of a scan of `host:port`, from the outcomes of its version
/// handshakes (in preference order), of its suite runs (in list order) and
/// of its unconstrained run.
pub open spec fn scan_report(
    host: Seq<char>,
    port: u16,
    outcomes: Seq<HandshakeOutcome>,
    suite_runs: Seq<Option<ToolRun>>,
    natural_run: Option<ToolRun>,
) -> ReportView {
    let rows = version_rows(outcomes);
    ReportView {
        host,
        port,
        versions: rows,
        preferred: first_supported(rows),
        certificate: first_certificate(outcomes),
        suites: reconciled(
            curated_rows(suite_runs.map_values(|t: Option<ToolRun>| run_succeeded(t))),
            run_negotiated(natural_run),
        ),
    }
}

/// Assembles the report of a planned scan from the outcomes of its probes:
/// the version handshakes in the plan's order, the suite runs in the plan's
/// order (absent where the tool could not be run), and the unconstrained run.
pub fn build_tls_report(
    plan: ScanPlan,
    version_outcomes: Vec<HandshakeOutcome>,
    suite_runs: Vec<Option<ToolRun>>,
    natural_run: Option<ToolRun>,
) -> (r: TlsCheckResponse)
    requires
        version_outcomes@.len() == PROBED_VERSION_COUNT,
        suite_runs@.len() == CURATED_SUITE_COUNT,
    ensures
        r@ == scan_report(plan.host@, plan.port, version_outcomes@, suite_runs@, natural_run),
{
    let ghost outcomes = version_outcomes@;
    let (supported_versions, preferred_version, certificate_info) = collect_version_results(
        version_outcomes,
    );
    let cipher_suites = detect_cipher_suites(suite_runs, natural_run);
    TlsCheckResponse {
        host: plan.host,
        port: plan.port,
        supported_versions,
        preferred_version,
        certificate_info,
        cipher_suites,
    }
}

// ---------------------------------------------------------------------------
// Laws

proof fn lemma_first_supported(rows: Seq<VersionView>)
    ensures
        first_supported(rows) is None <==> forall|i: int| 0 <= i < rows.len() ==> !rows[i].supported,
        first_supported(rows) is Some ==> exists|i: int|
            0 <= i < rows.len() && rows[i].supported && (forall|j: int|
                0 <= j < i ==> !rows[j].supported) && first_supported(rows) == Some(rows[i].version),
    decreases rows.len(),
{
    if rows.len() > 0 {
        let tail = rows.drop_first();
        lemma_first_supported(tail);
        if !rows[0].supported {
            assert forall|i: int| 0 <= i < rows.len() && i != 0 implies rows[i] == tail[i - 1] by {}
            if first_supported(tail) is Some {
                let i = choose|i: int|
                    0 <= i < tail.len() && tail[i].supported && (forall|j: int|
                        0 <= j < i ==> !tail[j].supported) && first_supported(tail) == Some(
                        tail[i].version,
                    );
                assert(rows[i + 1] == tail[i]);
                assert forall|j: int| 0 <= j < i + 1 implies !rows[j].supported by {
                    if j > 0 {
                        assert(rows[j] == tail[j - 1]);
                    }
                }
            } else {
                assert forall|i: int| 0 <= i < rows.len() implies !rows[i].supported by {
                    if i > 0 {
                        assert(rows[i] == tail[i - 1]);
                    }
                }
            }
        }
    }
}

/// Every report lists exactly four versions, in the order TLS 1.3, 1.2,
/// 1.1, 1.0.
pub proof fn lemma_report_lists_four_versions(
    host: Seq<char>,
    port: u16,
    outcomes: Seq<HandshakeOutcome>,
    suite_runs: Seq<Option<ToolRun>>,
    natural_run: Option<ToolRun>,
)
    ensures
        ({
            let v = scan_report(host, port, outcomes, suite_runs, natural_run).versions;
            &&& v.len() == 4
            &&& v[0].version == "TLSv1.3"@
            &&& v[1].version == "TLSv1.2"@
            &&& v[2].version == "TLSv1.1"@
            &&& v[3].version == "TLSv1.0"@
        }),
{
}

/// The preferred version is absent exactly when no version is supported;
/// otherwise it is the first supported version in preference order.
pub proof fn lemma_preferred_version(
    host: Seq<char>,
    port: u16,
    outcomes: Seq<HandshakeOutcome>,
    suite_runs: Seq<Option<ToolRun>>,
    natural_run: Option<ToolRun>,
)
    ensures
        ({
            let r = scan_report(host, port, outcomes, suite_runs, natural_run);
            &&& r.preferred is None <==> forall|i: int|
                0 <= i < r.versions.len() ==> !r.versions[i].supported
            &&& r.preferred is Some ==> exists|i: int|
                0 <= i < r.versions.len() && r.versions[i].supported && (forall|j: int|
                    0 <= j < i ==> !r.versions[j].supported) && r.preferred == Some(
                    r.versions[i].version,
                )
        }),
{
    lemma_first_supported(version_rows(outcomes));
}

proof fn lemma_index_named(rows: Seq<SuiteView>, n: Seq<char>)
    ensures
        index_named(rows, n) <= rows.len(),
        index_named(rows, n) < rows.len() ==> rows[index_named(rows, n) as int].name == n,
        forall|j: int| 0 <= j < index_named(rows, n) ==> rows[j].name != n,
    decreases rows.len(),
{
    if rows.len() > 0 && rows[0].name != n {
        let tail = rows.drop_first();
        lemma_index_named(tail, n);
        assert forall|j: int| 0 <= j < index_named(rows, n) implies rows[j].name != n by {
            if j > 0 {
                assert(rows[j] == tail[j - 1]);
            }
        }
    }
}

/// A negotiated suite that the list already holds leaves the number of
/// rows as it is, and the first row of that name is then supported; every
/// other row is unchanged.
pub proof fn lemma_negotiated_suite_listed(rows: Seq<SuiteView>, n: Seq<char>)
    requires
        exists|i: int| 0 <= i < rows.len() && rows[i].name == n,
    ensures
        ({
            let r = with_negotiated(rows, n);
            &&& r.len() == rows.len()
            &&& exists|k: int|
                0 <= k < rows.len() && rows[k].name == n && r[k].name == n && r[k].supported
                    && (forall|j: int| 0 <= j < rows.len() && j != k ==> r[j] == rows[j])
        }),
{
    lemma_index_named(rows, n);
    let i = choose|i: int| 0 <= i < rows.len() && rows[i].name == n;
    assert(index_named(rows, n) <= i);
    let k = index_named(rows, n) as int;
    let r = with_negotiated(rows, n);
    assert(r[k].name == n && r[k].supported);
}

/// A negotiated suite that the list does not hold adds exactly one row, at
/// the front: supported, named `"<suite> (negotiated)"`, classified by the
/// suite's name; the rows of the list follow unchanged.
pub proof fn lemma_negotiated_suite_unlisted(rows: Seq<SuiteView>, n: Seq<char>)
    requires
        forall|i: int| 0 <= i < rows.len() ==> rows[i].name != n,
    ensures
        ({
            let r = with_negotiated(rows, n);
            &&& r.len() == rows.len() + 1
            &&& r[0].supported
            &&& r[0].name == n + " (negotiated)"@
            &&& r[0].tls_version == suite_version_text(n)
            &&& r[0].security_level == suite_level_text(n)
            &&& r.subrange(1, r.len() as int) == rows
        }),
{
    lemma_index_named(rows, n);
    let r = with_negotiated(rows, n);
    assert(r.subrange(1, r.len() as int) =~= rows);
}

/// The classifier gives every name exactly one generation and one tier,
/// and the tier is one of the four.
pub proof fn lemma_classifier_total(name: Seq<char>)
    ensures
        suite_version_text(name) == "TLSv1.2"@ || suite_version_text(name) == "TLSv1.3"@,
        suite_level_text(name) == "secure"@ || suite_level_text(name) == "moderate"@
            || suite_level_text(name) == "weak"@ || suite_level_text(name) == "insecure"@,
{
}

/// When every handshake fails and no suite run shows a handshake or a
/// negotiated suite, the report still comes back, with every version and
/// every suite unsupported and no certificate.
pub proof fn lemma_refused_endpoint(
    host: Seq<char>,
    port: u16,
    outcomes: Seq<HandshakeOutcome>,
    suite_runs: Seq<Option<ToolRun>>,
    natural_run: Option<ToolRun>,
)
    requires
        outcomes.len() == PROBED_VERSION_COUNT,
        suite_runs.len() == CURATED_SUITE_COUNT,
        forall|i: int| 0 <= i < outcomes.len() ==> outcomes[i] is Err,
        forall|i: int| 0 <= i < suite_runs.len() ==> !run_succeeded(suite_runs[i]),
        run_negotiated(natural_run) is None,
    ensures
        ({
            let r = scan_report(host, port, outcomes, suite_runs, natural_run);
            &&& r.versions.len() == PROBED_VERSION_COUNT
            &&& forall|i: int| 0 <= i < r.versions.len() ==> !r.versions[i].supported
            &&& r.preferred is None
            &&& r.certificate is None
            &&& r.suites.len() == CURATED_SUITE_COUNT
            &&& forall|i: int| 0 <= i < r.suites.len() ==> !r.suites[i].supported
        }),
{
    lemma_first_supported(version_rows(outcomes));
    lemma_no_certificate(outcomes);
}

proof fn lemma_no_certificate(outcomes: Seq<HandshakeOutcome>)
    requires
        forall|i: int| 0 <= i < outcomes.len() ==> outcomes[i] is Err,
    ensures
        first_certificate(outcomes) is None,
    decreases outcomes.len(),
{
    if outcomes.len() > 0 {
        let tail = outcomes.drop_first();
        assert forall|i: int| 0 <= i < tail.len() implies tail[i] is Err by {
            assert(tail[i] == outcomes[i + 1]);
        }
        lemma_no_certificate(tail);
    }
}

proof fn lemma_first_supported_agrees(a: Seq<VersionView>, b: Seq<VersionView>)
    requires
        a.len() == b.len(),
        forall|i: int|
            0 <= i < a.len() ==> a[i].version == b[i].version && a[i].supported == b[i].supported,
    ensures
        first_supported(a) == first_supported(b),
    decreases a.len(),
{
    if a.len() > 0 {
        let (ta, tb) = (a.drop_first(), b.drop_first());
        assert forall|i: int|
            0 <= i < ta.len() implies ta[i].version == tb[i].version && ta[i].supported
            == tb[i].supported by {
            assert(ta[i] == a[i + 1] && tb[i] == b[i + 1]);
        }
        lemma_first_supported_agrees(ta, tb);
    }
}

proof fn lemma_first_certificate_agrees(a: Seq<HandshakeOutcome>, b: Seq<HandshakeOutcome>)
    requires
        a.len() == b.len(),
        forall|i: int| 0 <= i < a.len() ==> (a[i] is Ok <==> b[i] is Ok),
        forall|i: int| 0 <= i < a.len() && a[i] is Ok ==> a[i] == b[i],
    ensures
        first_certificate(a) == first_certificate(b),
    decreases a.len(),
{
    if a.len() > 0 {
        let (ta, tb) = (a.drop_first(), b.drop_first());
        assert forall|i: int| 0 <= i < ta.len() implies (ta[i] is Ok <==> tb[i] is Ok) && (ta[i] is Ok
            ==> ta[i] == tb[i]) by {
            assert(ta[i] == a[i + 1] && tb[i] == b[i + 1]);
        }
        lemma_first_certificate_agrees(ta, tb);
    }
}

/// Two scans of the same endpoint whose probes come out the same way (each
/// handshake succeeds or fails alike, with the same certificate details;
/// each suite run shows a handshake or not alike; the unconstrained runs
/// report the same suite) give the same report, failure texts apart.
pub proof fn lemma_scan_repeatable(
    host: Seq<char>,
    port: u16,
    outcomes1: Seq<HandshakeOutcome>,
    outcomes2: Seq<HandshakeOutcome>,
    suite_runs1: Seq<Option<ToolRun>>,
    suite_runs2: Seq<Option<ToolRun>>,
    natural_run1: Option<ToolRun>,
    natural_run2: Option<ToolRun>,
)
    requires
        outcomes1.len() == PROBED_VERSION_COUNT,
        outcomes2.len() == PROBED_VERSION_COUNT,
        forall|i: int| 0 <= i < PROBED_VERSION_COUNT ==> (outcomes1[i] is Ok <==> outcomes2[i] is Ok),
        forall|i: int| 0 <= i < PROBED_VERSION_COUNT && outcomes1[i] is Ok ==> outcomes1[i] == outcomes2[i],
        suite_runs1.len() == CURATED_SUITE_COUNT,
        suite_runs2.len() == CURATED_SUITE_COUNT,
        forall|i: int|
            0 <= i < CURATED_SUITE_COUNT ==> run_succeeded(suite_runs1[i]) == run_succeeded(
                suite_runs2[i],
            ),
        run_negotiated(natural_run1) == run_negotiated(natural_run2),
    ensures
        ({
            let r1 = scan_report(host, port, outcomes1, suite_runs1, natural_run1);
            let r2 = scan_report(host, port, outcomes2, suite_runs2, natural_run2);
            &&& r1.host == r2.host && r1.port == r2.port
            &&& r1.versions.len() == r2.versions.len()
            &&& forall|i: int|
                0 <= i < r1.versions.len() ==> r1.versions[i].version == r2.versions[i].version
                    && r1.versions[i].supported == r2.versions[i].supported
            &&& r1.preferred == r2.preferred
            &&& r1.certificate == r2.certificate
            &&& r1.suites == r2.suites
        }),
{
    let (v1, v2) = (version_rows(outcomes1), version_rows(outcomes2));
    lemma_first_supported_agrees(v1, v2);
    lemma_first_certificate_agrees(outcomes1, outcomes2);
    let f1 = suite_runs1.map_values(|t: Option<ToolRun>| run_succeeded(t));
    let f2 = suite_runs2.map_values(|t: Option<ToolRun>| run_succeeded(t));
    assert(curated_rows(f1) =~= curated_rows(f2));
}

} // verus!
