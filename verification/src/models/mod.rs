//! The entities manipulated by the scanner.

pub mod reqres;
pub mod technology;

use technology::Technology;
use vstd::prelude::*;

verus! {

/// Represents the type of scan
#[derive(Clone, Copy, Debug, PartialEq, Eq, Structural)]
pub enum ScanType {
    /// Protocol TCP
    Tcp,
    /// Protocol UDP (not supported yet)
    Udp,
    /// Protocol HTTP
    Http,
}

impl ScanType {
    /// The variants offered on the command line, in the order they are listed.
    pub open spec fn spec_value_variants() -> Seq<ScanType> {
        seq![ScanType::Tcp, ScanType::Http, ScanType::Udp]
    }

    /// The command-line name of a scan type.
    pub open spec fn spec_possible_value(self) -> Seq<char> {
        match self {
            ScanType::Tcp => "tcp"@,
            ScanType::Http => "http"@,
            ScanType::Udp => "udp"@,
        }
    }

    /// Lists the variants available on the command line.
    pub fn value_variants() -> (r: Vec<ScanType>)
        ensures
            r@ == Self::spec_value_variants(),
    {
        vec![ScanType::Tcp, ScanType::Http, ScanType::Udp]
    }

    /// Maps each variant to its command-line name; every scan type has one.
    pub fn to_possible_value(&self) -> (r: Option<String>)
        ensures
            r matches Some(s) && s@ == self.spec_possible_value(),
    {
        let s: &str = match self {
            ScanType::Tcp => "tcp",
            ScanType::Http => "http",
            ScanType::Udp => "udp",
        };
        Some(s.to_owned())
    }
}

/// The view of an optional string.
pub open spec fn opt_str_view(o: Option<String>) -> Option<Seq<char>> {
    match o {
        Some(s) => Some(s@),
        None => None,
    }
}

/// The view of an optional string slice.
pub open spec fn opt_slice_view(o: Option<&str>) -> Option<Seq<char>> {
    match o {
        Some(s) => Some(s@),
        None => None,
    }
}

fn opt_to_owned(o: Option<&str>) -> (r: Option<String>)
    ensures
        opt_str_view(r) == opt_slice_view(o),
{
    match o {
        Some(s) => Some(s.to_owned()),
        None => None,
    }
}

fn opt_string_eq(a: &Option<String>, b: &Option<String>) -> (r: bool)
    ensures
        r == (opt_str_view(*a) == opt_str_view(*b)),
{
    match (a, b) {
        (Some(x), Some(y)) => *x == *y,
        (None, None) => true,
        _ => false,
    }
}

/// Represents a finding of a technology running on an asset
pub struct Finding {
    /// The technology found
    pub technology: Technology,
    /// The version of the technology
    /// Optional since it can be unknown
    pub version: Option<String>,
    /// The evidence of the finding
    pub evidence: String,
    /// The text for the evidence
    pub evidence_text: String,
    /// The URL where the finding has been found.
    pub url_of_finding: Option<String>,
    /// The list of vulnerabilities.
    pub vulnerabilities: Vec<CVE>,
}

/// The mathematical content of a finding, leaving out its vulnerabilities.
pub ghost struct FindingView {
    /// The technology found.
    pub technology: Technology,
    /// The version found, if any.
    pub version: Option<Seq<char>>,
    /// The evidence of the finding.
    pub evidence: Seq<char>,
    /// The text for the evidence.
    pub evidence_text: Seq<char>,
    /// The URL where the finding has been found, if any.
    pub url_of_finding: Option<Seq<char>>,
}

impl View for Finding {
    type V = FindingView;

    open spec fn view(&self) -> FindingView {
        FindingView {
            technology: self.technology,
            version: opt_str_view(self.version),
            evidence: self.evidence@,
            evidence_text: self.evidence_text@,
            url_of_finding: opt_str_view(self.url_of_finding),
        }
    }
}

impl Finding {
    /// Creates a new finding, with no vulnerability yet.
    pub fn new(
        technology: Technology,
        version: Option<&str>,
        evidence: &str,
        evidence_text: &str,
        url_of_finding: Option<&str>,
    ) -> (r: Finding)
        ensures
            r.technology == technology,
            opt_str_view(r.version) == opt_slice_view(version),
            r.evidence@ == evidence@,
            r.evidence_text@ == evidence_text@,
            opt_str_view(r.url_of_finding) == opt_slice_view(url_of_finding),
            r.vulnerabilities@.len() == 0,
    {
        Finding {
            technology,
            version: opt_to_owned(version),
            evidence: evidence.to_owned(),
            evidence_text: evidence_text.to_owned(),
            url_of_finding: opt_to_owned(url_of_finding),
            vulnerabilities: Vec::new(),
        }
    }

    /// A copy of the finding: same technology, version, evidence, text, URL
    /// and vulnerabilities.
    pub fn clone(&self) -> (r: Finding)
        ensures
            r.technology == self.technology,
            opt_str_view(r.version) == opt_str_view(self.version),
            r.evidence@ == self.evidence@,
            r.evidence_text@ == self.evidence_text@,
            opt_str_view(r.url_of_finding) == opt_str_view(self.url_of_finding),
            r.vulnerabilities@.len() == self.vulnerabilities@.len(),
            forall|i: int| 0 <= i < self.vulnerabilities@.len() ==> #[trigger] r.vulnerabilities@[i].same_fields(self.vulnerabilities@[i]),
    {
        let mut vulnerabilities: Vec<CVE> = Vec::new();
        let mut i: usize = 0;
        while i < self.vulnerabilities.len()
            invariant
                i <= self.vulnerabilities@.len(),
                vulnerabilities@.len() == i,
                forall|j: int| 0 <= j < i ==> #[trigger] vulnerabilities@[j].same_fields(self.vulnerabilities@[j]),
            decreases self.vulnerabilities.len() - i,
        {
            vulnerabilities.push(self.vulnerabilities[i].clone());
            i += 1;
        }
        Finding {
            technology: self.technology,
            version: match &self.version {
                Some(v) => Some(v.clone()),
                None => None,
            },
            evidence: self.evidence.clone(),
            evidence_text: self.evidence_text.clone(),
            url_of_finding: match &self.url_of_finding {
                Some(u) => Some(u.clone()),
                None => None,
            },
            vulnerabilities,
        }
    }
}

impl PartialEq for Finding {
    /// Two findings are equal if their technology and version are the same
    fn eq(&self, other: &Self) -> (r: bool) {
        self.technology == other.technology && opt_string_eq(&self.version, &other.version)
    }
}

impl vstd::std_specs::cmp::PartialEqSpecImpl for Finding {
    open spec fn obeys_eq_spec() -> bool {
        true
    }

    open spec fn eq_spec(&self, other: &Finding) -> bool {
        self.technology == other.technology && opt_str_view(self.version) == opt_str_view(other.version)
    }
}

/// An enum to match the available writers
#[derive(Clone, Copy, Debug, PartialEq, Eq, Structural)]
pub enum Writers {
    /// StdoutWriter
    TextStdout,
    /// CsvWriter
    Csv,
    /// JsonWriter
    Json,
}

impl Writers {
    /// The writers offered on the command line, in the order they are listed.
    pub open spec fn spec_value_variants() -> Seq<Writers> {
        seq![Writers::TextStdout, Writers::Csv, Writers::Json]
    }

    /// The command-line name of a writer.
    pub open spec fn spec_possible_value(self) -> Seq<char> {
        match self {
            Writers::TextStdout => "textstdout"@,
            Writers::Csv => "csv"@,
            Writers::Json => "json"@,
        }
    }

    /// Lists the writers available on the command line.
    pub fn value_variants() -> (r: Vec<Writers>)
        ensures
            r@ == Self::spec_value_variants(),
    {
        vec![Writers::TextStdout, Writers::Csv, Writers::Json]
    }

    /// Maps each writer to its command-line name; every writer has one.
    pub fn to_possible_value(&self) -> (r: Option<String>)
        ensures
            r matches Some(s) && s@ == self.spec_possible_value(),
    {
        let s: &str = match self {
            Writers::TextStdout => "textstdout",
            Writers::Csv => "csv",
            Writers::Json => "json",
        };
        Some(s.to_owned())
    }
}

/// Represents a CVE, as embedded in a Finding. The base score is kept in
/// tenths of a point: CVSS base scores have one decimal.
pub struct CVE {
    /// The CVE identifier.
    /// Example: CVE-2012-6708
    pub cve_id: String,
    /// The base score, in tenths of a point.
    /// Example: 83 for a score of 8.3
    pub base_score_tenths: u16,
    /// The CVSS version.
    pub cvss_version: String,
}

/// The score and the CVSS version that a CVE takes from its metrics: the
/// first CVSS 3.1 metric when the CVSS 3.1 list is present, else the first
/// CVSS 3.0 metric when that list is present, else the first CVSS 2 metric
/// when that list is present. A present list that is empty gives no score
/// (the next versions are then not looked at); no present list gives none.
pub open spec fn selected_metric(
    v31: Option<Seq<u16>>,
    v30: Option<Seq<u16>>,
    v2: Option<Seq<u16>>,
) -> Option<(u16, Seq<char>)> {
    match v31 {
        Some(l) => if l.len() > 0 { Some((l[0], "3.1"@)) } else { None },
        None => match v30 {
            Some(l) => if l.len() > 0 { Some((l[0], "3.0"@)) } else { None },
            None => match v2 {
                Some(l) => if l.len() > 0 { Some((l[0], "2"@)) } else { None },
                None => None,
            },
        },
    }
}

/// The view of an optional list of scores.
pub open spec fn opt_scores_view(o: Option<Vec<u16>>) -> Option<Seq<u16>> {
    match o {
        Some(l) => Some(l@),
        None => None,
    }
}

impl CVE {
    /// Whether two CVEs hold the same identifier, score and version.
    pub open spec fn same_fields(self, other: CVE) -> bool {
        &&& self.cve_id@ == other.cve_id@
        &&& self.base_score_tenths == other.base_score_tenths
        &&& self.cvss_version@ == other.cvss_version@
    }

    /// A copy of the CVE.
    pub fn clone(&self) -> (r: CVE)
        ensures
            r.same_fields(*self),
    {
        CVE {
            cve_id: self.cve_id.clone(),
            base_score_tenths: self.base_score_tenths,
            cvss_version: self.cvss_version.clone(),
        }
    }

    /// Builds a CVE from its identifier and its CVSS metrics, each list
    /// holding the base scores (in tenths) of the metrics of one CVSS
    /// version. The score and version come from `selected_metric`; when it
    /// gives none, the score is 0 and the version is empty.
    pub fn from_metrics(
        cve_id: &str,
        cvss_metric_v31: Option<Vec<u16>>,
        cvss_metric_v30: Option<Vec<u16>>,
        cvss_metric_v2: Option<Vec<u16>>,
    ) -> (r: CVE)
        ensures
            r.cve_id@ == cve_id@,
            match selected_metric(
                opt_scores_view(cvss_metric_v31),
                opt_scores_view(cvss_metric_v30),
                opt_scores_view(cvss_metric_v2),
            ) {
                Some((score, version)) => r.base_score_tenths == score && r.cvss_version@ == version,
                None => r.base_score_tenths == 0 && r.cvss_version@ == Seq::<char>::empty(),
            },
    {
        let mut base_score_tenths: u16 = 0;
        let mut cvss_version = String::new();
        if let Some(metric) = cvss_metric_v31 {
            if metric.len() > 0 {
                base_score_tenths = metric[0];
                cvss_version = "3.1".to_owned();
            }
        } else if let Some(metric) = cvss_metric_v30 {
            if metric.len() > 0 {
                base_score_tenths = metric[0];
                cvss_version = "3.0".to_owned();
            }
        } else if let Some(metric) = cvss_metric_v2 {
            if metric.len() > 0 {
                base_score_tenths = metric[0];
                cvss_version = "2".to_owned();
            }
        }
        CVE { cve_id: cve_id.to_owned(), base_score_tenths, cvss_version }
    }
}

impl PartialEq for CVE {
    /// Two CVE are equal if they have the same identifier.
    fn eq(&self, other: &Self) -> (r: bool) {
        self.cve_id == other.cve_id
    }
}

impl vstd::std_specs::cmp::PartialEqSpecImpl for CVE {
    open spec fn obeys_eq_spec() -> bool {
        true
    }

    open spec fn eq_spec(&self, other: &CVE) -> bool {
        self.cve_id@ == other.cve_id@
    }
}

/// Every scan type is offered on the command line, under its own name.
pub proof fn law_scan_types_listed_with_distinct_names(t: ScanType, u: ScanType)
    ensures
        ScanType::spec_value_variants().contains(t),
        t != u ==> t.spec_possible_value() != u.spec_possible_value(),
{
    assert(ScanType::spec_value_variants()[0] == ScanType::Tcp);
    assert(ScanType::spec_value_variants()[1] == ScanType::Http);
    assert(ScanType::spec_value_variants()[2] == ScanType::Udp);
    reveal_strlit("tcp");
    reveal_strlit("http");
    reveal_strlit("udp");
    assert("tcp"@.len() == 3);
    assert("http"@.len() == 4);
    assert("udp"@.len() == 3);
    assert("tcp"@[0] != "udp"@[0]);
}

/// Every writer is offered on the command line, under its own name.
pub proof fn law_writers_listed_with_distinct_names(w: Writers, x: Writers)
    ensures
        Writers::spec_value_variants().contains(w),
        w != x ==> w.spec_possible_value() != x.spec_possible_value(),
{
    assert(Writers::spec_value_variants()[0] == Writers::TextStdout);
    assert(Writers::spec_value_variants()[1] == Writers::Csv);
    assert(Writers::spec_value_variants()[2] == Writers::Json);
    reveal_strlit("textstdout");
    reveal_strlit("csv");
    reveal_strlit("json");
    assert("textstdout"@.len() == 10);
    assert("csv"@.len() == 3);
    assert("json"@.len() == 4);
}

} // verus!
