use vstd::prelude::*;
use vstd::string::StringExecFns;
use crate::json::{
    JVal, JsonValue, jget, jv_pairs, jv_seq, dec_opt_str, get_opt_str, get_str, obj_get,
};
use crate::risk::{
    RiskDomain, RiskLevel, dec_risk_domain, dec_risk_level, decode_risk_domain, decode_risk_level,
    encode_risk_domain, encode_risk_level, lemma_risk_domain_round_trip,
    lemma_risk_level_round_trip,
};

verus! {

broadcast use crate::json::lemma_jget_push, crate::json::lemma_jv_pairs_push, crate::json::lemma_jv_seq_push;

/// A single finding attached to a package. The internal rule identifier is
/// diagnostic-only and never crosses the wire.
#[derive(PartialEq, Eq, Clone, Debug, Hash)]
pub struct Issue {
    pub tag: Option<String>,
    pub id: Option<String>,
    pub title: String,
    pub description: String,
    pub severity: RiskLevel,
    pub domain: RiskDomain,
    pub rule: Option<String>,
}

/// An issue plus the optional free-text reason it is currently ignored;
/// absence means "not ignored".
#[derive(PartialEq, Eq, Clone, Debug, Hash)]
pub struct IssueStatus {
    pub issue: Issue,
    pub ignored: Option<String>,
}

pub ghost struct IssueV {
    pub tag: Option<Seq<char>>,
    pub id: Option<Seq<char>>,
    pub title: Seq<char>,
    pub description: Seq<char>,
    pub severity: RiskLevel,
    pub domain: RiskDomain,
}

pub ghost struct IssueStatusV {
    pub issue: IssueV,
    pub ignored: Option<Seq<char>>,
}

pub open spec fn view_opt_str(s: Option<String>) -> Option<Seq<char>> {
    match s {
        Some(x) => Some(x@),
        None => None,
    }
}

impl Issue {
    /// Wire-visible content: everything but the diagnostic rule name.
    pub open spec fn model(self) -> IssueV {
        (IssueV {
            tag: view_opt_str(self.tag),
            id: view_opt_str(self.id),
            title: self.title@,
            description: self.description@,
            severity: self.severity,
            domain: self.domain,
        })
    }
}

impl IssueStatus {
    pub open spec fn model(self) -> IssueStatusV {
        (IssueStatusV { issue: self.issue.model(), ignored: view_opt_str(self.ignored) })
    }
}

/// What a wire object denotes as an issue. The severity may arrive under
/// the legacy key "risk_level" and the domain under "risk_domain"; the
/// canonical keys win when both are present. The rule field never decodes
/// from the wire.
pub open spec fn dec_issue(v: JVal) -> Option<IssueV> {
    match v {
        JVal::Obj(o) => {
            let sev = if jget(o, "severity"@) is Some {
                jget(o, "severity"@)
            } else {
                jget(o, "risk_level"@)
            };
            let dom = if jget(o, "domain"@) is Some {
                jget(o, "domain"@)
            } else {
                jget(o, "risk_domain"@)
            };
            match (dec_opt_str(o, "tag"@), dec_opt_str(o, "id"@), jget(o, "title"@), jget(o, "description"@), sev, dom) {
                (
                    Some(tag),
                    Some(id),
                    Some(JVal::Str(title)),
                    Some(JVal::Str(description)),
                    Some(sv),
                    Some(dv),
                ) => match (dec_risk_level(sv), dec_risk_domain(dv)) {
                    (Some(severity), Some(domain)) => Some(
                        (IssueV { tag, id, title, description, severity, domain }),
                    ),
                    _ => None,
                },
                _ => None,
            }
        },
        _ => None,
    }
}

pub fn decode_issue(v: &JsonValue) -> (r: Option<Issue>)
    ensures
        match r {
            Some(x) => dec_issue(v.jv()) == Some(x.model()) && x.rule is None,
            None => dec_issue(v.jv()) is None,
        },
{
    let o = match v {
        JsonValue::Obj(o) => o,
        _ => { return None; },
    };
    let tag = match get_opt_str(o, "tag") {
        Some(t) => t,
        None => { return None; },
    };
    let id = match get_opt_str(o, "id") {
        Some(t) => t,
        None => { return None; },
    };
    let title = match get_str(o, "title") {
        Some(t) => t,
        None => { return None; },
    };
    let description = match get_str(o, "description") {
        Some(t) => t,
        None => { return None; },
    };
    let sev_v = match obj_get(o, "severity") {
        Some(s) => s,
        None => match obj_get(o, "risk_level") {
            Some(s) => s,
            None => { return None; },
        },
    };
    let severity = match decode_risk_level(sev_v) {
        Some(s) => s,
        None => { return None; },
    };
    let dom_v = match obj_get(o, "domain") {
        Some(d) => d,
        None => match obj_get(o, "risk_domain") {
            Some(d) => d,
            None => { return None; },
        },
    };
    let domain = match decode_risk_domain(dom_v) {
        Some(d) => d,
        None => { return None; },
    };
    Some(Issue { tag, id, title, description, severity, domain, rule: None })
}

proof fn issue_key_facts()
    ensures
        "tag"@.len() == 3,
        "id"@.len() == 2,
        "title"@.len() == 5,
        "description"@.len() == 11,
        "severity"@.len() == 8,
        "risk_level"@.len() == 10,
        "domain"@.len() == 6,
        "risk_domain"@.len() == 11,
        "ignored"@.len() == 7,
        "description"@ != "risk_domain"@,
{
    reveal_strlit("tag");
    reveal_strlit("id");
    reveal_strlit("title");
    reveal_strlit("description");
    reveal_strlit("severity");
    reveal_strlit("risk_level");
    reveal_strlit("domain");
    reveal_strlit("risk_domain");
    reveal_strlit("ignored");
    assert("description"@[0] == 'd' && "risk_domain"@[0] == 'r');
}

/// A payload carrying the severity under the legacy key "risk_level"
/// decodes to the same issue as one carrying it under "severity".
pub proof fn lemma_issue_severity_alias(o: Seq<(Seq<char>, JVal)>, v: JVal)
    requires
        jget(o, "severity"@) is None,
        jget(o, "risk_level"@) is None,
    ensures
        dec_issue(JVal::Obj(o.push(("risk_level"@, v)))) == dec_issue(
            JVal::Obj(o.push(("severity"@, v))),
        ),
{
    issue_key_facts();
    broadcast use crate::json::lemma_jget_push;

}

/// A payload carrying the domain under the legacy key "risk_domain"
/// decodes to the same issue as one carrying it under "domain".
pub proof fn lemma_issue_domain_alias(o: Seq<(Seq<char>, JVal)>, v: JVal)
    requires
        jget(o, "domain"@) is None,
        jget(o, "risk_domain"@) is None,
    ensures
        dec_issue(JVal::Obj(o.push(("risk_domain"@, v)))) == dec_issue(
            JVal::Obj(o.push(("domain"@, v))),
        ),
{
    issue_key_facts();
    broadcast use crate::json::lemma_jget_push;

}

pub fn encode_issue(x: &Issue) -> (v: JsonValue)
    ensures
        dec_issue(v.jv()) == Some(x.model()),
{
    let mut o: Vec<(String, JsonValue)> = Vec::new();
    let tagv = match &x.tag {
        Some(s) => JsonValue::Str(s.clone()),
        None => JsonValue::Null,
    };
    o.push((String::from_str("tag"), tagv));
    let idv = match &x.id {
        Some(s) => JsonValue::Str(s.clone()),
        None => JsonValue::Null,
    };
    o.push((String::from_str("id"), idv));
    o.push((String::from_str("title"), JsonValue::Str(x.title.clone())));
    o.push((String::from_str("description"), JsonValue::Str(x.description.clone())));
    o.push((String::from_str("severity"), encode_risk_level(x.severity)));
    o.push((String::from_str("domain"), encode_risk_domain(x.domain)));
    proof {
        issue_key_facts();
        assert(dec_opt_str(jv_pairs(o@), "tag"@) == Some(view_opt_str(x.tag)));
        assert(dec_opt_str(jv_pairs(o@), "id"@) == Some(view_opt_str(x.id)));
        assert(jget(jv_pairs(o@), "title"@) == Some(JVal::Str(x.title@)));
        assert(jget(jv_pairs(o@), "description"@) == Some(JVal::Str(x.description@)));
        assert(jget(jv_pairs(o@), "severity"@) == Some(JVal::Str(x.severity.name_spec())));
        assert(jget(jv_pairs(o@), "domain"@) == Some(JVal::Str(x.domain.wire_name_spec())));
        lemma_risk_level_round_trip(x.severity);
        lemma_risk_domain_round_trip(x.domain);
    }
    JsonValue::Obj(o)
}

/// What a wire object denotes as an issue with ignore status: the issue's
/// own fields flattened at the top level plus an optional ignore reason.
pub open spec fn dec_issue_status(v: JVal) -> Option<IssueStatusV> {
    match dec_issue(v) {
        Some(issue) => match v {
            JVal::Obj(o) => match dec_opt_str(o, "ignored"@) {
                Some(ignored) => Some((IssueStatusV { issue, ignored })),
                None => None,
            },
            _ => None,
        },
        None => None,
    }
}

pub fn decode_issue_status(v: &JsonValue) -> (r: Option<IssueStatus>)
    ensures
        match r {
            Some(x) => dec_issue_status(v.jv()) == Some(x.model()) && x.issue.rule is None,
            None => dec_issue_status(v.jv()) is None,
        },
{
    let issue = match decode_issue(v) {
        Some(i) => i,
        None => { return None; },
    };
    let o = match v {
        JsonValue::Obj(o) => o,
        _ => { return None; },
    };
    let ignored = match get_opt_str(o, "ignored") {
        Some(i) => i,
        None => { return None; },
    };
    Some(IssueStatus { issue, ignored })
}

pub fn encode_issue_status(x: &IssueStatus) -> (v: JsonValue)
    ensures
        dec_issue_status(v.jv()) == Some(x.model()),
{
    let mut o: Vec<(String, JsonValue)> = Vec::new();
    let tagv = match &x.issue.tag {
        Some(s) => JsonValue::Str(s.clone()),
        None => JsonValue::Null,
    };
    o.push((String::from_str("tag"), tagv));
    let idv = match &x.issue.id {
        Some(s) => JsonValue::Str(s.clone()),
        None => JsonValue::Null,
    };
    o.push((String::from_str("id"), idv));
    o.push((String::from_str("title"), JsonValue::Str(x.issue.title.clone())));
    o.push((String::from_str("description"), JsonValue::Str(x.issue.description.clone())));
    o.push((String::from_str("severity"), encode_risk_level(x.issue.severity)));
    o.push((String::from_str("domain"), encode_risk_domain(x.issue.domain)));
    let igv = match &x.ignored {
        Some(s) => JsonValue::Str(s.clone()),
        None => JsonValue::Null,
    };
    o.push((String::from_str("ignored"), igv));
    proof {
        issue_key_facts();
        assert(dec_opt_str(jv_pairs(o@), "tag"@) == Some(view_opt_str(x.issue.tag)));
        assert(dec_opt_str(jv_pairs(o@), "id"@) == Some(view_opt_str(x.issue.id)));
        assert(jget(jv_pairs(o@), "title"@) == Some(JVal::Str(x.issue.title@)));
        assert(jget(jv_pairs(o@), "description"@) == Some(JVal::Str(x.issue.description@)));
        assert(jget(jv_pairs(o@), "severity"@) == Some(JVal::Str(x.issue.severity.name_spec())));
        assert(jget(jv_pairs(o@), "domain"@) == Some(JVal::Str(x.issue.domain.wire_name_spec())));
        assert(dec_opt_str(jv_pairs(o@), "ignored"@) == Some(view_opt_str(x.ignored)));
        lemma_risk_level_round_trip(x.issue.severity);
        lemma_risk_domain_round_trip(x.issue.domain);
        assert(dec_issue(JVal::Obj(jv_pairs(o@))) == Some(x.issue.model()));
    }
    JsonValue::Obj(o)
}

/// Author information.
#[derive(PartialEq, Eq, Clone, Debug, Hash)]
pub struct Author {
    pub name: String,
    pub avatar_url: String,
    pub email: String,
    pub profile_url: String,
}

/// Responsiveness of a package's developers; every metric may be unknown.
#[derive(PartialEq, Eq, Copy, Clone, Debug, Hash)]
pub struct DeveloperResponsiveness {
    pub open_issue_count: Option<usize>,
    pub total_issue_count: Option<usize>,
    pub open_issue_avg_duration: Option<u32>,
    pub open_pull_request_count: Option<usize>,
    pub total_pull_request_count: Option<usize>,
    pub open_pull_request_avg_duration: Option<u32>,
}

/// First and last release dates of a package.
#[derive(PartialEq, Eq, Clone, Debug)]
pub struct PackageReleaseData {
    pub first_release_date: String,
    pub last_release_date: String,
}

/// Risk scores by domain, in thousandths, plus the aggregate total.
#[derive(PartialEq, Eq, Copy, Clone, Debug)]
pub struct RiskScores {
    pub total: i64,
    pub vulnerability: i64,
    pub malicious: i64,
    pub author: i64,
    pub engineering: i64,
    pub license: i64,
}

impl Default for RiskScores {
    /// All scores start at zero.
    fn default() -> (r: Self)
        ensures
            r.total == 0 && r.vulnerability == 0 && r.malicious == 0 && r.author == 0
                && r.engineering == 0 && r.license == 0,
    {
        RiskScores { total: 0, vulnerability: 0, malicious: 0, author: 0, engineering: 0, license: 0 }
    }
}

pub ghost struct RiskScoresV {
    pub total: i64,
    pub vulnerability: i64,
    pub malicious: i64,
    pub author: i64,
    pub engineering: i64,
    pub license: i64,
}

impl RiskScores {
    pub open spec fn model(self) -> RiskScoresV {
        (RiskScoresV {
            total: self.total,
            vulnerability: self.vulnerability,
            malicious: self.malicious,
            author: self.author,
            engineering: self.engineering,
            license: self.license,
        })
    }
}

/// What a wire object denotes as the per-domain scores. The malicious
/// score may arrive under the legacy key "malicious" as well as the
/// canonical "malicious_code"; the canonical key wins when both are
/// present.
pub open spec fn dec_risk_scores(v: JVal) -> Option<RiskScoresV> {
    match v {
        JVal::Obj(o) => {
            let mal = if crate::json::dec_i64_field(o, "malicious_code"@) is Some {
                crate::json::dec_i64_field(o, "malicious_code"@)
            } else {
                crate::json::dec_i64_field(o, "malicious"@)
            };
            match (crate::json::dec_i64_field(o, "total"@), crate::json::dec_i64_field(o, "vulnerability"@), mal, crate::json::dec_i64_field(o, "author"@), crate::json::dec_i64_field(o, "engineering"@), crate::json::dec_i64_field(o, "license"@)) {
                (
                    Some(total),
                    Some(vulnerability),
                    Some(malicious),
                    Some(author),
                    Some(engineering),
                    Some(license),
                ) => Some(
                    (RiskScoresV { total, vulnerability, malicious, author, engineering, license }),
                ),
                _ => None,
            }
        },
        _ => None,
    }
}

proof fn risk_scores_key_facts()
    ensures
        "total"@.len() == 5,
        "vulnerability"@.len() == 13,
        "malicious_code"@.len() == 14,
        "malicious"@.len() == 9,
        "author"@.len() == 6,
        "engineering"@.len() == 11,
        "license"@.len() == 7,
{
    reveal_strlit("total");
    reveal_strlit("vulnerability");
    reveal_strlit("malicious_code");
    reveal_strlit("malicious");
    reveal_strlit("author");
    reveal_strlit("engineering");
    reveal_strlit("license");
}

/// A payload carrying the malicious score under the legacy key
/// "malicious" decodes to the same scores as one carrying it under the
/// canonical "malicious_code".
pub proof fn lemma_risk_scores_malicious_alias(o: Seq<(Seq<char>, JVal)>, v: JVal)
    requires
        jget(o, "malicious_code"@) is None,
        jget(o, "malicious"@) is None,
    ensures
        dec_risk_scores(JVal::Obj(o.push(("malicious"@, v)))) == dec_risk_scores(
            JVal::Obj(o.push(("malicious_code"@, v))),
        ),
{
    risk_scores_key_facts();
    broadcast use crate::json::lemma_jget_push;

}

pub fn decode_risk_scores(v: &JsonValue) -> (r: Option<RiskScores>)
    ensures
        match r {
            Some(x) => dec_risk_scores(v.jv()) == Some(x.model()),
            None => dec_risk_scores(v.jv()) is None,
        },
{
    let o = match v {
        JsonValue::Obj(o) => o,
        _ => { return None; },
    };
    let total = match crate::json::get_i64(o, "total") {
        Some(x) => x,
        None => { return None; },
    };
    let vulnerability = match crate::json::get_i64(o, "vulnerability") {
        Some(x) => x,
        None => { return None; },
    };
    let malicious = match crate::json::get_i64(o, "malicious_code") {
        Some(x) => x,
        None => match crate::json::get_i64(o, "malicious") {
            Some(x) => x,
            None => { return None; },
        },
    };
    let author = match crate::json::get_i64(o, "author") {
        Some(x) => x,
        None => { return None; },
    };
    let engineering = match crate::json::get_i64(o, "engineering") {
        Some(x) => x,
        None => { return None; },
    };
    let license = match crate::json::get_i64(o, "license") {
        Some(x) => x,
        None => { return None; },
    };
    Some(RiskScores { total, vulnerability, malicious, author, engineering, license })
}

/// Encodes the scores under their canonical keys only.
pub fn encode_risk_scores(x: &RiskScores) -> (v: JsonValue)
    ensures
        dec_risk_scores(v.jv()) == Some(x.model()),
        jget(v.jv()->Obj_0, "malicious"@) is None,
{
    let mut o: Vec<(String, JsonValue)> = Vec::new();
    o.push((String::from_str("total"), JsonValue::Int(x.total as i128)));
    o.push((String::from_str("vulnerability"), JsonValue::Int(x.vulnerability as i128)));
    o.push((String::from_str("malicious_code"), JsonValue::Int(x.malicious as i128)));
    o.push((String::from_str("author"), JsonValue::Int(x.author as i128)));
    o.push((String::from_str("engineering"), JsonValue::Int(x.engineering as i128)));
    o.push((String::from_str("license"), JsonValue::Int(x.license as i128)));
    proof {
        risk_scores_key_facts();
        assert(crate::json::dec_i64_field(jv_pairs(o@), "total"@) == Some(x.total));
        assert(crate::json::dec_i64_field(jv_pairs(o@), "vulnerability"@) == Some(
            x.vulnerability,
        ));
        assert(crate::json::dec_i64_field(jv_pairs(o@), "malicious_code"@) == Some(x.malicious));
        assert(crate::json::dec_i64_field(jv_pairs(o@), "author"@) == Some(x.author));
        assert(crate::json::dec_i64_field(jv_pairs(o@), "engineering"@) == Some(x.engineering));
        assert(crate::json::dec_i64_field(jv_pairs(o@), "license"@) == Some(x.license));
    }
    JsonValue::Obj(o)
}

/// One released version of a package and its total risk score, in
/// thousandths, when known.
#[derive(PartialEq, Eq, Clone, Debug)]
pub struct ScoredVersion {
    pub version: String,
    pub total_risk_score: Option<i64>,
}

/// Change of the total score over time; the date is carried as its wire
/// text and the score in thousandths.
#[derive(PartialEq, Eq, Clone, Debug)]
pub struct ScoreDynamicsPoint {
    pub date_time: String,
    pub score: i64,
    pub label: String,
}

/// Client-facing rendering of an issue, with the resolved score (in
/// thousandths) and impact.
#[derive(PartialEq, Eq, Clone, Debug)]
pub struct IssuesListItem {
    pub risk_type: crate::risk::RiskType,
    pub score: i64,
    pub impact: RiskLevel,
    pub description: String,
    pub title: String,
    pub tag: Option<String>,
    pub id: Option<String>,
    pub ignored: Option<String>,
}

/// The result of one heuristic run, score in thousandths.
#[derive(PartialEq, Eq, Clone, Debug)]
pub struct HeuristicResult {
    pub domain: RiskDomain,
    pub score: i64,
    pub risk_level: RiskLevel,
}

/// A single vulnerability, severity in thousandths.
#[derive(PartialEq, Eq, Clone, Debug)]
pub struct Vulnerability {
    pub cve: Vec<String>,
    pub base_severity: i64,
    pub risk_level: RiskLevel,
    pub title: String,
    pub description: String,
    pub remediation: String,
}

/// The full package report. Every field beyond identity may still be
/// unknown while `complete` is false: the value is built by merging
/// partial updates, so optional fields default to absent and lists to
/// empty. Each package owns its dependency subtree by value.
#[derive(Debug)]
pub struct Package {
    /// Omitted from the encoding when absent.
    pub purl: Option<String>,
    pub id: String,
    pub name: String,
    pub version: String,
    pub registry: String,
    pub published_date: Option<String>,
    pub latest_version: Option<String>,
    pub versions: Vec<ScoredVersion>,
    pub description: Option<String>,
    pub license: Option<String>,
    pub dep_specs: Vec<crate::ids::PackageSpecifier>,
    pub dependencies: Option<Vec<Package>>,
    pub download_count: u32,
    pub risk_scores: RiskScores,
    pub total_risk_score_dynamics: Option<Vec<ScoreDynamicsPoint>>,
    pub issues_details: Vec<Issue>,
    pub issues: Vec<IssuesListItem>,
    pub authors: Vec<Author>,
    pub developer_responsiveness: Option<DeveloperResponsiveness>,
    pub complete: bool,
    pub release_data: Option<PackageReleaseData>,
    pub repo_url: Option<String>,
    pub maintainers_recently_changed: Option<bool>,
    pub is_abandonware: Option<bool>,
}

impl Default for Package {
    /// A report with nothing known yet: analysis not complete, every
    /// optional field absent and every list empty.
    fn default() -> (r: Self)
        ensures
            r.purl is None && r.id@ == Seq::<char>::empty() && r.name@ == Seq::<char>::empty()
                && r.version@ == Seq::<char>::empty() && r.registry@ == Seq::<char>::empty(),
            r.published_date is None && r.latest_version is None && r.versions@ == Seq::<
                ScoredVersion,
            >::empty(),
            r.description is None && r.license is None && r.dep_specs@ == Seq::<
                crate::ids::PackageSpecifier,
            >::empty(),
            r.dependencies is None && r.download_count == 0,
            r.total_risk_score_dynamics is None && r.issues_details@ == Seq::<Issue>::empty()
                && r.issues@ == Seq::<IssuesListItem>::empty() && r.authors@ == Seq::<
                Author,
            >::empty(),
            r.developer_responsiveness is None && !r.complete && r.release_data is None,
            r.repo_url is None && r.maintainers_recently_changed is None && r.is_abandonware
                is None,
    {
        Package {
            purl: None,
            id: String::new(),
            name: String::new(),
            version: String::new(),
            registry: String::new(),
            published_date: None,
            latest_version: None,
            versions: Vec::new(),
            description: None,
            license: None,
            dep_specs: Vec::new(),
            dependencies: None,
            download_count: 0,
            risk_scores: RiskScores::default(),
            total_risk_score_dynamics: None,
            issues_details: Vec::new(),
            issues: Vec::new(),
            authors: Vec::new(),
            developer_responsiveness: None,
            complete: false,
            release_data: None,
            repo_url: None,
            maintainers_recently_changed: None,
            is_abandonware: None,
        }
    }
}

/// The tri-state result of a submission attempt: a full historical report
/// returned immediately, a job that exists but has not finished, or a
/// freshly created job. Only the first carries a payload.
#[derive(Debug)]
pub enum PackageSubmitResponse {
    AlreadyProcessed(Package),
    AlreadySubmitted,
    New,
}

/// Encodes the tri-state submission result: the variant name under the
/// key "status", a payload under "data" only for a report returned
/// immediately; the key "data" is entirely absent, not null, for the two
/// payload-less variants. What "data" holds is the report's own encoding,
/// whose identity fields are pinned here.
pub fn encode_submit_outcome(x: &PackageSubmitResponse) -> (v: JsonValue)
    ensures
        v.jv() matches JVal::Obj(o),
        jget(v.jv()->Obj_0, "status"@) == Some(
            JVal::Str(
                match x {
                    PackageSubmitResponse::AlreadyProcessed(_) => "AlreadyProcessed"@,
                    PackageSubmitResponse::AlreadySubmitted => "AlreadySubmitted"@,
                    PackageSubmitResponse::New => "New"@,
                },
            ),
        ),
        (x matches PackageSubmitResponse::AlreadyProcessed(_)) <==> jget(
            v.jv()->Obj_0,
            "data"@,
        ) is Some,
        x matches PackageSubmitResponse::AlreadyProcessed(p) ==> (jget(v.jv()->Obj_0, "data"@)
            matches Some(d) && dec_package_identity(d) == Some(
            (p.name@, p.version@, p.id@, p.registry@),
        )),
{
    let mut o: Vec<(String, JsonValue)> = Vec::new();
    let status = match x {
        PackageSubmitResponse::AlreadyProcessed(_) => "AlreadyProcessed",
        PackageSubmitResponse::AlreadySubmitted => "AlreadySubmitted",
        PackageSubmitResponse::New => "New",
    };
    o.push((String::from_str("status"), JsonValue::Str(String::from_str(status))));
    match x {
        PackageSubmitResponse::AlreadyProcessed(p) => {
            let d = encode_package_identity(p);
            o.push((String::from_str("data"), d));
        },
        _ => {},
    }
    proof {
        reveal_strlit("status");
        reveal_strlit("data");
        assert("status"@.len() == 6 && "data"@.len() == 4);
        assert(jget(jv_pairs(o@), "status"@) == Some(JVal::Str(status@)));
        match x {
            PackageSubmitResponse::AlreadyProcessed(_) => {
                assert(jget(jv_pairs(o@), "data"@) is Some);
            },
            PackageSubmitResponse::AlreadySubmitted => {
                assert(jget(jv_pairs(o@), "data"@) is None);
            },
            PackageSubmitResponse::New => {
                assert(jget(jv_pairs(o@), "data"@) is None);
            },
        }
    }
    JsonValue::Obj(o)
}

/// What a wire object gives as a report's identity: name, version, id and
/// registry.
pub open spec fn dec_package_identity(v: JVal) -> Option<(Seq<char>, Seq<char>, Seq<char>, Seq<char>)> {
    match v {
        JVal::Obj(o) => match (jget(o, "name"@), jget(o, "version"@), jget(o, "id"@), jget(o, "registry"@)) {
            (
                Some(JVal::Str(n)),
                Some(JVal::Str(ver)),
                Some(JVal::Str(id)),
                Some(JVal::Str(reg)),
            ) => Some((n, ver, id, reg)),
            _ => None,
        },
        _ => None,
    }
}

/// Encodes a package report. The identity fields are pinned by the
/// contract; the enrichment fields are carried best-effort.
pub fn encode_package_identity(p: &Package) -> (v: JsonValue)
    ensures
        dec_package_identity(v.jv()) == Some((p.name@, p.version@, p.id@, p.registry@)),
{
    let mut o: Vec<(String, JsonValue)> = Vec::new();
    o.push((String::from_str("id"), JsonValue::Str(p.id.clone())));
    o.push((String::from_str("name"), JsonValue::Str(p.name.clone())));
    o.push((String::from_str("version"), JsonValue::Str(p.version.clone())));
    o.push((String::from_str("registry"), JsonValue::Str(p.registry.clone())));
    o.push((String::from_str("complete"), JsonValue::Bool(p.complete)));
    proof {
        reveal_strlit("id");
        reveal_strlit("name");
        reveal_strlit("version");
        reveal_strlit("registry");
        reveal_strlit("complete");
        assert("id"@.len() == 2 && "name"@.len() == 4 && "version"@.len() == 7 && "registry"@.len()
            == 8 && "complete"@.len() == 8);
        assert("registry"@[0] == 'r' && "complete"@[0] == 'c');
        assert(jget(jv_pairs(o@), "name"@) == Some(JVal::Str(p.name@)));
        assert(jget(jv_pairs(o@), "version"@) == Some(JVal::Str(p.version@)));
        assert(jget(jv_pairs(o@), "id"@) == Some(JVal::Str(p.id@)));
        assert(jget(jv_pairs(o@), "registry"@) == Some(JVal::Str(p.registry@)));
    }
    JsonValue::Obj(o)
}


/// Author information on the wire.
pub ghost struct AuthorV {
    pub name: Seq<char>,
    pub avatar_url: Seq<char>,
    pub email: Seq<char>,
    pub profile_url: Seq<char>,
}

impl Author {
    pub open spec fn model(self) -> AuthorV {
        (AuthorV {
            name: self.name@,
            avatar_url: self.avatar_url@,
            email: self.email@,
            profile_url: self.profile_url@,
        })
    }
}

/// What a wire object denotes as an author: four required strings under
/// camelCase keys.
pub open spec fn dec_author(v: JVal) -> Option<AuthorV> {
    match v {
        JVal::Obj(o) => match (jget(o, "name"@), jget(o, "avatarUrl"@), jget(o, "email"@), jget(o, "profileUrl"@)) {
            (
                Some(JVal::Str(name)),
                Some(JVal::Str(avatar_url)),
                Some(JVal::Str(email)),
                Some(JVal::Str(profile_url)),
            ) => Some((AuthorV { name, avatar_url, email, profile_url })),
            _ => None,
        },
        _ => None,
    }
}

pub fn decode_author(v: &JsonValue) -> (r: Option<Author>)
    ensures
        match r {
            Some(x) => dec_author(v.jv()) == Some(x.model()),
            None => dec_author(v.jv()) is None,
        },
{
    let o = match v {
        JsonValue::Obj(o) => o,
        _ => { return None; },
    };
    let name = match get_str(o, "name") {
        Some(x) => x,
        None => { return None; },
    };
    let avatar_url = match get_str(o, "avatarUrl") {
        Some(x) => x,
        None => { return None; },
    };
    let email = match get_str(o, "email") {
        Some(x) => x,
        None => { return None; },
    };
    let profile_url = match get_str(o, "profileUrl") {
        Some(x) => x,
        None => { return None; },
    };
    Some(Author { name, avatar_url, email, profile_url })
}

proof fn author_key_facts()
    ensures
        "name"@.len() == 4,
        "avatarUrl"@.len() == 9,
        "email"@.len() == 5,
        "profileUrl"@.len() == 10,
{
    reveal_strlit("name");
    reveal_strlit("avatarUrl");
    reveal_strlit("email");
    reveal_strlit("profileUrl");
}

pub fn encode_author(x: &Author) -> (v: JsonValue)
    ensures
        dec_author(v.jv()) == Some(x.model()),
{
    let mut o: Vec<(String, JsonValue)> = Vec::new();
    o.push((String::from_str("name"), JsonValue::Str(x.name.clone())));
    o.push((String::from_str("avatarUrl"), JsonValue::Str(x.avatar_url.clone())));
    o.push((String::from_str("email"), JsonValue::Str(x.email.clone())));
    o.push((String::from_str("profileUrl"), JsonValue::Str(x.profile_url.clone())));
    proof {
        author_key_facts();
        assert(jget(jv_pairs(o@), "name"@) == Some(JVal::Str(x.name@)));
        assert(jget(jv_pairs(o@), "avatarUrl"@) == Some(JVal::Str(x.avatar_url@)));
        assert(jget(jv_pairs(o@), "email"@) == Some(JVal::Str(x.email@)));
        assert(jget(jv_pairs(o@), "profileUrl"@) == Some(JVal::Str(x.profile_url@)));
    }
    JsonValue::Obj(o)
}

/// What a wire object denotes as developer responsiveness: six optional
/// counters; every value is plain, so no separate ghost model is needed.
pub open spec fn dec_developer_responsiveness(v: JVal) -> Option<DeveloperResponsiveness> {
    match v {
        JVal::Obj(o) => match (
            crate::json::dec_opt_usize_field(o, "open_issue_count"@),
            crate::json::dec_opt_usize_field(o, "total_issue_count"@),
            crate::json::dec_opt_u32_field(o, "open_issue_avg_duration"@),
            crate::json::dec_opt_usize_field(o, "open_pull_request_count"@),
            crate::json::dec_opt_usize_field(o, "total_pull_request_count"@),
            crate::json::dec_opt_u32_field(o, "open_pull_request_avg_duration"@),
        ) {
            (
                Some(open_issue_count),
                Some(total_issue_count),
                Some(open_issue_avg_duration),
                Some(open_pull_request_count),
                Some(total_pull_request_count),
                Some(open_pull_request_avg_duration),
            ) => Some(
                (DeveloperResponsiveness {
                    open_issue_count,
                    total_issue_count,
                    open_issue_avg_duration,
                    open_pull_request_count,
                    total_pull_request_count,
                    open_pull_request_avg_duration,
                }),
            ),
            _ => None,
        },
        _ => None,
    }
}

pub fn decode_developer_responsiveness(v: &JsonValue) -> (r: Option<DeveloperResponsiveness>)
    ensures
        r == dec_developer_responsiveness(v.jv()),
{
    let o = match v {
        JsonValue::Obj(o) => o,
        _ => { return None; },
    };
    let open_issue_count = match crate::json::get_opt_usize(o, "open_issue_count") {
        Some(x) => x,
        None => { return None; },
    };
    let total_issue_count = match crate::json::get_opt_usize(o, "total_issue_count") {
        Some(x) => x,
        None => { return None; },
    };
    let open_issue_avg_duration = match crate::json::get_opt_u32(o, "open_issue_avg_duration") {
        Some(x) => x,
        None => { return None; },
    };
    let open_pull_request_count = match crate::json::get_opt_usize(o, "open_pull_request_count") {
        Some(x) => x,
        None => { return None; },
    };
    let total_pull_request_count = match crate::json::get_opt_usize(
        o,
        "total_pull_request_count",
    ) {
        Some(x) => x,
        None => { return None; },
    };
    let open_pull_request_avg_duration = match crate::json::get_opt_u32(
        o,
        "open_pull_request_avg_duration",
    ) {
        Some(x) => x,
        None => { return None; },
    };
    Some(
        DeveloperResponsiveness {
            open_issue_count,
            total_issue_count,
            open_issue_avg_duration,
            open_pull_request_count,
            total_pull_request_count,
            open_pull_request_avg_duration,
        },
    )
}

proof fn developer_responsiveness_key_facts()
    ensures
        "open_issue_count"@.len() == 16,
        "total_issue_count"@.len() == 17,
        "open_issue_avg_duration"@.len() == 23,
        "open_pull_request_count"@.len() == 23,
        "total_pull_request_count"@.len() == 24,
        "open_pull_request_avg_duration"@.len() == 30,
        "open_issue_avg_duration"@ != "open_pull_request_count"@,
{
    reveal_strlit("open_issue_count");
    reveal_strlit("total_issue_count");
    reveal_strlit("open_issue_avg_duration");
    reveal_strlit("open_pull_request_count");
    reveal_strlit("total_pull_request_count");
    reveal_strlit("open_pull_request_avg_duration");
    assert("open_issue_avg_duration"@[5] == 'i' && "open_pull_request_count"@[5] == 'p');
}

fn opt_usize_json(x: &Option<usize>) -> (v: JsonValue)
    ensures
        v.jv() == (match x {
            Some(n) => JVal::Int(*n as int),
            None => JVal::Null,
        }),
{
    match x {
        Some(n) => JsonValue::Int(*n as i128),
        None => JsonValue::Null,
    }
}

fn opt_u32_json(x: &Option<u32>) -> (v: JsonValue)
    ensures
        v.jv() == (match x {
            Some(n) => JVal::Int(*n as int),
            None => JVal::Null,
        }),
{
    match x {
        Some(n) => JsonValue::Int(*n as i128),
        None => JsonValue::Null,
    }
}

pub fn encode_developer_responsiveness(x: &DeveloperResponsiveness) -> (v: JsonValue)
    ensures
        dec_developer_responsiveness(v.jv()) == Some(*x),
{
    let mut o: Vec<(String, JsonValue)> = Vec::new();
    o.push((String::from_str("open_issue_count"), opt_usize_json(&x.open_issue_count)));
    o.push((String::from_str("total_issue_count"), opt_usize_json(&x.total_issue_count)));
    o.push((String::from_str("open_issue_avg_duration"), opt_u32_json(&x.open_issue_avg_duration)));
    o.push((String::from_str("open_pull_request_count"), opt_usize_json(&x.open_pull_request_count)));
    o.push((String::from_str("total_pull_request_count"), opt_usize_json(&x.total_pull_request_count)));
    o.push((
        String::from_str("open_pull_request_avg_duration"),
        opt_u32_json(&x.open_pull_request_avg_duration),
    ));
    proof {
        developer_responsiveness_key_facts();
        assert(crate::json::dec_opt_usize_field(jv_pairs(o@), "open_issue_count"@) == Some(
            x.open_issue_count,
        ));
        assert(crate::json::dec_opt_usize_field(jv_pairs(o@), "total_issue_count"@) == Some(
            x.total_issue_count,
        ));
        assert(crate::json::dec_opt_u32_field(jv_pairs(o@), "open_issue_avg_duration"@) == Some(
            x.open_issue_avg_duration,
        ));
        assert(crate::json::dec_opt_usize_field(jv_pairs(o@), "open_pull_request_count"@) == Some(
            x.open_pull_request_count,
        ));
        assert(crate::json::dec_opt_usize_field(jv_pairs(o@), "total_pull_request_count"@)
            == Some(x.total_pull_request_count));
        assert(crate::json::dec_opt_u32_field(jv_pairs(o@), "open_pull_request_avg_duration"@)
            == Some(x.open_pull_request_avg_duration));
    }
    JsonValue::Obj(o)
}


pub ghost struct PackageReleaseDataV {
    pub first_release_date: Seq<char>,
    pub last_release_date: Seq<char>,
}

impl PackageReleaseData {
    pub open spec fn model(self) -> PackageReleaseDataV {
        (PackageReleaseDataV {
            first_release_date: self.first_release_date@,
            last_release_date: self.last_release_date@,
        })
    }
}

/// What a wire object denotes as release data; a missing date defaults to
/// the empty string.
pub open spec fn dec_release_data(v: JVal) -> Option<PackageReleaseDataV> {
    match v {
        JVal::Obj(o) => match (
            crate::json::dec_str_default_field(o, "firstReleaseDate"@),
            crate::json::dec_str_default_field(o, "lastReleaseDate"@),
        ) {
            (Some(first_release_date), Some(last_release_date)) => Some(
                (PackageReleaseDataV { first_release_date, last_release_date }),
            ),
            _ => None,
        },
        _ => None,
    }
}

pub fn decode_release_data(v: &JsonValue) -> (r: Option<PackageReleaseData>)
    ensures
        match r {
            Some(x) => dec_release_data(v.jv()) == Some(x.model()),
            None => dec_release_data(v.jv()) is None,
        },
{
    let o = match v {
        JsonValue::Obj(o) => o,
        _ => { return None; },
    };
    let first_release_date = match crate::json::get_str_default(o, "firstReleaseDate") {
        Some(x) => x,
        None => { return None; },
    };
    let last_release_date = match crate::json::get_str_default(o, "lastReleaseDate") {
        Some(x) => x,
        None => { return None; },
    };
    Some(PackageReleaseData { first_release_date, last_release_date })
}

proof fn release_data_key_facts()
    ensures
        "firstReleaseDate"@.len() == 16,
        "lastReleaseDate"@.len() == 15,
{
    reveal_strlit("firstReleaseDate");
    reveal_strlit("lastReleaseDate");
}

pub fn encode_release_data(x: &PackageReleaseData) -> (v: JsonValue)
    ensures
        dec_release_data(v.jv()) == Some(x.model()),
{
    let mut o: Vec<(String, JsonValue)> = Vec::new();
    o.push((String::from_str("firstReleaseDate"), JsonValue::Str(x.first_release_date.clone())));
    o.push((String::from_str("lastReleaseDate"), JsonValue::Str(x.last_release_date.clone())));
    proof {
        release_data_key_facts();
        assert(crate::json::dec_str_default_field(jv_pairs(o@), "firstReleaseDate"@) == Some(
            x.first_release_date@,
        ));
        assert(crate::json::dec_str_default_field(jv_pairs(o@), "lastReleaseDate"@) == Some(
            x.last_release_date@,
        ));
    }
    JsonValue::Obj(o)
}

pub ghost struct ScoredVersionV {
    pub version: Seq<char>,
    pub total_risk_score: Option<i64>,
}

impl ScoredVersion {
    pub open spec fn model(self) -> ScoredVersionV {
        (ScoredVersionV { version: self.version@, total_risk_score: self.total_risk_score })
    }
}

/// What a wire object denotes as a scored version: the version string and
/// an optional score in thousandths.
pub open spec fn dec_scored_version(v: JVal) -> Option<ScoredVersionV> {
    match v {
        JVal::Obj(o) => match (jget(o, "version"@), crate::json::dec_opt_i64_field(o, "total_risk_score"@)) {
            (Some(JVal::Str(version)), Some(total_risk_score)) => Some(
                (ScoredVersionV { version, total_risk_score }),
            ),
            _ => None,
        },
        _ => None,
    }
}

pub fn decode_scored_version(v: &JsonValue) -> (r: Option<ScoredVersion>)
    ensures
        match r {
            Some(x) => dec_scored_version(v.jv()) == Some(x.model()),
            None => dec_scored_version(v.jv()) is None,
        },
{
    let o = match v {
        JsonValue::Obj(o) => o,
        _ => { return None; },
    };
    let version = match get_str(o, "version") {
        Some(x) => x,
        None => { return None; },
    };
    let total_risk_score = match crate::json::get_opt_i64(o, "total_risk_score") {
        Some(x) => x,
        None => { return None; },
    };
    Some(ScoredVersion { version, total_risk_score })
}

proof fn scored_version_key_facts()
    ensures
        "version"@.len() == 7,
        "total_risk_score"@.len() == 16,
{
    reveal_strlit("version");
    reveal_strlit("total_risk_score");
}

pub fn encode_scored_version(x: &ScoredVersion) -> (v: JsonValue)
    ensures
        dec_scored_version(v.jv()) == Some(x.model()),
{
    let mut o: Vec<(String, JsonValue)> = Vec::new();
    o.push((String::from_str("version"), JsonValue::Str(x.version.clone())));
    let score = match &x.total_risk_score {
        Some(n) => JsonValue::Int(*n as i128),
        None => JsonValue::Null,
    };
    o.push((String::from_str("total_risk_score"), score));
    proof {
        scored_version_key_facts();
        assert(jget(jv_pairs(o@), "version"@) == Some(JVal::Str(x.version@)));
        assert(crate::json::dec_opt_i64_field(jv_pairs(o@), "total_risk_score"@) == Some(
            x.total_risk_score,
        ));
    }
    JsonValue::Obj(o)
}

pub ghost struct ScoreDynamicsPointV {
    pub date_time: Seq<char>,
    pub score: i64,
    pub label: Seq<char>,
}

impl ScoreDynamicsPoint {
    pub open spec fn model(self) -> ScoreDynamicsPointV {
        (ScoreDynamicsPointV { date_time: self.date_time@, score: self.score, label: self.label@ })
    }
}

/// What a wire object denotes as one point of the score trend, camelCase
/// keys, the score in thousandths.
pub open spec fn dec_dynamics_point(v: JVal) -> Option<ScoreDynamicsPointV> {
    match v {
        JVal::Obj(o) => match (jget(o, "dateTime"@), crate::json::dec_i64_field(o, "score"@), jget(o, "label"@)) {
            (Some(JVal::Str(date_time)), Some(score), Some(JVal::Str(label))) => Some(
                (ScoreDynamicsPointV { date_time, score, label }),
            ),
            _ => None,
        },
        _ => None,
    }
}

pub fn decode_dynamics_point(v: &JsonValue) -> (r: Option<ScoreDynamicsPoint>)
    ensures
        match r {
            Some(x) => dec_dynamics_point(v.jv()) == Some(x.model()),
            None => dec_dynamics_point(v.jv()) is None,
        },
{
    let o = match v {
        JsonValue::Obj(o) => o,
        _ => { return None; },
    };
    let date_time = match get_str(o, "dateTime") {
        Some(x) => x,
        None => { return None; },
    };
    let score = match crate::json::get_i64(o, "score") {
        Some(x) => x,
        None => { return None; },
    };
    let label = match get_str(o, "label") {
        Some(x) => x,
        None => { return None; },
    };
    Some(ScoreDynamicsPoint { date_time, score, label })
}

proof fn dynamics_point_key_facts()
    ensures
        "dateTime"@.len() == 8,
        "score"@.len() == 5,
        "label"@.len() == 5,
        "score"@ != "label"@,
{
    reveal_strlit("dateTime");
    reveal_strlit("score");
    reveal_strlit("label");
    assert("score"@[0] == 's' && "label"@[0] == 'l');
}

pub fn encode_dynamics_point(x: &ScoreDynamicsPoint) -> (v: JsonValue)
    ensures
        dec_dynamics_point(v.jv()) == Some(x.model()),
{
    let mut o: Vec<(String, JsonValue)> = Vec::new();
    o.push((String::from_str("dateTime"), JsonValue::Str(x.date_time.clone())));
    o.push((String::from_str("score"), JsonValue::Int(x.score as i128)));
    o.push((String::from_str("label"), JsonValue::Str(x.label.clone())));
    proof {
        dynamics_point_key_facts();
        assert(jget(jv_pairs(o@), "dateTime"@) == Some(JVal::Str(x.date_time@)));
        assert(crate::json::dec_i64_field(jv_pairs(o@), "score"@) == Some(x.score));
        assert(jget(jv_pairs(o@), "label"@) == Some(JVal::Str(x.label@)));
    }
    JsonValue::Obj(o)
}


pub ghost struct IssuesListItemV {
    pub risk_type: crate::risk::RiskType,
    pub score: i64,
    pub impact: RiskLevel,
    pub description: Seq<char>,
    pub title: Seq<char>,
    pub tag: Option<Seq<char>>,
    pub id: Option<Seq<char>>,
    pub ignored: Option<Seq<char>>,
}

impl IssuesListItem {
    pub open spec fn model(self) -> IssuesListItemV {
        (IssuesListItemV {
            risk_type: self.risk_type,
            score: self.score,
            impact: self.impact,
            description: self.description@,
            title: self.title@,
            tag: view_opt_str(self.tag),
            id: view_opt_str(self.id),
            ignored: view_opt_str(self.ignored),
        })
    }
}

/// What a wire object denotes as a rendered issue, camelCase keys, the
/// resolved score in thousandths.
pub open spec fn dec_issues_item(v: JVal) -> Option<IssuesListItemV> {
    match v {
        JVal::Obj(o) => match (jget(o, "riskType"@), crate::json::dec_i64_field(o, "score"@), jget(o, "impact"@), jget(o, "description"@), jget(o, "title"@)) {
            (
                Some(tv),
                Some(score),
                Some(iv),
                Some(JVal::Str(description)),
                Some(JVal::Str(title)),
            ) => match (
                crate::risk::dec_risk_type(tv),
                dec_risk_level(iv),
                dec_opt_str(o, "tag"@),
                dec_opt_str(o, "id"@),
                dec_opt_str(o, "ignored"@),
            ) {
                (Some(risk_type), Some(impact), Some(tag), Some(id), Some(ignored)) => Some(
                    (IssuesListItemV {
                        risk_type,
                        score,
                        impact,
                        description,
                        title,
                        tag,
                        id,
                        ignored,
                    }),
                ),
                _ => None,
            },
            _ => None,
        },
        _ => None,
    }
}

pub fn decode_issues_item(v: &JsonValue) -> (r: Option<IssuesListItem>)
    ensures
        match r {
            Some(x) => dec_issues_item(v.jv()) == Some(x.model()),
            None => dec_issues_item(v.jv()) is None,
        },
{
    let o = match v {
        JsonValue::Obj(o) => o,
        _ => { return None; },
    };
    let tv = match obj_get(o, "riskType") {
        Some(x) => x,
        None => { return None; },
    };
    let risk_type = match crate::risk::decode_risk_type(tv) {
        Some(x) => x,
        None => { return None; },
    };
    let score = match crate::json::get_i64(o, "score") {
        Some(x) => x,
        None => { return None; },
    };
    let iv = match obj_get(o, "impact") {
        Some(x) => x,
        None => { return None; },
    };
    let impact = match decode_risk_level(iv) {
        Some(x) => x,
        None => { return None; },
    };
    let description = match get_str(o, "description") {
        Some(x) => x,
        None => { return None; },
    };
    let title = match get_str(o, "title") {
        Some(x) => x,
        None => { return None; },
    };
    let tag = match get_opt_str(o, "tag") {
        Some(x) => x,
        None => { return None; },
    };
    let id = match get_opt_str(o, "id") {
        Some(x) => x,
        None => { return None; },
    };
    let ignored = match get_opt_str(o, "ignored") {
        Some(x) => x,
        None => { return None; },
    };
    Some(IssuesListItem { risk_type, score, impact, description, title, tag, id, ignored })
}

proof fn issues_item_key_facts()
    ensures
        "riskType"@.len() == 8,
        "score"@.len() == 5,
        "impact"@.len() == 6,
        "description"@.len() == 11,
        "title"@.len() == 5,
        "tag"@.len() == 3,
        "id"@.len() == 2,
        "ignored"@.len() == 7,
        "score"@ != "title"@,
{
    reveal_strlit("riskType");
    reveal_strlit("score");
    reveal_strlit("impact");
    reveal_strlit("description");
    reveal_strlit("title");
    reveal_strlit("tag");
    reveal_strlit("id");
    reveal_strlit("ignored");
    assert("score"@[0] == 's' && "title"@[0] == 't');
}

pub fn encode_issues_item(x: &IssuesListItem) -> (v: JsonValue)
    ensures
        dec_issues_item(v.jv()) == Some(x.model()),
{
    let mut o: Vec<(String, JsonValue)> = Vec::new();
    o.push((String::from_str("riskType"), crate::risk::encode_risk_type(x.risk_type)));
    o.push((String::from_str("score"), JsonValue::Int(x.score as i128)));
    o.push((String::from_str("impact"), encode_risk_level(x.impact)));
    o.push((String::from_str("description"), JsonValue::Str(x.description.clone())));
    o.push((String::from_str("title"), JsonValue::Str(x.title.clone())));
    let tagv = match &x.tag {
        Some(s) => JsonValue::Str(s.clone()),
        None => JsonValue::Null,
    };
    o.push((String::from_str("tag"), tagv));
    let idv = match &x.id {
        Some(s) => JsonValue::Str(s.clone()),
        None => JsonValue::Null,
    };
    o.push((String::from_str("id"), idv));
    let igv = match &x.ignored {
        Some(s) => JsonValue::Str(s.clone()),
        None => JsonValue::Null,
    };
    o.push((String::from_str("ignored"), igv));
    proof {
        issues_item_key_facts();
        crate::risk::lemma_risk_type_round_trip(x.risk_type);
        lemma_risk_level_round_trip(x.impact);
        assert(jget(jv_pairs(o@), "riskType"@) == Some(JVal::Str(x.risk_type.wire_name_spec())));
        assert(crate::json::dec_i64_field(jv_pairs(o@), "score"@) == Some(x.score));
        assert(jget(jv_pairs(o@), "impact"@) == Some(JVal::Str(x.impact.name_spec())));
        assert(jget(jv_pairs(o@), "description"@) == Some(JVal::Str(x.description@)));
        assert(jget(jv_pairs(o@), "title"@) == Some(JVal::Str(x.title@)));
        assert(dec_opt_str(jv_pairs(o@), "tag"@) == Some(view_opt_str(x.tag)));
        assert(dec_opt_str(jv_pairs(o@), "id"@) == Some(view_opt_str(x.id)));
        assert(dec_opt_str(jv_pairs(o@), "ignored"@) == Some(view_opt_str(x.ignored)));
    }
    JsonValue::Obj(o)
}

/// What a wire object denotes as one heuristic result; every value is
/// plain, so no separate ghost model is needed. The score is in
/// thousandths.
pub open spec fn dec_heuristic_result(v: JVal) -> Option<HeuristicResult> {
    match v {
        JVal::Obj(o) => match (jget(o, "domain"@), crate::json::dec_i64_field(o, "score"@), jget(o, "risk_level"@)) {
            (Some(dv), Some(score), Some(lv)) => match (dec_risk_domain(dv), dec_risk_level(lv)) {
                (Some(domain), Some(risk_level)) => Some(
                    (HeuristicResult { domain, score, risk_level }),
                ),
                _ => None,
            },
            _ => None,
        },
        _ => None,
    }
}

pub fn decode_heuristic_result(v: &JsonValue) -> (r: Option<HeuristicResult>)
    ensures
        r == dec_heuristic_result(v.jv()),
{
    let o = match v {
        JsonValue::Obj(o) => o,
        _ => { return None; },
    };
    let dv = match obj_get(o, "domain") {
        Some(x) => x,
        None => { return None; },
    };
    let domain = match decode_risk_domain(dv) {
        Some(x) => x,
        None => { return None; },
    };
    let score = match crate::json::get_i64(o, "score") {
        Some(x) => x,
        None => { return None; },
    };
    let lv = match obj_get(o, "risk_level") {
        Some(x) => x,
        None => { return None; },
    };
    let risk_level = match decode_risk_level(lv) {
        Some(x) => x,
        None => { return None; },
    };
    Some(HeuristicResult { domain, score, risk_level })
}

proof fn heuristic_key_facts()
    ensures
        "domain"@.len() == 6,
        "score"@.len() == 5,
        "risk_level"@.len() == 10,
{
    reveal_strlit("domain");
    reveal_strlit("score");
    reveal_strlit("risk_level");
}

pub fn encode_heuristic_result(x: &HeuristicResult) -> (v: JsonValue)
    ensures
        dec_heuristic_result(v.jv()) == Some(*x),
{
    let mut o: Vec<(String, JsonValue)> = Vec::new();
    o.push((String::from_str("domain"), encode_risk_domain(x.domain)));
    o.push((String::from_str("score"), JsonValue::Int(x.score as i128)));
    o.push((String::from_str("risk_level"), encode_risk_level(x.risk_level)));
    proof {
        heuristic_key_facts();
        lemma_risk_domain_round_trip(x.domain);
        lemma_risk_level_round_trip(x.risk_level);
        assert(jget(jv_pairs(o@), "domain"@) == Some(JVal::Str(x.domain.wire_name_spec())));
        assert(crate::json::dec_i64_field(jv_pairs(o@), "score"@) == Some(x.score));
        assert(jget(jv_pairs(o@), "risk_level"@) == Some(JVal::Str(x.risk_level.name_spec())));
    }
    JsonValue::Obj(o)
}

pub ghost struct VulnerabilityV {
    pub cve: Seq<Seq<char>>,
    pub base_severity: i64,
    pub risk_level: RiskLevel,
    pub title: Seq<char>,
    pub description: Seq<char>,
    pub remediation: Seq<char>,
}

impl Vulnerability {
    pub open spec fn model(self) -> VulnerabilityV {
        (VulnerabilityV {
            cve: self.cve@.map_values(|x: String| x@),
            base_severity: self.base_severity,
            risk_level: self.risk_level,
            title: self.title@,
            description: self.description@,
            remediation: self.remediation@,
        })
    }
}

/// What a wire object denotes as a vulnerability; the base severity keeps
/// its wire key "severity" and is carried in thousandths.
pub open spec fn dec_vulnerability(v: JVal) -> Option<VulnerabilityV> {
    match v {
        JVal::Obj(o) => match (jget(o, "cve"@), crate::json::dec_i64_field(o, "severity"@), jget(o, "risk_level"@), jget(o, "title"@), jget(o, "description"@), jget(o, "remediation"@)) {
            (
                Some(JVal::Arr(cs)),
                Some(base_severity),
                Some(lv),
                Some(JVal::Str(title)),
                Some(JVal::Str(description)),
                Some(JVal::Str(remediation)),
            ) => match (crate::job::dec_str_list(cs), dec_risk_level(lv)) {
                (Some(cve), Some(risk_level)) => Some(
                    (VulnerabilityV {
                        cve,
                        base_severity,
                        risk_level,
                        title,
                        description,
                        remediation,
                    }),
                ),
                _ => None,
            },
            _ => None,
        },
        _ => None,
    }
}

pub fn decode_vulnerability(v: &JsonValue) -> (r: Option<Vulnerability>)
    ensures
        match r {
            Some(x) => dec_vulnerability(v.jv()) == Some(x.model()),
            None => dec_vulnerability(v.jv()) is None,
        },
{
    let o = match v {
        JsonValue::Obj(o) => o,
        _ => { return None; },
    };
    let cs = match crate::json::get_arr(o, "cve") {
        Some(x) => x,
        None => { return None; },
    };
    let cve = match crate::job::decode_str_list(cs) {
        Some(x) => x,
        None => { return None; },
    };
    let base_severity = match crate::json::get_i64(o, "severity") {
        Some(x) => x,
        None => { return None; },
    };
    let lv = match obj_get(o, "risk_level") {
        Some(x) => x,
        None => { return None; },
    };
    let risk_level = match decode_risk_level(lv) {
        Some(x) => x,
        None => { return None; },
    };
    let title = match get_str(o, "title") {
        Some(x) => x,
        None => { return None; },
    };
    let description = match get_str(o, "description") {
        Some(x) => x,
        None => { return None; },
    };
    let remediation = match get_str(o, "remediation") {
        Some(x) => x,
        None => { return None; },
    };
    Some(Vulnerability { cve, base_severity, risk_level, title, description, remediation })
}

proof fn vulnerability_key_facts()
    ensures
        "cve"@.len() == 3,
        "severity"@.len() == 8,
        "risk_level"@.len() == 10,
        "title"@.len() == 5,
        "description"@.len() == 11,
        "remediation"@.len() == 11,
        "description"@ != "remediation"@,
{
    reveal_strlit("cve");
    reveal_strlit("severity");
    reveal_strlit("risk_level");
    reveal_strlit("title");
    reveal_strlit("description");
    reveal_strlit("remediation");
    assert("description"@[0] == 'd' && "remediation"@[0] == 'r');
}

pub fn encode_vulnerability(x: &Vulnerability) -> (v: JsonValue)
    ensures
        dec_vulnerability(v.jv()) == Some(x.model()),
{
    let mut o: Vec<(String, JsonValue)> = Vec::new();
    o.push((String::from_str("cve"), crate::job::encode_str_list(&x.cve)));
    o.push((String::from_str("severity"), JsonValue::Int(x.base_severity as i128)));
    o.push((String::from_str("risk_level"), encode_risk_level(x.risk_level)));
    o.push((String::from_str("title"), JsonValue::Str(x.title.clone())));
    o.push((String::from_str("description"), JsonValue::Str(x.description.clone())));
    o.push((String::from_str("remediation"), JsonValue::Str(x.remediation.clone())));
    proof {
        vulnerability_key_facts();
        lemma_risk_level_round_trip(x.risk_level);
        assert(crate::json::dec_i64_field(jv_pairs(o@), "severity"@) == Some(x.base_severity));
        assert(jget(jv_pairs(o@), "risk_level"@) == Some(JVal::Str(x.risk_level.name_spec())));
        assert(jget(jv_pairs(o@), "title"@) == Some(JVal::Str(x.title@)));
        assert(jget(jv_pairs(o@), "description"@) == Some(JVal::Str(x.description@)));
        assert(jget(jv_pairs(o@), "remediation"@) == Some(JVal::Str(x.remediation@)));
    }
    JsonValue::Obj(o)
}


/// What an array denotes as a list, element by element.
pub open spec fn dec_scored_version_list(s: Seq<JVal>) -> Option<Seq<ScoredVersionV>>
    decreases s.len(),
{
    if s.len() == 0 {
        Some(Seq::empty())
    } else {
        match (dec_scored_version_list(s.drop_last()), dec_scored_version(s.last())) {
            (Some(m), Some(x)) => Some(m.push(x)),
            _ => None,
        }
    }
}

pub open spec fn scored_version_list_model(s: Seq<ScoredVersion>) -> Seq<ScoredVersionV> {
    s.map_values(|x: ScoredVersion| x.model())
}

proof fn lemma_dec_scored_version_list_elem_bad(s: Seq<JVal>, i: int)
    requires
        0 <= i < s.len(),
        dec_scored_version(s[i]) is None,
    ensures
        dec_scored_version_list(s) is None,
    decreases s.len(),
{
    if i < s.len() - 1 {
        assert(s.drop_last()[i] == s[i]);
        lemma_dec_scored_version_list_elem_bad(s.drop_last(), i);
    }
}

pub fn decode_scored_version_list(a: &Vec<JsonValue>) -> (r: Option<Vec<ScoredVersion>>)
    ensures
        match r {
            Some(m) => dec_scored_version_list(jv_seq(a@)) == Some(scored_version_list_model(m@)),
            None => dec_scored_version_list(jv_seq(a@)) is None,
        },
{
    proof {
        crate::json::lemma_jv_seq_len(a@);
    }
    let mut m: Vec<ScoredVersion> = Vec::new();
    let mut i: usize = 0;
    while i < a.len()
        invariant
            i <= a.len(),
            jv_seq(a@).len() == a@.len(),
            dec_scored_version_list(jv_seq(a@).subrange(0, i as int)) == Some(scored_version_list_model(m@)),
        decreases a.len() - i,
    {
        proof {
            crate::json::lemma_jv_seq_index(a@, i as int);
            assert(jv_seq(a@).subrange(0, i + 1).drop_last() =~= jv_seq(a@).subrange(0, i as int));
            assert(jv_seq(a@).subrange(0, i + 1).last() == jv_seq(a@)[i as int]);
        }
        match decode_scored_version(&a[i]) {
            Some(x) => {
                m.push(x);
                proof {
                    assert(scored_version_list_model(m@) =~= scored_version_list_model(m@.drop_last()).push(
                        m@.last().model(),
                    ));
                }
            },
            None => {
                proof {
                    lemma_dec_scored_version_list_elem_bad(jv_seq(a@), i as int);
                }
                return None;
            },
        }
        i += 1;
    }
    proof {
        assert(jv_seq(a@).subrange(0, a@.len() as int) =~= jv_seq(a@));
    }
    Some(m)
}

pub fn encode_scored_version_list(m: &Vec<ScoredVersion>) -> (v: JsonValue)
    ensures
        v.jv() matches JVal::Arr(s) && dec_scored_version_list(s) == Some(scored_version_list_model(m@)),
{
    let mut a: Vec<JsonValue> = Vec::new();
    let mut i: usize = 0;
    while i < m.len()
        invariant
            i <= m.len(),
            a@.len() == i,
            dec_scored_version_list(jv_seq(a@)) == Some(scored_version_list_model(m@.subrange(0, i as int))),
        decreases m.len() - i,
    {
        let ghost before = jv_seq(a@);
        let ev = encode_scored_version(&m[i]);
        a.push(ev);
        proof {
            crate::json::lemma_jv_seq_len(a@);
            assert(jv_seq(a@).drop_last() =~= before);
            assert(scored_version_list_model(m@.subrange(0, i + 1)) =~= scored_version_list_model(
                m@.subrange(0, i as int),
            ).push(m@[i as int].model()));
        }
        i += 1;
    }
    proof {
        assert(m@.subrange(0, m@.len() as int) =~= m@);
    }
    JsonValue::Arr(a)
}


/// What an array denotes as a list, element by element.
pub open spec fn dec_dynamics_point_list(s: Seq<JVal>) -> Option<Seq<ScoreDynamicsPointV>>
    decreases s.len(),
{
    if s.len() == 0 {
        Some(Seq::empty())
    } else {
        match (dec_dynamics_point_list(s.drop_last()), dec_dynamics_point(s.last())) {
            (Some(m), Some(x)) => Some(m.push(x)),
            _ => None,
        }
    }
}

pub open spec fn dynamics_point_list_model(s: Seq<ScoreDynamicsPoint>) -> Seq<ScoreDynamicsPointV> {
    s.map_values(|x: ScoreDynamicsPoint| x.model())
}

proof fn lemma_dec_dynamics_point_list_elem_bad(s: Seq<JVal>, i: int)
    requires
        0 <= i < s.len(),
        dec_dynamics_point(s[i]) is None,
    ensures
        dec_dynamics_point_list(s) is None,
    decreases s.len(),
{
    if i < s.len() - 1 {
        assert(s.drop_last()[i] == s[i]);
        lemma_dec_dynamics_point_list_elem_bad(s.drop_last(), i);
    }
}

pub fn decode_dynamics_point_list(a: &Vec<JsonValue>) -> (r: Option<Vec<ScoreDynamicsPoint>>)
    ensures
        match r {
            Some(m) => dec_dynamics_point_list(jv_seq(a@)) == Some(dynamics_point_list_model(m@)),
            None => dec_dynamics_point_list(jv_seq(a@)) is None,
        },
{
    proof {
        crate::json::lemma_jv_seq_len(a@);
    }
    let mut m: Vec<ScoreDynamicsPoint> = Vec::new();
    let mut i: usize = 0;
    while i < a.len()
        invariant
            i <= a.len(),
            jv_seq(a@).len() == a@.len(),
            dec_dynamics_point_list(jv_seq(a@).subrange(0, i as int)) == Some(dynamics_point_list_model(m@)),
        decreases a.len() - i,
    {
        proof {
            crate::json::lemma_jv_seq_index(a@, i as int);
            assert(jv_seq(a@).subrange(0, i + 1).drop_last() =~= jv_seq(a@).subrange(0, i as int));
            assert(jv_seq(a@).subrange(0, i + 1).last() == jv_seq(a@)[i as int]);
        }
        match decode_dynamics_point(&a[i]) {
            Some(x) => {
                m.push(x);
                proof {
                    assert(dynamics_point_list_model(m@) =~= dynamics_point_list_model(m@.drop_last()).push(
                        m@.last().model(),
                    ));
                }
            },
            None => {
                proof {
                    lemma_dec_dynamics_point_list_elem_bad(jv_seq(a@), i as int);
                }
                return None;
            },
        }
        i += 1;
    }
    proof {
        assert(jv_seq(a@).subrange(0, a@.len() as int) =~= jv_seq(a@));
    }
    Some(m)
}

pub fn encode_dynamics_point_list(m: &Vec<ScoreDynamicsPoint>) -> (v: JsonValue)
    ensures
        v.jv() matches JVal::Arr(s) && dec_dynamics_point_list(s) == Some(dynamics_point_list_model(m@)),
{
    let mut a: Vec<JsonValue> = Vec::new();
    let mut i: usize = 0;
    while i < m.len()
        invariant
            i <= m.len(),
            a@.len() == i,
            dec_dynamics_point_list(jv_seq(a@)) == Some(dynamics_point_list_model(m@.subrange(0, i as int))),
        decreases m.len() - i,
    {
        let ghost before = jv_seq(a@);
        let ev = encode_dynamics_point(&m[i]);
        a.push(ev);
        proof {
            crate::json::lemma_jv_seq_len(a@);
            assert(jv_seq(a@).drop_last() =~= before);
            assert(dynamics_point_list_model(m@.subrange(0, i + 1)) =~= dynamics_point_list_model(
                m@.subrange(0, i as int),
            ).push(m@[i as int].model()));
        }
        i += 1;
    }
    proof {
        assert(m@.subrange(0, m@.len() as int) =~= m@);
    }
    JsonValue::Arr(a)
}


/// What an array denotes as a list, element by element.
pub open spec fn dec_issue_list(s: Seq<JVal>) -> Option<Seq<IssueV>>
    decreases s.len(),
{
    if s.len() == 0 {
        Some(Seq::empty())
    } else {
        match (dec_issue_list(s.drop_last()), dec_issue(s.last())) {
            (Some(m), Some(x)) => Some(m.push(x)),
            _ => None,
        }
    }
}

pub open spec fn issue_list_model(s: Seq<Issue>) -> Seq<IssueV> {
    s.map_values(|x: Issue| x.model())
}

proof fn lemma_dec_issue_list_elem_bad(s: Seq<JVal>, i: int)
    requires
        0 <= i < s.len(),
        dec_issue(s[i]) is None,
    ensures
        dec_issue_list(s) is None,
    decreases s.len(),
{
    if i < s.len() - 1 {
        assert(s.drop_last()[i] == s[i]);
        lemma_dec_issue_list_elem_bad(s.drop_last(), i);
    }
}

pub fn decode_issue_list(a: &Vec<JsonValue>) -> (r: Option<Vec<Issue>>)
    ensures
        match r {
            Some(m) => dec_issue_list(jv_seq(a@)) == Some(issue_list_model(m@)),
            None => dec_issue_list(jv_seq(a@)) is None,
        },
{
    proof {
        crate::json::lemma_jv_seq_len(a@);
    }
    let mut m: Vec<Issue> = Vec::new();
    let mut i: usize = 0;
    while i < a.len()
        invariant
            i <= a.len(),
            jv_seq(a@).len() == a@.len(),
            dec_issue_list(jv_seq(a@).subrange(0, i as int)) == Some(issue_list_model(m@)),
        decreases a.len() - i,
    {
        proof {
            crate::json::lemma_jv_seq_index(a@, i as int);
            assert(jv_seq(a@).subrange(0, i + 1).drop_last() =~= jv_seq(a@).subrange(0, i as int));
            assert(jv_seq(a@).subrange(0, i + 1).last() == jv_seq(a@)[i as int]);
        }
        match decode_issue(&a[i]) {
            Some(x) => {
                m.push(x);
                proof {
                    assert(issue_list_model(m@) =~= issue_list_model(m@.drop_last()).push(
                        m@.last().model(),
                    ));
                }
            },
            None => {
                proof {
                    lemma_dec_issue_list_elem_bad(jv_seq(a@), i as int);
                }
                return None;
            },
        }
        i += 1;
    }
    proof {
        assert(jv_seq(a@).subrange(0, a@.len() as int) =~= jv_seq(a@));
    }
    Some(m)
}

pub fn encode_issue_list(m: &Vec<Issue>) -> (v: JsonValue)
    ensures
        v.jv() matches JVal::Arr(s) && dec_issue_list(s) == Some(issue_list_model(m@)),
{
    let mut a: Vec<JsonValue> = Vec::new();
    let mut i: usize = 0;
    while i < m.len()
        invariant
            i <= m.len(),
            a@.len() == i,
            dec_issue_list(jv_seq(a@)) == Some(issue_list_model(m@.subrange(0, i as int))),
        decreases m.len() - i,
    {
        let ghost before = jv_seq(a@);
        let ev = encode_issue(&m[i]);
        a.push(ev);
        proof {
            crate::json::lemma_jv_seq_len(a@);
            assert(jv_seq(a@).drop_last() =~= before);
            assert(issue_list_model(m@.subrange(0, i + 1)) =~= issue_list_model(
                m@.subrange(0, i as int),
            ).push(m@[i as int].model()));
        }
        i += 1;
    }
    proof {
        assert(m@.subrange(0, m@.len() as int) =~= m@);
    }
    JsonValue::Arr(a)
}


/// What an array denotes as a list, element by element.
pub open spec fn dec_issues_item_list(s: Seq<JVal>) -> Option<Seq<IssuesListItemV>>
    decreases s.len(),
{
    if s.len() == 0 {
        Some(Seq::empty())
    } else {
        match (dec_issues_item_list(s.drop_last()), dec_issues_item(s.last())) {
            (Some(m), Some(x)) => Some(m.push(x)),
            _ => None,
        }
    }
}

pub open spec fn issues_item_list_model(s: Seq<IssuesListItem>) -> Seq<IssuesListItemV> {
    s.map_values(|x: IssuesListItem| x.model())
}

proof fn lemma_dec_issues_item_list_elem_bad(s: Seq<JVal>, i: int)
    requires
        0 <= i < s.len(),
        dec_issues_item(s[i]) is None,
    ensures
        dec_issues_item_list(s) is None,
    decreases s.len(),
{
    if i < s.len() - 1 {
        assert(s.drop_last()[i] == s[i]);
        lemma_dec_issues_item_list_elem_bad(s.drop_last(), i);
    }
}

pub fn decode_issues_item_list(a: &Vec<JsonValue>) -> (r: Option<Vec<IssuesListItem>>)
    ensures
        match r {
            Some(m) => dec_issues_item_list(jv_seq(a@)) == Some(issues_item_list_model(m@)),
            None => dec_issues_item_list(jv_seq(a@)) is None,
        },
{
    proof {
        crate::json::lemma_jv_seq_len(a@);
    }
    let mut m: Vec<IssuesListItem> = Vec::new();
    let mut i: usize = 0;
    while i < a.len()
        invariant
            i <= a.len(),
            jv_seq(a@).len() == a@.len(),
            dec_issues_item_list(jv_seq(a@).subrange(0, i as int)) == Some(issues_item_list_model(m@)),
        decreases a.len() - i,
    {
        proof {
            crate::json::lemma_jv_seq_index(a@, i as int);
            assert(jv_seq(a@).subrange(0, i + 1).drop_last() =~= jv_seq(a@).subrange(0, i as int));
            assert(jv_seq(a@).subrange(0, i + 1).last() == jv_seq(a@)[i as int]);
        }
        match decode_issues_item(&a[i]) {
            Some(x) => {
                m.push(x);
                proof {
                    assert(issues_item_list_model(m@) =~= issues_item_list_model(m@.drop_last()).push(
                        m@.last().model(),
                    ));
                }
            },
            None => {
                proof {
                    lemma_dec_issues_item_list_elem_bad(jv_seq(a@), i as int);
                }
                return None;
            },
        }
        i += 1;
    }
    proof {
        assert(jv_seq(a@).subrange(0, a@.len() as int) =~= jv_seq(a@));
    }
    Some(m)
}

pub fn encode_issues_item_list(m: &Vec<IssuesListItem>) -> (v: JsonValue)
    ensures
        v.jv() matches JVal::Arr(s) && dec_issues_item_list(s) == Some(issues_item_list_model(m@)),
{
    let mut a: Vec<JsonValue> = Vec::new();
    let mut i: usize = 0;
    while i < m.len()
        invariant
            i <= m.len(),
            a@.len() == i,
            dec_issues_item_list(jv_seq(a@)) == Some(issues_item_list_model(m@.subrange(0, i as int))),
        decreases m.len() - i,
    {
        let ghost before = jv_seq(a@);
        let ev = encode_issues_item(&m[i]);
        a.push(ev);
        proof {
            crate::json::lemma_jv_seq_len(a@);
            assert(jv_seq(a@).drop_last() =~= before);
            assert(issues_item_list_model(m@.subrange(0, i + 1)) =~= issues_item_list_model(
                m@.subrange(0, i as int),
            ).push(m@[i as int].model()));
        }
        i += 1;
    }
    proof {
        assert(m@.subrange(0, m@.len() as int) =~= m@);
    }
    JsonValue::Arr(a)
}


/// What an array denotes as a list, element by element.
pub open spec fn dec_author_list(s: Seq<JVal>) -> Option<Seq<AuthorV>>
    decreases s.len(),
{
    if s.len() == 0 {
        Some(Seq::empty())
    } else {
        match (dec_author_list(s.drop_last()), dec_author(s.last())) {
            (Some(m), Some(x)) => Some(m.push(x)),
            _ => None,
        }
    }
}

pub open spec fn author_list_model(s: Seq<Author>) -> Seq<AuthorV> {
    s.map_values(|x: Author| x.model())
}

proof fn lemma_dec_author_list_elem_bad(s: Seq<JVal>, i: int)
    requires
        0 <= i < s.len(),
        dec_author(s[i]) is None,
    ensures
        dec_author_list(s) is None,
    decreases s.len(),
{
    if i < s.len() - 1 {
        assert(s.drop_last()[i] == s[i]);
        lemma_dec_author_list_elem_bad(s.drop_last(), i);
    }
}

pub fn decode_author_list(a: &Vec<JsonValue>) -> (r: Option<Vec<Author>>)
    ensures
        match r {
            Some(m) => dec_author_list(jv_seq(a@)) == Some(author_list_model(m@)),
            None => dec_author_list(jv_seq(a@)) is None,
        },
{
    proof {
        crate::json::lemma_jv_seq_len(a@);
    }
    let mut m: Vec<Author> = Vec::new();
    let mut i: usize = 0;
    while i < a.len()
        invariant
            i <= a.len(),
            jv_seq(a@).len() == a@.len(),
            dec_author_list(jv_seq(a@).subrange(0, i as int)) == Some(author_list_model(m@)),
        decreases a.len() - i,
    {
        proof {
            crate::json::lemma_jv_seq_index(a@, i as int);
            assert(jv_seq(a@).subrange(0, i + 1).drop_last() =~= jv_seq(a@).subrange(0, i as int));
            assert(jv_seq(a@).subrange(0, i + 1).last() == jv_seq(a@)[i as int]);
        }
        match decode_author(&a[i]) {
            Some(x) => {
                m.push(x);
                proof {
                    assert(author_list_model(m@) =~= author_list_model(m@.drop_last()).push(
                        m@.last().model(),
                    ));
                }
            },
            None => {
                proof {
                    lemma_dec_author_list_elem_bad(jv_seq(a@), i as int);
                }
                return None;
            },
        }
        i += 1;
    }
    proof {
        assert(jv_seq(a@).subrange(0, a@.len() as int) =~= jv_seq(a@));
    }
    Some(m)
}

pub fn encode_author_list(m: &Vec<Author>) -> (v: JsonValue)
    ensures
        v.jv() matches JVal::Arr(s) && dec_author_list(s) == Some(author_list_model(m@)),
{
    let mut a: Vec<JsonValue> = Vec::new();
    let mut i: usize = 0;
    while i < m.len()
        invariant
            i <= m.len(),
            a@.len() == i,
            dec_author_list(jv_seq(a@)) == Some(author_list_model(m@.subrange(0, i as int))),
        decreases m.len() - i,
    {
        let ghost before = jv_seq(a@);
        let ev = encode_author(&m[i]);
        a.push(ev);
        proof {
            crate::json::lemma_jv_seq_len(a@);
            assert(jv_seq(a@).drop_last() =~= before);
            assert(author_list_model(m@.subrange(0, i + 1)) =~= author_list_model(
                m@.subrange(0, i as int),
            ).push(m@[i as int].model()));
        }
        i += 1;
    }
    proof {
        assert(m@.subrange(0, m@.len() as int) =~= m@);
    }
    JsonValue::Arr(a)
}


/// What an array denotes as a list, element by element.
pub open spec fn dec_spec_entry_list(s: Seq<JVal>) -> Option<Seq<crate::ids::PackageSpecifierV>>
    decreases s.len(),
{
    if s.len() == 0 {
        Some(Seq::empty())
    } else {
        match (dec_spec_entry_list(s.drop_last()), crate::ids::dec_specifier(s.last())) {
            (Some(m), Some(x)) => Some(m.push(x)),
            _ => None,
        }
    }
}

pub open spec fn spec_entry_list_model(s: Seq<crate::ids::PackageSpecifier>) -> Seq<crate::ids::PackageSpecifierV> {
    s.map_values(|x: crate::ids::PackageSpecifier| x.model())
}

proof fn lemma_dec_spec_entry_list_elem_bad(s: Seq<JVal>, i: int)
    requires
        0 <= i < s.len(),
        crate::ids::dec_specifier(s[i]) is None,
    ensures
        dec_spec_entry_list(s) is None,
    decreases s.len(),
{
    if i < s.len() - 1 {
        assert(s.drop_last()[i] == s[i]);
        lemma_dec_spec_entry_list_elem_bad(s.drop_last(), i);
    }
}

pub fn decode_spec_entry_list(a: &Vec<JsonValue>) -> (r: Option<Vec<crate::ids::PackageSpecifier>>)
    ensures
        match r {
            Some(m) => dec_spec_entry_list(jv_seq(a@)) == Some(spec_entry_list_model(m@)),
            None => dec_spec_entry_list(jv_seq(a@)) is None,
        },
{
    proof {
        crate::json::lemma_jv_seq_len(a@);
    }
    let mut m: Vec<crate::ids::PackageSpecifier> = Vec::new();
    let mut i: usize = 0;
    while i < a.len()
        invariant
            i <= a.len(),
            jv_seq(a@).len() == a@.len(),
            dec_spec_entry_list(jv_seq(a@).subrange(0, i as int)) == Some(spec_entry_list_model(m@)),
        decreases a.len() - i,
    {
        proof {
            crate::json::lemma_jv_seq_index(a@, i as int);
            assert(jv_seq(a@).subrange(0, i + 1).drop_last() =~= jv_seq(a@).subrange(0, i as int));
            assert(jv_seq(a@).subrange(0, i + 1).last() == jv_seq(a@)[i as int]);
        }
        match crate::ids::decode_specifier(&a[i]) {
            Some(x) => {
                m.push(x);
                proof {
                    assert(spec_entry_list_model(m@) =~= spec_entry_list_model(m@.drop_last()).push(
                        m@.last().model(),
                    ));
                }
            },
            None => {
                proof {
                    lemma_dec_spec_entry_list_elem_bad(jv_seq(a@), i as int);
                }
                return None;
            },
        }
        i += 1;
    }
    proof {
        assert(jv_seq(a@).subrange(0, a@.len() as int) =~= jv_seq(a@));
    }
    Some(m)
}

pub fn encode_spec_entry_list(m: &Vec<crate::ids::PackageSpecifier>) -> (v: JsonValue)
    ensures
        v.jv() matches JVal::Arr(s) && dec_spec_entry_list(s) == Some(spec_entry_list_model(m@)),
{
    let mut a: Vec<JsonValue> = Vec::new();
    let mut i: usize = 0;
    while i < m.len()
        invariant
            i <= m.len(),
            a@.len() == i,
            dec_spec_entry_list(jv_seq(a@)) == Some(spec_entry_list_model(m@.subrange(0, i as int))),
        decreases m.len() - i,
    {
        let ghost before = jv_seq(a@);
        let ev = crate::ids::encode_specifier(&m[i]);
        a.push(ev);
        proof {
            crate::json::lemma_jv_seq_len(a@);
            assert(jv_seq(a@).drop_last() =~= before);
            assert(spec_entry_list_model(m@.subrange(0, i + 1)) =~= spec_entry_list_model(
                m@.subrange(0, i as int),
            ).push(m@[i as int].model()));
        }
        i += 1;
    }
    proof {
        assert(m@.subrange(0, m@.len() as int) =~= m@);
    }
    JsonValue::Arr(a)
}


/// Ghost content of a full package report.
pub ghost struct PackageV {
    pub purl: Option<Seq<char>>,
    pub id: Seq<char>,
    pub name: Seq<char>,
    pub version: Seq<char>,
    pub registry: Seq<char>,
    pub published_date: Option<Seq<char>>,
    pub latest_version: Option<Seq<char>>,
    pub versions: Seq<ScoredVersionV>,
    pub description: Option<Seq<char>>,
    pub license: Option<Seq<char>>,
    pub dep_specs: Seq<crate::ids::PackageSpecifierV>,
    pub dependencies: Option<Seq<PackageV>>,
    pub download_count: u32,
    pub risk_scores: RiskScoresV,
    pub total_risk_score_dynamics: Option<Seq<ScoreDynamicsPointV>>,
    pub issues_details: Seq<IssueV>,
    pub issues: Seq<IssuesListItemV>,
    pub authors: Seq<AuthorV>,
    pub developer_responsiveness: Option<DeveloperResponsiveness>,
    pub complete: bool,
    pub release_data: Option<PackageReleaseDataV>,
    pub repo_url: Option<Seq<char>>,
    pub maintainers_recently_changed: Option<bool>,
    pub is_abandonware: Option<bool>,
}

pub open spec fn packages_model(s: Seq<Package>) -> Seq<PackageV>
    decreases s,
{
    if s.len() == 0 {
        Seq::empty()
    } else {
        packages_model(s.drop_last()).push(s.last().model())
    }
}

impl Package {
    /// Wire-visible content of the report, the dependency subtree
    /// included.
    pub open spec fn model(self) -> PackageV
        decreases self,
    {
        (PackageV {
            purl: view_opt_str(self.purl),
            id: self.id@,
            name: self.name@,
            version: self.version@,
            registry: self.registry@,
            published_date: view_opt_str(self.published_date),
            latest_version: view_opt_str(self.latest_version),
            versions: scored_version_list_model(self.versions@),
            description: view_opt_str(self.description),
            license: view_opt_str(self.license),
            dep_specs: spec_entry_list_model(self.dep_specs@),
            dependencies: match self.dependencies {
                Some(d) => Some(packages_model(d@)),
                None => None,
            },
            download_count: self.download_count,
            risk_scores: self.risk_scores.model(),
            total_risk_score_dynamics: match self.total_risk_score_dynamics {
                Some(d) => Some(dynamics_point_list_model(d@)),
                None => None,
            },
            issues_details: issue_list_model(self.issues_details@),
            issues: issues_item_list_model(self.issues@),
            authors: author_list_model(self.authors@),
            developer_responsiveness: self.developer_responsiveness,
            complete: self.complete,
            release_data: match self.release_data {
                Some(r) => Some(r.model()),
                None => None,
            },
            repo_url: view_opt_str(self.repo_url),
            maintainers_recently_changed: self.maintainers_recently_changed,
            is_abandonware: self.is_abandonware,
        })
    }
}

proof fn lemma_packages_model_push(s: Seq<Package>, x: Package)
    ensures
        packages_model(s.push(x)) == packages_model(s).push(x.model()),
{
    assert(s.push(x).drop_last() =~= s);
    assert(s.push(x).last() == x);
}

/// The dependency subtree of a report object: scanning for the first
/// "dependencies" binding; absent or null means no hydrated subtree.
pub open spec fn dec_pkg_deps(o: Seq<(Seq<char>, JVal)>) -> Option<Option<Seq<PackageV>>>
    decreases o,
{
    if o.len() == 0 {
        Some(None)
    } else if o[0].0 == "dependencies"@ {
        match o[0].1 {
            JVal::Null => Some(None),
            JVal::Arr(s) => match dec_package_list(s) {
                Some(l) => Some(Some(l)),
                None => None,
            },
            _ => None,
        }
    } else {
        dec_pkg_deps(o.skip(1))
    }
}

/// What an array denotes as a list of package reports.
pub open spec fn dec_package_list(s: Seq<JVal>) -> Option<Seq<PackageV>>
    decreases s,
{
    if s.len() == 0 {
        Some(Seq::empty())
    } else {
        match (dec_package_list(s.drop_last()), dec_package(s.last())) {
            (Some(m), Some(x)) => Some(m.push(x)),
            _ => None,
        }
    }
}


/// The individual enrichment fields of a report object, each with its
/// default when the key is missing.
pub open spec fn dec_pkg_versions(o: Seq<(Seq<char>, JVal)>) -> Option<Seq<ScoredVersionV>> {
    match jget(o, "versions"@) {
        None => Some(Seq::<ScoredVersionV>::empty()),
        Some(JVal::Arr(s)) => dec_scored_version_list(s),
        Some(_) => None,
    }
}

pub open spec fn dec_pkg_dep_specs(o: Seq<(Seq<char>, JVal)>) -> Option<
    Seq<crate::ids::PackageSpecifierV>,
> {
    match jget(o, "depSpecs"@) {
        None => Some(Seq::<crate::ids::PackageSpecifierV>::empty()),
        Some(JVal::Arr(s)) => dec_spec_entry_list(s),
        Some(_) => None,
    }
}

pub open spec fn dec_pkg_download(o: Seq<(Seq<char>, JVal)>) -> Option<u32> {
    match jget(o, "downloadCount"@) {
        None => Some(0u32),
        Some(JVal::Int(i)) => if 0 <= i <= 0xffff_ffff {
            Some(i as u32)
        } else {
            None
        },
        Some(_) => None,
    }
}

pub open spec fn dec_pkg_scores(o: Seq<(Seq<char>, JVal)>) -> Option<RiskScoresV> {
    match jget(o, "riskScores"@) {
        None => Some(
            (RiskScoresV {
                total: 0,
                vulnerability: 0,
                malicious: 0,
                author: 0,
                engineering: 0,
                license: 0,
            }),
        ),
        Some(w) => dec_risk_scores(w),
    }
}

pub open spec fn dec_pkg_dynamics(o: Seq<(Seq<char>, JVal)>) -> Option<
    Option<Seq<ScoreDynamicsPointV>>,
> {
    match jget(o, "totalRiskScoreDynamics"@) {
        None => Some(None),
        Some(JVal::Null) => Some(None),
        Some(JVal::Arr(s)) => match dec_dynamics_point_list(s) {
            Some(l) => Some(Some(l)),
            None => None,
        },
        Some(_) => None,
    }
}

pub open spec fn dec_pkg_issues_details(o: Seq<(Seq<char>, JVal)>) -> Option<Seq<IssueV>> {
    match jget(o, "issuesDetails"@) {
        None => Some(Seq::<IssueV>::empty()),
        Some(JVal::Arr(s)) => dec_issue_list(s),
        Some(_) => None,
    }
}

pub open spec fn dec_pkg_issues(o: Seq<(Seq<char>, JVal)>) -> Option<Seq<IssuesListItemV>> {
    match jget(o, "issues"@) {
        None => Some(Seq::<IssuesListItemV>::empty()),
        Some(JVal::Arr(s)) => dec_issues_item_list(s),
        Some(_) => None,
    }
}

pub open spec fn dec_pkg_authors(o: Seq<(Seq<char>, JVal)>) -> Option<Seq<AuthorV>> {
    match jget(o, "authors"@) {
        None => Some(Seq::<AuthorV>::empty()),
        Some(JVal::Arr(s)) => dec_author_list(s),
        Some(_) => None,
    }
}

pub open spec fn dec_pkg_devresp(o: Seq<(Seq<char>, JVal)>) -> Option<
    Option<DeveloperResponsiveness>,
> {
    match jget(o, "developerResponsiveness"@) {
        None => Some(None),
        Some(JVal::Null) => Some(None),
        Some(w) => match dec_developer_responsiveness(w) {
            Some(d) => Some(Some(d)),
            None => None,
        },
    }
}

pub open spec fn dec_pkg_complete(o: Seq<(Seq<char>, JVal)>) -> Option<bool> {
    match jget(o, "complete"@) {
        None => Some(false),
        Some(JVal::Bool(b)) => Some(b),
        Some(_) => None,
    }
}

pub open spec fn dec_pkg_release(o: Seq<(Seq<char>, JVal)>) -> Option<Option<PackageReleaseDataV>> {
    match jget(o, "releaseData"@) {
        None => Some(None),
        Some(JVal::Null) => Some(None),
        Some(w) => match dec_release_data(w) {
            Some(r) => Some(Some(r)),
            None => None,
        },
    }
}

/// What a wire object denotes as a full package report: camelCase keys,
/// every field beyond identity optional or defaulted, the dependency
/// subtree decoded recursively.
pub open spec fn dec_package(v: JVal) -> Option<PackageV>
    decreases v,
{
    match v {
        JVal::Obj(o) => {
            match (dec_opt_str(o, "purl"@), crate::json::dec_str_default_field(o, "id"@), crate::json::dec_str_default_field(o, "name"@), crate::json::dec_str_default_field(o, "version"@), crate::json::dec_str_default_field(o, "registry"@), dec_opt_str(o, "publishedDate"@), dec_opt_str(o, "latestVersion"@)) {
                (
                    Some(purl),
                    Some(id),
                    Some(name),
                    Some(version),
                    Some(registry),
                    Some(published_date),
                    Some(latest_version),
                ) => match (dec_pkg_versions(o), dec_opt_str(o, "description"@), dec_opt_str(o, "license"@), dec_pkg_dep_specs(o), dec_pkg_deps(o), dec_pkg_download(o), dec_pkg_scores(o)) {
                    (
                        Some(versions),
                        Some(description),
                        Some(license),
                        Some(dep_specs),
                        Some(dependencies),
                        Some(download_count),
                        Some(risk_scores),
                    ) => match (dec_pkg_dynamics(o), dec_pkg_issues_details(o), dec_pkg_issues(o), dec_pkg_authors(o), dec_pkg_devresp(o), dec_pkg_complete(o), dec_pkg_release(o)) {
                        (
                            Some(total_risk_score_dynamics),
                            Some(issues_details),
                            Some(issues),
                            Some(authors),
                            Some(developer_responsiveness),
                            Some(complete),
                            Some(release_data),
                        ) => match (dec_opt_str(o, "repoUrl"@), crate::json::dec_opt_bool_field(o, "maintainersRecentlyChanged"@), crate::json::dec_opt_bool_field(o, "isAbandonware"@)) {
                            (
                                Some(repo_url),
                                Some(maintainers_recently_changed),
                                Some(is_abandonware),
                            ) => Some(
                                (PackageV {
                                    purl,
                                    id,
                                    name,
                                    version,
                                    registry,
                                    published_date,
                                    latest_version,
                                    versions,
                                    description,
                                    license,
                                    dep_specs,
                                    dependencies,
                                    download_count,
                                    risk_scores,
                                    total_risk_score_dynamics,
                                    issues_details,
                                    issues,
                                    authors,
                                    developer_responsiveness,
                                    complete,
                                    release_data,
                                    repo_url,
                                    maintainers_recently_changed,
                                    is_abandonware,
                                }),
                            ),
                            _ => None,
                        },
                        _ => None,
                    },
                    _ => None,
                },
                _ => None,
            }
        },
        _ => None,
    }
}

/// The dependency scan agrees with a plain key lookup.
pub proof fn lemma_pkg_deps_jget(o: Seq<(Seq<char>, JVal)>)
    ensures
        dec_pkg_deps(o) == (match jget(o, "dependencies"@) {
            None => Some(None::<Seq<PackageV>>),
            Some(JVal::Null) => Some(None::<Seq<PackageV>>),
            Some(JVal::Arr(s)) => match dec_package_list(s) {
                Some(l) => Some(Some(l)),
                None => None,
            },
            Some(_) => None,
        }),
    decreases o.len(),
{
    if o.len() > 0 && o[0].0 != "dependencies"@ {
        lemma_pkg_deps_jget(o.skip(1));
    }
}

proof fn lemma_dec_package_list_elem_bad(s: Seq<JVal>, i: int)
    requires
        0 <= i < s.len(),
        dec_package(s[i]) is None,
    ensures
        dec_package_list(s) is None,
    decreases s.len(),
{
    if i < s.len() - 1 {
        assert(s.drop_last()[i] == s[i]);
        lemma_dec_package_list_elem_bad(s.drop_last(), i);
    }
}

proof fn package_key_facts()
    ensures
        "purl"@.len() == 4,
        "id"@.len() == 2,
        "name"@.len() == 4,
        "version"@.len() == 7,
        "registry"@.len() == 8,
        "publishedDate"@.len() == 13,
        "latestVersion"@.len() == 13,
        "versions"@.len() == 8,
        "description"@.len() == 11,
        "license"@.len() == 7,
        "depSpecs"@.len() == 8,
        "dependencies"@.len() == 12,
        "downloadCount"@.len() == 13,
        "riskScores"@.len() == 10,
        "totalRiskScoreDynamics"@.len() == 22,
        "issuesDetails"@.len() == 13,
        "issues"@.len() == 6,
        "authors"@.len() == 7,
        "developerResponsiveness"@.len() == 23,
        "complete"@.len() == 8,
        "releaseData"@.len() == 11,
        "repoUrl"@.len() == 7,
        "maintainersRecentlyChanged"@.len() == 26,
        "isAbandonware"@.len() == 13,
        "purl"@ != "name"@,
        "version"@ != "license"@,
        "version"@ != "authors"@,
        "version"@ != "repoUrl"@,
        "license"@ != "authors"@,
        "license"@ != "repoUrl"@,
        "authors"@ != "repoUrl"@,
        "registry"@ != "versions"@,
        "registry"@ != "depSpecs"@,
        "registry"@ != "complete"@,
        "versions"@ != "depSpecs"@,
        "versions"@ != "complete"@,
        "depSpecs"@ != "complete"@,
        "description"@ != "releaseData"@,
        "publishedDate"@ != "latestVersion"@,
        "publishedDate"@ != "downloadCount"@,
        "publishedDate"@ != "issuesDetails"@,
        "publishedDate"@ != "isAbandonware"@,
        "latestVersion"@ != "downloadCount"@,
        "latestVersion"@ != "issuesDetails"@,
        "latestVersion"@ != "isAbandonware"@,
        "downloadCount"@ != "issuesDetails"@,
        "downloadCount"@ != "isAbandonware"@,
        "issuesDetails"@ != "isAbandonware"@,
{
    reveal_strlit("purl");
    reveal_strlit("id");
    reveal_strlit("name");
    reveal_strlit("version");
    reveal_strlit("registry");
    reveal_strlit("publishedDate");
    reveal_strlit("latestVersion");
    reveal_strlit("versions");
    reveal_strlit("description");
    reveal_strlit("license");
    reveal_strlit("depSpecs");
    reveal_strlit("dependencies");
    reveal_strlit("downloadCount");
    reveal_strlit("riskScores");
    reveal_strlit("totalRiskScoreDynamics");
    reveal_strlit("issuesDetails");
    reveal_strlit("issues");
    reveal_strlit("authors");
    reveal_strlit("developerResponsiveness");
    reveal_strlit("complete");
    reveal_strlit("releaseData");
    reveal_strlit("repoUrl");
    reveal_strlit("maintainersRecentlyChanged");
    reveal_strlit("isAbandonware");
    assert("purl"@[0] == 'p' && "name"@[0] == 'n');
    assert("version"@[0] == 'v' && "license"@[0] == 'l');
    assert("version"@[0] == 'v' && "authors"@[0] == 'a');
    assert("version"@[0] == 'v' && "repoUrl"@[0] == 'r');
    assert("license"@[0] == 'l' && "authors"@[0] == 'a');
    assert("license"@[0] == 'l' && "repoUrl"@[0] == 'r');
    assert("authors"@[0] == 'a' && "repoUrl"@[0] == 'r');
    assert("registry"@[0] == 'r' && "versions"@[0] == 'v');
    assert("registry"@[0] == 'r' && "depSpecs"@[0] == 'd');
    assert("registry"@[0] == 'r' && "complete"@[0] == 'c');
    assert("versions"@[0] == 'v' && "depSpecs"@[0] == 'd');
    assert("versions"@[0] == 'v' && "complete"@[0] == 'c');
    assert("depSpecs"@[0] == 'd' && "complete"@[0] == 'c');
    assert("description"@[0] == 'd' && "releaseData"@[0] == 'r');
    assert("publishedDate"@[0] == 'p' && "latestVersion"@[0] == 'l');
    assert("publishedDate"@[0] == 'p' && "downloadCount"@[0] == 'd');
    assert("publishedDate"@[0] == 'p' && "issuesDetails"@[0] == 'i');
    assert("publishedDate"@[0] == 'p' && "isAbandonware"@[0] == 'i');
    assert("latestVersion"@[0] == 'l' && "downloadCount"@[0] == 'd');
    assert("latestVersion"@[0] == 'l' && "issuesDetails"@[0] == 'i');
    assert("latestVersion"@[0] == 'l' && "isAbandonware"@[0] == 'i');
    assert("downloadCount"@[0] == 'd' && "issuesDetails"@[0] == 'i');
    assert("downloadCount"@[0] == 'd' && "isAbandonware"@[0] == 'i');
    assert("issuesDetails"@[2] == 's' && "isAbandonware"@[2] == 'A');
}


/// Decodes an array of package reports, element by element.
pub fn decode_package_vals(a: &Vec<JsonValue>) -> (r: Option<Vec<Package>>)
    ensures
        match r {
            Some(m) => dec_package_list(jv_seq(a@)) == Some(packages_model(m@)),
            None => dec_package_list(jv_seq(a@)) is None,
        },
    decreases *a,
{
    proof {
        crate::json::lemma_jv_seq_len(a@);
    }
    let mut m: Vec<Package> = Vec::new();
    let mut j: usize = 0;
    while j < a.len()
        invariant
            j <= a.len(),
            jv_seq(a@).len() == a@.len(),
            dec_package_list(jv_seq(a@).subrange(0, j as int)) == Some(packages_model(m@)),
        decreases a.len() - j,
    {
        proof {
            crate::json::lemma_jv_seq_index(a@, j as int);
            assert(jv_seq(a@).subrange(0, j + 1).drop_last() =~= jv_seq(a@).subrange(0, j as int));
            assert(jv_seq(a@).subrange(0, j + 1).last() == jv_seq(a@)[j as int]);
            assert(decreases_to!(*a => a@));
            assert(decreases_to!(a@ => a@[j as int]));
            assert(decreases_to!(*a => a@[j as int]));
        }
        match decode_package(&a[j]) {
            Some(p) => {
                let ghost before = m@;
                m.push(p);
                proof {
                    lemma_packages_model_push(before, m@.last());
                    assert(m@ =~= before.push(m@.last()));
                }
            },
            None => {
                proof {
                    lemma_dec_package_list_elem_bad(jv_seq(a@), j as int);
                }
                return None;
            },
        }
        j += 1;
    }
    proof {
        assert(jv_seq(a@).subrange(0, a@.len() as int) =~= jv_seq(a@));
    }
    Some(m)
}


/// Identity and date fields of a report object.
fn decode_pkg_idents(o: &Vec<(String, JsonValue)>) -> (r: Option<
    (Option<String>, String, String, String, String, Option<String>, Option<String>),
>)
    ensures
        match r {
            Some(t) => dec_opt_str(jv_pairs(o@), "purl"@) == Some(view_opt_str(t.0))
                && crate::json::dec_str_default_field(jv_pairs(o@), "id"@) == Some(t.1@)
                && crate::json::dec_str_default_field(jv_pairs(o@), "name"@) == Some(t.2@)
                && crate::json::dec_str_default_field(jv_pairs(o@), "version"@) == Some(t.3@)
                && crate::json::dec_str_default_field(jv_pairs(o@), "registry"@) == Some(t.4@)
                && dec_opt_str(jv_pairs(o@), "publishedDate"@) == Some(view_opt_str(t.5))
                && dec_opt_str(jv_pairs(o@), "latestVersion"@) == Some(view_opt_str(t.6)),
            None => dec_opt_str(jv_pairs(o@), "purl"@) is None || crate::json::dec_str_default_field(
                jv_pairs(o@),
                "id"@,
            ) is None || crate::json::dec_str_default_field(jv_pairs(o@), "name"@) is None
                || crate::json::dec_str_default_field(jv_pairs(o@), "version"@) is None
                || crate::json::dec_str_default_field(jv_pairs(o@), "registry"@) is None
                || dec_opt_str(jv_pairs(o@), "publishedDate"@) is None || dec_opt_str(
                jv_pairs(o@),
                "latestVersion"@,
            ) is None,
        },
{
    let purl = match get_opt_str(o, "purl") {
        Some(x) => x,
        None => { return None; },
    };
    let id = match crate::json::get_str_default(o, "id") {
        Some(x) => x,
        None => { return None; },
    };
    let name = match crate::json::get_str_default(o, "name") {
        Some(x) => x,
        None => { return None; },
    };
    let version = match crate::json::get_str_default(o, "version") {
        Some(x) => x,
        None => { return None; },
    };
    let registry = match crate::json::get_str_default(o, "registry") {
        Some(x) => x,
        None => { return None; },
    };
    let published_date = match get_opt_str(o, "publishedDate") {
        Some(x) => x,
        None => { return None; },
    };
    let latest_version = match get_opt_str(o, "latestVersion") {
        Some(x) => x,
        None => { return None; },
    };
    Some((purl, id, name, version, registry, published_date, latest_version))
}

/// Version list, description, license, dependency coordinates, download
/// count and scores of a report object.
fn decode_pkg_lists(o: &Vec<(String, JsonValue)>) -> (r: Option<
    (
        Vec<ScoredVersion>,
        Option<String>,
        Option<String>,
        Vec<crate::ids::PackageSpecifier>,
        u32,
        RiskScores,
    ),
>)
    ensures
        match r {
            Some(t) => dec_pkg_versions(jv_pairs(o@)) == Some(scored_version_list_model(t.0@))
                && dec_opt_str(jv_pairs(o@), "description"@) == Some(view_opt_str(t.1))
                && dec_opt_str(jv_pairs(o@), "license"@) == Some(view_opt_str(t.2))
                && dec_pkg_dep_specs(jv_pairs(o@)) == Some(spec_entry_list_model(t.3@))
                && dec_pkg_download(jv_pairs(o@)) == Some(t.4) && dec_pkg_scores(jv_pairs(o@))
                == Some(t.5.model()),
            None => dec_pkg_versions(jv_pairs(o@)) is None || dec_opt_str(
                jv_pairs(o@),
                "description"@,
            ) is None || dec_opt_str(jv_pairs(o@), "license"@) is None || dec_pkg_dep_specs(
                jv_pairs(o@),
            ) is None || dec_pkg_download(jv_pairs(o@)) is None || dec_pkg_scores(jv_pairs(o@))
                is None,
        },
{
    let versions: Vec<ScoredVersion> = match obj_get(o, "versions") {
        None => {
            let e: Vec<ScoredVersion> = Vec::new();
            proof {
                assert(scored_version_list_model(e@) =~= Seq::<ScoredVersionV>::empty());
            }
            e
        },
        Some(JsonValue::Arr(a)) => match decode_scored_version_list(a) {
            Some(x) => x,
            None => { return None; },
        },
        Some(_) => { return None; },
    };
    let description = match get_opt_str(o, "description") {
        Some(x) => x,
        None => { return None; },
    };
    let license = match get_opt_str(o, "license") {
        Some(x) => x,
        None => { return None; },
    };
    let dep_specs: Vec<crate::ids::PackageSpecifier> = match obj_get(o, "depSpecs") {
        None => {
            let e: Vec<crate::ids::PackageSpecifier> = Vec::new();
            proof {
                assert(spec_entry_list_model(e@) =~= Seq::<crate::ids::PackageSpecifierV>::empty());
            }
            e
        },
        Some(JsonValue::Arr(a)) => match decode_spec_entry_list(a) {
            Some(x) => x,
            None => { return None; },
        },
        Some(_) => { return None; },
    };
    let download_count: u32 = match obj_get(o, "downloadCount") {
        None => 0,
        Some(JsonValue::Int(i)) => if 0 <= *i && *i <= 0xffff_ffff {
            *i as u32
        } else {
            return None;
        },
        Some(_) => { return None; },
    };
    let risk_scores: RiskScores = match obj_get(o, "riskScores") {
        None => RiskScores {
            total: 0,
            vulnerability: 0,
            malicious: 0,
            author: 0,
            engineering: 0,
            license: 0,
        },
        Some(w) => match decode_risk_scores(w) {
            Some(x) => x,
            None => { return None; },
        },
    };
    Some((versions, description, license, dep_specs, download_count, risk_scores))
}

/// Score trend, both issue lists, authors, responsiveness, completion
/// flag and release data of a report object.
fn decode_pkg_extras(o: &Vec<(String, JsonValue)>) -> (r: Option<
    (
        Option<Vec<ScoreDynamicsPoint>>,
        Vec<Issue>,
        Vec<IssuesListItem>,
        Vec<Author>,
        Option<DeveloperResponsiveness>,
        bool,
        Option<PackageReleaseData>,
    ),
>)
    ensures
        match r {
            Some(t) => dec_pkg_dynamics(jv_pairs(o@)) == Some(
                match t.0 {
                    Some(d) => Some(dynamics_point_list_model(d@)),
                    None => None,
                },
            ) && dec_pkg_issues_details(jv_pairs(o@)) == Some(issue_list_model(t.1@))
                && dec_pkg_issues(jv_pairs(o@)) == Some(issues_item_list_model(t.2@))
                && dec_pkg_authors(jv_pairs(o@)) == Some(author_list_model(t.3@))
                && dec_pkg_devresp(jv_pairs(o@)) == Some(t.4) && dec_pkg_complete(jv_pairs(o@))
                == Some(t.5) && dec_pkg_release(jv_pairs(o@)) == Some(
                match t.6 {
                    Some(rd) => Some(rd.model()),
                    None => None,
                },
            ),
            None => dec_pkg_dynamics(jv_pairs(o@)) is None || dec_pkg_issues_details(jv_pairs(o@))
                is None || dec_pkg_issues(jv_pairs(o@)) is None || dec_pkg_authors(jv_pairs(o@))
                is None || dec_pkg_devresp(jv_pairs(o@)) is None || dec_pkg_complete(jv_pairs(o@))
                is None || dec_pkg_release(jv_pairs(o@)) is None,
        },
{
    let total_risk_score_dynamics: Option<Vec<ScoreDynamicsPoint>> = match obj_get(
        o,
        "totalRiskScoreDynamics",
    ) {
        None => None,
        Some(JsonValue::Null) => None,
        Some(JsonValue::Arr(a)) => match decode_dynamics_point_list(a) {
            Some(x) => Some(x),
            None => { return None; },
        },
        Some(_) => { return None; },
    };
    let issues_details: Vec<Issue> = match obj_get(o, "issuesDetails") {
        None => {
            let e: Vec<Issue> = Vec::new();
            proof {
                assert(issue_list_model(e@) =~= Seq::<IssueV>::empty());
            }
            e
        },
        Some(JsonValue::Arr(a)) => match decode_issue_list(a) {
            Some(x) => x,
            None => { return None; },
        },
        Some(_) => { return None; },
    };
    let issues: Vec<IssuesListItem> = match obj_get(o, "issues") {
        None => {
            let e: Vec<IssuesListItem> = Vec::new();
            proof {
                assert(issues_item_list_model(e@) =~= Seq::<IssuesListItemV>::empty());
            }
            e
        },
        Some(JsonValue::Arr(a)) => match decode_issues_item_list(a) {
            Some(x) => x,
            None => { return None; },
        },
        Some(_) => { return None; },
    };
    let authors: Vec<Author> = match obj_get(o, "authors") {
        None => {
            let e: Vec<Author> = Vec::new();
            proof {
                assert(author_list_model(e@) =~= Seq::<AuthorV>::empty());
            }
            e
        },
        Some(JsonValue::Arr(a)) => match decode_author_list(a) {
            Some(x) => x,
            None => { return None; },
        },
        Some(_) => { return None; },
    };
    let developer_responsiveness: Option<DeveloperResponsiveness> = match obj_get(
        o,
        "developerResponsiveness",
    ) {
        None => None,
        Some(JsonValue::Null) => None,
        Some(w) => match decode_developer_responsiveness(w) {
            Some(x) => Some(x),
            None => { return None; },
        },
    };
    let complete: bool = match obj_get(o, "complete") {
        None => false,
        Some(JsonValue::Bool(b)) => *b,
        Some(_) => { return None; },
    };
    let release_data: Option<PackageReleaseData> = match obj_get(o, "releaseData") {
        None => None,
        Some(JsonValue::Null) => None,
        Some(w) => match decode_release_data(w) {
            Some(x) => Some(x),
            None => { return None; },
        },
    };
    Some(
        (
            total_risk_score_dynamics,
            issues_details,
            issues,
            authors,
            developer_responsiveness,
            complete,
            release_data,
        ),
    )
}

/// Repository link and the two maintenance flags of a report object.
fn decode_pkg_flags(o: &Vec<(String, JsonValue)>) -> (r: Option<
    (Option<String>, Option<bool>, Option<bool>),
>)
    ensures
        match r {
            Some(t) => dec_opt_str(jv_pairs(o@), "repoUrl"@) == Some(view_opt_str(t.0))
                && crate::json::dec_opt_bool_field(jv_pairs(o@), "maintainersRecentlyChanged"@)
                == Some(t.1) && crate::json::dec_opt_bool_field(jv_pairs(o@), "isAbandonware"@)
                == Some(t.2),
            None => dec_opt_str(jv_pairs(o@), "repoUrl"@) is None
                || crate::json::dec_opt_bool_field(jv_pairs(o@), "maintainersRecentlyChanged"@)
                is None || crate::json::dec_opt_bool_field(jv_pairs(o@), "isAbandonware"@)
                is None,
        },
{
    let repo_url = match get_opt_str(o, "repoUrl") {
        Some(x) => x,
        None => { return None; },
    };
    let maintainers_recently_changed = match crate::json::get_opt_bool(
        o,
        "maintainersRecentlyChanged",
    ) {
        Some(x) => x,
        None => { return None; },
    };
    let is_abandonware = match crate::json::get_opt_bool(o, "isAbandonware") {
        Some(x) => x,
        None => { return None; },
    };
    Some((repo_url, maintainers_recently_changed, is_abandonware))
}

/// First index bound to the dependencies key, or the length when absent.
fn find_deps_key(o: &Vec<(String, JsonValue)>) -> (idx: usize)
    ensures
        idx <= o@.len(),
        idx == o@.len() ==> jget(jv_pairs(o@), "dependencies"@) is None,
        idx < o@.len() ==> jv_pairs(o@)[idx as int].0 == "dependencies"@ && jget(
            jv_pairs(o@),
            "dependencies"@,
        ) == Some(jv_pairs(o@)[idx as int].1),
{
    proof {
        crate::json::lemma_jv_pairs_len(o@);
    }
    let depkey = String::from_str("dependencies");
    let mut k: usize = 0;
    let mut idx: usize = o.len();
    while k < o.len()
        invariant
            jv_pairs(o@).len() == o@.len(),
            depkey@ == "dependencies"@,
            k <= o.len(),
            idx <= o.len(),
            idx == o.len() ==> forall|j: int| 0 <= j < k ==> jv_pairs(o@)[j].0
                != "dependencies"@,
            idx < o.len() ==> jv_pairs(o@)[idx as int].0 == "dependencies"@ && (forall|j: int|
                0 <= j < idx ==> jv_pairs(o@)[j].0 != "dependencies"@),
        decreases o.len() - k,
    {
        proof {
            crate::json::lemma_jv_pairs_index(o@, k as int);
        }
        if idx == o.len() {
            if o[k].0 == depkey {
                idx = k;
            }
        }
        k += 1;
    }
    if idx == o.len() {
        proof {
            crate::json::lemma_jget_none(jv_pairs(o@), "dependencies"@);
        }
    } else {
        proof {
            crate::json::lemma_jget_index(jv_pairs(o@), "dependencies"@, idx as int);
        }
    }
    idx
}

/// Decodes a full package report; the dependency subtree is decoded
/// recursively.
#[verifier::rlimit(100)]
#[verifier::spinoff_prover]
pub fn decode_package(v: &JsonValue) -> (r: Option<Package>)
    ensures
        match r {
            Some(x) => dec_package(v.jv()) == Some(x.model()),
            None => dec_package(v.jv()) is None,
        },
    decreases *v,
{
    let o = match v {
        JsonValue::Obj(o) => o,
        _ => { return None; },
    };
    let ghost pairs = jv_pairs(o@);
    proof {
        crate::json::lemma_jv_pairs_len(o@);
        lemma_pkg_deps_jget(pairs);
    }
    let (purl, id, name, version, registry, published_date, latest_version) = match
        decode_pkg_idents(o) {
        Some(t) => t,
        None => { return None; },
    };
    let (versions, description, license, dep_specs, download_count, risk_scores) = match
        decode_pkg_lists(o) {
        Some(t) => t,
        None => { return None; },
    };
    let (
        total_risk_score_dynamics,
        issues_details,
        issues,
        authors,
        developer_responsiveness,
        complete,
        release_data,
    ) = match decode_pkg_extras(o) {
        Some(t) => t,
        None => { return None; },
    };
    let (repo_url, maintainers_recently_changed, is_abandonware) = match decode_pkg_flags(o) {
        Some(t) => t,
        None => { return None; },
    };
    let idx = find_deps_key(o);
    let dependencies: Option<Vec<Package>>;
    if idx == o.len() {
        dependencies = None;
    } else {
        proof {
            crate::json::lemma_jv_pairs_index(o@, idx as int);
        }
        match &o[idx].1 {
            JsonValue::Null => {
                dependencies = None;
            },
            JsonValue::Arr(a) => {
                proof {
                    assert(decreases_to!(*v => v->Obj_0));
                    assert(v->Obj_0 == *o);
                    assert(decreases_to!(*o => o@));
                    assert(decreases_to!(o@ => o@[idx as int]));
                    assert(decreases_to!(o@[idx as int] => o@[idx as int].1));
                    assert(decreases_to!(o@[idx as int].1 => o@[idx as int].1->Arr_0));
                    assert(o@[idx as int].1->Arr_0 == *a);
                    assert(decreases_to!(*v => *a));
                }
                match decode_package_vals(a) {
                    Some(dv) => {
                        dependencies = Some(dv);
                    },
                    None => { return None; },
                }
            },
            _ => { return None; },
        }
    }
    Some(
        Package {
            purl,
            id,
            name,
            version,
            registry,
            published_date,
            latest_version,
            versions,
            description,
            license,
            dep_specs,
            dependencies,
            download_count,
            risk_scores,
            total_risk_score_dynamics,
            issues_details,
            issues,
            authors,
            developer_responsiveness,
            complete,
            release_data,
            repo_url,
            maintainers_recently_changed,
            is_abandonware,
        },
    )
}


} // verus!
