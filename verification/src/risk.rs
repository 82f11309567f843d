use vstd::prelude::*;
use vstd::string::StringExecFns;
use crate::json::{JVal, JsonValue, string_is};

verus! {

/// Input-side classification of a finding's category.
#[derive(PartialEq, Eq, Structural, Copy, Clone, Debug, Hash)]
pub enum RiskDomain {
    /// One or more authors is a possible bad actor or other problems.
    AuthorRisk,
    /// Poor engineering practices and other code smells.
    EngineeringRisk,
    /// Malicious code such as malware or crypto miners.
    Malicious,
    /// A code vulnerability such as use-after-free or other code smell.
    Vulnerabilities,
    /// License is unknown, incompatible with the project, etc.
    LicenseRisk,
}

/// Output-side reporting category; adds an aggregate total absent on the
/// input side.
#[derive(PartialEq, Eq, Structural, Copy, Clone, Debug, Hash)]
pub enum RiskType {
    TotalRisk,
    Vulnerabilities,
    MaliciousRisk,
    AuthorsRisk,
    EngineeringRisk,
    LicenseRisk,
}

/// Issue severity bucket.
#[derive(PartialEq, Eq, Structural, Copy, Clone, Debug, Hash)]
pub enum RiskLevel {
    /// Informational, no action needs to be taken.
    Info,
    /// Minor issues like cosmetic code smells,
    /// possibly a problem in great number or rare circumstances.
    Low,
    /// May be indicative of overall quality issues.
    Medium,
    /// Possibly exploitable behavior in some circumstances.
    High,
    /// Should fix as soon as possible, may be under active exploitation.
    Critical,
}

impl RiskDomain {
    pub open spec fn risk_type_spec(self) -> RiskType {
        match self {
            RiskDomain::Malicious => RiskType::MaliciousRisk,
            RiskDomain::Vulnerabilities => RiskType::Vulnerabilities,
            RiskDomain::EngineeringRisk => RiskType::EngineeringRisk,
            RiskDomain::AuthorRisk => RiskType::AuthorsRisk,
            RiskDomain::LicenseRisk => RiskType::LicenseRisk,
        }
    }

    /// The reporting category a finding in this domain is surfaced under.
    pub fn risk_type(self) -> (t: RiskType)
        ensures
            t == self.risk_type_spec(),
    {
        match self {
            RiskDomain::Malicious => RiskType::MaliciousRisk,
            RiskDomain::Vulnerabilities => RiskType::Vulnerabilities,
            RiskDomain::EngineeringRisk => RiskType::EngineeringRisk,
            RiskDomain::AuthorRisk => RiskType::AuthorsRisk,
            RiskDomain::LicenseRisk => RiskType::LicenseRisk,
        }
    }

    /// A domain renders exactly as the reporting category it maps to,
    /// so the two display forms can never diverge.
    pub fn code(self) -> (s: &'static str)
        ensures
            s@ == self.risk_type_spec().code_spec(),
    {
        self.risk_type().code()
    }
}

/// The domain-to-type mapping is total and never yields the aggregate
/// total, which exists only on the reporting side.
pub proof fn lemma_risk_type_never_total(d: RiskDomain)
    ensures
        d.risk_type_spec() != RiskType::TotalRisk,
{
}

impl RiskType {
    pub open spec fn code_spec(self) -> Seq<char> {
        match self {
            RiskType::MaliciousRisk => "MAL"@,
            RiskType::Vulnerabilities => "VLN"@,
            RiskType::EngineeringRisk => "ENG"@,
            RiskType::AuthorsRisk => "AUT"@,
            RiskType::LicenseRisk => "LIC"@,
            RiskType::TotalRisk => "ALL"@,
        }
    }

    /// Fixed three-letter display code used for compact rendering.
    pub fn code(self) -> (s: &'static str)
        ensures
            s@ == self.code_spec(),
    {
        match self {
            RiskType::MaliciousRisk => "MAL",
            RiskType::Vulnerabilities => "VLN",
            RiskType::EngineeringRisk => "ENG",
            RiskType::AuthorsRisk => "AUT",
            RiskType::LicenseRisk => "LIC",
            RiskType::TotalRisk => "ALL",
        }
    }
}

impl RiskLevel {
    /// Severity rank, from informational (lowest) to critical (highest).
    pub open spec fn rank_spec(self) -> int {
        match self {
            RiskLevel::Info => 0,
            RiskLevel::Low => 1,
            RiskLevel::Medium => 2,
            RiskLevel::High => 3,
            RiskLevel::Critical => 4,
        }
    }

    pub open spec fn score_millis_spec(self) -> u32 {
        match self {
            RiskLevel::Info => 1000,
            RiskLevel::Low => 800,
            RiskLevel::Medium => 650,
            RiskLevel::High => 350,
            RiskLevel::Critical => 100,
        }
    }

    /// Fixed weight of this severity bucket, in thousandths, used by
    /// downstream aggregation to combine per-issue severities.
    pub fn score_millis(self) -> (s: u32)
        ensures
            s == self.score_millis_spec(),
    {
        match self {
            RiskLevel::Info => 1000,
            RiskLevel::Low => 800,
            RiskLevel::Medium => 650,
            RiskLevel::High => 350,
            RiskLevel::Critical => 100,
        }
    }

    pub open spec fn name_spec(self) -> Seq<char> {
        match self {
            RiskLevel::Info => "info"@,
            RiskLevel::Low => "low"@,
            RiskLevel::Medium => "medium"@,
            RiskLevel::High => "high"@,
            RiskLevel::Critical => "critical"@,
        }
    }

    /// Display form: the lowercase variant name.
    pub fn name(self) -> (s: &'static str)
        ensures
            s@ == self.name_spec(),
    {
        match self {
            RiskLevel::Info => "info",
            RiskLevel::Low => "low",
            RiskLevel::Medium => "medium",
            RiskLevel::High => "high",
            RiskLevel::Critical => "critical",
        }
    }
}

impl RiskDomain {
    /// Canonical wire name of the domain.
    pub open spec fn wire_name_spec(self) -> Seq<char> {
        match self {
            RiskDomain::AuthorRisk => "author"@,
            RiskDomain::EngineeringRisk => "engineering"@,
            RiskDomain::Malicious => "malicious_code"@,
            RiskDomain::Vulnerabilities => "vulnerability"@,
            RiskDomain::LicenseRisk => "license"@,
        }
    }

    pub fn wire_name(self) -> (s: &'static str)
        ensures
            s@ == self.wire_name_spec(),
    {
        match self {
            RiskDomain::AuthorRisk => "author",
            RiskDomain::EngineeringRisk => "engineering",
            RiskDomain::Malicious => "malicious_code",
            RiskDomain::Vulnerabilities => "vulnerability",
            RiskDomain::LicenseRisk => "license",
        }
    }
}

/// What a wire value denotes as a risk domain; the legacy name
/// "malicious" decodes like the canonical "malicious_code".
pub open spec fn dec_risk_domain(v: JVal) -> Option<RiskDomain> {
    match v {
        JVal::Str(s) => if s == "author"@ {
            Some(RiskDomain::AuthorRisk)
        } else if s == "engineering"@ {
            Some(RiskDomain::EngineeringRisk)
        } else if s == "malicious_code"@ || s == "malicious"@ {
            Some(RiskDomain::Malicious)
        } else if s == "vulnerability"@ {
            Some(RiskDomain::Vulnerabilities)
        } else if s == "license"@ {
            Some(RiskDomain::LicenseRisk)
        } else {
            None
        },
        _ => None,
    }
}

pub fn decode_risk_domain(v: &JsonValue) -> (r: Option<RiskDomain>)
    ensures
        r == dec_risk_domain(v.jv()),
{
    match v {
        JsonValue::Str(s) => if string_is(s, "author") {
            Some(RiskDomain::AuthorRisk)
        } else if string_is(s, "engineering") {
            Some(RiskDomain::EngineeringRisk)
        } else if string_is(s, "malicious_code") || string_is(s, "malicious") {
            Some(RiskDomain::Malicious)
        } else if string_is(s, "vulnerability") {
            Some(RiskDomain::Vulnerabilities)
        } else if string_is(s, "license") {
            Some(RiskDomain::LicenseRisk)
        } else {
            None
        },
        _ => None,
    }
}

/// A domain always decodes back from its canonical wire name.
#[verifier::rlimit(50)]
pub proof fn lemma_risk_domain_round_trip(d: RiskDomain)
    ensures
        dec_risk_domain(JVal::Str(d.wire_name_spec())) == Some(d),
{
    reveal_strlit("author");
    reveal_strlit("engineering");
    reveal_strlit("malicious_code");
    reveal_strlit("malicious");
    reveal_strlit("vulnerability");
    reveal_strlit("license");
    assert("author"@.len() == 6 && "engineering"@.len() == 11 && "malicious_code"@.len() == 14
        && "malicious"@.len() == 9 && "vulnerability"@.len() == 13 && "license"@.len() == 7);
    match d {
        RiskDomain::AuthorRisk => assert(dec_risk_domain(JVal::Str(d.wire_name_spec())) == Some(d)),
        RiskDomain::EngineeringRisk => assert(dec_risk_domain(JVal::Str(d.wire_name_spec())) == Some(d)),
        RiskDomain::Malicious => assert(dec_risk_domain(JVal::Str(d.wire_name_spec())) == Some(d)),
        RiskDomain::Vulnerabilities => assert(dec_risk_domain(JVal::Str(d.wire_name_spec())) == Some(d)),
        RiskDomain::LicenseRisk => assert(dec_risk_domain(JVal::Str(d.wire_name_spec())) == Some(d)),
    }
}

/// The legacy name "malicious" decodes to the same domain as the
/// canonical "malicious_code".
#[verifier::rlimit(50)]
pub proof fn lemma_risk_domain_alias()
    ensures
        dec_risk_domain(JVal::Str("malicious"@)) == dec_risk_domain(
            JVal::Str("malicious_code"@),
        ),
        dec_risk_domain(JVal::Str("malicious"@)) == Some(RiskDomain::Malicious),
{
    reveal_strlit("author");
    reveal_strlit("engineering");
    reveal_strlit("malicious_code");
    reveal_strlit("malicious");
    assert("author"@.len() == 6 && "engineering"@.len() == 11 && "malicious_code"@.len() == 14
        && "malicious"@.len() == 9);
}

pub fn encode_risk_domain(d: RiskDomain) -> (v: JsonValue)
    ensures
        v.jv() == JVal::Str(d.wire_name_spec()),
        dec_risk_domain(v.jv()) == Some(d),
{
    proof {
        lemma_risk_domain_round_trip(d);
    }
    JsonValue::Str(String::from_str(d.wire_name()))
}

/// What a wire value denotes as a severity bucket.
pub open spec fn dec_risk_level(v: JVal) -> Option<RiskLevel> {
    match v {
        JVal::Str(s) => if s == "info"@ {
            Some(RiskLevel::Info)
        } else if s == "low"@ {
            Some(RiskLevel::Low)
        } else if s == "medium"@ {
            Some(RiskLevel::Medium)
        } else if s == "high"@ {
            Some(RiskLevel::High)
        } else if s == "critical"@ {
            Some(RiskLevel::Critical)
        } else {
            None
        },
        _ => None,
    }
}

pub fn decode_risk_level(v: &JsonValue) -> (r: Option<RiskLevel>)
    ensures
        r == dec_risk_level(v.jv()),
{
    match v {
        JsonValue::Str(s) => if string_is(s, "info") {
            Some(RiskLevel::Info)
        } else if string_is(s, "low") {
            Some(RiskLevel::Low)
        } else if string_is(s, "medium") {
            Some(RiskLevel::Medium)
        } else if string_is(s, "high") {
            Some(RiskLevel::High)
        } else if string_is(s, "critical") {
            Some(RiskLevel::Critical)
        } else {
            None
        },
        _ => None,
    }
}

/// A severity bucket always decodes back from its wire name.
#[verifier::rlimit(50)]
pub proof fn lemma_risk_level_round_trip(l: RiskLevel)
    ensures
        dec_risk_level(JVal::Str(l.name_spec())) == Some(l),
{
    reveal_strlit("info");
    reveal_strlit("low");
    reveal_strlit("medium");
    reveal_strlit("high");
    reveal_strlit("critical");
    assert("info"@.len() == 4 && "low"@.len() == 3 && "medium"@.len() == 6 && "high"@.len() == 4
        && "critical"@.len() == 8);
    assert("info"@[0] == 'i' && "high"@[0] == 'h');
    match l {
        RiskLevel::Info => assert(dec_risk_level(JVal::Str(l.name_spec())) == Some(l)),
        RiskLevel::Low => assert(dec_risk_level(JVal::Str(l.name_spec())) == Some(l)),
        RiskLevel::Medium => assert(dec_risk_level(JVal::Str(l.name_spec())) == Some(l)),
        RiskLevel::High => assert(dec_risk_level(JVal::Str(l.name_spec())) == Some(l)),
        RiskLevel::Critical => assert(dec_risk_level(JVal::Str(l.name_spec())) == Some(l)),
    }
}

pub fn encode_risk_level(l: RiskLevel) -> (v: JsonValue)
    ensures
        v.jv() == JVal::Str(l.name_spec()),
        dec_risk_level(v.jv()) == Some(l),
{
    proof {
        lemma_risk_level_round_trip(l);
    }
    JsonValue::Str(String::from_str(l.name()))
}

impl RiskType {
    /// Canonical wire name of the reporting category.
    pub open spec fn wire_name_spec(self) -> Seq<char> {
        match self {
            RiskType::TotalRisk => "totalRisk"@,
            RiskType::Vulnerabilities => "vulnerabilities"@,
            RiskType::MaliciousRisk => "maliciousCodeRisk"@,
            RiskType::AuthorsRisk => "authorsRisk"@,
            RiskType::EngineeringRisk => "engineeringRisk"@,
            RiskType::LicenseRisk => "licenseRisk"@,
        }
    }

    pub fn wire_name(self) -> (s: &'static str)
        ensures
            s@ == self.wire_name_spec(),
    {
        match self {
            RiskType::TotalRisk => "totalRisk",
            RiskType::Vulnerabilities => "vulnerabilities",
            RiskType::MaliciousRisk => "maliciousCodeRisk",
            RiskType::AuthorsRisk => "authorsRisk",
            RiskType::EngineeringRisk => "engineeringRisk",
            RiskType::LicenseRisk => "licenseRisk",
        }
    }
}

/// What a wire value denotes as a reporting category; the legacy name
/// "maliciousRisk" decodes like the canonical "maliciousCodeRisk".
pub open spec fn dec_risk_type(v: JVal) -> Option<RiskType> {
    match v {
        JVal::Str(s) => if s == "totalRisk"@ {
            Some(RiskType::TotalRisk)
        } else if s == "vulnerabilities"@ {
            Some(RiskType::Vulnerabilities)
        } else if s == "maliciousCodeRisk"@ || s == "maliciousRisk"@ {
            Some(RiskType::MaliciousRisk)
        } else if s == "authorsRisk"@ {
            Some(RiskType::AuthorsRisk)
        } else if s == "engineeringRisk"@ {
            Some(RiskType::EngineeringRisk)
        } else if s == "licenseRisk"@ {
            Some(RiskType::LicenseRisk)
        } else {
            None
        },
        _ => None,
    }
}

pub fn decode_risk_type(v: &JsonValue) -> (r: Option<RiskType>)
    ensures
        r == dec_risk_type(v.jv()),
{
    match v {
        JsonValue::Str(s) => if string_is(s, "totalRisk") {
            Some(RiskType::TotalRisk)
        } else if string_is(s, "vulnerabilities") {
            Some(RiskType::Vulnerabilities)
        } else if string_is(s, "maliciousCodeRisk") || string_is(s, "maliciousRisk") {
            Some(RiskType::MaliciousRisk)
        } else if string_is(s, "authorsRisk") {
            Some(RiskType::AuthorsRisk)
        } else if string_is(s, "engineeringRisk") {
            Some(RiskType::EngineeringRisk)
        } else if string_is(s, "licenseRisk") {
            Some(RiskType::LicenseRisk)
        } else {
            None
        },
        _ => None,
    }
}

/// A reporting category always decodes back from its canonical wire name.
#[verifier::rlimit(50)]
pub proof fn lemma_risk_type_round_trip(t: RiskType)
    ensures
        dec_risk_type(JVal::Str(t.wire_name_spec())) == Some(t),
{
    reveal_strlit("totalRisk");
    reveal_strlit("vulnerabilities");
    reveal_strlit("maliciousCodeRisk");
    reveal_strlit("maliciousRisk");
    reveal_strlit("authorsRisk");
    reveal_strlit("engineeringRisk");
    reveal_strlit("licenseRisk");
    assert("totalRisk"@.len() == 9);
    assert("vulnerabilities"@.len() == 15);
    assert("maliciousCodeRisk"@.len() == 17);
    assert("maliciousRisk"@.len() == 13);
    assert("authorsRisk"@.len() == 11);
    assert("engineeringRisk"@.len() == 15);
    assert("licenseRisk"@.len() == 11);
    assert("authorsRisk"@[0] == 'a' && "licenseRisk"@[0] == 'l');
    assert("vulnerabilities"@[0] == 'v' && "engineeringRisk"@[0] == 'e');
    match t {
        RiskType::TotalRisk => assert(dec_risk_type(JVal::Str(t.wire_name_spec())) == Some(t)),
        RiskType::Vulnerabilities => assert(dec_risk_type(JVal::Str(t.wire_name_spec())) == Some(t)),
        RiskType::MaliciousRisk => assert(dec_risk_type(JVal::Str(t.wire_name_spec())) == Some(t)),
        RiskType::AuthorsRisk => assert(dec_risk_type(JVal::Str(t.wire_name_spec())) == Some(t)),
        RiskType::EngineeringRisk => assert(dec_risk_type(JVal::Str(t.wire_name_spec())) == Some(t)),
        RiskType::LicenseRisk => assert(dec_risk_type(JVal::Str(t.wire_name_spec())) == Some(t)),
    }
}

/// The legacy name "maliciousRisk" decodes to the same category as the
/// canonical "maliciousCodeRisk".
#[verifier::rlimit(50)]
pub proof fn lemma_risk_type_alias()
    ensures
        dec_risk_type(JVal::Str("maliciousRisk"@)) == dec_risk_type(
            JVal::Str("maliciousCodeRisk"@),
        ),
        dec_risk_type(JVal::Str("maliciousRisk"@)) == Some(RiskType::MaliciousRisk),
{
    reveal_strlit("totalRisk");
    reveal_strlit("vulnerabilities");
    reveal_strlit("maliciousCodeRisk");
    reveal_strlit("maliciousRisk");
    assert("totalRisk"@.len() == 9);
    assert("vulnerabilities"@.len() == 15);
    assert("maliciousCodeRisk"@.len() == 17);
    assert("maliciousRisk"@.len() == 13);
}

pub fn encode_risk_type(t: RiskType) -> (v: JsonValue)
    ensures
        v.jv() == JVal::Str(t.wire_name_spec()),
        dec_risk_type(v.jv()) == Some(t),
{
    proof {
        lemma_risk_type_round_trip(t);
    }
    JsonValue::Str(String::from_str(t.wire_name()))
}

/// Severity weights strictly decrease from informational to critical.
pub proof fn lemma_score_millis_decreasing(a: RiskLevel, b: RiskLevel)
    requires
        a.rank_spec() < b.rank_spec(),
    ensures
        a.score_millis_spec() > b.score_millis_spec(),
{
}

} // verus!
