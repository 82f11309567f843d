use vstd::prelude::*;
use vstd::string::StringExecFns;
use crate::json::{
    JVal, JsonValue, jget, jv_pairs, jv_seq, dec_opt_str, dec_u32_field, dec_u64_field, dec_i64_field, get_i64,
    dec_opt_i64_field, dec_opt_u32_field, get_opt_str, get_str, get_u32, get_u64, get_opt_i64,
    get_opt_u32, get_arr, get_obj, obj_get, string_is,
};
use crate::ids::{PackageType, dec_ecosystem, decode_ecosystem, encode_ecosystem, lemma_ecosystem_round_trip};
use crate::report::{IssueStatus, IssueStatusV, dec_issue_status, decode_issue_status, encode_issue_status};

verus! {

broadcast use crate::json::lemma_jget_push, crate::json::lemma_jv_pairs_push, crate::json::lemma_jv_seq_push;

/// Processing state of a package or job.
#[derive(PartialEq, Eq, Structural, Copy, Clone, Debug, Hash)]
pub enum Status {
    /// Processing has finished.
    Complete,
    /// Processing is still under way.
    Incomplete,
}

impl Status {
    pub open spec fn wire_name_spec(self) -> Seq<char> {
        match self {
            Status::Complete => "complete"@,
            Status::Incomplete => "incomplete"@,
        }
    }

    pub fn wire_name(self) -> (s: &'static str)
        ensures
            s@ == self.wire_name_spec(),
    {
        match self {
            Status::Complete => "complete",
            Status::Incomplete => "incomplete",
        }
    }
}

/// What a wire value denotes as a processing state.
pub open spec fn dec_status(v: JVal) -> Option<Status> {
    match v {
        JVal::Str(s) => if s == "complete"@ {
            Some(Status::Complete)
        } else if s == "incomplete"@ {
            Some(Status::Incomplete)
        } else {
            None
        },
        _ => None,
    }
}

pub fn decode_status(v: &JsonValue) -> (r: Option<Status>)
    ensures
        r == dec_status(v.jv()),
{
    match v {
        JsonValue::Str(s) => if string_is(s, "complete") {
            Some(Status::Complete)
        } else if string_is(s, "incomplete") {
            Some(Status::Incomplete)
        } else {
            None
        },
        _ => None,
    }
}

/// A processing state always decodes back from its wire name.
pub proof fn lemma_status_round_trip(s: Status)
    ensures
        dec_status(JVal::Str(s.wire_name_spec())) == Some(s),
{
    reveal_strlit("complete");
    reveal_strlit("incomplete");
    assert("complete"@.len() == 8 && "incomplete"@.len() == 10);
}

pub fn encode_status(s: Status) -> (v: JsonValue)
    ensures
        v.jv() == JVal::Str(s.wire_name_spec()),
        dec_status(v.jv()) == Some(s),
{
    proof {
        lemma_status_round_trip(s);
    }
    JsonValue::Str(String::from_str(s.wire_name()))
}

/// Basic per-package status: the minimal legacy shape.
#[derive(PartialEq, Eq, Clone, Debug)]
pub struct PackageStatus {
    /// A package-URL referencing this package; omitted from the encoding
    /// when absent.
    pub purl: Option<String>,
    pub name: String,
    pub version: String,
    pub status: Status,
    /// Last update, as epoch seconds.
    pub last_updated: u64,
    pub license: Option<String>,
    /// Overall quality score, in thousandths.
    pub package_score: Option<i64>,
    pub num_dependencies: u32,
    /// Omitted from the encoding when absent.
    pub num_vulnerabilities: Option<u32>,
}

pub ghost struct PackageStatusV {
    pub purl: Option<Seq<char>>,
    pub name: Seq<char>,
    pub version: Seq<char>,
    pub status: Status,
    pub last_updated: u64,
    pub license: Option<Seq<char>>,
    pub package_score: Option<i64>,
    pub num_dependencies: u32,
    pub num_vulnerabilities: Option<u32>,
}

impl PackageStatus {
    pub open spec fn model(self) -> PackageStatusV {
        (PackageStatusV {
            purl: crate::report::view_opt_str(self.purl),
            name: self.name@,
            version: self.version@,
            status: self.status,
            last_updated: self.last_updated,
            license: crate::report::view_opt_str(self.license),
            package_score: self.package_score,
            num_dependencies: self.num_dependencies,
            num_vulnerabilities: self.num_vulnerabilities,
        })
    }
}

/// What a wire object denotes as a basic package status.
pub open spec fn dec_package_status(v: JVal) -> Option<PackageStatusV> {
    match v {
        JVal::Obj(o) => match (
            dec_opt_str(o, "purl"@),
            jget(o, "name"@),
            jget(o, "version"@),
            jget(o, "status"@),
            dec_u64_field(o, "last_updated"@),
            dec_opt_str(o, "license"@),
            dec_opt_i64_field(o, "package_score"@),
            dec_u32_field(o, "num_dependencies"@),
            dec_opt_u32_field(o, "num_vulnerabilities"@),
        ) {
            (
                Some(purl),
                Some(JVal::Str(name)),
                Some(JVal::Str(version)),
                Some(sv),
                Some(last_updated),
                Some(license),
                Some(package_score),
                Some(num_dependencies),
                Some(num_vulnerabilities),
            ) => match dec_status(sv) {
                Some(status) => Some(
                    (PackageStatusV {
                        purl,
                        name,
                        version,
                        status,
                        last_updated,
                        license,
                        package_score,
                        num_dependencies,
                        num_vulnerabilities,
                    }),
                ),
                None => None,
            },
            _ => None,
        },
        _ => None,
    }
}

pub fn decode_package_status(v: &JsonValue) -> (r: Option<PackageStatus>)
    ensures
        match r {
            Some(x) => dec_package_status(v.jv()) == Some(x.model()),
            None => dec_package_status(v.jv()) is None,
        },
{
    let o = match v {
        JsonValue::Obj(o) => o,
        _ => { return None; },
    };
    let purl = match get_opt_str(o, "purl") {
        Some(x) => x,
        None => { return None; },
    };
    let name = match get_str(o, "name") {
        Some(x) => x,
        None => { return None; },
    };
    let version = match get_str(o, "version") {
        Some(x) => x,
        None => { return None; },
    };
    let sv = match obj_get(o, "status") {
        Some(x) => x,
        None => { return None; },
    };
    let status = match decode_status(sv) {
        Some(x) => x,
        None => { return None; },
    };
    let last_updated = match get_u64(o, "last_updated") {
        Some(x) => x,
        None => { return None; },
    };
    let license = match get_opt_str(o, "license") {
        Some(x) => x,
        None => { return None; },
    };
    let package_score = match get_opt_i64(o, "package_score") {
        Some(x) => x,
        None => { return None; },
    };
    let num_dependencies = match get_u32(o, "num_dependencies") {
        Some(x) => x,
        None => { return None; },
    };
    let num_vulnerabilities = match get_opt_u32(o, "num_vulnerabilities") {
        Some(x) => x,
        None => { return None; },
    };
    Some(
        PackageStatus {
            purl,
            name,
            version,
            status,
            last_updated,
            license,
            package_score,
            num_dependencies,
            num_vulnerabilities,
        },
    )
}

proof fn status_key_facts()
    ensures
        "purl"@.len() == 4,
        "name"@.len() == 4,
        "version"@.len() == 7,
        "status"@.len() == 6,
        "last_updated"@.len() == 12,
        "license"@.len() == 7,
        "package_score"@.len() == 13,
        "num_dependencies"@.len() == 16,
        "num_vulnerabilities"@.len() == 19,
        "type"@.len() == 4,
        "riskVectors"@.len() == 11,
        "dependencies"@.len() == 12,
        "issues"@.len() == 6,
        "purl"@ != "name"@,
        "purl"@ != "type"@,
        "name"@ != "type"@,
        "version"@ != "license"@,
        "status"@ != "issues"@,
        "last_updated"@ != "dependencies"@,
{
    reveal_strlit("purl");
    reveal_strlit("name");
    reveal_strlit("version");
    reveal_strlit("status");
    reveal_strlit("last_updated");
    reveal_strlit("license");
    reveal_strlit("package_score");
    reveal_strlit("num_dependencies");
    reveal_strlit("num_vulnerabilities");
    reveal_strlit("type");
    reveal_strlit("riskVectors");
    reveal_strlit("dependencies");
    reveal_strlit("issues");
    assert("purl"@[0] == 'p' && "name"@[0] == 'n' && "type"@[0] == 't');
    assert("version"@[0] == 'v' && "license"@[0] == 'l');
    assert("status"@[0] == 's' && "issues"@[0] == 'i');
    assert("last_updated"@[0] == 'l' && "dependencies"@[0] == 'd');
}

/// The basic status as an object's pair list. Only the nine basic keys
/// are ever bound; an absent purl or vulnerability count is omitted from
/// the object entirely, not bound to null.
pub fn package_status_pairs(x: &PackageStatus) -> (o: Vec<(String, JsonValue)>)
    ensures
        dec_package_status(JVal::Obj(jv_pairs(o@))) == Some(x.model()),
        x.purl is None ==> jget(jv_pairs(o@), "purl"@) is None,
        x.num_vulnerabilities is None ==> jget(jv_pairs(o@), "num_vulnerabilities"@) is None,
        forall|k: Seq<char>|
            #[trigger] jget(jv_pairs(o@), k) is Some ==> (k == "purl"@ || k == "name"@ || k
                == "version"@ || k == "status"@ || k == "last_updated"@ || k == "license"@ || k
                == "package_score"@ || k == "num_dependencies"@ || k == "num_vulnerabilities"@),
{
    let mut o: Vec<(String, JsonValue)> = Vec::new();
    match &x.purl {
        Some(p) => {
            o.push((String::from_str("purl"), JsonValue::Str(p.clone())));
        },
        None => {},
    }
    o.push((String::from_str("name"), JsonValue::Str(x.name.clone())));
    o.push((String::from_str("version"), JsonValue::Str(x.version.clone())));
    o.push((String::from_str("status"), encode_status(x.status)));
    o.push((String::from_str("last_updated"), JsonValue::Int(x.last_updated as i128)));
    let lic = match &x.license {
        Some(l) => JsonValue::Str(l.clone()),
        None => JsonValue::Null,
    };
    o.push((String::from_str("license"), lic));
    let score = match &x.package_score {
        Some(s) => JsonValue::Int(*s as i128),
        None => JsonValue::Null,
    };
    o.push((String::from_str("package_score"), score));
    o.push((String::from_str("num_dependencies"), JsonValue::Int(x.num_dependencies as i128)));
    match &x.num_vulnerabilities {
        Some(n) => {
            o.push((String::from_str("num_vulnerabilities"), JsonValue::Int(*n as i128)));
        },
        None => {},
    }
    proof {
        status_key_facts();
        lemma_status_round_trip(x.status);
        assert(dec_opt_str(jv_pairs(o@), "purl"@) == Some(crate::report::view_opt_str(x.purl)));
        assert(jget(jv_pairs(o@), "name"@) == Some(JVal::Str(x.name@)));
        assert(jget(jv_pairs(o@), "version"@) == Some(JVal::Str(x.version@)));
        assert(jget(jv_pairs(o@), "status"@) == Some(JVal::Str(x.status.wire_name_spec())));
        assert(dec_u64_field(jv_pairs(o@), "last_updated"@) == Some(x.last_updated));
        assert(dec_opt_str(jv_pairs(o@), "license"@) == Some(
            crate::report::view_opt_str(x.license),
        ));
        assert(dec_opt_i64_field(jv_pairs(o@), "package_score"@) == Some(x.package_score));
        assert(dec_u32_field(jv_pairs(o@), "num_dependencies"@) == Some(x.num_dependencies));
        assert(dec_opt_u32_field(jv_pairs(o@), "num_vulnerabilities"@) == Some(
            x.num_vulnerabilities,
        ));
    }
    o
}

/// Encodes the basic status. An absent purl or vulnerability count is
/// omitted from the object entirely, not bound to null.
pub fn encode_package_status(x: &PackageStatus) -> (v: JsonValue)
    ensures
        dec_package_status(v.jv()) == Some(x.model()),
        x.purl is None ==> jget(v.jv()->Obj_0, "purl"@) is None,
        x.num_vulnerabilities is None ==> jget(v.jv()->Obj_0, "num_vulnerabilities"@) is None,
{
    JsonValue::Obj(package_status_pairs(x))
}

/// Ghost content of a string-to-score map, scores in thousandths.
pub open spec fn i64_map_model(s: Seq<(String, i64)>) -> Seq<(Seq<char>, i64)> {
    s.map_values(|p: (String, i64)| (p.0@, p.1))
}

/// Ghost content of a string-to-string map.
pub open spec fn str_map_model(s: Seq<(String, String)>) -> Seq<(Seq<char>, Seq<char>)> {
    s.map_values(|p: (String, String)| (p.0@, p.1@))
}

pub open spec fn issue_statuses_model(s: Seq<IssueStatus>) -> Seq<IssueStatusV> {
    s.map_values(|x: IssueStatus| x.model())
}

/// What an object denotes as a map from names to scores in thousandths;
/// entries keep their order.
pub open spec fn dec_i64_map(o: Seq<(Seq<char>, JVal)>) -> Option<Seq<(Seq<char>, i64)>>
    decreases o.len(),
{
    if o.len() == 0 {
        Some(Seq::empty())
    } else {
        match dec_i64_map(o.drop_last()) {
            Some(m) => match o.last().1 {
                JVal::Int(i) => if -0x8000_0000_0000_0000 <= i <= 0x7fff_ffff_ffff_ffff {
                    Some(m.push((o.last().0, i as i64)))
                } else {
                    None
                },
                _ => None,
            },
            None => None,
        }
    }
}

/// What an object denotes as a map from names to strings.
pub open spec fn dec_str_map(o: Seq<(Seq<char>, JVal)>) -> Option<Seq<(Seq<char>, Seq<char>)>>
    decreases o.len(),
{
    if o.len() == 0 {
        Some(Seq::empty())
    } else {
        match dec_str_map(o.drop_last()) {
            Some(m) => match o.last().1 {
                JVal::Str(s) => Some(m.push((o.last().0, s))),
                _ => None,
            },
            None => None,
        }
    }
}

/// What an array denotes as a list of issues with ignore status.
pub open spec fn dec_issue_status_list(s: Seq<JVal>) -> Option<Seq<IssueStatusV>>
    decreases s.len(),
{
    if s.len() == 0 {
        Some(Seq::empty())
    } else {
        match (dec_issue_status_list(s.drop_last()), dec_issue_status(s.last())) {
            (Some(m), Some(x)) => Some(m.push(x)),
            _ => None,
        }
    }
}

/// One bad entry fails the whole map decode.
proof fn lemma_dec_i64_map_elem_bad(s: Seq<(Seq<char>, JVal)>, i: int)
    requires
        0 <= i < s.len(),
        !(s[i].1 matches JVal::Int(n) && -0x8000_0000_0000_0000 <= n <= 0x7fff_ffff_ffff_ffff),
    ensures
        dec_i64_map(s) is None,
    decreases s.len(),
{
    if i < s.len() - 1 {
        assert(s.drop_last()[i] == s[i]);
        lemma_dec_i64_map_elem_bad(s.drop_last(), i);
    }
}

proof fn lemma_dec_str_map_elem_bad(s: Seq<(Seq<char>, JVal)>, i: int)
    requires
        0 <= i < s.len(),
        !(s[i].1 matches JVal::Str(_)),
    ensures
        dec_str_map(s) is None,
    decreases s.len(),
{
    if i < s.len() - 1 {
        assert(s.drop_last()[i] == s[i]);
        lemma_dec_str_map_elem_bad(s.drop_last(), i);
    }
}

proof fn lemma_dec_issue_list_elem_bad(s: Seq<JVal>, i: int)
    requires
        0 <= i < s.len(),
        dec_issue_status(s[i]) is None,
    ensures
        dec_issue_status_list(s) is None,
    decreases s.len(),
{
    if i < s.len() - 1 {
        assert(s.drop_last()[i] == s[i]);
        lemma_dec_issue_list_elem_bad(s.drop_last(), i);
    }
}

pub fn decode_i64_map(o: &Vec<(String, JsonValue)>) -> (r: Option<Vec<(String, i64)>>)
    ensures
        match r {
            Some(m) => dec_i64_map(jv_pairs(o@)) == Some(i64_map_model(m@)),
            None => dec_i64_map(jv_pairs(o@)) is None,
        },
{
    proof {
        crate::json::lemma_jv_pairs_len(o@);
    }
    let mut m: Vec<(String, i64)> = Vec::new();
    let mut i: usize = 0;
    while i < o.len()
        invariant
            i <= o.len(),
            jv_pairs(o@).len() == o@.len(),
            dec_i64_map(jv_pairs(o@).subrange(0, i as int)) == Some(i64_map_model(m@)),
        decreases o.len() - i,
    {
        proof {
            crate::json::lemma_jv_pairs_index(o@, i as int);
            assert(jv_pairs(o@).subrange(0, i + 1).drop_last() =~= jv_pairs(o@).subrange(
                0,
                i as int,
            ));
            assert(jv_pairs(o@).subrange(0, i + 1).last() == jv_pairs(o@)[i as int]);
        }
        match &o[i].1 {
            JsonValue::Int(n) => {
                if -0x8000_0000_0000_0000 <= *n && *n <= 0x7fff_ffff_ffff_ffff {
                    m.push((o[i].0.clone(), *n as i64));
                    proof {
                        assert(i64_map_model(m@) =~= i64_map_model(m@.drop_last()).push(
                            (o@[i as int].0@, n as i64),
                        ));
                    }
                } else {
                    proof {
                        lemma_dec_i64_map_elem_bad(jv_pairs(o@), i as int);
                    }
                    return None;
                }
            },
            _ => {
                proof {
                    lemma_dec_i64_map_elem_bad(jv_pairs(o@), i as int);
                }
                return None;
            },
        }
        i += 1;
    }
    proof {
        assert(jv_pairs(o@).subrange(0, o@.len() as int) =~= jv_pairs(o@));
    }
    Some(m)
}

pub fn decode_str_map(o: &Vec<(String, JsonValue)>) -> (r: Option<Vec<(String, String)>>)
    ensures
        match r {
            Some(m) => dec_str_map(jv_pairs(o@)) == Some(str_map_model(m@)),
            None => dec_str_map(jv_pairs(o@)) is None,
        },
{
    proof {
        crate::json::lemma_jv_pairs_len(o@);
    }
    let mut m: Vec<(String, String)> = Vec::new();
    let mut i: usize = 0;
    while i < o.len()
        invariant
            i <= o.len(),
            jv_pairs(o@).len() == o@.len(),
            dec_str_map(jv_pairs(o@).subrange(0, i as int)) == Some(str_map_model(m@)),
        decreases o.len() - i,
    {
        proof {
            crate::json::lemma_jv_pairs_index(o@, i as int);
            assert(jv_pairs(o@).subrange(0, i + 1).drop_last() =~= jv_pairs(o@).subrange(
                0,
                i as int,
            ));
            assert(jv_pairs(o@).subrange(0, i + 1).last() == jv_pairs(o@)[i as int]);
        }
        match &o[i].1 {
            JsonValue::Str(s) => {
                m.push((o[i].0.clone(), s.clone()));
                proof {
                    assert(str_map_model(m@) =~= str_map_model(m@.drop_last()).push(
                        (o@[i as int].0@, s@),
                    ));
                }
            },
            _ => {
                proof {
                    lemma_dec_str_map_elem_bad(jv_pairs(o@), i as int);
                }
                return None;
            },
        }
        i += 1;
    }
    proof {
        assert(jv_pairs(o@).subrange(0, o@.len() as int) =~= jv_pairs(o@));
    }
    Some(m)
}

pub fn decode_issue_status_list(a: &Vec<JsonValue>) -> (r: Option<Vec<IssueStatus>>)
    ensures
        match r {
            Some(m) => dec_issue_status_list(jv_seq(a@)) == Some(issue_statuses_model(m@)),
            None => dec_issue_status_list(jv_seq(a@)) is None,
        },
{
    proof {
        crate::json::lemma_jv_seq_len(a@);
    }
    let mut m: Vec<IssueStatus> = Vec::new();
    let mut i: usize = 0;
    while i < a.len()
        invariant
            i <= a.len(),
            jv_seq(a@).len() == a@.len(),
            dec_issue_status_list(jv_seq(a@).subrange(0, i as int)) == Some(
                issue_statuses_model(m@),
            ),
        decreases a.len() - i,
    {
        proof {
            crate::json::lemma_jv_seq_index(a@, i as int);
            assert(jv_seq(a@).subrange(0, i + 1).drop_last() =~= jv_seq(a@).subrange(0, i as int));
            assert(jv_seq(a@).subrange(0, i + 1).last() == jv_seq(a@)[i as int]);
        }
        match decode_issue_status(&a[i]) {
            Some(x) => {
                m.push(x);
                proof {
                    assert(issue_statuses_model(m@) =~= issue_statuses_model(m@.drop_last()).push(
                        m@.last().model(),
                    ));
                }
            },
            None => {
                proof {
                    lemma_dec_issue_list_elem_bad(jv_seq(a@), i as int);
                }
                return None;
            },
        }
        i += 1;
    }
    proof {
        assert(jv_seq(a@).subrange(0, a@.len() as int) =~= jv_seq(a@));
    }
    Some(m)
}

pub fn encode_i64_map(m: &Vec<(String, i64)>) -> (v: JsonValue)
    ensures
        v.jv() matches JVal::Obj(o) && dec_i64_map(o) == Some(i64_map_model(m@)),
{
    let mut o: Vec<(String, JsonValue)> = Vec::new();
    let mut i: usize = 0;
    while i < m.len()
        invariant
            i <= m.len(),
            o@.len() == i,
            dec_i64_map(jv_pairs(o@)) == Some(i64_map_model(m@.subrange(0, i as int))),
        decreases m.len() - i,
    {
        let ghost before = jv_pairs(o@);
        o.push((m[i].0.clone(), JsonValue::Int(m[i].1 as i128)));
        proof {
            crate::json::lemma_jv_pairs_len(o@);
            assert(jv_pairs(o@).drop_last() =~= before);
            assert(i64_map_model(m@.subrange(0, i + 1)) =~= i64_map_model(
                m@.subrange(0, i as int),
            ).push((m@[i as int].0@, m@[i as int].1)));
        }
        i += 1;
    }
    proof {
        assert(m@.subrange(0, m@.len() as int) =~= m@);
    }
    JsonValue::Obj(o)
}

pub fn encode_str_map(m: &Vec<(String, String)>) -> (v: JsonValue)
    ensures
        v.jv() matches JVal::Obj(o) && dec_str_map(o) == Some(str_map_model(m@)),
{
    let mut o: Vec<(String, JsonValue)> = Vec::new();
    let mut i: usize = 0;
    while i < m.len()
        invariant
            i <= m.len(),
            o@.len() == i,
            dec_str_map(jv_pairs(o@)) == Some(str_map_model(m@.subrange(0, i as int))),
        decreases m.len() - i,
    {
        let ghost before = jv_pairs(o@);
        o.push((m[i].0.clone(), JsonValue::Str(m[i].1.clone())));
        proof {
            crate::json::lemma_jv_pairs_len(o@);
            assert(jv_pairs(o@).drop_last() =~= before);
            assert(str_map_model(m@.subrange(0, i + 1)) =~= str_map_model(
                m@.subrange(0, i as int),
            ).push((m@[i as int].0@, m@[i as int].1@)));
        }
        i += 1;
    }
    proof {
        assert(m@.subrange(0, m@.len() as int) =~= m@);
    }
    JsonValue::Obj(o)
}

pub fn encode_issue_status_list(m: &Vec<IssueStatus>) -> (v: JsonValue)
    ensures
        v.jv() matches JVal::Arr(s) && dec_issue_status_list(s) == Some(issue_statuses_model(m@)),
{
    let mut a: Vec<JsonValue> = Vec::new();
    let mut i: usize = 0;
    while i < m.len()
        invariant
            i <= m.len(),
            a@.len() == i,
            dec_issue_status_list(jv_seq(a@)) == Some(
                issue_statuses_model(m@.subrange(0, i as int)),
            ),
        decreases m.len() - i,
    {
        let ghost before = jv_seq(a@);
        let ev = encode_issue_status(&m[i]);
        a.push(ev);
        proof {
            crate::json::lemma_jv_seq_len(a@);
            assert(jv_seq(a@).drop_last() =~= before);
            assert(issue_statuses_model(m@.subrange(0, i + 1)) =~= issue_statuses_model(
                m@.subrange(0, i as int),
            ).push(m@[i as int].model()));
        }
        i += 1;
    }
    proof {
        assert(m@.subrange(0, m@.len() as int) =~= m@);
    }
    JsonValue::Arr(a)
}

/// Package status with extended info: the basic fields plus an
/// ecosystem-qualified package type, a raw risk-vector score map, a
/// dependency name-to-version map and per-issue statuses.
#[derive(PartialEq, Eq, Clone, Debug)]
pub struct PackageStatusExtended {
    pub basic_status: PackageStatus,
    pub package_type: PackageType,
    /// Raw per-domain scores, in thousandths.
    pub risk_vectors: Vec<(String, i64)>,
    /// Dependency name to version.
    pub dependencies: Vec<(String, String)>,
    pub issues: Vec<IssueStatus>,
}

pub ghost struct PackageStatusExtendedV {
    pub basic_status: PackageStatusV,
    pub package_type: PackageType,
    pub risk_vectors: Seq<(Seq<char>, i64)>,
    pub dependencies: Seq<(Seq<char>, Seq<char>)>,
    pub issues: Seq<IssueStatusV>,
}

impl PackageStatusExtended {
    pub open spec fn model(self) -> PackageStatusExtendedV {
        (PackageStatusExtendedV {
            basic_status: self.basic_status.model(),
            package_type: self.package_type,
            risk_vectors: i64_map_model(self.risk_vectors@),
            dependencies: str_map_model(self.dependencies@),
            issues: issue_statuses_model(self.issues@),
        })
    }
}

/// What a wire object denotes as an extended package status: the basic
/// status fields flattened at the top level plus the extended fields.
pub open spec fn dec_package_status_extended(v: JVal) -> Option<PackageStatusExtendedV> {
    match (dec_package_status(v), v) {
        (Some(basic), JVal::Obj(o)) => match (
            jget(o, "type"@),
            jget(o, "riskVectors"@),
            jget(o, "dependencies"@),
            jget(o, "issues"@),
        ) {
            (Some(tv), Some(JVal::Obj(rv)), Some(JVal::Obj(dv)), Some(JVal::Arr(iv))) => match (
                dec_ecosystem(tv),
                dec_i64_map(rv),
                dec_str_map(dv),
                dec_issue_status_list(iv),
            ) {
                (Some(package_type), Some(risk_vectors), Some(dependencies), Some(issues)) => Some(
                    (PackageStatusExtendedV {
                        basic_status: basic,
                        package_type,
                        risk_vectors,
                        dependencies,
                        issues,
                    }),
                ),
                _ => None,
            },
            _ => None,
        },
        _ => None,
    }
}

/// An extended payload always carries a decodable basic shape: the basic
/// decode of the same object yields exactly its flattened basic fields.
/// This is why a basic-first decode order would silently discard the
/// extended fields.
pub proof fn lemma_extended_payload_decodes_as_basic(v: JVal)
    requires
        dec_package_status_extended(v) is Some,
    ensures
        dec_package_status(v) == Some(dec_package_status_extended(v)->0.basic_status),
{
}

pub fn decode_package_status_extended(v: &JsonValue) -> (r: Option<PackageStatusExtended>)
    ensures
        match r {
            Some(x) => dec_package_status_extended(v.jv()) == Some(x.model()),
            None => dec_package_status_extended(v.jv()) is None,
        },
{
    let basic = match decode_package_status(v) {
        Some(b) => b,
        None => { return None; },
    };
    let o = match v {
        JsonValue::Obj(o) => o,
        _ => { return None; },
    };
    let tv = match obj_get(o, "type") {
        Some(t) => t,
        None => { return None; },
    };
    let package_type = match decode_ecosystem(tv) {
        Some(t) => t,
        None => { return None; },
    };
    let rv = match get_obj(o, "riskVectors") {
        Some(m) => m,
        None => { return None; },
    };
    let risk_vectors = match decode_i64_map(rv) {
        Some(m) => m,
        None => { return None; },
    };
    let dv = match get_obj(o, "dependencies") {
        Some(m) => m,
        None => { return None; },
    };
    let dependencies = match decode_str_map(dv) {
        Some(m) => m,
        None => { return None; },
    };
    let iv = match get_arr(o, "issues") {
        Some(a) => a,
        None => { return None; },
    };
    let issues = match decode_issue_status_list(iv) {
        Some(a) => a,
        None => { return None; },
    };
    Some(
        PackageStatusExtended { basic_status: basic, package_type, risk_vectors, dependencies, issues },
    )
}

pub fn encode_package_status_extended(x: &PackageStatusExtended) -> (v: JsonValue)
    ensures
        dec_package_status_extended(v.jv()) == Some(x.model()),
{
    let mut o = package_status_pairs(&x.basic_status);
    let ghost base = jv_pairs(o@);
    o.push((String::from_str("type"), encode_ecosystem(x.package_type)));
    o.push((String::from_str("riskVectors"), encode_i64_map(&x.risk_vectors)));
    o.push((String::from_str("dependencies"), encode_str_map(&x.dependencies)));
    o.push((String::from_str("issues"), encode_issue_status_list(&x.issues)));
    proof {
        status_key_facts();
        lemma_ecosystem_round_trip(x.package_type);
        assert(jget(base, "type"@) is None);
        assert(jget(base, "riskVectors"@) is None);
        assert(jget(base, "dependencies"@) is None);
        assert(jget(base, "issues"@) is None);
        assert(jget(jv_pairs(o@), "type"@) == Some(JVal::Str(x.package_type.name_spec())));
        assert(dec_package_status(JVal::Obj(jv_pairs(o@))) == Some(x.basic_status.model()));
    }
    JsonValue::Obj(o)
}

/// What an array denotes as a list of basic package statuses.
pub open spec fn dec_status_list(s: Seq<JVal>) -> Option<Seq<PackageStatusV>>
    decreases s.len(),
{
    if s.len() == 0 {
        Some(Seq::empty())
    } else {
        match (dec_status_list(s.drop_last()), dec_package_status(s.last())) {
            (Some(m), Some(x)) => Some(m.push(x)),
            _ => None,
        }
    }
}

/// What an array denotes as a list of extended package statuses.
pub open spec fn dec_status_ext_list(s: Seq<JVal>) -> Option<Seq<PackageStatusExtendedV>>
    decreases s.len(),
{
    if s.len() == 0 {
        Some(Seq::empty())
    } else {
        match (dec_status_ext_list(s.drop_last()), dec_package_status_extended(s.last())) {
            (Some(m), Some(x)) => Some(m.push(x)),
            _ => None,
        }
    }
}

/// What an array denotes as a list of strings.
pub open spec fn dec_str_list(s: Seq<JVal>) -> Option<Seq<Seq<char>>>
    decreases s.len(),
{
    if s.len() == 0 {
        Some(Seq::empty())
    } else {
        match dec_str_list(s.drop_last()) {
            Some(m) => match s.last() {
                JVal::Str(x) => Some(m.push(x)),
                _ => None,
            },
            None => None,
        }
    }
}

/// A list of extended payloads is also a list of basic payloads: every
/// element keeps its flattened basic fields under the basic decode.
pub proof fn lemma_ext_list_decodes_as_basic(s: Seq<JVal>)
    requires
        dec_status_ext_list(s) is Some,
    ensures
        dec_status_list(s) is Some,
        dec_status_list(s)->0.len() == dec_status_ext_list(s)->0.len(),
        forall|i: int|
            0 <= i < dec_status_ext_list(s)->0.len() ==> dec_status_list(s)->0[i]
                == dec_status_ext_list(s)->0[i].basic_status,
    decreases s.len(),
{
    if s.len() > 0 {
        lemma_ext_list_decodes_as_basic(s.drop_last());
        lemma_extended_payload_decodes_as_basic(s.last());
    }
}

pub fn decode_str_list(a: &Vec<JsonValue>) -> (r: Option<Vec<String>>)
    ensures
        match r {
            Some(m) => dec_str_list(jv_seq(a@)) == Some(m@.map_values(|x: String| x@)),
            None => dec_str_list(jv_seq(a@)) is None,
        },
{
    proof {
        crate::json::lemma_jv_seq_len(a@);
    }
    let mut m: Vec<String> = Vec::new();
    let mut i: usize = 0;
    while i < a.len()
        invariant
            i <= a.len(),
            jv_seq(a@).len() == a@.len(),
            dec_str_list(jv_seq(a@).subrange(0, i as int)) == Some(
                m@.map_values(|x: String| x@),
            ),
        decreases a.len() - i,
    {
        proof {
            crate::json::lemma_jv_seq_index(a@, i as int);
            assert(jv_seq(a@).subrange(0, i + 1).drop_last() =~= jv_seq(a@).subrange(0, i as int));
            assert(jv_seq(a@).subrange(0, i + 1).last() == jv_seq(a@)[i as int]);
        }
        match &a[i] {
            JsonValue::Str(s) => {
                m.push(s.clone());
                proof {
                    assert(m@.map_values(|x: String| x@) =~= m@.drop_last().map_values(
                        |x: String| x@,
                    ).push(m@.last()@));
                }
            },
            _ => {
                proof {
                    lemma_dec_str_list_elem_bad(jv_seq(a@), i as int);
                }
                return None;
            },
        }
        i += 1;
    }
    proof {
        assert(jv_seq(a@).subrange(0, a@.len() as int) =~= jv_seq(a@));
    }
    Some(m)
}

proof fn lemma_dec_str_list_elem_bad(s: Seq<JVal>, i: int)
    requires
        0 <= i < s.len(),
        !(s[i] matches JVal::Str(_)),
    ensures
        dec_str_list(s) is None,
    decreases s.len(),
{
    if i < s.len() - 1 {
        assert(s.drop_last()[i] == s[i]);
        lemma_dec_str_list_elem_bad(s.drop_last(), i);
    }
}

pub fn encode_str_list(m: &Vec<String>) -> (v: JsonValue)
    ensures
        v.jv() matches JVal::Arr(s) && dec_str_list(s) == Some(m@.map_values(|x: String| x@)),
{
    let mut a: Vec<JsonValue> = Vec::new();
    let mut i: usize = 0;
    while i < m.len()
        invariant
            i <= m.len(),
            a@.len() == i,
            dec_str_list(jv_seq(a@)) == Some(
                m@.subrange(0, i as int).map_values(|x: String| x@),
            ),
        decreases m.len() - i,
    {
        let ghost before = jv_seq(a@);
        a.push(JsonValue::Str(m[i].clone()));
        proof {
            crate::json::lemma_jv_seq_len(a@);
            assert(jv_seq(a@).drop_last() =~= before);
            assert(m@.subrange(0, i + 1).map_values(|x: String| x@) =~= m@.subrange(
                0,
                i as int,
            ).map_values(|x: String| x@).push(m@[i as int]@));
        }
        i += 1;
    }
    proof {
        assert(m@.subrange(0, m@.len() as int) =~= m@);
    }
    JsonValue::Arr(a)
}

/// Data returned when querying the job status endpoint; `T` is the
/// per-package status shape, so the same envelope serves both eras of the
/// interface.
#[derive(PartialEq, Eq, Clone, Debug)]
pub struct JobStatusResponse<T> {
    pub job_id: String,
    pub ecosystems: Vec<String>,
    pub user_id: String,
    pub user_email: String,
    /// Job start time, epoch seconds.
    pub created_at: i64,
    pub status: Status,
    pub pass: bool,
    pub msg: String,
    /// Dependencies that have not completed processing.
    pub num_incomplete: u32,
    pub last_updated: u64,
    pub project: String,
    pub project_name: String,
    pub label: Option<String>,
    pub packages: Vec<T>,
}

pub ghost struct JobStatusResponseV<TV> {
    pub job_id: Seq<char>,
    pub ecosystems: Seq<Seq<char>>,
    pub user_id: Seq<char>,
    pub user_email: Seq<char>,
    pub created_at: i64,
    pub status: Status,
    pub pass: bool,
    pub msg: Seq<char>,
    pub num_incomplete: u32,
    pub last_updated: u64,
    pub project: Seq<char>,
    pub project_name: Seq<char>,
    pub label: Option<Seq<char>>,
    pub packages: Seq<TV>,
}

impl JobStatusResponse<PackageStatus> {
    pub open spec fn model(self) -> JobStatusResponseV<PackageStatusV> {
        (JobStatusResponseV {
            job_id: self.job_id@,
            ecosystems: self.ecosystems@.map_values(|x: String| x@),
            user_id: self.user_id@,
            user_email: self.user_email@,
            created_at: self.created_at,
            status: self.status,
            pass: self.pass,
            msg: self.msg@,
            num_incomplete: self.num_incomplete,
            last_updated: self.last_updated,
            project: self.project@,
            project_name: self.project_name@,
            label: crate::report::view_opt_str(self.label),
            packages: self.packages@.map_values(|p: PackageStatus| p.model()),
        })
    }
}

impl JobStatusResponse<PackageStatusExtended> {
    pub open spec fn model_ext(self) -> JobStatusResponseV<PackageStatusExtendedV> {
        (JobStatusResponseV {
            job_id: self.job_id@,
            ecosystems: self.ecosystems@.map_values(|x: String| x@),
            user_id: self.user_id@,
            user_email: self.user_email@,
            created_at: self.created_at,
            status: self.status,
            pass: self.pass,
            msg: self.msg@,
            num_incomplete: self.num_incomplete,
            last_updated: self.last_updated,
            project: self.project@,
            project_name: self.project_name@,
            label: crate::report::view_opt_str(self.label),
            packages: self.packages@.map_values(|p: PackageStatusExtended| p.model()),
        })
    }
}

/// What a wire object denotes as the job-status envelope, with the
/// per-package payloads still undecoded. A missing ecosystems list means
/// empty; a missing incomplete count means zero.
pub open spec fn dec_job_envelope(v: JVal) -> Option<JobStatusResponseV<JVal>> {
    match v {
        JVal::Obj(o) => {
            let eco = match jget(o, "ecosystems"@) {
                None => Some(Seq::<Seq<char>>::empty()),
                Some(JVal::Arr(a)) => dec_str_list(a),
                Some(_) => None,
            };
            let ninc = match jget(o, "num_incomplete"@) {
                None => Some(0u32),
                Some(JVal::Int(i)) => if 0 <= i <= 0xffff_ffff {
                    Some(i as u32)
                } else {
                    None
                },
                Some(_) => None,
            };
            match (jget(o, "job_id"@), eco, jget(o, "user_id"@), jget(o, "user_email"@), dec_i64_field(o, "created_at"@), jget(o, "status"@), jget(o, "pass"@)) {
                (
                    Some(JVal::Str(job_id)),
                    Some(ecosystems),
                    Some(JVal::Str(user_id)),
                    Some(JVal::Str(user_email)),
                    Some(created_at),
                    Some(sv),
                    Some(JVal::Bool(pass)),
                ) => match (dec_status(sv), jget(o, "msg"@), ninc, dec_u64_field(o, "last_updated"@), jget(o, "project"@), jget(o, "project_name"@), dec_opt_str(o, "label"@), jget(o, "packages"@)) {
                    (
                        Some(status),
                        Some(JVal::Str(msg)),
                        Some(num_incomplete),
                        Some(last_updated),
                        Some(JVal::Str(project)),
                        Some(JVal::Str(project_name)),
                        Some(label),
                        Some(JVal::Arr(pkgs)),
                    ) => Some(
                        (JobStatusResponseV {
                            job_id,
                            ecosystems,
                            user_id,
                            user_email,
                            created_at,
                            status,
                            pass,
                            msg,
                            num_incomplete,
                            last_updated,
                            project,
                            project_name,
                            label,
                            packages: pkgs,
                        }),
                    ),
                    _ => None,
                },
                _ => None,
            }
        },
        _ => None,
    }
}

pub open spec fn with_packages<TV>(e: JobStatusResponseV<JVal>, ps: Seq<TV>) -> JobStatusResponseV<TV> {
    (JobStatusResponseV {
        job_id: e.job_id,
        ecosystems: e.ecosystems,
        user_id: e.user_id,
        user_email: e.user_email,
        created_at: e.created_at,
        status: e.status,
        pass: e.pass,
        msg: e.msg,
        num_incomplete: e.num_incomplete,
        last_updated: e.last_updated,
        project: e.project,
        project_name: e.project_name,
        label: e.label,
        packages: ps,
    })
}

/// What a wire object denotes as a basic-shaped job status response.
pub open spec fn dec_job_status_basic(v: JVal) -> Option<JobStatusResponseV<PackageStatusV>> {
    match dec_job_envelope(v) {
        Some(e) => match dec_status_list(e.packages) {
            Some(ps) => Some(with_packages(e, ps)),
            None => None,
        },
        None => None,
    }
}

/// What a wire object denotes as an extended-shaped job status response.
pub open spec fn dec_job_status_extended(v: JVal) -> Option<
    JobStatusResponseV<PackageStatusExtendedV>,
> {
    match dec_job_envelope(v) {
        Some(e) => match dec_status_ext_list(e.packages) {
            Some(ps) => Some(with_packages(e, ps)),
            None => None,
        },
        None => None,
    }
}

/// An extended-shaped payload also decodes under the basic shape, with the
/// extended fields silently lost: this is why the extended decode must be
/// attempted first.
pub proof fn lemma_extended_job_payload_decodes_as_basic(v: JVal)
    requires
        dec_job_status_extended(v) is Some,
    ensures
        dec_job_status_basic(v) is Some,
{
    lemma_ext_list_decodes_as_basic(dec_job_envelope(v)->0.packages);
}

pub open spec fn status_list_model(s: Seq<PackageStatus>) -> Seq<PackageStatusV> {
    s.map_values(|p: PackageStatus| p.model())
}

pub open spec fn status_ext_list_model(s: Seq<PackageStatusExtended>) -> Seq<
    PackageStatusExtendedV,
> {
    s.map_values(|p: PackageStatusExtended| p.model())
}

proof fn lemma_dec_status_list_elem_bad(s: Seq<JVal>, i: int)
    requires
        0 <= i < s.len(),
        dec_package_status(s[i]) is None,
    ensures
        dec_status_list(s) is None,
    decreases s.len(),
{
    if i < s.len() - 1 {
        assert(s.drop_last()[i] == s[i]);
        lemma_dec_status_list_elem_bad(s.drop_last(), i);
    }
}

proof fn lemma_dec_status_ext_list_elem_bad(s: Seq<JVal>, i: int)
    requires
        0 <= i < s.len(),
        dec_package_status_extended(s[i]) is None,
    ensures
        dec_status_ext_list(s) is None,
    decreases s.len(),
{
    if i < s.len() - 1 {
        assert(s.drop_last()[i] == s[i]);
        lemma_dec_status_ext_list_elem_bad(s.drop_last(), i);
    }
}

pub fn decode_status_list(a: &Vec<JsonValue>) -> (r: Option<Vec<PackageStatus>>)
    ensures
        match r {
            Some(m) => dec_status_list(jv_seq(a@)) == Some(status_list_model(m@)),
            None => dec_status_list(jv_seq(a@)) is None,
        },
{
    proof {
        crate::json::lemma_jv_seq_len(a@);
    }
    let mut m: Vec<PackageStatus> = Vec::new();
    let mut i: usize = 0;
    while i < a.len()
        invariant
            i <= a.len(),
            jv_seq(a@).len() == a@.len(),
            dec_status_list(jv_seq(a@).subrange(0, i as int)) == Some(status_list_model(m@)),
        decreases a.len() - i,
    {
        proof {
            crate::json::lemma_jv_seq_index(a@, i as int);
            assert(jv_seq(a@).subrange(0, i + 1).drop_last() =~= jv_seq(a@).subrange(0, i as int));
            assert(jv_seq(a@).subrange(0, i + 1).last() == jv_seq(a@)[i as int]);
        }
        match decode_package_status(&a[i]) {
            Some(x) => {
                m.push(x);
                proof {
                    assert(status_list_model(m@) =~= status_list_model(m@.drop_last()).push(
                        m@.last().model(),
                    ));
                }
            },
            None => {
                proof {
                    lemma_dec_status_list_elem_bad(jv_seq(a@), i as int);
                }
                return None;
            },
        }
        i += 1;
    }
    proof {
        assert(jv_seq(a@).subrange(0, a@.len() as int) =~= jv_seq(a@));
    }
    Some(m)
}

pub fn decode_status_ext_list(a: &Vec<JsonValue>) -> (r: Option<Vec<PackageStatusExtended>>)
    ensures
        match r {
            Some(m) => dec_status_ext_list(jv_seq(a@)) == Some(status_ext_list_model(m@)),
            None => dec_status_ext_list(jv_seq(a@)) is None,
        },
{
    proof {
        crate::json::lemma_jv_seq_len(a@);
    }
    let mut m: Vec<PackageStatusExtended> = Vec::new();
    let mut i: usize = 0;
    while i < a.len()
        invariant
            i <= a.len(),
            jv_seq(a@).len() == a@.len(),
            dec_status_ext_list(jv_seq(a@).subrange(0, i as int)) == Some(
                status_ext_list_model(m@),
            ),
        decreases a.len() - i,
    {
        proof {
            crate::json::lemma_jv_seq_index(a@, i as int);
            assert(jv_seq(a@).subrange(0, i + 1).drop_last() =~= jv_seq(a@).subrange(0, i as int));
            assert(jv_seq(a@).subrange(0, i + 1).last() == jv_seq(a@)[i as int]);
        }
        match decode_package_status_extended(&a[i]) {
            Some(x) => {
                m.push(x);
                proof {
                    assert(status_ext_list_model(m@) =~= status_ext_list_model(
                        m@.drop_last(),
                    ).push(m@.last().model()));
                }
            },
            None => {
                proof {
                    lemma_dec_status_ext_list_elem_bad(jv_seq(a@), i as int);
                }
                return None;
            },
        }
        i += 1;
    }
    proof {
        assert(jv_seq(a@).subrange(0, a@.len() as int) =~= jv_seq(a@));
    }
    Some(m)
}

pub fn encode_status_list(m: &Vec<PackageStatus>) -> (v: JsonValue)
    ensures
        v.jv() matches JVal::Arr(s) && dec_status_list(s) == Some(status_list_model(m@)),
{
    let mut a: Vec<JsonValue> = Vec::new();
    let mut i: usize = 0;
    while i < m.len()
        invariant
            i <= m.len(),
            a@.len() == i,
            dec_status_list(jv_seq(a@)) == Some(status_list_model(m@.subrange(0, i as int))),
        decreases m.len() - i,
    {
        let ghost before = jv_seq(a@);
        let ev = encode_package_status(&m[i]);
        a.push(ev);
        proof {
            crate::json::lemma_jv_seq_len(a@);
            assert(jv_seq(a@).drop_last() =~= before);
            assert(status_list_model(m@.subrange(0, i + 1)) =~= status_list_model(
                m@.subrange(0, i as int),
            ).push(m@[i as int].model()));
        }
        i += 1;
    }
    proof {
        assert(m@.subrange(0, m@.len() as int) =~= m@);
    }
    JsonValue::Arr(a)
}

pub fn encode_status_ext_list(m: &Vec<PackageStatusExtended>) -> (v: JsonValue)
    ensures
        v.jv() matches JVal::Arr(s) && dec_status_ext_list(s) == Some(status_ext_list_model(m@)),
{
    let mut a: Vec<JsonValue> = Vec::new();
    let mut i: usize = 0;
    while i < m.len()
        invariant
            i <= m.len(),
            a@.len() == i,
            dec_status_ext_list(jv_seq(a@)) == Some(
                status_ext_list_model(m@.subrange(0, i as int)),
            ),
        decreases m.len() - i,
    {
        let ghost before = jv_seq(a@);
        let ev = encode_package_status_extended(&m[i]);
        a.push(ev);
        proof {
            crate::json::lemma_jv_seq_len(a@);
            assert(jv_seq(a@).drop_last() =~= before);
            assert(status_ext_list_model(m@.subrange(0, i + 1)) =~= status_ext_list_model(
                m@.subrange(0, i as int),
            ).push(m@[i as int].model()));
        }
        i += 1;
    }
    proof {
        assert(m@.subrange(0, m@.len() as int) =~= m@);
    }
    JsonValue::Arr(a)
}

/// Flat projection of a job for list views; no recursive structure.
#[derive(PartialEq, Eq, Clone, Debug)]
pub struct JobDescriptor {
    pub job_id: String,
    pub project: String,
    pub label: String,
    pub num_dependencies: u32,
    pub packages: Vec<crate::ids::PackageDescriptorAndLockfile>,
    pub pass: bool,
    pub msg: String,
    pub date: String,
    pub ecosystems: Vec<String>,
    pub num_incomplete: u32,
}

/// Summary of all current jobs. `count` is the length of `jobs`; the
/// service-wide total may be larger, so callers must not assume equality.
#[derive(PartialEq, Eq, Clone, Debug)]
pub struct AllJobsStatusResponse {
    /// Most recent jobs first, by convention.
    pub jobs: Vec<JobDescriptor>,
    /// Jobs run service-wide.
    pub total_jobs: u32,
    pub count: u32,
}

pub ghost struct JobDescriptorV {
    pub job_id: Seq<char>,
    pub project: Seq<char>,
    pub label: Seq<char>,
    pub num_dependencies: u32,
    pub packages: Seq<crate::ids::PackageDescriptorAndLockfileV>,
    pub pass: bool,
    pub msg: Seq<char>,
    pub date: Seq<char>,
    pub ecosystems: Seq<Seq<char>>,
    pub num_incomplete: u32,
}

impl JobDescriptor {
    pub open spec fn model(self) -> JobDescriptorV {
        (JobDescriptorV {
            job_id: self.job_id@,
            project: self.project@,
            label: self.label@,
            num_dependencies: self.num_dependencies,
            packages: pdal_list_model(self.packages@),
            pass: self.pass,
            msg: self.msg@,
            date: self.date@,
            ecosystems: self.ecosystems@.map_values(|x: String| x@),
            num_incomplete: self.num_incomplete,
        })
    }
}

/// What a wire object denotes as a job list entry. A missing ecosystems
/// list means empty; a missing incomplete count means zero.
pub open spec fn dec_job_descriptor(v: JVal) -> Option<JobDescriptorV> {
    match v {
        JVal::Obj(o) => {
            let eco = match jget(o, "ecosystems"@) {
                None => Some(Seq::<Seq<char>>::empty()),
                Some(JVal::Arr(a)) => dec_str_list(a),
                Some(_) => None,
            };
            let ninc = match jget(o, "num_incomplete"@) {
                None => Some(0u32),
                Some(JVal::Int(i)) => if 0 <= i <= 0xffff_ffff {
                    Some(i as u32)
                } else {
                    None
                },
                Some(_) => None,
            };
            match (jget(o, "job_id"@), jget(o, "project"@), jget(o, "label"@), dec_u32_field(o, "num_dependencies"@), jget(o, "packages"@)) {
                (
                    Some(JVal::Str(job_id)),
                    Some(JVal::Str(project)),
                    Some(JVal::Str(label)),
                    Some(num_dependencies),
                    Some(JVal::Arr(ps)),
                ) => match (dec_pdal_list(ps), jget(o, "pass"@), jget(o, "msg"@), jget(o, "date"@), eco, ninc) {
                    (
                        Some(packages),
                        Some(JVal::Bool(pass)),
                        Some(JVal::Str(msg)),
                        Some(JVal::Str(date)),
                        Some(ecosystems),
                        Some(num_incomplete),
                    ) => Some(
                        (JobDescriptorV {
                            job_id,
                            project,
                            label,
                            num_dependencies,
                            packages,
                            pass,
                            msg,
                            date,
                            ecosystems,
                            num_incomplete,
                        }),
                    ),
                    _ => None,
                },
                _ => None,
            }
        },
        _ => None,
    }
}

proof fn job_descriptor_key_facts()
    ensures
        "job_id"@.len() == 6,
        "project"@.len() == 7,
        "label"@.len() == 5,
        "num_dependencies"@.len() == 16,
        "packages"@.len() == 8,
        "pass"@.len() == 4,
        "msg"@.len() == 3,
        "date"@.len() == 4,
        "ecosystems"@.len() == 10,
        "num_incomplete"@.len() == 14,
        "pass"@ != "date"@,
{
    reveal_strlit("job_id");
    reveal_strlit("project");
    reveal_strlit("label");
    reveal_strlit("num_dependencies");
    reveal_strlit("packages");
    reveal_strlit("pass");
    reveal_strlit("msg");
    reveal_strlit("date");
    reveal_strlit("ecosystems");
    reveal_strlit("num_incomplete");
    assert("pass"@[0] == 'p' && "date"@[0] == 'd');
}

pub fn decode_job_descriptor(v: &JsonValue) -> (r: Option<JobDescriptor>)
    ensures
        match r {
            Some(x) => dec_job_descriptor(v.jv()) == Some(x.model()),
            None => dec_job_descriptor(v.jv()) is None,
        },
{
    let o = match v {
        JsonValue::Obj(o) => o,
        _ => { return None; },
    };
    let job_id = match get_str(o, "job_id") {
        Some(x) => x,
        None => { return None; },
    };
    let project = match get_str(o, "project") {
        Some(x) => x,
        None => { return None; },
    };
    let label = match get_str(o, "label") {
        Some(x) => x,
        None => { return None; },
    };
    let num_dependencies = match get_u32(o, "num_dependencies") {
        Some(x) => x,
        None => { return None; },
    };
    let ps = match get_arr(o, "packages") {
        Some(x) => x,
        None => { return None; },
    };
    let packages = match decode_pdal_list(ps) {
        Some(x) => x,
        None => { return None; },
    };
    let pass = match crate::json::get_bool(o, "pass") {
        Some(x) => x,
        None => { return None; },
    };
    let msg = match get_str(o, "msg") {
        Some(x) => x,
        None => { return None; },
    };
    let date = match get_str(o, "date") {
        Some(x) => x,
        None => { return None; },
    };
    let ecosystems: Vec<String> = match obj_get(o, "ecosystems") {
        None => {
            let e: Vec<String> = Vec::new();
            proof {
                assert(e@.map_values(|x: String| x@) =~= Seq::<Seq<char>>::empty());
            }
            e
        },
        Some(JsonValue::Arr(a)) => match decode_str_list(a) {
            Some(x) => x,
            None => { return None; },
        },
        Some(_) => { return None; },
    };
    let num_incomplete: u32 = match obj_get(o, "num_incomplete") {
        None => 0,
        Some(JsonValue::Int(i)) => if 0 <= *i && *i <= 0xffff_ffff {
            *i as u32
        } else {
            return None;
        },
        Some(_) => { return None; },
    };
    Some(
        JobDescriptor {
            job_id,
            project,
            label,
            num_dependencies,
            packages,
            pass,
            msg,
            date,
            ecosystems,
            num_incomplete,
        },
    )
}

pub fn encode_job_descriptor(x: &JobDescriptor) -> (v: JsonValue)
    ensures
        dec_job_descriptor(v.jv()) == Some(x.model()),
{
    let mut o: Vec<(String, JsonValue)> = Vec::new();
    o.push((String::from_str("job_id"), JsonValue::Str(x.job_id.clone())));
    o.push((String::from_str("project"), JsonValue::Str(x.project.clone())));
    o.push((String::from_str("label"), JsonValue::Str(x.label.clone())));
    o.push((String::from_str("num_dependencies"), JsonValue::Int(x.num_dependencies as i128)));
    o.push((String::from_str("packages"), encode_pdal_list(&x.packages)));
    o.push((String::from_str("pass"), JsonValue::Bool(x.pass)));
    o.push((String::from_str("msg"), JsonValue::Str(x.msg.clone())));
    o.push((String::from_str("date"), JsonValue::Str(x.date.clone())));
    o.push((String::from_str("ecosystems"), encode_str_list(&x.ecosystems)));
    o.push((String::from_str("num_incomplete"), JsonValue::Int(x.num_incomplete as i128)));
    proof {
        job_descriptor_key_facts();
        assert(jget(jv_pairs(o@), "job_id"@) == Some(JVal::Str(x.job_id@)));
        assert(jget(jv_pairs(o@), "project"@) == Some(JVal::Str(x.project@)));
        assert(jget(jv_pairs(o@), "label"@) == Some(JVal::Str(x.label@)));
        assert(dec_u32_field(jv_pairs(o@), "num_dependencies"@) == Some(x.num_dependencies));
        assert(jget(jv_pairs(o@), "pass"@) == Some(JVal::Bool(x.pass)));
        assert(jget(jv_pairs(o@), "msg"@) == Some(JVal::Str(x.msg@)));
        assert(jget(jv_pairs(o@), "date"@) == Some(JVal::Str(x.date@)));
    }
    JsonValue::Obj(o)
}

/// What an array denotes as a list of job entries.
pub open spec fn dec_job_descriptor_list(s: Seq<JVal>) -> Option<Seq<JobDescriptorV>>
    decreases s.len(),
{
    if s.len() == 0 {
        Some(Seq::empty())
    } else {
        match (dec_job_descriptor_list(s.drop_last()), dec_job_descriptor(s.last())) {
            (Some(m), Some(x)) => Some(m.push(x)),
            _ => None,
        }
    }
}

pub open spec fn job_descriptor_list_model(s: Seq<JobDescriptor>) -> Seq<JobDescriptorV> {
    s.map_values(|x: JobDescriptor| x.model())
}

proof fn lemma_dec_job_list_elem_bad(s: Seq<JVal>, i: int)
    requires
        0 <= i < s.len(),
        dec_job_descriptor(s[i]) is None,
    ensures
        dec_job_descriptor_list(s) is None,
    decreases s.len(),
{
    if i < s.len() - 1 {
        assert(s.drop_last()[i] == s[i]);
        lemma_dec_job_list_elem_bad(s.drop_last(), i);
    }
}

pub fn decode_job_descriptor_list(a: &Vec<JsonValue>) -> (r: Option<Vec<JobDescriptor>>)
    ensures
        match r {
            Some(m) => dec_job_descriptor_list(jv_seq(a@)) == Some(job_descriptor_list_model(m@)),
            None => dec_job_descriptor_list(jv_seq(a@)) is None,
        },
{
    proof {
        crate::json::lemma_jv_seq_len(a@);
    }
    let mut m: Vec<JobDescriptor> = Vec::new();
    let mut i: usize = 0;
    while i < a.len()
        invariant
            i <= a.len(),
            jv_seq(a@).len() == a@.len(),
            dec_job_descriptor_list(jv_seq(a@).subrange(0, i as int)) == Some(
                job_descriptor_list_model(m@),
            ),
        decreases a.len() - i,
    {
        proof {
            crate::json::lemma_jv_seq_index(a@, i as int);
            assert(jv_seq(a@).subrange(0, i + 1).drop_last() =~= jv_seq(a@).subrange(0, i as int));
            assert(jv_seq(a@).subrange(0, i + 1).last() == jv_seq(a@)[i as int]);
        }
        match decode_job_descriptor(&a[i]) {
            Some(x) => {
                m.push(x);
                proof {
                    assert(job_descriptor_list_model(m@) =~= job_descriptor_list_model(
                        m@.drop_last(),
                    ).push(m@.last().model()));
                }
            },
            None => {
                proof {
                    lemma_dec_job_list_elem_bad(jv_seq(a@), i as int);
                }
                return None;
            },
        }
        i += 1;
    }
    proof {
        assert(jv_seq(a@).subrange(0, a@.len() as int) =~= jv_seq(a@));
    }
    Some(m)
}

pub fn encode_job_descriptor_list(m: &Vec<JobDescriptor>) -> (v: JsonValue)
    ensures
        v.jv() matches JVal::Arr(s) && dec_job_descriptor_list(s) == Some(
            job_descriptor_list_model(m@),
        ),
{
    let mut a: Vec<JsonValue> = Vec::new();
    let mut i: usize = 0;
    while i < m.len()
        invariant
            i <= m.len(),
            a@.len() == i,
            dec_job_descriptor_list(jv_seq(a@)) == Some(
                job_descriptor_list_model(m@.subrange(0, i as int)),
            ),
        decreases m.len() - i,
    {
        let ghost before = jv_seq(a@);
        let ev = encode_job_descriptor(&m[i]);
        a.push(ev);
        proof {
            crate::json::lemma_jv_seq_len(a@);
            assert(jv_seq(a@).drop_last() =~= before);
            assert(job_descriptor_list_model(m@.subrange(0, i + 1)) =~= job_descriptor_list_model(
                m@.subrange(0, i as int),
            ).push(m@[i as int].model()));
        }
        i += 1;
    }
    proof {
        assert(m@.subrange(0, m@.len() as int) =~= m@);
    }
    JsonValue::Arr(a)
}

pub ghost struct AllJobsStatusResponseV {
    pub jobs: Seq<JobDescriptorV>,
    pub total_jobs: u32,
    pub count: u32,
}

impl AllJobsStatusResponse {
    pub open spec fn model(self) -> AllJobsStatusResponseV {
        (AllJobsStatusResponseV {
            jobs: job_descriptor_list_model(self.jobs@),
            total_jobs: self.total_jobs,
            count: self.count,
        })
    }
}

/// What a wire object denotes as the all-jobs summary.
pub open spec fn dec_all_jobs(v: JVal) -> Option<AllJobsStatusResponseV> {
    match v {
        JVal::Obj(o) => match (jget(o, "jobs"@), dec_u32_field(o, "total_jobs"@), dec_u32_field(o, "count"@)) {
            (Some(JVal::Arr(js)), Some(total_jobs), Some(count)) => match dec_job_descriptor_list(
                js,
            ) {
                Some(jobs) => Some((AllJobsStatusResponseV { jobs, total_jobs, count })),
                None => None,
            },
            _ => None,
        },
        _ => None,
    }
}

pub fn decode_all_jobs(v: &JsonValue) -> (r: Option<AllJobsStatusResponse>)
    ensures
        match r {
            Some(x) => dec_all_jobs(v.jv()) == Some(x.model()),
            None => dec_all_jobs(v.jv()) is None,
        },
{
    let o = match v {
        JsonValue::Obj(o) => o,
        _ => { return None; },
    };
    let js = match get_arr(o, "jobs") {
        Some(x) => x,
        None => { return None; },
    };
    let jobs = match decode_job_descriptor_list(js) {
        Some(x) => x,
        None => { return None; },
    };
    let total_jobs = match get_u32(o, "total_jobs") {
        Some(x) => x,
        None => { return None; },
    };
    let count = match get_u32(o, "count") {
        Some(x) => x,
        None => { return None; },
    };
    Some(AllJobsStatusResponse { jobs, total_jobs, count })
}

pub fn encode_all_jobs(x: &AllJobsStatusResponse) -> (v: JsonValue)
    ensures
        dec_all_jobs(v.jv()) == Some(x.model()),
{
    let mut o: Vec<(String, JsonValue)> = Vec::new();
    o.push((String::from_str("jobs"), encode_job_descriptor_list(&x.jobs)));
    o.push((String::from_str("total_jobs"), JsonValue::Int(x.total_jobs as i128)));
    o.push((String::from_str("count"), JsonValue::Int(x.count as i128)));
    proof {
        reveal_strlit("jobs");
        reveal_strlit("total_jobs");
        reveal_strlit("count");
        assert("jobs"@.len() == 4 && "total_jobs"@.len() == 10 && "count"@.len() == 5);
        assert(dec_u32_field(jv_pairs(o@), "total_jobs"@) == Some(x.total_jobs));
        assert(dec_u32_field(jv_pairs(o@), "count"@) == Some(x.count));
    }
    JsonValue::Obj(o)
}

proof fn env_key_facts()
    ensures
        "job_id"@.len() == 6,
        "ecosystems"@.len() == 10,
        "user_id"@.len() == 7,
        "user_email"@.len() == 10,
        "created_at"@.len() == 10,
        "status"@.len() == 6,
        "pass"@.len() == 4,
        "msg"@.len() == 3,
        "num_incomplete"@.len() == 14,
        "last_updated"@.len() == 12,
        "project"@.len() == 7,
        "project_name"@.len() == 12,
        "label"@.len() == 5,
        "packages"@.len() == 8,
        "job_id"@ != "status"@,
        "ecosystems"@ != "user_email"@,
        "ecosystems"@ != "created_at"@,
        "user_email"@ != "created_at"@,
        "user_id"@ != "project"@,
        "last_updated"@ != "project_name"@,
{
    reveal_strlit("job_id");
    reveal_strlit("ecosystems");
    reveal_strlit("user_id");
    reveal_strlit("user_email");
    reveal_strlit("created_at");
    reveal_strlit("status");
    reveal_strlit("pass");
    reveal_strlit("msg");
    reveal_strlit("num_incomplete");
    reveal_strlit("last_updated");
    reveal_strlit("project");
    reveal_strlit("project_name");
    reveal_strlit("label");
    reveal_strlit("packages");
    assert("job_id"@[0] == 'j' && "status"@[0] == 's');
    assert("ecosystems"@[0] == 'e' && "user_email"@[0] == 'u' && "created_at"@[0] == 'c');
    assert("user_id"@[0] == 'u' && "project"@[0] == 'p');
    assert("last_updated"@[0] == 'l' && "project_name"@[0] == 'p');
}

/// Decodes everything of the envelope but the packages list, which is
/// handed back raw.
fn decode_job_envelope(v: &JsonValue) -> (r: Option<(JobStatusResponse<()>, &Vec<JsonValue>)>)
    ensures
        match r {
            Some((e, pkgs)) => dec_job_envelope(v.jv()) matches Some(ev) && ev == (with_packages::<
                JVal,
            >(ev, jv_seq(pkgs@))) && ev.job_id == e.job_id@ && ev.ecosystems == e.ecosystems@.map_values(
                |x: String| x@,
            ) && ev.user_id == e.user_id@ && ev.user_email == e.user_email@ && ev.created_at
                == e.created_at && ev.status == e.status && ev.pass == e.pass && ev.msg == e.msg@
                && ev.num_incomplete == e.num_incomplete && ev.last_updated == e.last_updated
                && ev.project == e.project@ && ev.project_name == e.project_name@ && ev.label
                == crate::report::view_opt_str(e.label),
            None => dec_job_envelope(v.jv()) is None,
        },
{
    let o = match v {
        JsonValue::Obj(o) => o,
        _ => { return None; },
    };
    let job_id = match get_str(o, "job_id") {
        Some(x) => x,
        None => { return None; },
    };
    let ecosystems: Vec<String> = match obj_get(o, "ecosystems") {
        None => Vec::new(),
        Some(JsonValue::Arr(a)) => match decode_str_list(a) {
            Some(x) => x,
            None => { return None; },
        },
        Some(_) => { return None; },
    };
    let user_id = match get_str(o, "user_id") {
        Some(x) => x,
        None => { return None; },
    };
    let user_email = match get_str(o, "user_email") {
        Some(x) => x,
        None => { return None; },
    };
    let created_at = match get_i64(o, "created_at") {
        Some(x) => x,
        None => { return None; },
    };
    let sv = match obj_get(o, "status") {
        Some(x) => x,
        None => { return None; },
    };
    let status = match decode_status(sv) {
        Some(x) => x,
        None => { return None; },
    };
    let pass = match crate::json::get_bool(o, "pass") {
        Some(x) => x,
        None => { return None; },
    };
    let msg = match get_str(o, "msg") {
        Some(x) => x,
        None => { return None; },
    };
    let num_incomplete: u32 = match obj_get(o, "num_incomplete") {
        None => 0,
        Some(JsonValue::Int(i)) => if 0 <= *i && *i <= 0xffff_ffff {
            *i as u32
        } else {
            return None;
        },
        Some(_) => { return None; },
    };
    let last_updated = match get_u64(o, "last_updated") {
        Some(x) => x,
        None => { return None; },
    };
    let project = match get_str(o, "project") {
        Some(x) => x,
        None => { return None; },
    };
    let project_name = match get_str(o, "project_name") {
        Some(x) => x,
        None => { return None; },
    };
    let label = match get_opt_str(o, "label") {
        Some(x) => x,
        None => { return None; },
    };
    let pkgs = match get_arr(o, "packages") {
        Some(x) => x,
        None => { return None; },
    };
    let e = JobStatusResponse::<()> {
        job_id,
        ecosystems,
        user_id,
        user_email,
        created_at,
        status,
        pass,
        msg,
        num_incomplete,
        last_updated,
        project,
        project_name,
        label,
        packages: Vec::new(),
    };
    Some((e, pkgs))
}

pub fn decode_job_status_basic(v: &JsonValue) -> (r: Option<JobStatusResponse<PackageStatus>>)
    ensures
        match r {
            Some(x) => dec_job_status_basic(v.jv()) == Some(x.model()),
            None => dec_job_status_basic(v.jv()) is None,
        },
{
    let (e, pkgs) = match decode_job_envelope(v) {
        Some(x) => x,
        None => { return None; },
    };
    let packages = match decode_status_list(pkgs) {
        Some(x) => x,
        None => { return None; },
    };
    Some(
        JobStatusResponse::<PackageStatus> {
            job_id: e.job_id,
            ecosystems: e.ecosystems,
            user_id: e.user_id,
            user_email: e.user_email,
            created_at: e.created_at,
            status: e.status,
            pass: e.pass,
            msg: e.msg,
            num_incomplete: e.num_incomplete,
            last_updated: e.last_updated,
            project: e.project,
            project_name: e.project_name,
            label: e.label,
            packages,
        },
    )
}

pub fn decode_job_status_extended(v: &JsonValue) -> (r: Option<
    JobStatusResponse<PackageStatusExtended>,
>)
    ensures
        match r {
            Some(x) => dec_job_status_extended(v.jv()) == Some(x.model_ext()),
            None => dec_job_status_extended(v.jv()) is None,
        },
{
    let (e, pkgs) = match decode_job_envelope(v) {
        Some(x) => x,
        None => { return None; },
    };
    let packages = match decode_status_ext_list(pkgs) {
        Some(x) => x,
        None => { return None; },
    };
    Some(
        JobStatusResponse::<PackageStatusExtended> {
            job_id: e.job_id,
            ecosystems: e.ecosystems,
            user_id: e.user_id,
            user_email: e.user_email,
            created_at: e.created_at,
            status: e.status,
            pass: e.pass,
            msg: e.msg,
            num_incomplete: e.num_incomplete,
            last_updated: e.last_updated,
            project: e.project,
            project_name: e.project_name,
            label: e.label,
            packages,
        },
    )
}

/// Builds the envelope's pair list, with the packages list already
/// encoded.
fn job_envelope_pairs<T>(e: &JobStatusResponse<T>, packages: JsonValue) -> (o: Vec<
    (String, JsonValue),
>)
    requires
        packages.jv() matches JVal::Arr(_),
    ensures
        dec_job_envelope(JVal::Obj(jv_pairs(o@))) matches Some(ev) && ev.job_id == e.job_id@
            && ev.ecosystems == e.ecosystems@.map_values(|x: String| x@) && ev.user_id
            == e.user_id@ && ev.user_email == e.user_email@ && ev.created_at == e.created_at
            && ev.status == e.status && ev.pass == e.pass && ev.msg == e.msg@ && ev.num_incomplete
            == e.num_incomplete && ev.last_updated == e.last_updated && ev.project == e.project@
            && ev.project_name == e.project_name@ && ev.label == crate::report::view_opt_str(
            e.label,
        ) && ev.packages == packages.jv()->Arr_0,
{
    let mut o: Vec<(String, JsonValue)> = Vec::new();
    o.push((String::from_str("job_id"), JsonValue::Str(e.job_id.clone())));
    o.push((String::from_str("ecosystems"), encode_str_list(&e.ecosystems)));
    o.push((String::from_str("user_id"), JsonValue::Str(e.user_id.clone())));
    o.push((String::from_str("user_email"), JsonValue::Str(e.user_email.clone())));
    o.push((String::from_str("created_at"), JsonValue::Int(e.created_at as i128)));
    o.push((String::from_str("status"), encode_status(e.status)));
    o.push((String::from_str("pass"), JsonValue::Bool(e.pass)));
    o.push((String::from_str("msg"), JsonValue::Str(e.msg.clone())));
    o.push((String::from_str("num_incomplete"), JsonValue::Int(e.num_incomplete as i128)));
    o.push((String::from_str("last_updated"), JsonValue::Int(e.last_updated as i128)));
    o.push((String::from_str("project"), JsonValue::Str(e.project.clone())));
    o.push((String::from_str("project_name"), JsonValue::Str(e.project_name.clone())));
    let lbl = match &e.label {
        Some(l) => JsonValue::Str(l.clone()),
        None => JsonValue::Null,
    };
    o.push((String::from_str("label"), lbl));
    o.push((String::from_str("packages"), packages));
    proof {
        env_key_facts();
        lemma_status_round_trip(e.status);
        assert(jget(jv_pairs(o@), "job_id"@) == Some(JVal::Str(e.job_id@)));
        assert(jget(jv_pairs(o@), "user_id"@) == Some(JVal::Str(e.user_id@)));
        assert(jget(jv_pairs(o@), "user_email"@) == Some(JVal::Str(e.user_email@)));
        assert(dec_i64_field(jv_pairs(o@), "created_at"@) == Some(e.created_at));
        assert(jget(jv_pairs(o@), "status"@) == Some(JVal::Str(e.status.wire_name_spec())));
        assert(jget(jv_pairs(o@), "pass"@) == Some(JVal::Bool(e.pass)));
        assert(jget(jv_pairs(o@), "msg"@) == Some(JVal::Str(e.msg@)));
        assert(dec_u64_field(jv_pairs(o@), "last_updated"@) == Some(e.last_updated));
        assert(jget(jv_pairs(o@), "project"@) == Some(JVal::Str(e.project@)));
        assert(jget(jv_pairs(o@), "project_name"@) == Some(JVal::Str(e.project_name@)));
        assert(dec_opt_str(jv_pairs(o@), "label"@) == Some(crate::report::view_opt_str(e.label)));
    }
    o
}

pub fn encode_job_status_basic(x: &JobStatusResponse<PackageStatus>) -> (v: JsonValue)
    ensures
        dec_job_status_basic(v.jv()) == Some(x.model()),
{
    let packages = encode_status_list(&x.packages);
    let o = job_envelope_pairs(x, packages);
    JsonValue::Obj(o)
}

pub fn encode_job_status_extended(x: &JobStatusResponse<PackageStatusExtended>) -> (v: JsonValue)
    ensures
        dec_job_status_extended(v.jv()) == Some(x.model_ext()),
{
    let packages = encode_status_ext_list(&x.packages);
    let o = job_envelope_pairs(x, packages);
    JsonValue::Obj(o)
}

/// The two historically-deployed shapes of a job status answer. The wire
/// carries no discriminator: decoding tries the extended shape first and
/// falls back to the basic one, so callers must match on the result.
#[derive(PartialEq, Clone, Debug)]
pub enum JobStatusResponseVariant {
    Extended(JobStatusResponse<PackageStatusExtended>),
    Basic(JobStatusResponse<PackageStatus>),
}

pub ghost enum JobStatusResponseVariantV {
    Extended(JobStatusResponseV<PackageStatusExtendedV>),
    Basic(JobStatusResponseV<PackageStatusV>),
}

impl JobStatusResponseVariant {
    pub open spec fn model(self) -> JobStatusResponseVariantV {
        match self {
            JobStatusResponseVariant::Extended(x) => JobStatusResponseVariantV::Extended(
                x.model_ext(),
            ),
            JobStatusResponseVariant::Basic(x) => JobStatusResponseVariantV::Basic(x.model()),
        }
    }
}

/// Decode resolution policy: the extended shape is structurally a superset
/// of the basic one, so it must be attempted first; the basic shape is a
/// fallback, never a preference.
pub open spec fn dec_job_status_variant(v: JVal) -> Option<JobStatusResponseVariantV> {
    if dec_job_status_extended(v) is Some {
        Some(JobStatusResponseVariantV::Extended(dec_job_status_extended(v)->0))
    } else if dec_job_status_basic(v) is Some {
        Some(JobStatusResponseVariantV::Basic(dec_job_status_basic(v)->0))
    } else {
        None
    }
}

pub fn decode_job_status_variant(v: &JsonValue) -> (r: Option<JobStatusResponseVariant>)
    ensures
        match r {
            Some(x) => dec_job_status_variant(v.jv()) == Some(x.model()),
            None => dec_job_status_variant(v.jv()) is None,
        },
{
    match decode_job_status_extended(v) {
        Some(x) => Some(JobStatusResponseVariant::Extended(x)),
        None => match decode_job_status_basic(v) {
            Some(x) => Some(JobStatusResponseVariant::Basic(x)),
            None => None,
        },
    }
}

/// A payload that decodes under the extended shape always resolves to the
/// extended variant, never the basic one — even though the same payload
/// would also decode under the basic shape.
pub proof fn lemma_decode_order_prefers_extended(v: JVal)
    requires
        dec_job_status_extended(v) is Some,
    ensures
        dec_job_status_variant(v) == Some(
            JobStatusResponseVariantV::Extended(dec_job_status_extended(v)->0),
        ),
        dec_job_status_basic(v) is Some,
{
    lemma_extended_job_payload_decodes_as_basic(v);
}

/// Submit a package and its subpackage dependencies for analysis.
#[derive(PartialEq, Eq, Clone, Debug)]
pub struct SubmitPackageRequest {
    /// The subpackage dependencies of this package.
    pub packages: Vec<crate::ids::PackageDescriptorAndLockfile>,
    /// Was this submitted by a user interactively and not a CI?
    pub is_user: bool,
    /// The project this top level package is associated with.
    pub project: String,
    /// A label for this package, often the branch.
    pub label: String,
    /// The group that owns the project, if applicable; omitted from the
    /// encoding when absent.
    pub group_name: Option<String>,
}

pub ghost struct SubmitPackageRequestV {
    pub packages: Seq<crate::ids::PackageDescriptorAndLockfileV>,
    pub is_user: bool,
    pub project: Seq<char>,
    pub label: Seq<char>,
    pub group_name: Option<Seq<char>>,
}

pub open spec fn pdal_list_model(s: Seq<crate::ids::PackageDescriptorAndLockfile>) -> Seq<
    crate::ids::PackageDescriptorAndLockfileV,
> {
    s.map_values(|p: crate::ids::PackageDescriptorAndLockfile| p.model())
}

impl SubmitPackageRequest {
    pub open spec fn model(self) -> SubmitPackageRequestV {
        (SubmitPackageRequestV {
            packages: pdal_list_model(self.packages@),
            is_user: self.is_user,
            project: self.project@,
            label: self.label@,
            group_name: crate::report::view_opt_str(self.group_name),
        })
    }
}

/// What an array denotes as a list of descriptor-plus-lockfile entries.
pub open spec fn dec_pdal_list(s: Seq<JVal>) -> Option<
    Seq<crate::ids::PackageDescriptorAndLockfileV>,
>
    decreases s.len(),
{
    if s.len() == 0 {
        Some(Seq::empty())
    } else {
        match (dec_pdal_list(s.drop_last()), crate::ids::dec_descriptor_lockfile(s.last())) {
            (Some(m), Some(x)) => Some(m.push(x)),
            _ => None,
        }
    }
}

proof fn lemma_dec_pdal_list_elem_bad(s: Seq<JVal>, i: int)
    requires
        0 <= i < s.len(),
        crate::ids::dec_descriptor_lockfile(s[i]) is None,
    ensures
        dec_pdal_list(s) is None,
    decreases s.len(),
{
    if i < s.len() - 1 {
        assert(s.drop_last()[i] == s[i]);
        lemma_dec_pdal_list_elem_bad(s.drop_last(), i);
    }
}

pub fn decode_pdal_list(a: &Vec<JsonValue>) -> (r: Option<
    Vec<crate::ids::PackageDescriptorAndLockfile>,
>)
    ensures
        match r {
            Some(m) => dec_pdal_list(jv_seq(a@)) == Some(pdal_list_model(m@)),
            None => dec_pdal_list(jv_seq(a@)) is None,
        },
{
    proof {
        crate::json::lemma_jv_seq_len(a@);
    }
    let mut m: Vec<crate::ids::PackageDescriptorAndLockfile> = Vec::new();
    let mut i: usize = 0;
    while i < a.len()
        invariant
            i <= a.len(),
            jv_seq(a@).len() == a@.len(),
            dec_pdal_list(jv_seq(a@).subrange(0, i as int)) == Some(pdal_list_model(m@)),
        decreases a.len() - i,
    {
        proof {
            crate::json::lemma_jv_seq_index(a@, i as int);
            assert(jv_seq(a@).subrange(0, i + 1).drop_last() =~= jv_seq(a@).subrange(0, i as int));
            assert(jv_seq(a@).subrange(0, i + 1).last() == jv_seq(a@)[i as int]);
        }
        match crate::ids::decode_descriptor_lockfile(&a[i]) {
            Some(x) => {
                m.push(x);
                proof {
                    assert(pdal_list_model(m@) =~= pdal_list_model(m@.drop_last()).push(
                        m@.last().model(),
                    ));
                }
            },
            None => {
                proof {
                    lemma_dec_pdal_list_elem_bad(jv_seq(a@), i as int);
                }
                return None;
            },
        }
        i += 1;
    }
    proof {
        assert(jv_seq(a@).subrange(0, a@.len() as int) =~= jv_seq(a@));
    }
    Some(m)
}

pub fn encode_pdal_list(m: &Vec<crate::ids::PackageDescriptorAndLockfile>) -> (v: JsonValue)
    ensures
        v.jv() matches JVal::Arr(s) && dec_pdal_list(s) == Some(pdal_list_model(m@)),
{
    let mut a: Vec<JsonValue> = Vec::new();
    let mut i: usize = 0;
    while i < m.len()
        invariant
            i <= m.len(),
            a@.len() == i,
            dec_pdal_list(jv_seq(a@)) == Some(pdal_list_model(m@.subrange(0, i as int))),
        decreases m.len() - i,
    {
        let ghost before = jv_seq(a@);
        let ev = crate::ids::encode_descriptor_lockfile(&m[i]);
        a.push(ev);
        proof {
            crate::json::lemma_jv_seq_len(a@);
            assert(jv_seq(a@).drop_last() =~= before);
            assert(pdal_list_model(m@.subrange(0, i + 1)) =~= pdal_list_model(
                m@.subrange(0, i as int),
            ).push(m@[i as int].model()));
        }
        i += 1;
    }
    proof {
        assert(m@.subrange(0, m@.len() as int) =~= m@);
    }
    JsonValue::Arr(a)
}

/// What a wire object denotes as a submission request.
pub open spec fn dec_submit_request(v: JVal) -> Option<SubmitPackageRequestV> {
    match v {
        JVal::Obj(o) => match (jget(o, "packages"@), jget(o, "is_user"@), jget(o, "project"@), jget(o, "label"@), dec_opt_str(o, "group_name"@)) {
            (
                Some(JVal::Arr(ps)),
                Some(JVal::Bool(is_user)),
                Some(JVal::Str(project)),
                Some(JVal::Str(label)),
                Some(group_name),
            ) => match dec_pdal_list(ps) {
                Some(packages) => Some(
                    (SubmitPackageRequestV { packages, is_user, project, label, group_name }),
                ),
                None => None,
            },
            _ => None,
        },
        _ => None,
    }
}

pub fn decode_submit_request(v: &JsonValue) -> (r: Option<SubmitPackageRequest>)
    ensures
        match r {
            Some(x) => dec_submit_request(v.jv()) == Some(x.model()),
            None => dec_submit_request(v.jv()) is None,
        },
{
    let o = match v {
        JsonValue::Obj(o) => o,
        _ => { return None; },
    };
    let ps = match get_arr(o, "packages") {
        Some(x) => x,
        None => { return None; },
    };
    let packages = match decode_pdal_list(ps) {
        Some(x) => x,
        None => { return None; },
    };
    let is_user = match crate::json::get_bool(o, "is_user") {
        Some(x) => x,
        None => { return None; },
    };
    let project = match get_str(o, "project") {
        Some(x) => x,
        None => { return None; },
    };
    let label = match get_str(o, "label") {
        Some(x) => x,
        None => { return None; },
    };
    let group_name = match get_opt_str(o, "group_name") {
        Some(x) => x,
        None => { return None; },
    };
    Some(SubmitPackageRequest { packages, is_user, project, label, group_name })
}

/// Encodes a submission request; an absent group name is omitted from the
/// object entirely, not bound to null.
pub fn encode_submit_request(x: &SubmitPackageRequest) -> (v: JsonValue)
    ensures
        dec_submit_request(v.jv()) == Some(x.model()),
        x.group_name is None ==> jget(v.jv()->Obj_0, "group_name"@) is None,
{
    let mut o: Vec<(String, JsonValue)> = Vec::new();
    o.push((String::from_str("packages"), encode_pdal_list(&x.packages)));
    o.push((String::from_str("is_user"), JsonValue::Bool(x.is_user)));
    o.push((String::from_str("project"), JsonValue::Str(x.project.clone())));
    o.push((String::from_str("label"), JsonValue::Str(x.label.clone())));
    match &x.group_name {
        Some(g) => {
            o.push((String::from_str("group_name"), JsonValue::Str(g.clone())));
        },
        None => {},
    }
    proof {
        reveal_strlit("packages");
        reveal_strlit("is_user");
        reveal_strlit("project");
        reveal_strlit("label");
        reveal_strlit("group_name");
        assert("packages"@.len() == 8);
        assert("is_user"@.len() == 7);
        assert("project"@.len() == 7);
        assert("label"@.len() == 5);
        assert("group_name"@.len() == 10);
        assert("is_user"@[0] == 'i' && "project"@[0] == 'p');
        assert(dec_opt_str(jv_pairs(o@), "group_name"@) == Some(
            crate::report::view_opt_str(x.group_name),
        ));
    }
    JsonValue::Obj(o)
}

/// First answer after a package has been submitted.
#[derive(PartialEq, Eq, Clone, Debug)]
pub struct SubmitPackageResponse {
    /// The id of the job processing the package.
    pub job_id: String,
}

/// What a wire object denotes as a submission response.
pub open spec fn dec_submit_response(v: JVal) -> Option<Seq<char>> {
    match v {
        JVal::Obj(o) => match jget(o, "job_id"@) {
            Some(JVal::Str(job_id)) => Some(job_id),
            _ => None,
        },
        _ => None,
    }
}

pub fn decode_submit_response(v: &JsonValue) -> (r: Option<SubmitPackageResponse>)
    ensures
        match r {
            Some(x) => dec_submit_response(v.jv()) == Some(x.job_id@),
            None => dec_submit_response(v.jv()) is None,
        },
{
    let o = match v {
        JsonValue::Obj(o) => o,
        _ => { return None; },
    };
    match get_str(o, "job_id") {
        Some(job_id) => Some(SubmitPackageResponse { job_id }),
        None => None,
    }
}

pub fn encode_submit_response(x: &SubmitPackageResponse) -> (v: JsonValue)
    ensures
        dec_submit_response(v.jv()) == Some(x.job_id@),
{
    let mut o: Vec<(String, JsonValue)> = Vec::new();
    o.push((String::from_str("job_id"), JsonValue::Str(x.job_id.clone())));
    proof {
        assert(jget(jv_pairs(o@), "job_id"@) == Some(JVal::Str(x.job_id@)));
    }
    JsonValue::Obj(o)
}

/// Trivial acknowledgment of a job cancellation.
#[derive(PartialEq, Eq, Clone, Debug)]
pub struct CancelJobResponse {
    pub msg: String,
}

/// What a wire object denotes as a cancellation acknowledgment.
pub open spec fn dec_cancel_response(v: JVal) -> Option<Seq<char>> {
    match v {
        JVal::Obj(o) => match jget(o, "msg"@) {
            Some(JVal::Str(msg)) => Some(msg),
            _ => None,
        },
        _ => None,
    }
}

pub fn decode_cancel_response(v: &JsonValue) -> (r: Option<CancelJobResponse>)
    ensures
        match r {
            Some(x) => dec_cancel_response(v.jv()) == Some(x.msg@),
            None => dec_cancel_response(v.jv()) is None,
        },
{
    let o = match v {
        JsonValue::Obj(o) => o,
        _ => { return None; },
    };
    match get_str(o, "msg") {
        Some(msg) => Some(CancelJobResponse { msg }),
        None => None,
    }
}

pub fn encode_cancel_response(x: &CancelJobResponse) -> (v: JsonValue)
    ensures
        dec_cancel_response(v.jv()) == Some(x.msg@),
{
    let mut o: Vec<(String, JsonValue)> = Vec::new();
    o.push((String::from_str("msg"), JsonValue::Str(x.msg.clone())));
    proof {
        assert(jget(jv_pairs(o@), "msg"@) == Some(JVal::Str(x.msg@)));
    }
    JsonValue::Obj(o)
}

} // verus!
