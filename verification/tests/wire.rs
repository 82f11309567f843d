use pkgwire::ids::{
    decode_specifier_lockfile, decode_url_lockfile, encode_specifier_lockfile,
    encode_url_lockfile,
    decode_descriptor, decode_descriptor_lockfile, decode_ecosystem, decode_specifier,
    descriptor_from_specifier, encode_descriptor, encode_descriptor_lockfile, encode_ecosystem,
    encode_specifier, parse_package_type, specifier_from_descriptor, PackageType, PackageDescriptor,
    PackageDescriptorAndLockfile, PackageSpecifier, PackageSpecifierAndLockfile,
    PackageUrlAndLockfile,
};
use pkgwire::job::{
    decode_job_status_basic,
    decode_all_jobs, decode_job_descriptor, encode_all_jobs, encode_job_descriptor,
    AllJobsStatusResponse, JobDescriptor,
    decode_cancel_response, decode_job_status_variant, decode_package_status,
    decode_submit_request, decode_submit_response, encode_cancel_response,
    encode_job_status_basic, encode_job_status_extended, encode_package_status,
    encode_package_status_extended, encode_submit_request, encode_submit_response,
    decode_package_status_extended, CancelJobResponse, JobStatusResponse, JobStatusResponseVariant,
    PackageStatus, PackageStatusExtended, Status, SubmitPackageRequest, SubmitPackageResponse,
};
use pkgwire::json::JsonValue;
use pkgwire::purl_conv::{from_purl_type, to_purl_type};
use pkgwire::report::{
    decode_issue, decode_issue_status, decode_risk_scores, encode_issue, encode_issue_status,
    encode_risk_scores, encode_submit_outcome, Issue, IssueStatus, Package,
    PackageSubmitResponse, RiskScores,
};
use pkgwire::risk::{
    decode_risk_domain, decode_risk_level, decode_risk_type, encode_risk_domain, RiskDomain,
    RiskLevel, RiskType,
};

fn s(x: &str) -> String {
    x.to_owned()
}

fn obj(pairs: Vec<(&str, JsonValue)>) -> JsonValue {
    JsonValue::Obj(pairs.into_iter().map(|(k, v)| (s(k), v)).collect())
}

fn jstr(x: &str) -> JsonValue {
    JsonValue::Str(s(x))
}

#[test]
fn ecosystem_parsing_accepts_aliases_case_insensitively() {
    assert_eq!(parse_package_type("PyPI").unwrap(), PackageType::PyPi);
    assert_eq!(parse_package_type("pypi").unwrap(), PackageType::PyPi);
    assert_eq!(parse_package_type("python").unwrap(), PackageType::PyPi);
    assert_eq!(parse_package_type("npm").unwrap(), PackageType::Npm);
    assert_eq!(parse_package_type("NPM").unwrap(), PackageType::Npm);
    assert_eq!(parse_package_type("maven-central").unwrap(), PackageType::Maven);
    assert_eq!(parse_package_type("GEM").unwrap(), PackageType::RubyGems);
    assert_eq!(parse_package_type("ruby").unwrap(), PackageType::RubyGems);
    assert_eq!(parse_package_type("rubygems").unwrap(), PackageType::RubyGems);
    assert_eq!(parse_package_type("dotnet").unwrap(), PackageType::Nuget);
    assert_eq!(parse_package_type("nuget").unwrap(), PackageType::Nuget);
    assert_eq!(parse_package_type("Cargo").unwrap(), PackageType::Cargo);
    assert_eq!(parse_package_type("golang").unwrap(), PackageType::Golang);
}

#[test]
fn ecosystem_parsing_rejects_unknown_registry() {
    let e = parse_package_type("cocoapods").unwrap_err();
    assert_eq!(e.input, "cocoapods");
    assert!(e.message().contains("cocoapods"));
}

#[test]
fn purl_conversion_round_trips_every_ecosystem() {
    let all = [
        PackageType::Npm,
        PackageType::PyPi,
        PackageType::Maven,
        PackageType::RubyGems,
        PackageType::Nuget,
        PackageType::Cargo,
        PackageType::Golang,
    ];
    for t in all {
        assert_eq!(from_purl_type(&to_purl_type(t)).unwrap(), t);
    }
    assert_eq!(to_purl_type(PackageType::RubyGems), "gem");
    assert_eq!(to_purl_type(PackageType::PyPi), "pypi");
    // A purl type outside the supported vocabulary is a typed error.
    assert!(from_purl_type("composer").is_err());
    // The purl crate itself vouches for its vocabulary.
    assert_eq!(from_purl_type("gem").unwrap(), PackageType::RubyGems);
}

#[test]
fn risk_domain_maps_totally_and_never_to_total() {
    assert_eq!(RiskDomain::AuthorRisk.risk_type(), RiskType::AuthorsRisk);
    assert_eq!(RiskDomain::EngineeringRisk.risk_type(), RiskType::EngineeringRisk);
    assert_eq!(RiskDomain::Malicious.risk_type(), RiskType::MaliciousRisk);
    assert_eq!(RiskDomain::Vulnerabilities.risk_type(), RiskType::Vulnerabilities);
    assert_eq!(RiskDomain::LicenseRisk.risk_type(), RiskType::LicenseRisk);
    let all = [
        RiskDomain::AuthorRisk,
        RiskDomain::EngineeringRisk,
        RiskDomain::Malicious,
        RiskDomain::Vulnerabilities,
        RiskDomain::LicenseRisk,
    ];
    for d in all {
        assert_ne!(d.risk_type(), RiskType::TotalRisk);
    }
}

#[test]
fn display_codes_and_scores() {
    assert_eq!(RiskType::TotalRisk.code(), "ALL");
    assert_eq!(RiskType::Vulnerabilities.code(), "VLN");
    assert_eq!(RiskType::MaliciousRisk.code(), "MAL");
    assert_eq!(RiskType::AuthorsRisk.code(), "AUT");
    assert_eq!(RiskType::EngineeringRisk.code(), "ENG");
    assert_eq!(RiskType::LicenseRisk.code(), "LIC");
    // A domain renders as the category it maps to.
    assert_eq!(RiskDomain::Malicious.code(), "MAL");
    assert_eq!(RiskLevel::Info.name(), "info");
    assert_eq!(RiskLevel::Critical.name(), "critical");
    assert_eq!(RiskLevel::Info.score_millis(), 1000);
    assert_eq!(RiskLevel::Low.score_millis(), 800);
    assert_eq!(RiskLevel::Medium.score_millis(), 650);
    assert_eq!(RiskLevel::High.score_millis(), 350);
    assert_eq!(RiskLevel::Critical.score_millis(), 100);
}

#[test]
fn language_names() {
    assert_eq!(PackageType::Npm.language(), "Javascript");
    assert_eq!(PackageType::RubyGems.language(), "Ruby");
    assert_eq!(PackageType::PyPi.language(), "Python");
    assert_eq!(PackageType::Maven.language(), "Java");
    assert_eq!(PackageType::Nuget.language(), ".NET");
    assert_eq!(PackageType::Cargo.language(), "Rust");
    assert_eq!(PackageType::Golang.language(), "Golang");
}

#[test]
fn descriptor_specifier_round_trip() {
    let d = PackageDescriptor {
        name: s("left-pad"),
        version: s("1.0.0"),
        package_type: PackageType::Npm,
    };
    let sp = specifier_from_descriptor(&d);
    assert_eq!(sp.registry, "npm");
    let back = descriptor_from_specifier(&sp).unwrap();
    assert_eq!(back, d);
}

#[test]
fn descriptor_from_specifier_rejects_unknown_registry() {
    let sp = PackageSpecifier { registry: s("cocoapods"), name: s("x"), version: s("1") };
    let e = descriptor_from_specifier(&sp).unwrap_err();
    assert_eq!(e.input, "cocoapods");
}

#[test]
fn lockfile_wrappers_default_to_absent() {
    let d = PackageDescriptor { name: s("a"), version: s("1"), package_type: PackageType::Cargo };
    let dl = PackageDescriptorAndLockfile::from_descriptor(&d);
    assert_eq!(dl.package_descriptor, d);
    assert!(dl.lockfile.is_none());
    let sp = PackageSpecifier { registry: s("cargo"), name: s("a"), version: s("1") };
    let sl = PackageSpecifierAndLockfile::from_specifier(&sp);
    assert_eq!(sl.package_specifier, sp);
    assert!(sl.lockfile.is_none());
    let ul = PackageUrlAndLockfile::from_purl(s("pkg:cargo/a@1"));
    assert_eq!(ul.purl, "pkg:cargo/a@1");
    assert!(ul.lockfile.is_none());
}

#[test]
fn enum_wire_round_trips_and_aliases() {
    for d in [
        RiskDomain::AuthorRisk,
        RiskDomain::EngineeringRisk,
        RiskDomain::Malicious,
        RiskDomain::Vulnerabilities,
        RiskDomain::LicenseRisk,
    ] {
        assert_eq!(decode_risk_domain(&encode_risk_domain(d)), Some(d));
    }
    // Legacy variant names decode like the canonical ones.
    assert_eq!(decode_risk_domain(&jstr("malicious")), Some(RiskDomain::Malicious));
    assert_eq!(decode_risk_domain(&jstr("malicious_code")), Some(RiskDomain::Malicious));
    assert_eq!(decode_risk_type(&jstr("maliciousRisk")), Some(RiskType::MaliciousRisk));
    assert_eq!(decode_risk_type(&jstr("maliciousCodeRisk")), Some(RiskType::MaliciousRisk));
    assert_eq!(decode_risk_level(&jstr("medium")), Some(RiskLevel::Medium));
    assert_eq!(decode_risk_level(&jstr("unknown")), None);
    assert_eq!(decode_ecosystem(&encode_ecosystem(PackageType::RubyGems)), Some(PackageType::RubyGems));
}

#[test]
fn specifier_round_trip_and_type_alias() {
    let sp = PackageSpecifier { registry: s("npm"), name: s("left-pad"), version: s("1.0.0") };
    assert_eq!(decode_specifier(&encode_specifier(&sp)), Some(sp.clone()));
    // Legacy key "type" decodes into the registry field.
    let legacy = obj(vec![
        ("type", jstr("npm")),
        ("name", jstr("left-pad")),
        ("version", jstr("1.0.0")),
    ]);
    assert_eq!(decode_specifier(&legacy), Some(sp));
}

#[test]
fn descriptor_round_trip_and_registry_alias() {
    let d = PackageDescriptor {
        name: s("requests"),
        version: s("2.0.0"),
        package_type: PackageType::PyPi,
    };
    assert_eq!(decode_descriptor(&encode_descriptor(&d)), Some(d.clone()));
    // Legacy key "registry" decodes into the package type field.
    let legacy = obj(vec![
        ("registry", jstr("pypi")),
        ("name", jstr("requests")),
        ("version", jstr("2.0.0")),
    ]);
    assert_eq!(decode_descriptor(&legacy), Some(d));
}

#[test]
fn descriptor_lockfile_flatten_and_omission() {
    let d = PackageDescriptor { name: s("a"), version: s("1"), package_type: PackageType::Cargo };
    let with = PackageDescriptorAndLockfile {
        package_descriptor: d.clone(),
        lockfile: Some(s("Cargo.lock")),
    };
    assert_eq!(decode_descriptor_lockfile(&encode_descriptor_lockfile(&with)), Some(with.clone()));
    let without = PackageDescriptorAndLockfile { package_descriptor: d, lockfile: None };
    let enc = encode_descriptor_lockfile(&without);
    match &enc {
        JsonValue::Obj(pairs) => {
            assert!(pairs.iter().all(|(k, _)| k != "lockfile"));
            assert!(pairs.iter().any(|(k, _)| k == "name"));
        },
        _ => panic!("expected an object"),
    }
    assert_eq!(decode_descriptor_lockfile(&enc), Some(without));
}

fn sample_issue() -> Issue {
    Issue {
        tag: Some(s("tag-1")),
        id: Some(s("id-1")),
        title: s("Title"),
        description: s("Desc"),
        severity: RiskLevel::High,
        domain: RiskDomain::Malicious,
        rule: None,
    }
}

#[test]
fn issue_round_trip_full_and_minimal() {
    let full = sample_issue();
    assert_eq!(decode_issue(&encode_issue(&full)), Some(full));
    let minimal = Issue {
        tag: None,
        id: None,
        title: s(""),
        description: s(""),
        severity: RiskLevel::Info,
        domain: RiskDomain::LicenseRisk,
        rule: None,
    };
    assert_eq!(decode_issue(&encode_issue(&minimal)), Some(minimal));
}

#[test]
fn issue_decodes_legacy_field_names() {
    let legacy = obj(vec![
        ("title", jstr("Title")),
        ("description", jstr("Desc")),
        ("risk_level", jstr("high")),
        ("risk_domain", jstr("malicious")),
        ("tag", jstr("tag-1")),
        ("id", jstr("id-1")),
    ]);
    assert_eq!(decode_issue(&legacy), Some(sample_issue()));
}

#[test]
fn issue_status_round_trip() {
    let is = IssueStatus { issue: sample_issue(), ignored: Some(s("accepted risk")) };
    assert_eq!(decode_issue_status(&encode_issue_status(&is)), Some(is));
    let not_ignored = IssueStatus { issue: sample_issue(), ignored: None };
    assert_eq!(decode_issue_status(&encode_issue_status(&not_ignored)), Some(not_ignored));
}

fn sample_status() -> PackageStatus {
    PackageStatus {
        purl: Some(s("pkg:npm/left-pad@1.0.0")),
        name: s("left-pad"),
        version: s("1.0.0"),
        status: Status::Complete,
        last_updated: 1_700_000_000,
        license: Some(s("MIT")),
        package_score: Some(850),
        num_dependencies: 3,
        num_vulnerabilities: Some(1),
    }
}

#[test]
fn package_status_round_trip_and_omission() {
    let full = sample_status();
    assert_eq!(decode_package_status(&encode_package_status(&full)), Some(full));
    let minimal = PackageStatus {
        purl: None,
        name: s("a"),
        version: s("1"),
        status: Status::Incomplete,
        last_updated: 0,
        license: None,
        package_score: None,
        num_dependencies: 0,
        num_vulnerabilities: None,
    };
    let enc = encode_package_status(&minimal);
    match &enc {
        JsonValue::Obj(pairs) => {
            assert!(pairs.iter().all(|(k, _)| k != "purl"));
            assert!(pairs.iter().all(|(k, _)| k != "num_vulnerabilities"));
            // Nullable-but-present optional fields stay present.
            assert!(pairs.iter().any(|(k, _)| k == "license"));
        },
        _ => panic!("expected an object"),
    }
    assert_eq!(decode_package_status(&enc), Some(minimal));
}

fn sample_extended() -> PackageStatusExtended {
    PackageStatusExtended {
        basic_status: sample_status(),
        package_type: PackageType::Npm,
        risk_vectors: vec![(s("author"), 1000), (s("vulnerability"), 650)],
        dependencies: vec![(s("is-even"), s("1.0.0"))],
        issues: vec![IssueStatus { issue: sample_issue(), ignored: None }],
    }
}

#[test]
fn package_status_extended_round_trip() {
    let x = sample_extended();
    assert_eq!(
        decode_package_status_extended(&encode_package_status_extended(&x)),
        Some(x)
    );
}

fn sample_job_ext(packages: Vec<PackageStatusExtended>) -> JobStatusResponse<PackageStatusExtended> {
    JobStatusResponse {
        job_id: s("job-123"),
        ecosystems: vec![s("npm")],
        user_id: s("user-1"),
        user_email: s("u@example.com"),
        created_at: 1_700_000_000,
        status: Status::Incomplete,
        pass: false,
        msg: s(""),
        num_incomplete: 1,
        last_updated: 1_700_000_100,
        project: s("proj-1"),
        project_name: s("Project One"),
        label: Some(s("main")),
        packages,
    }
}

fn sample_job(packages: Vec<PackageStatus>) -> JobStatusResponse<PackageStatus> {
    JobStatusResponse {
        job_id: s("job-123"),
        ecosystems: vec![s("npm")],
        user_id: s("user-1"),
        user_email: s("u@example.com"),
        created_at: 1_700_000_000,
        status: Status::Incomplete,
        pass: false,
        msg: s(""),
        num_incomplete: 1,
        last_updated: 1_700_000_100,
        project: s("proj-1"),
        project_name: s("Project One"),
        label: Some(s("main")),
        packages,
    }
}

#[test]
fn job_status_round_trips_both_shapes() {
    let basic = sample_job(vec![sample_status()]);
    let enc = encode_job_status_basic(&basic);
    match decode_job_status_variant(&enc) {
        Some(JobStatusResponseVariant::Basic(b)) => assert_eq!(b, basic),
        _ => panic!("expected the basic variant"),
    }
    let mut extended = sample_job_ext(vec![sample_extended()]);
    extended.msg = s("ok");
    let enc2 = encode_job_status_extended(&extended);
    match decode_job_status_variant(&enc2) {
        Some(JobStatusResponseVariant::Extended(e)) => assert_eq!(e, extended),
        _ => panic!("expected the extended variant"),
    }
}

#[test]
fn decode_order_prefers_extended_over_basic() {
    // A payload whose packages carry both the minimal fields and the
    // extended extras must resolve to the extended variant: trying the
    // basic shape first would also succeed and silently drop the extras.
    let extended = sample_job_ext(vec![sample_extended()]);
    let enc = encode_job_status_extended(&extended);
    // The same payload does decode under the basic shape...
    let v = match &enc {
        JsonValue::Obj(_) => decode_job_status_variant(&enc),
        _ => panic!("expected an object"),
    };
    // ...but resolution must pick Extended.
    match v {
        Some(JobStatusResponseVariant::Extended(e)) => {
            assert_eq!(e.packages[0].risk_vectors.len(), 2);
            assert_eq!(e.packages[0].dependencies.len(), 1);
        },
        _ => panic!("extended payload must resolve to the extended variant"),
    }
}

#[test]
fn submit_request_round_trip_and_group_omission() {
    let d = PackageDescriptor {
        name: s("left-pad"),
        version: s("1.0.0"),
        package_type: PackageType::Npm,
    };
    let req = SubmitPackageRequest {
        packages: vec![PackageDescriptorAndLockfile { package_descriptor: d, lockfile: None }],
        is_user: true,
        project: s("proj-1"),
        label: s("main"),
        group_name: None,
    };
    let enc = encode_submit_request(&req);
    match &enc {
        JsonValue::Obj(pairs) => assert!(pairs.iter().all(|(k, _)| k != "group_name")),
        _ => panic!("expected an object"),
    }
    assert_eq!(decode_submit_request(&enc), Some(req));
}

#[test]
fn submit_and_cancel_round_trip() {
    let r = SubmitPackageResponse { job_id: s("job-123") };
    assert_eq!(decode_submit_response(&encode_submit_response(&r)), Some(r));
    let c = CancelJobResponse { msg: s("canceled") };
    assert_eq!(decode_cancel_response(&encode_cancel_response(&c)), Some(c));
}

#[test]
fn submit_outcome_tag_and_payload() {
    let mut pkg = Package::default();
    pkg.id = s("npm:left-pad:1.0.0");
    pkg.name = s("left-pad");
    pkg.version = s("1.0.0");
    pkg.registry = s("npm");
    let processed = encode_submit_outcome(&PackageSubmitResponse::AlreadyProcessed(pkg));
    match &processed {
        JsonValue::Obj(pairs) => {
            assert!(pairs.iter().any(|(k, v)| k == "status" && matches!(v, JsonValue::Str(x) if x == "AlreadyProcessed")));
            assert!(pairs.iter().any(|(k, _)| k == "data"));
        },
        _ => panic!("expected an object"),
    }
    for (r, name) in [
        (PackageSubmitResponse::AlreadySubmitted, "AlreadySubmitted"),
        (PackageSubmitResponse::New, "New"),
    ] {
        let enc = encode_submit_outcome(&r);
        match &enc {
            JsonValue::Obj(pairs) => {
                assert!(pairs.iter().any(|(k, v)| k == "status" && matches!(v, JsonValue::Str(x) if x == name)));
                // No "data" key at all, not a null one.
                assert!(pairs.iter().all(|(k, _)| k != "data"));
            },
            _ => panic!("expected an object"),
        }
    }
}

#[test]
fn submit_then_poll_end_to_end() {
    let d = PackageDescriptor {
        name: s("left-pad"),
        version: s("1.0.0"),
        package_type: PackageType::Npm,
    };
    let req = SubmitPackageRequest {
        packages: vec![PackageDescriptorAndLockfile { package_descriptor: d, lockfile: None }],
        is_user: true,
        project: s("proj-1"),
        label: s("main"),
        group_name: None,
    };
    let sent = encode_submit_request(&req);
    assert_eq!(decode_submit_request(&sent), Some(req));

    let answer = obj(vec![("job_id", jstr("job-123"))]);
    let resp = decode_submit_response(&answer).unwrap();
    assert_eq!(resp.job_id, "job-123");

    // A later status poll answers with an extended-shape payload.
    let poll = encode_job_status_extended(&sample_job_ext(vec![sample_extended()]));
    match decode_job_status_variant(&poll) {
        Some(JobStatusResponseVariant::Extended(e)) => {
            assert_eq!(e.job_id, "job-123");
            let p = &e.packages[0];
            assert_eq!(p.basic_status.name, "left-pad");
            assert_eq!(p.risk_vectors[0], (s("author"), 1000));
            assert_eq!(p.dependencies[0], (s("is-even"), s("1.0.0")));
        },
        _ => panic!("extended payload must decode to the extended variant"),
    }
}

#[test]
fn job_descriptor_and_all_jobs_round_trip() {
    let d = PackageDescriptor {
        name: s("left-pad"),
        version: s("1.0.0"),
        package_type: PackageType::Npm,
    };
    let jd = JobDescriptor {
        job_id: s("job-123"),
        project: s("proj-1"),
        label: s("main"),
        num_dependencies: 1,
        packages: vec![PackageDescriptorAndLockfile { package_descriptor: d, lockfile: None }],
        pass: true,
        msg: s("ok"),
        date: s("2024-01-01"),
        ecosystems: vec![s("npm")],
        num_incomplete: 0,
    };
    assert_eq!(decode_job_descriptor(&encode_job_descriptor(&jd)), Some(jd.clone()));
    // The count covers the returned page, not the service-wide total.
    let all = AllJobsStatusResponse { jobs: vec![jd], total_jobs: 41, count: 1 };
    assert_eq!(decode_all_jobs(&encode_all_jobs(&all)), Some(all));
}

#[test]
fn job_descriptor_defaults_for_missing_fields() {
    let enc = obj(vec![
        ("job_id", jstr("job-9")),
        ("project", jstr("p")),
        ("label", jstr("l")),
        ("num_dependencies", JsonValue::Int(0)),
        ("packages", JsonValue::Arr(vec![])),
        ("pass", JsonValue::Bool(false)),
        ("msg", jstr("")),
        ("date", jstr("")),
    ]);
    let jd = decode_job_descriptor(&enc).unwrap();
    assert!(jd.ecosystems.is_empty());
    assert_eq!(jd.num_incomplete, 0);
}

#[test]
fn specifier_and_url_lockfile_round_trips() {
    let sp = PackageSpecifier { registry: s("cargo"), name: s("a"), version: s("1") };
    let sl = PackageSpecifierAndLockfile { package_specifier: sp, lockfile: None };
    assert_eq!(decode_specifier_lockfile(&encode_specifier_lockfile(&sl)), Some(sl.clone()));
    let with = PackageSpecifierAndLockfile { lockfile: Some(s("Cargo.lock")), ..sl };
    assert_eq!(decode_specifier_lockfile(&encode_specifier_lockfile(&with)), Some(with));
    let ul = PackageUrlAndLockfile { purl: s("pkg:cargo/a@1"), lockfile: Some(s("Cargo.lock")) };
    assert_eq!(decode_url_lockfile(&encode_url_lockfile(&ul)), Some(ul));
}

#[test]
fn risk_scores_round_trip_and_malicious_alias() {
    let rs = RiskScores {
        total: 500,
        vulnerability: 650,
        malicious: 100,
        author: 1000,
        engineering: 800,
        license: 1000,
    };
    let enc = encode_risk_scores(&rs);
    match &enc {
        JsonValue::Obj(pairs) => {
            assert!(pairs.iter().any(|(k, _)| k == "malicious_code"));
            assert!(pairs.iter().all(|(k, _)| k != "malicious"));
        },
        _ => panic!("expected an object"),
    }
    assert_eq!(decode_risk_scores(&enc), Some(rs));
    let legacy = obj(vec![
        ("total", JsonValue::Int(500)),
        ("vulnerability", JsonValue::Int(650)),
        ("malicious", JsonValue::Int(100)),
        ("author", JsonValue::Int(1000)),
        ("engineering", JsonValue::Int(800)),
        ("license", JsonValue::Int(1000)),
    ]);
    assert_eq!(decode_risk_scores(&legacy), Some(rs));
}

#[test]
fn job_envelope_defaults_for_missing_fields() {
    let enc = obj(vec![
        ("job_id", jstr("job-7")),
        ("user_id", jstr("u")),
        ("user_email", jstr("u@example.com")),
        ("created_at", JsonValue::Int(0)),
        ("status", jstr("incomplete")),
        ("pass", JsonValue::Bool(false)),
        ("msg", jstr("")),
        ("last_updated", JsonValue::Int(0)),
        ("project", jstr("p")),
        ("project_name", jstr("P")),
        ("packages", JsonValue::Arr(vec![])),
    ]);
    let r = decode_job_status_basic(&enc).unwrap();
    assert!(r.ecosystems.is_empty());
    assert_eq!(r.num_incomplete, 0);
    assert!(r.label.is_none());
    assert!(r.packages.is_empty());
}
