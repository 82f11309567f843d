use vstd::prelude::*;
use vstd::string::StrSliceExecFns;
use vstd::string::StringExecFns;
use crate::json::{JVal, JsonValue, jget, jv_pairs, dec_opt_str, get_opt_str, get_str, obj_get, string_is};

verus! {

broadcast use crate::json::lemma_jget_push, crate::json::lemma_jv_pairs_push, crate::json::lemma_jv_seq_push;

/// The package ecosystem / registry.
#[derive(PartialEq, Eq, Structural, Copy, Clone, Debug, Hash)]
pub enum PackageType {
    Npm,
    PyPi,
    Maven,
    RubyGems,
    Nuget,
    Cargo,
    Golang,
}

/// Raised when a free-text registry or ecosystem string matches no known
/// alias; carries the offending string for diagnostics.
#[derive(Clone, Debug)]
pub struct UnknownEcosystem {
    pub input: String,
}

/// ASCII lowering of one character; other characters are untouched.
pub open spec fn lower_char_spec(c: char) -> char {
    if 65 <= c as int && c as int <= 90 {
        (c as int + 32) as char
    } else {
        c
    }
}

/// ASCII lowering of a whole string.
pub open spec fn lower_spec(s: Seq<char>) -> Seq<char> {
    s.map_values(|c: char| lower_char_spec(c))
}

fn lower_char(c: char) -> (r: char)
    ensures
        r == lower_char_spec(c),
{
    let u: u32 = c as u32;
    if 65 <= u && u <= 90 {
        ((u + 32) as u8) as char
    } else {
        c
    }
}

/// Whether the ASCII lowering of `s` equals `t` exactly.
fn lower_eq(s: &str, t: &str) -> (r: bool)
    ensures
        r == (lower_spec(s@) == t@),
{
    let n: usize = s.unicode_len();
    let m: usize = t.unicode_len();
    if n != m {
        assert(lower_spec(s@).len() == s@.len());
        return false;
    }
    let mut i: usize = 0;
    while i < n
        invariant
            n == s@.len() && n == t@.len(),
            i <= n,
            forall|j: int| 0 <= j < i ==> lower_spec(s@)[j] == t@[j],
        decreases n - i,
    {
        let cs = lower_char(s.get_char(i));
        let ct = t.get_char(i);
        if cs != ct {
            assert(lower_spec(s@)[i as int] != t@[i as int]);
            return false;
        }
        i += 1;
    }
    assert(lower_spec(s@) =~= t@);
    true
}

/// The canonical (already lowercase) alias table: which ecosystem a
/// lowercased registry name denotes, if any.
pub open spec fn package_type_of_name(s: Seq<char>) -> Option<PackageType> {
    if s == "npm"@ {
        Some(PackageType::Npm)
    } else if s == "python"@ || s == "pypi"@ {
        Some(PackageType::PyPi)
    } else if s == "maven"@ || s == "maven-central"@ {
        Some(PackageType::Maven)
    } else if s == "ruby"@ || s == "rubygems"@ || s == "gem"@ {
        Some(PackageType::RubyGems)
    } else if s == "nuget"@ || s == "dotnet"@ {
        Some(PackageType::Nuget)
    } else if s == "cargo"@ {
        Some(PackageType::Cargo)
    } else if s == "golang"@ {
        Some(PackageType::Golang)
    } else {
        None
    }
}

/// Case-insensitive parse of a free-text ecosystem name against the full
/// alias table. Unknown input is a typed failure, never a default.
pub fn parse_package_type(input: &str) -> (r: Result<PackageType, UnknownEcosystem>)
    ensures
        match r {
            Ok(t) => package_type_of_name(lower_spec(input@)) == Some(t),
            Err(e) => package_type_of_name(lower_spec(input@)) is None && e.input@ == input@,
        },
{
    if lower_eq(input, "npm") {
        Ok(PackageType::Npm)
    } else if lower_eq(input, "python") || lower_eq(input, "pypi") {
        Ok(PackageType::PyPi)
    } else if lower_eq(input, "maven") || lower_eq(input, "maven-central") {
        Ok(PackageType::Maven)
    } else if lower_eq(input, "ruby") || lower_eq(input, "rubygems") || lower_eq(input, "gem") {
        Ok(PackageType::RubyGems)
    } else if lower_eq(input, "nuget") || lower_eq(input, "dotnet") {
        Ok(PackageType::Nuget)
    } else if lower_eq(input, "cargo") {
        Ok(PackageType::Cargo)
    } else if lower_eq(input, "golang") {
        Ok(PackageType::Golang)
    } else {
        Err(UnknownEcosystem { input: String::from_str(input) })
    }
}

impl PackageType {
    pub open spec fn name_spec(self) -> Seq<char> {
        match self {
            PackageType::Npm => "npm"@,
            PackageType::PyPi => "pypi"@,
            PackageType::Maven => "maven"@,
            PackageType::RubyGems => "rubygems"@,
            PackageType::Nuget => "nuget"@,
            PackageType::Cargo => "cargo"@,
            PackageType::Golang => "golang"@,
        }
    }

    /// Canonical display form: the lowercase ecosystem name.
    pub fn name(self) -> (s: &'static str)
        ensures
            s@ == self.name_spec(),
    {
        match self {
            PackageType::Npm => "npm",
            PackageType::PyPi => "pypi",
            PackageType::Maven => "maven",
            PackageType::RubyGems => "rubygems",
            PackageType::Nuget => "nuget",
            PackageType::Cargo => "cargo",
            PackageType::Golang => "golang",
        }
    }

    /// The main language of the ecosystem.
    pub fn language(&self) -> (s: &'static str)
        ensures
            s@ == self.language_spec(),
    {
        match self {
            PackageType::Npm => "Javascript",
            PackageType::RubyGems => "Ruby",
            PackageType::PyPi => "Python",
            PackageType::Maven => "Java",
            PackageType::Nuget => ".NET",
            PackageType::Cargo => "Rust",
            PackageType::Golang => "Golang",
        }
    }

    pub open spec fn language_spec(self) -> Seq<char> {
        match self {
            PackageType::Npm => "Javascript"@,
            PackageType::RubyGems => "Ruby"@,
            PackageType::PyPi => "Python"@,
            PackageType::Maven => "Java"@,
            PackageType::Nuget => ".NET"@,
            PackageType::Cargo => "Rust"@,
            PackageType::Golang => "Golang"@,
        }
    }
}

/// What a wire value denotes as an ecosystem: exactly the canonical
/// lowercase name of one of the supported registries.
pub open spec fn dec_ecosystem(v: JVal) -> Option<PackageType> {
    match v {
        JVal::Str(s) => if s == "npm"@ {
            Some(PackageType::Npm)
        } else if s == "pypi"@ {
            Some(PackageType::PyPi)
        } else if s == "maven"@ {
            Some(PackageType::Maven)
        } else if s == "rubygems"@ {
            Some(PackageType::RubyGems)
        } else if s == "nuget"@ {
            Some(PackageType::Nuget)
        } else if s == "cargo"@ {
            Some(PackageType::Cargo)
        } else if s == "golang"@ {
            Some(PackageType::Golang)
        } else {
            None
        },
        _ => None,
    }
}

pub fn decode_ecosystem(v: &JsonValue) -> (r: Option<PackageType>)
    ensures
        r == dec_ecosystem(v.jv()),
{
    match v {
        JsonValue::Str(s) => if string_is(s, "npm") {
            Some(PackageType::Npm)
        } else if string_is(s, "pypi") {
            Some(PackageType::PyPi)
        } else if string_is(s, "maven") {
            Some(PackageType::Maven)
        } else if string_is(s, "rubygems") {
            Some(PackageType::RubyGems)
        } else if string_is(s, "nuget") {
            Some(PackageType::Nuget)
        } else if string_is(s, "cargo") {
            Some(PackageType::Cargo)
        } else if string_is(s, "golang") {
            Some(PackageType::Golang)
        } else {
            None
        },
        _ => None,
    }
}

/// An ecosystem always decodes back from its canonical wire name.
#[verifier::rlimit(50)]
pub proof fn lemma_ecosystem_round_trip(t: PackageType)
    ensures
        dec_ecosystem(JVal::Str(t.name_spec())) == Some(t),
{
    reveal_strlit("npm");
    reveal_strlit("pypi");
    reveal_strlit("maven");
    reveal_strlit("rubygems");
    reveal_strlit("nuget");
    reveal_strlit("cargo");
    reveal_strlit("golang");
    assert("npm"@.len() == 3);
    assert("pypi"@.len() == 4);
    assert("maven"@.len() == 5);
    assert("rubygems"@.len() == 8);
    assert("nuget"@.len() == 5);
    assert("cargo"@.len() == 5);
    assert("golang"@.len() == 6);
    assert("maven"@[0] == 'm' && "nuget"@[0] == 'n' && "cargo"@[0] == 'c');
    match t {
        PackageType::Npm => assert(dec_ecosystem(JVal::Str(t.name_spec())) == Some(t)),
        PackageType::PyPi => assert(dec_ecosystem(JVal::Str(t.name_spec())) == Some(t)),
        PackageType::Maven => assert(dec_ecosystem(JVal::Str(t.name_spec())) == Some(t)),
        PackageType::RubyGems => assert(dec_ecosystem(JVal::Str(t.name_spec())) == Some(t)),
        PackageType::Nuget => assert(dec_ecosystem(JVal::Str(t.name_spec())) == Some(t)),
        PackageType::Cargo => assert(dec_ecosystem(JVal::Str(t.name_spec())) == Some(t)),
        PackageType::Golang => assert(dec_ecosystem(JVal::Str(t.name_spec())) == Some(t)),
    }
}

pub fn encode_ecosystem(t: PackageType) -> (v: JsonValue)
    ensures
        v.jv() == JVal::Str(t.name_spec()),
        dec_ecosystem(v.jv()) == Some(t),
{
    proof {
        lemma_ecosystem_round_trip(t);
    }
    JsonValue::Str(String::from_str(t.name()))
}

/// The canonical name of every ecosystem parses back to that ecosystem,
/// case-insensitively.
pub proof fn lemma_name_parses_back(t: PackageType)
    ensures
        package_type_of_name(lower_spec(t.name_spec())) == Some(t),
{
    reveal_strlit("npm");
    reveal_strlit("pypi");
    reveal_strlit("python");
    reveal_strlit("maven");
    reveal_strlit("maven-central");
    reveal_strlit("ruby");
    reveal_strlit("rubygems");
    reveal_strlit("gem");
    reveal_strlit("nuget");
    reveal_strlit("dotnet");
    reveal_strlit("cargo");
    reveal_strlit("golang");
    assert(lower_spec(t.name_spec()) =~= t.name_spec());
    // Same-length names are told apart by their first characters.
    assert("nuget"@[0] == 'n' && "maven"@[0] == 'm' && "cargo"@[0] == 'c');
    assert("python"@[0] == 'p' && "dotnet"@[0] == 'd' && "golang"@[0] == 'g');
}

/// Package identity with a free-text, not-yet-validated registry string.
#[derive(PartialEq, Eq, Clone, Debug, Hash)]
pub struct PackageSpecifier {
    pub registry: String,
    pub name: String,
    pub version: String,
}

/// Structured package identity with a typed ecosystem.
#[derive(PartialEq, Eq, Clone, Debug, Hash)]
pub struct PackageDescriptor {
    pub name: String,
    pub version: String,
    pub package_type: PackageType,
}

pub ghost struct PackageSpecifierV {
    pub registry: Seq<char>,
    pub name: Seq<char>,
    pub version: Seq<char>,
}

pub ghost struct PackageDescriptorV {
    pub name: Seq<char>,
    pub version: Seq<char>,
    pub package_type: PackageType,
}

impl PackageSpecifier {
    /// Wire-visible content of the specifier.
    pub open spec fn model(self) -> PackageSpecifierV {
        (PackageSpecifierV { registry: self.registry@, name: self.name@, version: self.version@ })
    }
}

impl PackageDescriptor {
    /// Wire-visible content of the descriptor.
    pub open spec fn model(self) -> PackageDescriptorV {
        (PackageDescriptorV {
            name: self.name@,
            version: self.version@,
            package_type: self.package_type,
        })
    }
}

/// Total, infallible: the registry string is the canonical display form of
/// the ecosystem.
pub fn specifier_from_descriptor(d: &PackageDescriptor) -> (s: PackageSpecifier)
    ensures
        s.registry@ == d.package_type.name_spec(),
        s.name@ == d.name@,
        s.version@ == d.version@,
{
    PackageSpecifier {
        registry: String::from_str(d.package_type.name()),
        name: d.name.clone(),
        version: d.version.clone(),
    }
}

/// Parses the specifier's registry string; a registry matching no known
/// alias is a typed error naming that string, never a default ecosystem.
pub fn descriptor_from_specifier(s: &PackageSpecifier) -> (r: Result<
    PackageDescriptor,
    UnknownEcosystem,
>)
    ensures
        match r {
            Ok(d) => package_type_of_name(lower_spec(s.registry@)) == Some(d.package_type)
                && d.name@ == s.name@ && d.version@ == s.version@,
            Err(e) => package_type_of_name(lower_spec(s.registry@)) is None && e.input@
                == s.registry@,
        },
{
    let reg: &str = &s.registry;
    match parse_package_type(reg) {
        Ok(t) => Ok(
            PackageDescriptor { name: s.name.clone(), version: s.version.clone(), package_type: t },
        ),
        Err(e) => Err(e),
    }
}

/// A descriptor turned into a specifier and back comes out unchanged:
/// the canonical registry name always parses, to the same ecosystem.
pub proof fn lemma_descriptor_specifier_round_trip(t: PackageType)
    ensures
        package_type_of_name(lower_spec(t.name_spec())) == Some(t),
{
    lemma_name_parses_back(t);
}

impl UnknownEcosystem {
    /// Human-readable description, naming the offending string verbatim.
    pub fn message(&self) -> (m: String)
        ensures
            m@ == "Failed to convert registry "@ + self.input@ + " to package type"@,
    {
        let mut m = String::from_str("Failed to convert registry ");
        let inp: &str = &self.input;
        m.append(inp);
        m.append(" to package type");
        m
    }
}

/// A parsed package identity and the optional path to the lockfile used to
/// resolve its transitive dependencies.
#[derive(PartialEq, Eq, Clone, Debug, Hash)]
pub struct PackageDescriptorAndLockfile {
    pub package_descriptor: PackageDescriptor,
    pub lockfile: Option<String>,
}

/// A free-text package identity and the optional path to its lockfile.
#[derive(PartialEq, Eq, Clone, Debug, Hash)]
pub struct PackageSpecifierAndLockfile {
    pub package_specifier: PackageSpecifier,
    pub lockfile: Option<String>,
}

/// A package-URL identity and the optional path to its lockfile.
#[derive(PartialEq, Eq, Clone, Debug, Hash)]
pub struct PackageUrlAndLockfile {
    pub purl: String,
    pub lockfile: Option<String>,
}

pub ghost struct PackageDescriptorAndLockfileV {
    pub package_descriptor: PackageDescriptorV,
    pub lockfile: Option<Seq<char>>,
}

impl PackageDescriptorAndLockfile {
    pub open spec fn model(self) -> PackageDescriptorAndLockfileV {
        (PackageDescriptorAndLockfileV {
            package_descriptor: self.package_descriptor.model(),
            lockfile: match self.lockfile {
                Some(l) => Some(l@),
                None => None,
            },
        })
    }

    /// Pairs a bare descriptor with an absent lockfile.
    pub fn from_descriptor(d: &PackageDescriptor) -> (r: Self)
        ensures
            r.package_descriptor == *d,
            r.lockfile is None,
    {
        PackageDescriptorAndLockfile {
            package_descriptor: PackageDescriptor {
                name: d.name.clone(),
                version: d.version.clone(),
                package_type: d.package_type,
            },
            lockfile: None,
        }
    }
}

impl PackageSpecifierAndLockfile {
    /// Pairs a bare specifier with an absent lockfile.
    pub fn from_specifier(s: &PackageSpecifier) -> (r: Self)
        ensures
            r.package_specifier == *s,
            r.lockfile is None,
    {
        PackageSpecifierAndLockfile {
            package_specifier: PackageSpecifier {
                registry: s.registry.clone(),
                name: s.name.clone(),
                version: s.version.clone(),
            },
            lockfile: None,
        }
    }
}

impl PackageUrlAndLockfile {
    /// Pairs a bare package-URL with an absent lockfile.
    pub fn from_purl(purl: String) -> (r: Self)
        ensures
            r.purl == purl,
            r.lockfile is None,
    {
        PackageUrlAndLockfile { purl, lockfile: None }
    }
}

/// What a wire object denotes as a specifier: a required registry (under
/// its canonical key or the legacy key "type"), name and version.
pub open spec fn dec_specifier(v: JVal) -> Option<PackageSpecifierV> {
    match v {
        JVal::Obj(o) => {
            let reg = if jget(o, "registry"@) is Some {
                jget(o, "registry"@)
            } else {
                jget(o, "type"@)
            };
            match (reg, jget(o, "name"@), jget(o, "version"@)) {
                (
                    Some(JVal::Str(r)),
                    Some(JVal::Str(n)),
                    Some(JVal::Str(ver)),
                ) => Some(PackageSpecifierV { registry: r, name: n, version: ver }),
                _ => None,
            }
        },
        _ => None,
    }
}

pub fn decode_specifier(v: &JsonValue) -> (r: Option<PackageSpecifier>)
    ensures
        match r {
            Some(x) => dec_specifier(v.jv()) == Some(x.model()),
            None => dec_specifier(v.jv()) is None,
        },
{
    let o = match v {
        JsonValue::Obj(o) => o,
        _ => { return None; },
    };
    let reg = match obj_get(o, "registry") {
        Some(JsonValue::Str(s)) => s.clone(),
        Some(_) => { return None; },
        None => match obj_get(o, "type") {
            Some(JsonValue::Str(s)) => s.clone(),
            _ => { return None; },
        },
    };
    let name = match get_str(o, "name") {
        Some(s) => s,
        None => { return None; },
    };
    let version = match get_str(o, "version") {
        Some(s) => s,
        None => { return None; },
    };
    Some(PackageSpecifier { registry: reg, name, version })
}

pub fn encode_specifier(x: &PackageSpecifier) -> (v: JsonValue)
    ensures
        dec_specifier(v.jv()) == Some(x.model()),
{
    let mut o: Vec<(String, JsonValue)> = Vec::new();
    o.push((String::from_str("registry"), JsonValue::Str(x.registry.clone())));
    o.push((String::from_str("name"), JsonValue::Str(x.name.clone())));
    o.push((String::from_str("version"), JsonValue::Str(x.version.clone())));
    proof {
        reveal_strlit("registry");
        reveal_strlit("name");
        reveal_strlit("version");
        reveal_strlit("type");
        assert("registry"@.len() == 8);
        assert("name"@.len() == 4);
        assert("version"@.len() == 7);
        assert("type"@.len() == 4);
        assert("type"@[0] == 't' && "name"@[0] == 'n');
        assert(jv_pairs(o@).len() == 3);
        assert(jget(jv_pairs(o@), "registry"@) == Some(JVal::Str(x.registry@)));
        assert(jget(jv_pairs(o@), "name"@) == Some(JVal::Str(x.name@)));
        assert(jget(jv_pairs(o@), "version"@) == Some(JVal::Str(x.version@)));
    }
    JsonValue::Obj(o)
}

proof fn id_key_facts()
    ensures
        "registry"@.len() == 8,
        "name"@.len() == 4,
        "version"@.len() == 7,
        "type"@.len() == 4,
        "type"@ != "name"@,
{
    reveal_strlit("registry");
    reveal_strlit("name");
    reveal_strlit("version");
    reveal_strlit("type");
    assert("type"@[0] == 't' && "name"@[0] == 'n');
}

/// A payload carrying the registry under the legacy key "type" decodes to
/// the same specifier as one carrying it under "registry".
pub proof fn lemma_specifier_registry_alias(o: Seq<(Seq<char>, JVal)>, v: JVal)
    requires
        jget(o, "registry"@) is None,
        jget(o, "type"@) is None,
    ensures
        dec_specifier(JVal::Obj(o.push(("type"@, v)))) == dec_specifier(
            JVal::Obj(o.push(("registry"@, v))),
        ),
{
    id_key_facts();
    broadcast use crate::json::lemma_jget_push;

}

/// What a wire object denotes as a descriptor: name, version and a typed
/// ecosystem under the canonical key "type" or the legacy key "registry".
pub open spec fn dec_descriptor(v: JVal) -> Option<PackageDescriptorV> {
    match v {
        JVal::Obj(o) => {
            let ty = if jget(o, "type"@) is Some {
                jget(o, "type"@)
            } else {
                jget(o, "registry"@)
            };
            match (ty, jget(o, "name"@), jget(o, "version"@)) {
                (Some(t), Some(JVal::Str(n)), Some(JVal::Str(ver))) => match dec_ecosystem(t) {
                    Some(e) => Some(
                        (PackageDescriptorV { name: n, version: ver, package_type: e }),
                    ),
                    None => None,
                },
                _ => None,
            }
        },
        _ => None,
    }
}

/// A payload carrying the ecosystem under the legacy key "registry"
/// decodes to the same descriptor as one carrying it under "type".
pub proof fn lemma_descriptor_type_alias(o: Seq<(Seq<char>, JVal)>, v: JVal)
    requires
        jget(o, "registry"@) is None,
        jget(o, "type"@) is None,
    ensures
        dec_descriptor(JVal::Obj(o.push(("registry"@, v)))) == dec_descriptor(
            JVal::Obj(o.push(("type"@, v))),
        ),
{
    id_key_facts();
    broadcast use crate::json::lemma_jget_push;

}

pub fn decode_descriptor(v: &JsonValue) -> (r: Option<PackageDescriptor>)
    ensures
        match r {
            Some(x) => dec_descriptor(v.jv()) == Some(x.model()),
            None => dec_descriptor(v.jv()) is None,
        },
{
    let o = match v {
        JsonValue::Obj(o) => o,
        _ => { return None; },
    };
    let tyv = match obj_get(o, "type") {
        Some(t) => t,
        None => match obj_get(o, "registry") {
            Some(t) => t,
            None => { return None; },
        },
    };
    let ty = match decode_ecosystem(tyv) {
        Some(e) => e,
        None => { return None; },
    };
    let name = match get_str(o, "name") {
        Some(s) => s,
        None => { return None; },
    };
    let version = match get_str(o, "version") {
        Some(s) => s,
        None => { return None; },
    };
    Some(PackageDescriptor { name, version, package_type: ty })
}

pub fn encode_descriptor(x: &PackageDescriptor) -> (v: JsonValue)
    ensures
        dec_descriptor(v.jv()) == Some(x.model()),
{
    let mut o: Vec<(String, JsonValue)> = Vec::new();
    o.push((String::from_str("name"), JsonValue::Str(x.name.clone())));
    o.push((String::from_str("version"), JsonValue::Str(x.version.clone())));
    o.push((String::from_str("type"), encode_ecosystem(x.package_type)));
    proof {
        reveal_strlit("registry");
        reveal_strlit("name");
        reveal_strlit("version");
        reveal_strlit("type");
        assert("registry"@.len() == 8);
        assert("name"@.len() == 4);
        assert("version"@.len() == 7);
        assert("type"@.len() == 4);
        assert("type"@[0] == 't' && "name"@[0] == 'n');
        assert(jget(jv_pairs(o@), "name"@) == Some(JVal::Str(x.name@)));
        assert(jget(jv_pairs(o@), "version"@) == Some(JVal::Str(x.version@)));
        assert(jget(jv_pairs(o@), "type"@) == Some(JVal::Str(x.package_type.name_spec())));
        assert(jget(jv_pairs(o@), "registry"@) is None);
    }
    JsonValue::Obj(o)
}

/// What a wire object denotes as a descriptor plus lockfile: the
/// descriptor's own fields flattened at the top level, and an optional
/// lockfile path that may be absent entirely.
pub open spec fn dec_descriptor_lockfile(v: JVal) -> Option<PackageDescriptorAndLockfileV> {
    match dec_descriptor(v) {
        Some(d) => match v {
            JVal::Obj(o) => match dec_opt_str(o, "lockfile"@) {
                Some(l) => Some(
                    (PackageDescriptorAndLockfileV { package_descriptor: d, lockfile: l }),
                ),
                None => None,
            },
            _ => None,
        },
        None => None,
    }
}

pub fn decode_descriptor_lockfile(v: &JsonValue) -> (r: Option<PackageDescriptorAndLockfile>)
    ensures
        match r {
            Some(x) => dec_descriptor_lockfile(v.jv()) == Some(x.model()),
            None => dec_descriptor_lockfile(v.jv()) is None,
        },
{
    let d = match decode_descriptor(v) {
        Some(d) => d,
        None => { return None; },
    };
    let o = match v {
        JsonValue::Obj(o) => o,
        _ => { return None; },
    };
    let lockfile = match get_opt_str(o, "lockfile") {
        Some(l) => l,
        None => { return None; },
    };
    Some(PackageDescriptorAndLockfile { package_descriptor: d, lockfile })
}

/// Encodes the descriptor fields at the top level; an absent lockfile is
/// omitted from the object entirely, not bound to null.
pub fn encode_descriptor_lockfile(x: &PackageDescriptorAndLockfile) -> (v: JsonValue)
    ensures
        dec_descriptor_lockfile(v.jv()) == Some(x.model()),
        x.lockfile is None ==> jget(v.jv()->Obj_0, "lockfile"@) is None,
{
    let mut o: Vec<(String, JsonValue)> = Vec::new();
    o.push((String::from_str("name"), JsonValue::Str(x.package_descriptor.name.clone())));
    o.push((String::from_str("version"), JsonValue::Str(x.package_descriptor.version.clone())));
    o.push((String::from_str("type"), encode_ecosystem(x.package_descriptor.package_type)));
    match &x.lockfile {
        Some(l) => {
            o.push((String::from_str("lockfile"), JsonValue::Str(l.clone())));
        },
        None => {},
    }
    proof {
        reveal_strlit("registry");
        reveal_strlit("name");
        reveal_strlit("version");
        reveal_strlit("type");
        reveal_strlit("lockfile");
        assert("registry"@.len() == 8);
        assert("name"@.len() == 4);
        assert("version"@.len() == 7);
        assert("type"@.len() == 4);
        assert("lockfile"@.len() == 8);
        assert("type"@[0] == 't' && "name"@[0] == 'n');
        assert("registry"@[0] == 'r' && "lockfile"@[0] == 'l');
        assert(jget(jv_pairs(o@), "name"@) == Some(JVal::Str(x.package_descriptor.name@)));
        assert(jget(jv_pairs(o@), "version"@) == Some(JVal::Str(x.package_descriptor.version@)));
        assert(jget(jv_pairs(o@), "type"@) == Some(
            JVal::Str(x.package_descriptor.package_type.name_spec()),
        ));
        assert(jget(jv_pairs(o@), "registry"@) is None);
        if x.lockfile is Some {
            assert(jget(jv_pairs(o@), "lockfile"@) == Some(JVal::Str(x.lockfile->0@)));
        } else {
            assert(jget(jv_pairs(o@), "lockfile"@) is None);
        }
        assert(dec_descriptor(JVal::Obj(jv_pairs(o@))) == Some(x.package_descriptor.model()));
    }
    JsonValue::Obj(o)
}

pub ghost struct PackageSpecifierAndLockfileV {
    pub package_specifier: PackageSpecifierV,
    pub lockfile: Option<Seq<char>>,
}

impl PackageSpecifierAndLockfile {
    pub open spec fn model(self) -> PackageSpecifierAndLockfileV {
        (PackageSpecifierAndLockfileV {
            package_specifier: self.package_specifier.model(),
            lockfile: match self.lockfile {
                Some(l) => Some(l@),
                None => None,
            },
        })
    }
}

/// What a wire object denotes as a specifier plus lockfile: the specifier
/// nested under its own key, the lockfile nullable.
pub open spec fn dec_specifier_lockfile(v: JVal) -> Option<PackageSpecifierAndLockfileV> {
    match v {
        JVal::Obj(o) => match (jget(o, "package_specifier"@), dec_opt_str(o, "lockfile"@)) {
            (Some(sv), Some(lockfile)) => match dec_specifier(sv) {
                Some(package_specifier) => Some(
                    (PackageSpecifierAndLockfileV { package_specifier, lockfile }),
                ),
                None => None,
            },
            _ => None,
        },
        _ => None,
    }
}

pub fn decode_specifier_lockfile(v: &JsonValue) -> (r: Option<PackageSpecifierAndLockfile>)
    ensures
        match r {
            Some(x) => dec_specifier_lockfile(v.jv()) == Some(x.model()),
            None => dec_specifier_lockfile(v.jv()) is None,
        },
{
    let o = match v {
        JsonValue::Obj(o) => o,
        _ => { return None; },
    };
    let sv = match obj_get(o, "package_specifier") {
        Some(x) => x,
        None => { return None; },
    };
    let package_specifier = match decode_specifier(sv) {
        Some(x) => x,
        None => { return None; },
    };
    let lockfile = match get_opt_str(o, "lockfile") {
        Some(x) => x,
        None => { return None; },
    };
    Some(PackageSpecifierAndLockfile { package_specifier, lockfile })
}

pub fn encode_specifier_lockfile(x: &PackageSpecifierAndLockfile) -> (v: JsonValue)
    ensures
        dec_specifier_lockfile(v.jv()) == Some(x.model()),
{
    let mut o: Vec<(String, JsonValue)> = Vec::new();
    o.push((String::from_str("package_specifier"), encode_specifier(&x.package_specifier)));
    let lf = match &x.lockfile {
        Some(l) => JsonValue::Str(l.clone()),
        None => JsonValue::Null,
    };
    o.push((String::from_str("lockfile"), lf));
    proof {
        reveal_strlit("package_specifier");
        reveal_strlit("lockfile");
        assert("package_specifier"@.len() == 17 && "lockfile"@.len() == 8);
        assert(dec_opt_str(jv_pairs(o@), "lockfile"@) == Some(
            match x.lockfile {
                Some(l) => Some(l@),
                None => None,
            },
        ));
    }
    JsonValue::Obj(o)
}

pub ghost struct PackageUrlAndLockfileV {
    pub purl: Seq<char>,
    pub lockfile: Option<Seq<char>>,
}

impl PackageUrlAndLockfile {
    pub open spec fn model(self) -> PackageUrlAndLockfileV {
        (PackageUrlAndLockfileV {
            purl: self.purl@,
            lockfile: match self.lockfile {
                Some(l) => Some(l@),
                None => None,
            },
        })
    }
}

/// What a wire object denotes as a package-URL plus lockfile.
pub open spec fn dec_url_lockfile(v: JVal) -> Option<PackageUrlAndLockfileV> {
    match v {
        JVal::Obj(o) => match (jget(o, "purl"@), dec_opt_str(o, "lockfile"@)) {
            (Some(JVal::Str(purl)), Some(lockfile)) => Some(
                (PackageUrlAndLockfileV { purl, lockfile }),
            ),
            _ => None,
        },
        _ => None,
    }
}

pub fn decode_url_lockfile(v: &JsonValue) -> (r: Option<PackageUrlAndLockfile>)
    ensures
        match r {
            Some(x) => dec_url_lockfile(v.jv()) == Some(x.model()),
            None => dec_url_lockfile(v.jv()) is None,
        },
{
    let o = match v {
        JsonValue::Obj(o) => o,
        _ => { return None; },
    };
    let purl = match get_str(o, "purl") {
        Some(x) => x,
        None => { return None; },
    };
    let lockfile = match get_opt_str(o, "lockfile") {
        Some(x) => x,
        None => { return None; },
    };
    Some(PackageUrlAndLockfile { purl, lockfile })
}

pub fn encode_url_lockfile(x: &PackageUrlAndLockfile) -> (v: JsonValue)
    ensures
        dec_url_lockfile(v.jv()) == Some(x.model()),
{
    let mut o: Vec<(String, JsonValue)> = Vec::new();
    o.push((String::from_str("purl"), JsonValue::Str(x.purl.clone())));
    let lf = match &x.lockfile {
        Some(l) => JsonValue::Str(l.clone()),
        None => JsonValue::Null,
    };
    o.push((String::from_str("lockfile"), lf));
    proof {
        reveal_strlit("purl");
        reveal_strlit("lockfile");
        assert("purl"@.len() == 4 && "lockfile"@.len() == 8);
        assert(jget(jv_pairs(o@), "purl"@) == Some(JVal::Str(x.purl@)));
        assert(dec_opt_str(jv_pairs(o@), "lockfile"@) == Some(
            match x.lockfile {
                Some(l) => Some(l@),
                None => None,
            },
        ));
    }
    JsonValue::Obj(o)
}

} // verus!
