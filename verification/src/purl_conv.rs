use vstd::prelude::*;
use vstd::string::StringExecFns;
use crate::ids::{lower_spec, PackageType};

verus! {

broadcast use crate::json::lemma_jget_push, crate::json::lemma_jv_pairs_push;

/// Raised when the external package-URL vocabulary names an ecosystem this
/// model does not support.
#[derive(PartialEq, Eq, Structural, Copy, Clone, Debug)]
pub struct UnsupportedPackageType;

impl PackageType {
    /// The name each ecosystem bears in the standard purl package-type
    /// vocabulary; total in this direction.
    pub open spec fn purl_name_spec(self) -> Seq<char> {
        match self {
            PackageType::Npm => "npm"@,
            PackageType::PyPi => "pypi"@,
            PackageType::Maven => "maven"@,
            PackageType::RubyGems => "gem"@,
            PackageType::Nuget => "nuget"@,
            PackageType::Cargo => "cargo"@,
            PackageType::Golang => "golang"@,
        }
    }
}

/// Which ecosystem a purl package-type name denotes, if any; the name is
/// already canonical (lowercase).
pub open spec fn package_type_of_purl_name(s: Seq<char>) -> Option<PackageType> {
    if s == "npm"@ {
        Some(PackageType::Npm)
    } else if s == "pypi"@ {
        Some(PackageType::PyPi)
    } else if s == "maven"@ {
        Some(PackageType::Maven)
    } else if s == "gem"@ {
        Some(PackageType::RubyGems)
    } else if s == "nuget"@ {
        Some(PackageType::Nuget)
    } else if s == "cargo"@ {
        Some(PackageType::Cargo)
    } else if s == "golang"@ {
        Some(PackageType::Golang)
    } else {
        None
    }
}

/// Relies on purl::PackageType::from_str and purl::PackageType::name: the
/// crate's table maps exactly the names cargo, gem, golang, maven, npm,
/// nuget and pypi, case-insensitively, and name() returns the matched
/// lowercase key.
#[verifier::external_body]
fn purl_vocab_normalize(s: &str) -> (r: Option<String>)
    requires
        s.is_ascii(),
        s@ =~= lower_spec(s@),
    ensures
        match r {
            Some(t) => t@ == s@ && package_type_of_purl_name(s@) is Some,
            None => package_type_of_purl_name(s@) is None,
        },
{
    let t = <purl::PackageType as core::str::FromStr>::from_str(s).ok()?;
    Some(t.name().to_string())
}

/// Convert an ecosystem to its name in the standard purl package-type
/// vocabulary. Total: every ecosystem has a purl equivalent.
pub fn to_purl_type(t: PackageType) -> (r: String)
    ensures
        r@ == t.purl_name_spec(),
{
    let name = match t {
        PackageType::Npm => "npm",
        PackageType::PyPi => "pypi",
        PackageType::Maven => "maven",
        PackageType::RubyGems => "gem",
        PackageType::Nuget => "nuget",
        PackageType::Cargo => "cargo",
        PackageType::Golang => "golang",
    };
    String::from_str(name)
}

/// Convert a lowercase purl package-type name back to an ecosystem;
/// partial, since purl names ecosystems this model does not support.
/// Those yield a typed error, never a default. The purl crate itself is
/// asked whether the name is in its vocabulary.
pub fn from_purl_type(s: &str) -> (r: Result<PackageType, UnsupportedPackageType>)
    requires
        s.is_ascii(),
        s@ == lower_spec(s@),
    ensures
        match r {
            Ok(t) => package_type_of_purl_name(s@) == Some(t),
            Err(_) => package_type_of_purl_name(s@) is None,
        },
{
    match purl_vocab_normalize(s) {
        None => Err(UnsupportedPackageType),
        Some(name) => {
            if crate::json::string_is(&name, "npm") {
                Ok(PackageType::Npm)
            } else if crate::json::string_is(&name, "pypi") {
                Ok(PackageType::PyPi)
            } else if crate::json::string_is(&name, "maven") {
                Ok(PackageType::Maven)
            } else if crate::json::string_is(&name, "gem") {
                Ok(PackageType::RubyGems)
            } else if crate::json::string_is(&name, "nuget") {
                Ok(PackageType::Nuget)
            } else if crate::json::string_is(&name, "cargo") {
                Ok(PackageType::Cargo)
            } else {
                proof {
                    reveal_strlit("npm");
                    reveal_strlit("pypi");
                    reveal_strlit("maven");
                    reveal_strlit("gem");
                    reveal_strlit("nuget");
                    reveal_strlit("cargo");
                    reveal_strlit("golang");
                }
                Ok(PackageType::Golang)
            }
        },
    }
}

/// Converting an ecosystem to its purl name and back returns the original
/// ecosystem, and the purl name is already canonical.
pub proof fn lemma_purl_round_trip(t: PackageType)
    ensures
        package_type_of_purl_name(t.purl_name_spec()) == Some(t),
        t.purl_name_spec() == lower_spec(t.purl_name_spec()),
{
    reveal_strlit("npm");
    reveal_strlit("pypi");
    reveal_strlit("maven");
    reveal_strlit("gem");
    reveal_strlit("nuget");
    reveal_strlit("cargo");
    reveal_strlit("golang");
    assert("npm"@.len() == 3);
    assert("pypi"@.len() == 4);
    assert("maven"@.len() == 5);
    assert("gem"@.len() == 3);
    assert("nuget"@.len() == 5);
    assert("cargo"@.len() == 5);
    assert("golang"@.len() == 6);
    assert("npm"@[0] == 'n' && "gem"@[0] == 'g');
    assert("maven"@[0] == 'm' && "nuget"@[0] == 'n' && "cargo"@[0] == 'c');
    assert(lower_spec(t.purl_name_spec()) =~= t.purl_name_spec());
    match t {
        PackageType::Npm => assert(package_type_of_purl_name(t.purl_name_spec()) == Some(t)),
        PackageType::PyPi => assert(package_type_of_purl_name(t.purl_name_spec()) == Some(t)),
        PackageType::Maven => assert(package_type_of_purl_name(t.purl_name_spec()) == Some(t)),
        PackageType::RubyGems => assert(package_type_of_purl_name(t.purl_name_spec()) == Some(t)),
        PackageType::Nuget => assert(package_type_of_purl_name(t.purl_name_spec()) == Some(t)),
        PackageType::Cargo => assert(package_type_of_purl_name(t.purl_name_spec()) == Some(t)),
        PackageType::Golang => assert(package_type_of_purl_name(t.purl_name_spec()) == Some(t)),
    }
}

} // verus!
