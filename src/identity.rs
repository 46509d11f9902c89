use vstd::prelude::*;

verus! {

/// What asking the host for the current package's identity came to, step by
/// step: the package, then its id, then the id's family name.
#[derive(Clone, Debug)]
pub enum IdentityQuery {
    /// The host has no notion of package identity.
    Unsupported,
    /// The process runs without a package (the query for it failed).
    NoPackage,
    /// The package was found but its id could not be read.
    NoPackageId,
    /// The id was found but its family name could not be read.
    NoFamilyName,
    /// The family name of the current package.
    FamilyName(String),
}

/// The identity of the package that the current process runs as.
#[derive(Clone, Debug)]
pub struct PackageIdentity {
    pub family_name: String,
}

/// Resolves the package identity from the outcome of the host query. Every
/// failed step, and a host without package identity, means "no identity":
/// never an error.
pub fn resolve_identity(query: IdentityQuery) -> (r: Option<PackageIdentity>)
    ensures
        match query {
            IdentityQuery::FamilyName(name) => r matches Some(p) && p.family_name@ == name@,
            _ => r is None,
        },
{
    match query {
        IdentityQuery::FamilyName(name) => Some(PackageIdentity { family_name: name }),
        _ => None,
    }
}

/// The text shown for an identity query: the family name when there is one,
/// otherwise what went wrong.
pub open spec fn identity_label_of(query: IdentityQuery) -> Seq<char> {
    match query {
        IdentityQuery::Unsupported => "Not running on Windows"@,
        IdentityQuery::NoPackage => "No package identity"@,
        IdentityQuery::NoPackageId => "Error retrieving Package ID"@,
        IdentityQuery::NoFamilyName => "Error retrieving Family Name"@,
        IdentityQuery::FamilyName(name) => name@,
    }
}

/// The text shown for an identity query, as `identity_label_of` gives it.
pub fn identity_label(query: &IdentityQuery) -> (r: String)
    ensures
        r@ == identity_label_of(*query),
{
    match query {
        IdentityQuery::Unsupported => String::from_str("Not running on Windows"),
        IdentityQuery::NoPackage => String::from_str("No package identity"),
        IdentityQuery::NoPackageId => String::from_str("Error retrieving Package ID"),
        IdentityQuery::NoFamilyName => String::from_str("Error retrieving Family Name"),
        IdentityQuery::FamilyName(name) => name.clone(),
    }
}

} // verus!
