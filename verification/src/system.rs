//! The value recorded under `db.system`.
//!
//! The injected statement records the scheme of the connection URL, but for
//! the scheme `postgres`, which it records as `postgresql`. This module
//! states that renaming and computes it.

use vstd::prelude::*;
use vstd::string::*;

verus! {

/// The name recorded under `db.system` for a connection URL with the scheme
/// `scheme`: `postgresql` for the scheme `postgres`, and the scheme itself
/// for every other.
pub open spec fn system_name_of(scheme: Seq<char>) -> Seq<char> {
    if scheme == "postgres"@ {
        "postgresql"@
    } else {
        scheme
    }
}

/// The name recorded under `db.system` for a connection URL with the scheme
/// `scheme`.
pub fn system_name(scheme: &str) -> (name: String)
    ensures
        name@ == system_name_of(scheme@),
{
    let name = String::from_str(scheme);
    if name == String::from_str("postgres") {
        String::from_str("postgresql")
    } else {
        name
    }
}

/// The scheme `postgres` is recorded as `postgresql`.
pub proof fn law_postgres_is_renamed()
    ensures
        system_name_of("postgres"@) == "postgresql"@,
{
}

/// Every scheme other than `postgres` is recorded as it is.
pub proof fn law_other_schemes_are_kept(scheme: Seq<char>)
    requires
        scheme != "postgres"@,
    ensures
        system_name_of(scheme) == scheme,
{
}

} // verus!
