//! Catalog store: decides when the cached catalog must be fetched and names
//! the remote resource it is fetched from.

use vstd::prelude::*;

verus! {

/// The fixed remote base URL that the catalog is downloaded from.
pub open spec fn spec_remote_base() -> Seq<char> {
    "https://www.onlinehashcrack.com/static/"@
}

/// The fixed name of the local catalog cache file, also the remote resource name.
pub open spec fn spec_catalog_file_name() -> Seq<char> {
    "hash-id-prototypes.json"@
}

/// The name of the local catalog cache file.
pub fn catalog_file_name() -> (r: String)
    ensures
        r@ == spec_catalog_file_name(),
{
    String::from_str("hash-id-prototypes.json")
}

/// The remote URL for a catalog file: the fixed base followed by the file's name.
pub fn remote_url(filename: &str) -> (r: String)
    ensures
        r@ == spec_remote_base() + filename@,
{
    String::from_str("https://www.onlinehashcrack.com/static/").concat(filename)
}

/// What the catalog store does before the catalog is read: use the local copy
/// when one exists, otherwise fetch it once from the remote endpoint.
#[derive(PartialEq, Eq, Structural, Debug, Clone, Copy)]
pub enum CacheAction {
    UseLocal,
    Fetch,
}

/// Decides whether the catalog must be fetched. A fetch happens exactly when
/// no cached copy exists; an existing copy is trusted indefinitely and is
/// never re-fetched.
pub fn plan_cache(cached: bool) -> (r: CacheAction)
    ensures
        r == CacheAction::Fetch <==> !cached,
        r == CacheAction::UseLocal <==> cached,
{
    if cached {
        CacheAction::UseLocal
    } else {
        CacheAction::Fetch
    }
}

} // verus!
