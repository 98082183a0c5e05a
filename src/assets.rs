use vstd::prelude::*;

verus! {

/// The path `p` with its extension replaced by (or extended with) `ext`, as
/// `std::path::Path::with_extension` builds it.
pub uninterp spec fn with_extension_of(p: Seq<char>, ext: Seq<char>) -> Seq<char>;

/// Whether `ext` holds no path separator, which `Path::with_extension`
/// refuses with a panic.
pub open spec fn plain_extension(ext: Seq<char>) -> bool {
    forall|i: int| 0 <= i < ext.len() ==> #[trigger] ext[i] != '/' && ext[i] != '\\'
}

/// Relies on std::path::Path::with_extension: the file name of `p` gets the
/// extension `ext`; the result depends on the two strings alone. It panics on
/// an extension that holds a path separator.
#[verifier::external_body]
fn with_extension(p: &str, ext: &str) -> (r: String)
    requires
        plain_extension(ext@),
    ensures
        r@ == with_extension_of(p@, ext@),
{
    std::path::Path::new(p).with_extension(ext).to_string_lossy().into_owned()
}

/// The name of a file that belongs to the patcher instance named
/// `patcher_name` (the stem of its executable).
pub fn get_instance_asset_file_name(patcher_name: &str, extension: &str) -> (r: String)
    requires
        plain_extension(extension@),
    ensures
        r@ == with_extension_of(patcher_name@, extension@),
{
    with_extension(patcher_name, extension)
}

/// The cache file of the patcher instance.
pub fn get_cache_file_path(patcher_name: &str) -> (r: String)
    ensures
        r@ == with_extension_of(patcher_name@, "dat"@),
{
    proof {
        reveal_strlit("dat");
    }
    get_instance_asset_file_name(patcher_name, "dat")
}

/// The lock file of the patcher instance.
pub fn get_update_lock_file_path(patcher_name: &str) -> (r: String)
    ensures
        r@ == with_extension_of(patcher_name@, "lock"@),
{
    proof {
        reveal_strlit("lock");
    }
    get_instance_asset_file_name(patcher_name, "lock")
}

} // verus!
