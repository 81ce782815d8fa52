//! Where the wallet keeps its files, under the platform's directories.
use vstd::prelude::*;
use std::path::PathBuf;

verus! {

#[verifier::external_type_specification]
#[verifier::external_body]
pub struct ExPathBuf(PathBuf);

/// Relies on `dirs::data_local_dir`: the platform's local data directory,
/// where one is known. It depends on the environment, so nothing is stated.
#[verifier::external_body]
fn data_local_dir() -> (r: Option<PathBuf>) {
    dirs::data_local_dir()
}

/// Relies on `dirs::cache_dir`: the platform's cache directory, where one is
/// known. It depends on the environment, so nothing is stated.
#[verifier::external_body]
fn cache_dir() -> (r: Option<PathBuf>) {
    dirs::cache_dir()
}

/// Relies on `Path::join`: `rel` appended to `base`.
#[verifier::external_body]
fn join(base: &PathBuf, rel: &str) -> (r: PathBuf) {
    base.join(rel)
}

/// `rel` under `base`, where there is a base.
fn under(base: Option<PathBuf>, rel: &str) -> (r: Option<PathBuf>)
    ensures
        r is Some == base is Some,
{
    match base {
        Some(b) => Some(join(&b, rel)),
        None => None,
    }
}

/// The chat database, under the local data directory; `None` where the
/// platform has none.
pub fn get_chatdb_path() -> (r: Option<PathBuf>) {
    under(data_local_dir(), "darkfi/wallet/chatdb")
}

/// The marker whose absence means a first start, under the cache
/// directory; `None` where the platform has none.
pub fn get_first_time_filename() -> (r: Option<PathBuf>) {
    under(cache_dir(), "darkfi/wallet/first_time")
}

/// The log file, under the cache directory; `None` where the platform has none.
pub fn logfile_path() -> (r: Option<PathBuf>) {
    under(cache_dir(), "darkfi/darkfi.log")
}

} // verus!
