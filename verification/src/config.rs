//! Process-wide configuration, read once at startup and immutable after:
//! an injected dependency of every operation that needs the bind address,
//! the storage location, the signing secret, the upload directory or the
//! public base URL.  The boundary layer fills it from the environment.

use vstd::prelude::*;

verus! {

#[derive(Clone, Debug)]
pub struct Config {
    pub bind: String,
    pub database_url: String,
    pub jwt_secret: String,
    pub upload_dir: String,
    pub site_base: String,
}

} // verus!
