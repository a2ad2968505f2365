//! What the service decides from its settings.

use vstd::prelude::*;

verus! {

/// How a connection to the database treats encryption.
#[derive(Clone, Copy, Debug, PartialEq, Eq, Structural)]
pub enum SslMode {
    /// Encrypt where the server offers it.
    Prefer,
    /// Refuse a connection that is not encrypted.
    Require,
}

/// Encryption is required where the settings ask for it and preferred where
/// they do not.
pub fn ssl_mode(require_ssl: bool) -> (mode: SslMode)
    ensures
        mode == if require_ssl {
            SslMode::Require
        } else {
            SslMode::Prefer
        },
{
    if require_ssl {
        SslMode::Require
    } else {
        SslMode::Prefer
    }
}

} // verus!
