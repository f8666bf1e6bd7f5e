//! Lookup in a configuration file. No file is consulted yet: the lookup is
//! the place where a file-backed source will stand.

use crate::token::{view_of, ConfigToken, ConfigTokenView};
use vstd::prelude::*;

verus! {

/// The token that the configuration holds for a host: nothing, for every
/// host.
pub open spec fn config_lookup(host: Seq<char>) -> Option<ConfigTokenView> {
    None
}

/// Looks a host's token up in the configuration. Finds nothing and reads
/// nothing.
pub fn token_from_config(host: &str) -> (found: Option<ConfigToken>)
    ensures
        view_of(found) == config_lookup(host@),
{
    None
}

} // verus!
