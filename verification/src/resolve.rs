//! Address Resolver: decides the device address a load talks to. An
//! explicit address always wins; only when none is given is the stored
//! default consulted.

use vstd::prelude::*;

use crate::config::ReadOutcome;
use crate::config::read_default_spec;
use crate::config::get_default_address;
use crate::errors::DefaultAddressConfigError;

verus! {

/// The address a load uses: the explicit one unchanged when present,
/// otherwise whatever the configuration-file read means.
pub open spec fn resolved_address_spec(address: Option<String>, stored: ReadOutcome) -> Result<
    String,
    DefaultAddressConfigError,
> {
    match address {
        Some(a) => Ok(a),
        None => read_default_spec(stored),
    }
}

/// Gets the default address only if no explicit address is present. The
/// explicit address, when given, is returned unchanged, whatever the
/// configuration store holds.
pub fn maybe_get_address(address: Option<String>, stored: ReadOutcome) -> (r: Result<
    String,
    DefaultAddressConfigError,
>)
    ensures
        r == resolved_address_spec(address, stored),
{
    match address {
        Some(a) => Ok(a),
        None => get_default_address(stored),
    }
}

/// Law: an explicit address takes strict precedence -- it is returned
/// unchanged, and the outcome does not depend on the configuration store
/// in any way.
pub proof fn lemma_explicit_address_wins(a: String, s1: ReadOutcome, s2: ReadOutcome)
    ensures
        resolved_address_spec(Some(a), s1) == Ok::<String, DefaultAddressConfigError>(a),
        resolved_address_spec(Some(a), s1) == resolved_address_spec(Some(a), s2),
{
}

} // verus!
