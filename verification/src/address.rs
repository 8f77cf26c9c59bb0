//! Address normalization: stripping a scheme for display and prefixing a
//! default scheme for probing.

use vstd::prelude::*;

use crate::text::starts_with;
use crate::text::str_starts_with;
use crate::text::strip_all;
use crate::text::strip_occurrences;

verus! {

/// An address as shown in the result table: the `http://` or `https://`
/// scheme text removed wherever it occurs, a bare address unchanged.
pub open spec fn normalized_address(addr: Seq<char>) -> Seq<char> {
    if starts_with(addr, "http://"@) {
        strip_occurrences(addr, "http://"@)
    } else if starts_with(addr, "https://"@) {
        strip_occurrences(addr, "https://"@)
    } else {
        addr
    }
}

/// An address as handed to the HTTP probe: unchanged when it already names a
/// scheme, prefixed with `http://` otherwise.
pub open spec fn with_protocol(addr: Seq<char>) -> Seq<char> {
    if starts_with(addr, "http://"@) || starts_with(addr, "https://"@) {
        addr
    } else {
        "http://"@ + addr
    }
}

/// Strips the URL scheme from an address for display in the result table.
pub fn format_server_print(address: &str) -> (r: String)
    ensures
        r@ == normalized_address(address@),
{
    if str_starts_with(address, "http://") {
        proof {
            reveal_strlit("http://");
        }
        strip_all(address, "http://")
    } else if str_starts_with(address, "https://") {
        proof {
            reveal_strlit("https://");
        }
        strip_all(address, "https://")
    } else {
        address.to_owned()
    }
}

/// Prefixes the default `http://` scheme when the address names none, so the
/// HTTP probe always receives a full URL.
pub fn ensure_protocol(address: &str) -> (r: String)
    ensures
        r@ == with_protocol(address@),
{
    if str_starts_with(address, "http://") || str_starts_with(address, "https://") {
        address.to_owned()
    } else {
        String::from_str("http://").concat(address)
    }
}

} // verus!
