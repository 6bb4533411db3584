//! Message keys for the user-visible strings.
//!
//! Translation is the rendering shell's business: the shell owns the
//! locale state and the translation bundles, neither of which can live
//! in verified code. The core therefore reports through stable message
//! keys, and the contract here is the fallback every lookup must obey:
//! a key with no translation is shown as itself. The shell substitutes a
//! localized string before rendering where it has one.

use vstd::prelude::*;

verus! {

/// The message shown for `key` when no translation is available: the key
/// itself, unchanged.
pub fn get_message(key: &str) -> (r: String)
    ensures
        r@ == key@,
{
    String::from_str(key)
}

/// Shorthand for [`get_message`].
pub fn t(key: &str) -> (r: String)
    ensures
        r@ == key@,
{
    get_message(key)
}

} // verus!
