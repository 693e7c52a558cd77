//! Update orchestration for locally installed applications: version
//! normalisation, the compare policy that decides whether an update is due,
//! the per-application update cycle, and the decisions of self-update.

use vstd::prelude::*;

pub mod config;
pub mod cycle;
pub mod self_update;
pub mod text;
pub mod version;

pub use cycle::ScriptResult;
pub use text::{is_space, normalized, trimmed};

verus! {

/// Canonical form of a version as a script printed it: surrounding
/// whitespace removed, then one leading `v` dropped if present
/// (`"v1.2.3\n"` becomes `"1.2.3"`).
pub fn trim_version(version: &str) -> (r: &str)
    ensures
        r@ == normalized(version@),
{
    let t = text::trim(version);
    let n = t.unicode_len();
    if n > 0 && t.get_char(0) == 'v' {
        let r = t.substring_char(1, n);
        assert(r@ == t@.drop_first());
        r
    } else {
        t
    }
}

} // verus!
