//! Laws that relate several operations of the resolver.

use vstd::prelude::*;
use crate::environment::Environment;
use crate::errors::PluginError;
use crate::info::PluginInfoView;
use crate::kinds::PathSource;
use crate::plugins::spec_cleanup_post;

verus! {

/// Cleanup is idempotent: when a cleanup call succeeded, a second cleanup
/// of the same reference and metadata succeeds as well, and leaves the
/// environment exactly as the first left it.
pub proof fn lemma_cleanup_idempotent(
    source: PathSource,
    info: PluginInfoView,
    e0: Environment,
    e1: Environment,
    e2: Environment,
    r1: Result<(), PluginError>,
    r2: Result<(), PluginError>,
)
    requires
        spec_cleanup_post(source, info, e0, e1, r1),
        spec_cleanup_post(source, info, e1, e2, r2),
        r1 is Ok,
    ensures
        r2 is Ok,
        e2 == e1,
{
    match source.spec_kind() {
        None => {
            assert(r1 is Err);
        }
        Some(kind) => {
            assert(e1.cache_dir@ == e0.cache_dir@);
        }
    }
}

} // verus!
