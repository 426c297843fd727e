//! The annotation keys that this controller owns.

use vstd::prelude::*;

verus! {

/// Every key of this controller begins with this prefix.
pub const ANNOTATION_PREFIX: &'static str = "dev.withlazers.operator.secret-sync-operator/";

/// Marks a secret or a namespace as taking part in propagation.
pub const ANNOTATION_ENABLED: &'static str = "dev.withlazers.operator.secret-sync-operator/enabled";

/// Set on a copy: the namespace of the secret it was copied from.
pub const ANNOTATION_CLONED_FROM: &'static str =
    "dev.withlazers.operator.secret-sync-operator/cloned_from_namespace";

/// Glob patterns, separated by spaces, of the namespaces that receive a copy.
pub const ANNOTATION_NAMESPACES: &'static str = "dev.withlazers.operator.secret-sync-operator/namespace";

/// Glob patterns, separated by spaces, of the namespaces that receive none.
pub const ANNOTATION_NAMESPACES_DENY: &'static str =
    "dev.withlazers.operator.secret-sync-operator/namespace_deny";

} // verus!
