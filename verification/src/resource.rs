//! Structural identity of a loadable asset.
//!
//! A [`ResourceId`] names an asset by namespace and path; two ids with the
//! same namespace and path denote the same asset and share one cache entry.
//! The id also resolves deterministically to a location under a configured
//! asset root.

use vstd::prelude::*;

verus! {

use vstd::string::StringExecFns;

/// Immutable key identifying a loadable asset.
///
/// Equality is structural: ids compare by their namespace and path
/// characters, never by provenance. Ids are freely cloneable value types.
pub struct ResourceId {
    namespace: String,
    path: String,
}

impl View for ResourceId {
    type V = (Seq<char>, Seq<char>);

    closed spec fn view(&self) -> (Seq<char>, Seq<char>) {
        (self.namespace@, self.path@)
    }
}

impl ResourceId {
    /// Build an id from its namespace and path.
    pub fn new(namespace: String, path: String) -> (r: ResourceId)
        ensures
            r@ == (namespace@, path@),
    {
        ResourceId { namespace, path }
    }

    /// The namespace component.
    pub fn namespace(&self) -> (r: &str)
        ensures
            r@ == self@.0,
    {
        self.namespace.as_str()
    }

    /// The path component.
    pub fn path(&self) -> (r: &str)
        ensures
            r@ == self@.1,
    {
        self.path.as_str()
    }

    /// Structural equality: true exactly when namespace and path agree.
    pub fn matches(&self, other: &ResourceId) -> (r: bool)
        ensures
            r == (self@ == other@),
    {
        self.namespace == other.namespace && self.path == other.path
    }

    /// The location this id resolves to under `root`:
    /// `root`, `/`, the namespace, `/`, the path, joined in that order.
    pub fn resolve(&self, root: &str) -> (r: String)
        ensures
            r@ == root@ + seq!['/'] + self@.0 + seq!['/'] + self@.1,
    {
        let mut out = String::new().concat(root);
        out = out.concat("/");
        out = out.concat(self.namespace.as_str());
        out = out.concat("/");
        out = out.concat(self.path.as_str());
        proof {
            reveal_strlit("/");
            assert(out@ =~= root@ + seq!['/'] + self@.0 + seq!['/'] + self@.1);
        }
        out
    }
}

impl Clone for ResourceId {
    /// A clone is structurally equal to the original.
    fn clone(&self) -> (r: ResourceId)
        ensures
            r@ == self@,
    {
        ResourceId { namespace: self.namespace.clone(), path: self.path.clone() }
    }
}

} // verus!
