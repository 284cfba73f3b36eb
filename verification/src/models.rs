use vstd::prelude::*;

verus! {

#[derive(Clone, Debug, PartialEq, Eq)]
/// Node topology: the labels that a node must not carry and those it must.
pub struct NodeTopology {
    /// Exclusive labels.
    pub exclusion: Vec<String>,
    /// Inclusive labels.
    pub inclusion: Vec<String>,
}

impl NodeTopology {
    /// A topology from its required fields.
    pub fn new(exclusion: Vec<String>, inclusion: Vec<String>) -> (r: NodeTopology)
        ensures
            r.exclusion == exclusion,
            r.inclusion == inclusion,
    {
        NodeTopology { exclusion, inclusion }
    }

    /// A topology from all its fields.
    pub fn new_all(exclusion: Vec<String>, inclusion: Vec<String>) -> (r: NodeTopology)
        ensures
            r.exclusion == exclusion,
            r.inclusion == inclusion,
    {
        NodeTopology { exclusion, inclusion }
    }
}

impl Default for NodeTopology {
    fn default() -> (r: Self)
        ensures
            r.exclusion@.len() == 0,
            r.inclusion@.len() == 0,
    {
        NodeTopology { exclusion: Vec::new(), inclusion: Vec::new() }
    }
}

#[derive(Clone, Debug, PartialEq, Eq)]
/// Watch callbacks.
#[allow(non_camel_case_types)]
pub enum WatchCallback {
    /// Call back at a URI.
    uri(String),
}

} // verus!
