use vstd::prelude::*;

verus! {

/// The error that a cluster-wide operation reports.
#[derive(Clone, Debug)]
pub enum ConnectionError {
    /// Every node of the cluster was tried and every one failed; the text
    /// holds one line per node, in the order the nodes were tried.
    ClusterAllNodesFailed(String),
}

impl ConnectionError {
    /// The diagnostic text carried by the error.
    pub fn message(&self) -> (r: &str)
        ensures
            r@ == self.text(),
    {
        match self {
            ConnectionError::ClusterAllNodesFailed(s) => s.as_str(),
        }
    }

    pub open spec fn text(&self) -> Seq<char> {
        match self {
            ConnectionError::ClusterAllNodesFailed(s) => s@,
        }
    }
}

} // verus!
