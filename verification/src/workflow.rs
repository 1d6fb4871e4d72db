//! The workflow that publishes operations to the network.

use vstd::prelude::*;
use crate::error::InfrastructureError;

verus! {

/// How a run of a workflow ended.
#[derive(Clone, Copy, Debug, PartialEq, Eq, Structural)]
pub enum WorkComplete {
    /// Nothing is left to do.
    Complete,
    /// There is more to do: the workflow is to run again.
    Incomplete,
}

/// The stores that publishing works on. It has none so far, so there is
/// nothing for it to write.
#[derive(Clone, Copy, Debug, PartialEq, Eq, Structural)]
pub struct PublishDhtOpsWorkspace {}

impl PublishDhtOpsWorkspace {
    /// The workspace, which is the same for every run.
    pub fn new() -> (workspace: PublishDhtOpsWorkspace)
        ensures
            workspace == (PublishDhtOpsWorkspace {}),
    {
        PublishDhtOpsWorkspace {}
    }
}

/// How a run of the publishing workflow ends, given how the commit of its
/// workspace went: complete where the commit succeeded, and with the
/// commit's failure where it did not.
pub open spec fn publish_outcome(committed: Result<(), InfrastructureError>) -> Result<
    WorkComplete,
    InfrastructureError,
> {
    match committed {
        Ok(_) => Ok(WorkComplete::Complete),
        Err(failure) => Err(failure),
    }
}

/// Ends a run of the publishing workflow, which publishes nothing so far.
pub fn publish_dht_ops_workflow(
    _workspace: PublishDhtOpsWorkspace,
    committed: Result<(), InfrastructureError>,
) -> (result: Result<WorkComplete, InfrastructureError>)
    ensures
        result == publish_outcome(committed),
{
    match committed {
        Ok(_) => Ok(WorkComplete::Complete),
        Err(failure) => Err(failure),
    }
}

} // verus!
