//! Arguments of the `ps` command, which lists the processes of a container.
use vstd::prelude::*;

verus! {

/// Display the processes inside the container.
#[derive(Clone, Debug, PartialEq, Eq)]
pub struct Ps {
    /// How to display the processes: `table` or `json`.
    pub format: String,
    /// The container whose processes are listed; never empty.
    pub container_id: String,
    /// Options handed on to the `ps` utility.
    pub ps_options: Vec<String>,
}

} // verus!
