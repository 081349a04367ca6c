use vstd::prelude::*;

verus! {

/// Where the managed server process stands.
#[derive(Debug, Clone, Copy, PartialEq, Eq, Structural)]
pub enum ServerStatus {
    Stopped,
    Starting,
    Running,
    Stopping,
    Failed,
}

/// The name under which a status is shown.
pub open spec fn status_label(status: ServerStatus) -> Seq<char> {
    match status {
        ServerStatus::Stopped => "Stopped"@,
        ServerStatus::Starting => "Starting"@,
        ServerStatus::Running => "Running"@,
        ServerStatus::Stopping => "Stopping"@,
        ServerStatus::Failed => "Failed"@,
    }
}

impl ServerStatus {
    /// The name under which this status is shown.
    pub fn label(self) -> (r: &'static str)
        ensures
            r@ == status_label(self),
    {
        match self {
            ServerStatus::Stopped => "Stopped",
            ServerStatus::Starting => "Starting",
            ServerStatus::Running => "Running",
            ServerStatus::Stopping => "Stopping",
            ServerStatus::Failed => "Failed",
        }
    }
}

/// Different statuses are shown under different labels, none of them empty.
pub proof fn law_labels_distinct(a: ServerStatus, b: ServerStatus)
    ensures
        status_label(a).len() > 0,
        a != b ==> status_label(a) != status_label(b),
{
    reveal_strlit("Stopped");
    reveal_strlit("Starting");
    reveal_strlit("Running");
    reveal_strlit("Stopping");
    reveal_strlit("Failed");
    assert("Stopped"@[3] != "Starting"@[3]);
    assert("Stopped"@[0] != "Running"@[0]);
    assert("Stopped"@.len() != "Stopping"@.len());
    assert("Stopped"@[0] != "Failed"@[0]);
    assert("Starting"@[0] != "Running"@[0]);
    assert("Starting"@[2] != "Stopping"@[2]);
    assert("Starting"@[0] != "Failed"@[0]);
    assert("Running"@[0] != "Stopping"@[0]);
    assert("Running"@[0] != "Failed"@[0]);
    assert("Stopping"@[0] != "Failed"@[0]);
}

} // verus!
