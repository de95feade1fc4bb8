//! Isolation layers around the shim process, and what became of them.

use vstd::prelude::*;

verus! {

/// Status of one isolation layer after spawn.
#[derive(Debug, Clone, Copy, PartialEq, Eq, Structural)]
pub enum LayerStatus {
    /// Layer was requested and is active on the child process.
    Enforced,
    /// Layer was requested and unavailable, and going on without it was allowed.
    Degraded,
    /// Layer was not requested.
    Disabled,
    /// Layer does not apply on this platform.
    NotApplicable,
}

/// Isolation stack used for the shim process.
#[derive(Debug, Clone, Copy, PartialEq, Eq, Structural)]
pub enum SandboxKind {
    /// Linux bubblewrap namespaces.
    Bwrap,
    /// macOS `sandbox-exec` seatbelt.
    Seatbelt,
    /// No platform sandbox.
    Noop,
}

/// Name of a sandbox.
pub open spec fn sandbox_name(kind: SandboxKind) -> Seq<char> {
    match kind {
        SandboxKind::Bwrap => "bwrap"@,
        SandboxKind::Seatbelt => "seatbelt"@,
        SandboxKind::Noop => "noop"@,
    }
}

impl SandboxKind {
    /// Stable name for logs and inspection.
    pub fn as_str(self) -> (r: &'static str)
        ensures
            r@ == sandbox_name(self),
    {
        match self {
            SandboxKind::Bwrap => "bwrap",
            SandboxKind::Seatbelt => "seatbelt",
            SandboxKind::Noop => "noop",
        }
    }
}

/// The name tells the sandboxes apart.
pub proof fn law_sandbox_names_differ(a: SandboxKind, b: SandboxKind)
    requires
        a != b,
    ensures
        sandbox_name(a) != sandbox_name(b),
{
    reveal_strlit("bwrap");
    reveal_strlit("seatbelt");
    reveal_strlit("noop");
    assert("bwrap"@.len() == 5);
    assert("seatbelt"@.len() == 8);
    assert("noop"@.len() == 4);
}

/// Actual security posture of a spawned shim.
#[derive(Debug, Clone, Copy, PartialEq, Eq, Structural)]
pub struct SecurityReport {
    /// Platform sandbox in use.
    pub sandbox: SandboxKind,
    /// Landlock.
    pub landlock: LayerStatus,
    /// Mandatory access control.
    pub mac: LayerStatus,
}

/// Isolation that is asked for.
#[derive(Debug, Clone, Copy, PartialEq, Eq, Structural)]
pub struct SecurityOptions {
    /// Whether to use the platform sandbox.
    pub jailer: bool,
    /// Whether to use Landlock.
    pub landlock: bool,
    /// Whether to go on where a layer is unavailable.
    pub allow_degraded: bool,
}

/// Each sandbox goes by its own name.
pub proof fn law_sandboxes_go_by_their_names(kind: SandboxKind)
    ensures
        kind is Bwrap <==> sandbox_name(kind) == "bwrap"@,
        kind is Seatbelt <==> sandbox_name(kind) == "seatbelt"@,
        kind is Noop <==> sandbox_name(kind) == "noop"@,
{
    reveal_strlit("bwrap");
    reveal_strlit("seatbelt");
    reveal_strlit("noop");
    assert("bwrap"@.len() != "seatbelt"@.len());
    assert("bwrap"@.len() != "noop"@.len());
    assert("seatbelt"@.len() != "noop"@.len());
}

} // verus!
