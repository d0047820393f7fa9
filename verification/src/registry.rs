//! The capability registry: the fixed, ordered list of platform
//! capabilities registered once at startup, and the rule that any
//! registration failure is fatal before the event loop runs.

use vstd::prelude::*;

verus! {

/// A platform capability the shell registers at startup, in the order the
/// controller mounts them: the single-instance guard first, then autostart,
/// shell execution, the URL/path opener, HTTP, and the filesystem.
#[derive(Clone, Copy, PartialEq, Eq, Structural, Debug)]
pub enum Capability {
    SingleInstance,
    Autostart,
    Shell,
    Opener,
    Http,
    Fs,
}

/// An error that aborts startup before the event loop runs.
#[derive(Clone, Copy, PartialEq, Eq, Structural, Debug)]
pub enum StartupError {
    /// Registering the named capability failed.
    CapabilityFailed { capability: Capability },
    /// Building the tray icon or mounting its menu failed.
    TraySetupFailed,
}

/// The fixed registration order.
pub open spec fn capability_order() -> Seq<Capability> {
    seq![
        Capability::SingleInstance,
        Capability::Autostart,
        Capability::Shell,
        Capability::Opener,
        Capability::Http,
        Capability::Fs,
    ]
}

/// All registration outcomes succeeded.
pub open spec fn all_ok(outcomes: Seq<bool>) -> bool {
    forall|i: int| 0 <= i < outcomes.len() ==> outcomes[i]
}

/// The capability at the first failed position of the outcomes.
pub open spec fn fails_first(outcomes: Seq<bool>, c: Capability) -> bool {
    exists|i: int|
        0 <= i < outcomes.len() && !(#[trigger] outcomes[i]) && c == capability_order()[i]
            && (forall|j: int| 0 <= j < i ==> outcomes[j])
}

/// The registration order as the startup code walks it.
pub fn registration_order() -> (v: Vec<Capability>)
    ensures
        v@ == capability_order(),
{
    let mut v: Vec<Capability> = Vec::new();
    v.push(Capability::SingleInstance);
    v.push(Capability::Autostart);
    v.push(Capability::Shell);
    v.push(Capability::Opener);
    v.push(Capability::Http);
    v.push(Capability::Fs);
    v
}

/// Checks the platform's registration outcomes, one per capability in
/// registration order: startup may proceed exactly when every registration
/// succeeded, and otherwise the first capability that failed is reported
/// as the fatal startup error.
pub fn register_capabilities(outcomes: &Vec<bool>) -> (r: Result<(), StartupError>)
    requires
        outcomes@.len() == capability_order().len(),
    ensures
        r is Ok <==> all_ok(outcomes@),
        !all_ok(outcomes@) ==> (r matches Err(StartupError::CapabilityFailed { capability })
            && fails_first(outcomes@, capability)),
{
    let order = registration_order();
    let mut i: usize = 0;
    while i < outcomes.len()
        invariant
            outcomes@.len() == capability_order().len(),
            order@ == capability_order(),
            i <= outcomes@.len(),
            forall|j: int| 0 <= j < i ==> outcomes@[j],
        decreases outcomes@.len() - i,
    {
        if !outcomes[i] {
            return Err(StartupError::CapabilityFailed { capability: order[i] });
        }
        i += 1;
    }
    Ok(())
}

} // verus!
