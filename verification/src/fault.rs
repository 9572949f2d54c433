//! The terminal fault policy. Nothing above this code can receive an error
//! return, so every unrecoverable condition maps to one machine state:
//! interrupts masked, processor parked in its low-power wait, forever. The
//! instructions that realize the state are the platform's; the decision —
//! which state a fault leaves the machine in — is made and pinned down
//! here.

use vstd::prelude::*;

verus! {

/// The machine state a diverging path parks the processor in. Both fields
/// must hold for the state to be terminal: with interrupts unmasked a
/// wakeup could resume execution, and without the wait the processor would
/// spin on.
#[derive(Copy, Clone, Debug, PartialEq, Eq, Structural)]
pub struct HaltDirective {
    /// Interrupts are masked before the processor is parked, so no wakeup
    /// source remains.
    pub interrupts_masked: bool,
    /// The processor repeats the low-power wait instruction forever.
    pub wait_forever: bool,
}

impl HaltDirective {
    /// A state no execution leaves: stopped cleanly, and staying stopped.
    pub open spec fn is_terminal(self) -> bool {
        self.interrupts_masked && self.wait_forever
    }
}

/// The process-wide fault handler's decision: every unrecoverable runtime
/// condition, whatever triggered it, resolves to the one terminal state.
/// Boot entry ends in the same state once the essentials are initialized.
pub fn panic() -> (directive: HaltDirective)
    ensures
        directive.is_terminal(),
{
    HaltDirective { interrupts_masked: true, wait_forever: true }
}

} // verus!
