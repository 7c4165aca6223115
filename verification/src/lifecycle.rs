//! Lifecycle command requests queued by the console keymap. One requested
//! lifecycle command targets the currently selected Process; command modes
//! carry only the request, and the application event loop owns the selection
//! and dispatches it through the Supervisor.

use vstd::prelude::*;

verus! {

/// One requested lifecycle command for the currently selected Process.
#[derive(Clone, Copy, Debug, PartialEq, Eq, Structural)]
pub enum LifecycleCommand {
    Start,
    Stop,
    Restart,
}

/// The lifecycle command of a character key.
pub open spec fn requested(character: char) -> Option<LifecycleCommand> {
    if character == 's' {
        Some(LifecycleCommand::Start)
    } else if character == 'x' {
        Some(LifecycleCommand::Stop)
    } else if character == 'r' {
        Some(LifecycleCommand::Restart)
    } else {
        None
    }
}

/// The lifecycle command a character key requests, if any. Keys outside
/// the lifecycle set leave the decision to the surrounding match.
pub fn lifecycle_request_for(character: char) -> (r: Option<LifecycleCommand>)
    ensures
        r == requested(character),
{
    match character {
        's' => Some(LifecycleCommand::Start),
        'x' => Some(LifecycleCommand::Stop),
        'r' => Some(LifecycleCommand::Restart),
        _ => None,
    }
}

/// The pending lifecycle request queue shared by every key-routing mode.
#[derive(Clone, Debug)]
pub struct LifecycleQueue {
    commands: Vec<LifecycleCommand>,
}

impl View for LifecycleQueue {
    type V = Seq<LifecycleCommand>;

    closed spec fn view(&self) -> Seq<LifecycleCommand> {
        self.commands@
    }
}

impl LifecycleQueue {
    /// An empty queue.
    pub fn new() -> (r: Self)
        ensures
            r@ == Seq::<LifecycleCommand>::empty(),
    {
        LifecycleQueue { commands: Vec::new() }
    }

    /// Add a command at the end.
    pub fn queue(&mut self, command: LifecycleCommand)
        ensures
            final(self)@ == old(self)@.push(command),
    {
        self.commands.push(command);
    }

    /// Drain every queued request. The application event loop dispatches each
    /// one for the currently selected Process.
    pub fn take(&mut self) -> (r: Vec<LifecycleCommand>)
        ensures
            r@ == old(self)@,
            final(self)@ == Seq::<LifecycleCommand>::empty(),
    {
        let mut taken: Vec<LifecycleCommand> = Vec::new();
        std::mem::swap(&mut taken, &mut self.commands);
        taken
    }
}

impl Default for LifecycleQueue {
    fn default() -> (r: Self)
        ensures
            r@ == Seq::<LifecycleCommand>::empty(),
    {
        Self::new()
    }
}

} // verus!
