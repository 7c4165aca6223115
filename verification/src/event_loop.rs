//! The decisions of the interactive event loop.
//!
//! The loop itself waits for input, talks to the Supervisor and draws. Each
//! turn it hands the facts to this module and performs what comes back.

use vstd::prelude::*;

use crate::geometry::TerminalGeometry;
use crate::interaction::{Command, InputResult, ProjectInteraction, TerminalNotice};
use crate::log_view::OutputRepresentation;
use crate::output::RetainedOutput;
use crate::resize::PendingResize;
use crate::snapshot::{same_processes, ProcessId, ProcessSnapshot, ProjectSnapshot};

#[allow(unused_imports)]
use crate::console::ConsoleWarning;
#[allow(unused_imports)]
use crate::interaction::{requests, CommandRequest, InteractionState};
#[allow(unused_imports)]
use crate::process_logs::LogsState;
#[allow(unused_imports)]
use crate::snapshot::processes_alike;

verus! {

/// One shared bound for waiting out every Run's existing shutdown ladder, in
/// nanoseconds.
pub const PROJECT_SHUTDOWN_WAIT: u64 = 20_000_000_000;

/// What a turn of the loop does next.
pub enum LoopTurn {
    /// The Project is shut down; the snapshot holds the result.
    Finished,
    /// The Supervisor gets the commands, in order.
    Continue(Vec<Command>),
}

/// The loop's own state as mathematical values.
pub struct LoopState {
    pub interaction: InteractionState,
    pub pending_resize: Option<(TerminalGeometry, u64)>,
    /// What the last turn knew of the Processes, and the second it was known.
    pub last: Option<(Seq<ProcessSnapshot>, u64)>,
    pub shutting_down: bool,
    pub dirty: bool,
}

/// Whether a snapshot ends the loop: a shutdown was asked for and is complete.
pub open spec fn finishes(shutting_down: bool, snapshot: ProjectSnapshot) -> bool {
    shutting_down && snapshot.shutdown is Some && snapshot.shutdown->0.complete
}

/// Whether a snapshot shows something else than the last one. Time counts in
/// whole seconds.
pub open spec fn shows_news(
    last: Option<(Seq<ProcessSnapshot>, u64)>,
    snapshot: ProjectSnapshot,
) -> bool {
    match last {
        Some((processes, second)) => !processes_alike(processes, snapshot.processes@) || second
            != snapshot.now_ms / 1000,
        None => true,
    }
}

/// The state of the event loop.
pub struct EventLoop {
    pub interaction: ProjectInteraction,
    pub pending_resize: PendingResize,
    pub last_processes: Option<(Vec<ProcessSnapshot>, u64)>,
    pub shutting_down: bool,
    pub dirty: bool,
}

impl View for EventLoop {
    type V = LoopState;

    open spec fn view(&self) -> LoopState {
        LoopState {
            interaction: self.interaction@,
            pending_resize: self.pending_resize@,
            last: match self.last_processes {
                Some((processes, second)) => Some((processes@, second)),
                None => None,
            },
            shutting_down: self.shutting_down,
            dirty: self.dirty,
        }
    }
}

impl Default for EventLoop {
    fn default() -> (r: Self)
        ensures
            r@ == (LoopState {
                interaction: InteractionState::fresh(),
                pending_resize: None,
                last: None,
                shutting_down: false,
                dirty: true,
            }),
    {
        EventLoop {
            interaction: ProjectInteraction::default(),
            pending_resize: PendingResize::default(),
            last_processes: None,
            shutting_down: false,
            dirty: true,
        }
    }
}

impl EventLoop {
    /// Note that something has to be drawn again.
    pub fn mark_dirty(&mut self, changed: bool)
        ensures
            final(self)@ == (LoopState { dirty: old(self)@.dirty || changed, ..old(self)@ }),
    {
        if changed {
            self.dirty = true;
        }
    }

    /// Take in the Supervisor's latest snapshot: `None` once it stopped. The
    /// loop keeps `processes`, a copy of the snapshot's Processes, to see what
    /// is new next time.
    pub fn observe(
        &mut self,
        snapshot: Option<&ProjectSnapshot>,
        processes: Vec<ProcessSnapshot>,
    ) -> (r: Result<LoopTurn, String>)
        requires
            old(self)@.interaction.logs_wf(),
            snapshot is Some ==> processes_alike(processes@, snapshot->0.processes@),
        ensures
            snapshot is None ==> r is Err && r->Err_0@ == "the Supervisor stopped"@ && final(self)@
                == old(self)@,
            snapshot is Some && snapshot->0.processes@.len() == 0 ==> r is Err && r->Err_0@
                == "this Project has no Processes"@ && final(self)@ == old(self)@,
            snapshot is Some && snapshot->0.processes@.len() > 0 ==> {
                if finishes(old(self)@.shutting_down, *snapshot->0) {
                    r is Ok && r->Ok_0 is Finished && final(self)@ == old(self)@
                } else {
                    let (interaction, changed, commands) = old(self)@.interaction.updated(
                        *snapshot->0,
                    );
                    &&& r is Ok
                    &&& r->Ok_0 matches LoopTurn::Continue(issued) && requests(issued@) == commands
                    &&& final(self)@ == (LoopState {
                        interaction,
                        last: Some((processes@, (snapshot->0.now_ms / 1000) as u64)),
                        dirty: old(self)@.dirty || changed || shows_news(
                            old(self)@.last,
                            *snapshot->0,
                        ),
                        ..old(self)@
                    })
                    &&& !shows_news(final(self)@.last, *snapshot->0)
                    &&& final(self)@.interaction.wf()
                    &&& final(self)@.interaction.logs.len() == snapshot->0.processes@.len()
                }
            },
    {
        let snapshot = match snapshot {
            Some(snapshot) => snapshot,
            None => {
                return Err("the Supervisor stopped".to_owned());
            },
        };
        if snapshot.processes.len() == 0 {
            return Err("this Project has no Processes".to_owned());
        }
        if self.shutting_down {
            if let Some(result) = &snapshot.shutdown {
                if result.complete {
                    return Ok(LoopTurn::Finished);
                }
            }
        }
        let second: u64 = snapshot.now_ms / 1000;
        let news = match &self.last_processes {
            Some((last, last_second)) => !same_processes(last, &snapshot.processes) || *last_second
                != second,
            None => true,
        };
        self.last_processes = Some((processes, second));
        let update = self.interaction.update_project(snapshot);
        if news || update.changed {
            self.dirty = true;
        }
        Ok(LoopTurn::Continue(update.commands))
    }

    /// The generation of retained output that is already held, where it
    /// belongs to the selected Process.
    pub fn known_generation(held: Option<(ProcessId, u64)>, selected: ProcessId) -> (r: Option<u64>)
        ensures
            r == (match held {
                Some((process, generation)) => if process == selected {
                    Some(generation)
                } else {
                    None
                },
                None => None,
            }),
    {
        match held {
            Some((process, generation)) => {
                if process == selected {
                    Some(generation)
                } else {
                    None
                }
            },
            None => None,
        }
    }

    /// Take in the retained output of the selected Process.
    pub fn refresh_logs(&mut self, retained: &RetainedOutput)
        requires
            old(self)@.interaction.wf(),
        ensures
            final(self)@.interaction.wf(),
            ({
                let before = old(self)@.interaction;
                let (search, changed) = before.log().search.refreshed(*retained);
                final(self)@ == (LoopState {
                    interaction: before.with_log(LogsState { search, ..before.log() }),
                    dirty: old(self)@.dirty || changed,
                    ..old(self)@
                })
            }),
    {
        if self.interaction.refresh_logs(retained) {
            self.dirty = true;
        }
    }

    /// Take in what the selected terminal reported.
    pub fn show_terminal(&mut self, notices: &Vec<TerminalNotice>)
        ensures
            ({
                let (interaction, changed) = old(self)@.interaction.on_terminal(notices@);
                final(self)@ == (LoopState {
                    interaction,
                    dirty: old(self)@.dirty || changed,
                    ..old(self)@
                })
            }),
    {
        if self.interaction.update_terminal_pane(notices) {
            self.dirty = true;
        }
    }

    /// Take in the selected Logs.
    pub fn show_logs(&mut self, truncated: bool)
        ensures
            final(self)@ == (LoopState {
                interaction: old(self)@.interaction.on_logs(truncated),
                ..old(self)@
            }),
    {
        self.interaction.update_logs_pane(truncated);
    }

    /// Remember a new size of the console pane.
    pub fn resize(&mut self, geometry: TerminalGeometry, now: u64)
        requires
            now + crate::resize::RESIZE_SETTLE_NANOS <= u64::MAX,
        ensures
            final(self)@ == (LoopState {
                pending_resize: Some(
                    (geometry, (now + crate::resize::RESIZE_SETTLE_NANOS) as u64),
                ),
                ..old(self)@
            }),
    {
        self.pending_resize.update(geometry, now);
    }

    /// The size that the selected terminal takes on now, if any.
    pub fn take_resize(&mut self, now: u64) -> (r: Option<TerminalGeometry>)
        ensures
            match old(self)@.pending_resize {
                Some((geometry, ready_at)) => if now < ready_at {
                    r is None && final(self)@ == old(self)@
                } else {
                    r == Some(geometry) && final(self)@ == (LoopState {
                        pending_resize: None,
                        dirty: true,
                        ..old(self)@
                    })
                },
                None => r is None && final(self)@ == old(self)@,
            },
    {
        let ready = self.pending_resize.take_ready(now);
        if ready.is_some() {
            self.dirty = true;
        }
        ready
    }

    /// Take in whether the selected terminal took its new size.
    pub fn record_resize(&mut self, taken: bool)
        ensures
            final(self)@ == (if taken {
                old(self)@
            } else {
                LoopState {
                    interaction: old(self)@.interaction.warned(
                        Some(ConsoleWarning::InputRejected),
                    ),
                    ..old(self)@
                }
            }),
    {
        if !taken {
            self.interaction.warn(ConsoleWarning::InputRejected);
        }
    }

    /// Whether a frame is drawn now. Terminal snapshots and formatted Logs
    /// lines exist only for a frame that will be drawn.
    pub fn start_frame(&mut self, terminal_dirty: bool) -> (r: bool)
        ensures
            r == (old(self)@.dirty || terminal_dirty),
            final(self)@ == (LoopState { dirty: false, ..old(self)@ }),
    {
        let draws = self.dirty || terminal_dirty;
        self.dirty = false;
        draws
    }

    /// Take in the result of one routed input event: the command for the
    /// Supervisor, if there is one. Only the first quit shuts down.
    pub fn finish_input(&mut self, result: InputResult) -> (r: Option<Command>)
        ensures
            (match r {
                Some(command) => Some(command@),
                None => None,
            }) == command_of(old(self)@.shutting_down, result),
            final(self)@ == (LoopState {
                shutting_down: old(self)@.shutting_down || result == InputResult::Quit,
                dirty: old(self)@.dirty || result == InputResult::Changed || (result
                    == InputResult::Quit && !old(self)@.shutting_down),
                ..old(self)@
            }),
    {
        match result {
            InputResult::Quit => {
                if self.shutting_down {
                    return None;
                }
                self.shutting_down = true;
                self.dirty = true;
                Some(Command::Shutdown(PROJECT_SHUTDOWN_WAIT))
            },
            InputResult::Changed => {
                self.dirty = true;
                None
            },
            InputResult::Ignored => None,
        }
    }
}

/// What the header says before the Process, during a shutdown.
pub open spec fn shutdown_part(shutting_down: bool) -> Seq<char> {
    if shutting_down {
        "Project shutdown in progress · "@
    } else {
        ""@
    }
}

/// The name of the shown representation.
pub open spec fn representation_part(representation: OutputRepresentation) -> Seq<char> {
    match representation {
        OutputRepresentation::Terminal => "Terminal · "@,
        OutputRepresentation::Logs => "Logs · "@,
    }
}

/// What the header says of a search.
pub open spec fn status_part(status: Option<Seq<char>>) -> Seq<char> {
    match status {
        Some(status) => " · "@ + status,
        None => ""@,
    }
}

/// The header of the console pane.
pub fn console_header(
    header: &str,
    representation: OutputRepresentation,
    status: &Option<String>,
    shutting_down: bool,
) -> (r: String)
    ensures
        r@ == shutdown_part(shutting_down) + representation_part(representation) + header@
            + status_part(crate::snapshot::text_option(*status)),
{
    let mut text = if shutting_down {
        "Project shutdown in progress · ".to_owned()
    } else {
        "".to_owned()
    };
    text.append(
        match representation {
            OutputRepresentation::Terminal => "Terminal · ",
            OutputRepresentation::Logs => "Logs · ",
        },
    );
    text.append(header);
    match status {
        Some(status) => {
            let ghost before = text@;
            text.append(" · ");
            text.append(status.as_str());
            proof {
                assert(text@ =~= before + (" · "@ + status@));
            }
        },
        None => {
            proof {
                reveal_strlit("");
                assert(text@ + ""@ =~= text@);
            }
        },
    }
    text
}

/// The command of one result: the first quit shuts the Project down.
pub open spec fn command_of(shutting_down: bool, result: InputResult) -> Option<CommandRequest> {
    if result == InputResult::Quit && !shutting_down {
        Some(CommandRequest::Shutdown(PROJECT_SHUTDOWN_WAIT))
    } else {
        None
    }
}

/// The commands of a series of results.
pub open spec fn commands_of(shutting_down: bool, results: Seq<InputResult>) -> Seq<CommandRequest>
    decreases results.len(),
{
    if results.len() == 0 {
        Seq::empty()
    } else {
        let rest = commands_of(
            shutting_down || results[0] == InputResult::Quit,
            results.drop_first(),
        );
        match command_of(shutting_down, results[0]) {
            Some(command) => seq![command] + rest,
            None => rest,
        }
    }
}

/// However often the user quits, the Project is shut down at most once.
pub proof fn one_shutdown_per_project(shutting_down: bool, results: Seq<InputResult>)
    ensures
        commands_of(shutting_down, results).len() <= 1,
        shutting_down ==> commands_of(shutting_down, results).len() == 0,
    decreases results.len(),
{
    if results.len() > 0 {
        one_shutdown_per_project(
            shutting_down || results[0] == InputResult::Quit,
            results.drop_first(),
        );
    }
}

} // verus!
