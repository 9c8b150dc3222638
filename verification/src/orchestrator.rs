//! The decryption run, step by step.
//!
//! An [`Orchestrator`] drives one attempt to decrypt a resdesc file. It
//! never touches the machine itself: [`Orchestrator::next_action`] says
//! what the shell must do (create a temporary directory, spawn the tool,
//! wait for an event, read the output file), and the shell reports each
//! outcome back through the matching transition. The run is purely linear:
//! any failure finishes it at once, and a finished run asks for nothing
//! more — in particular, once the tool has reported an error, the output
//! file is never read, and a run that could not get its temporary
//! directory never spawns the tool.

use vstd::prelude::*;

use crate::content::{Content, DecryptError};
use crate::paths::{base_name, base_name_spec, joined_path, output_file_path};

verus! {

/// The fixed mode code handed to the external tool as its first positional
/// argument.
pub const TOOL_MODE: u64 = 67;

/// One event from the running tool, as the shell observes it: a line on
/// the diagnostic stream, a process-level error, or anything else (output
/// text, termination notices), which carries no failure text.
pub enum ToolEvent {
    DiagnosticLine(String),
    ProcessFault(String),
    Other,
}

impl ToolEvent {
    /// The failure text this event carries: the tool signals failure by
    /// putting non-empty text on its diagnostic stream, and a process-level
    /// fault counts the same way. Empty text and all other events are
    /// harmless.
    pub open spec fn failure_text(&self) -> Option<Seq<char>> {
        match self {
            ToolEvent::DiagnosticLine(t) => if t@.len() > 0 {
                Some(t@)
            } else {
                None
            },
            ToolEvent::ProcessFault(t) => if t@.len() > 0 {
                Some(t@)
            } else {
                None
            },
            ToolEvent::Other => None,
        }
    }
}

/// Where a decryption run stands.
pub enum Phase {
    /// Nothing has happened yet: the temporary directory must be created.
    Start,
    /// The temporary directory exists; the tool must be spawned.
    SpawnTool { temp_dir: String },
    /// The tool is running; its event stream is being drained.
    Draining { temp_dir: String },
    /// The stream ended with no failure text; the output file must be read.
    ReadOutput { temp_dir: String, base: String },
    /// The run is over, successfully or not.
    Finished { outcome: Result<Content, DecryptError> },
}

/// What the shell must do next for the current phase.
pub enum ShellAction {
    /// Create a fresh, uniquely named temporary directory and report its
    /// path (or that creation failed) through
    /// [`Orchestrator::temp_dir_created`].
    CreateTempDir,
    /// Spawn the external tool with exactly the three positional
    /// arguments `mode`, `source`, and `out_dir`, and report whether it
    /// started through [`Orchestrator::tool_spawned`].
    Spawn { mode: u64, source: String, out_dir: String },
    /// Wait on the tool's event stream and report the next event through
    /// [`Orchestrator::event_received`], or its end through
    /// [`Orchestrator::stream_ended`].
    AwaitEvent,
    /// Read the text file at `file_path` and report its contents (or that
    /// it was unreadable) through [`Orchestrator::output_read`].
    ReadFile { file_path: String },
    /// Nothing: the run is finished and its outcome can be taken.
    Stop,
}

/// One decryption attempt for a single source path.
pub struct Orchestrator {
    /// The path of the encrypted source file, as given by the caller.
    pub source: String,
    /// Where the run stands.
    pub phase: Phase,
}

impl Orchestrator {
    /// Begin a run for the file at `source`.
    pub fn new(source: String) -> (r: Orchestrator)
        ensures
            r.source == source,
            r.phase is Start,
    {
        Orchestrator { source, phase: Phase::Start }
    }

    /// What the shell must do next. Each phase asks for exactly one kind
    /// of action; a finished run asks for nothing, so no tool is spawned
    /// and no file is read once the run has failed.
    pub fn next_action(&self) -> (a: ShellAction)
        ensures
            self.phase is Start <==> a is CreateTempDir,
            self.phase is SpawnTool <==> a is Spawn,
            self.phase is Draining <==> a is AwaitEvent,
            self.phase is ReadOutput <==> a is ReadFile,
            self.phase is Finished <==> a is Stop,
            a matches ShellAction::Spawn { mode, source, out_dir } ==> mode == TOOL_MODE && source
                == self.source && out_dir == self.phase->SpawnTool_temp_dir,
            a matches ShellAction::ReadFile { file_path } ==> file_path@ == joined_path(
                self.phase->ReadOutput_temp_dir@,
                self.phase->ReadOutput_base@,
            ),
    {
        match &self.phase {
            Phase::Start => ShellAction::CreateTempDir,
            Phase::SpawnTool { temp_dir } => ShellAction::Spawn {
                mode: TOOL_MODE,
                source: self.source.clone(),
                out_dir: temp_dir.clone(),
            },
            Phase::Draining { .. } => ShellAction::AwaitEvent,
            Phase::ReadOutput { temp_dir, base } => ShellAction::ReadFile {
                file_path: output_file_path(temp_dir.as_str(), base.as_str()),
            },
            Phase::Finished { .. } => ShellAction::Stop,
        }
    }

    /// Report the outcome of creating the temporary directory: its path,
    /// or `None` when creation failed. A failure finishes the run at once
    /// with the fixed temporary-directory message, before any tool is
    /// spawned.
    pub fn temp_dir_created(&mut self, dir: Option<String>)
        requires
            old(self).phase is Start,
        ensures
            final(self).source == old(self).source,
            dir matches Some(d) ==> (final(self).phase matches Phase::SpawnTool { temp_dir }
                && temp_dir == d),
            dir is None ==> final(self).phase == (Phase::Finished {
                outcome: Err::<Content, DecryptError>(DecryptError::TempDirFailed),
            }),
    {
        match dir {
            Some(d) => {
                self.phase = Phase::SpawnTool { temp_dir: d };
            },
            None => {
                self.phase = Phase::Finished { outcome: Err(DecryptError::TempDirFailed) };
            },
        }
    }

    /// Report whether the tool's process started. A failed spawn finishes
    /// the run with the fixed spawn message.
    pub fn tool_spawned(&mut self, started: bool)
        requires
            old(self).phase is SpawnTool,
        ensures
            final(self).source == old(self).source,
            started ==> (final(self).phase matches Phase::Draining { temp_dir } && temp_dir == old(
                self,
            ).phase->SpawnTool_temp_dir),
            !started ==> final(self).phase == (Phase::Finished {
                outcome: Err::<Content, DecryptError>(DecryptError::SpawnFailed),
            }),
    {
        if started {
            let temp_dir = match &self.phase {
                Phase::SpawnTool { temp_dir } => temp_dir.clone(),
                _ => unreached(),
            };
            self.phase = Phase::Draining { temp_dir };
        } else {
            self.phase = Phase::Finished { outcome: Err(DecryptError::SpawnFailed) };
        }
    }

    /// Report one event from the tool's stream. The first event carrying
    /// non-empty failure text finishes the run as a failure carrying
    /// exactly that text — the output file is then never read. Every other
    /// event leaves the run draining, unchanged.
    pub fn event_received(&mut self, event: ToolEvent)
        requires
            old(self).phase is Draining,
        ensures
            final(self).source == old(self).source,
            event.failure_text() matches Some(t) ==> (final(self).phase matches Phase::Finished {
                outcome,
            } && outcome matches Err(e) && e matches DecryptError::ToolReported(msg) && msg@ == t),
            event.failure_text() is None ==> *final(self) == *old(self),
    {
        let text = match event {
            ToolEvent::DiagnosticLine(t) => Some(t),
            ToolEvent::ProcessFault(t) => Some(t),
            ToolEvent::Other => None,
        };
        match text {
            Some(t) => {
                if !t.as_str().is_empty() {
                    self.phase = Phase::Finished { outcome: Err(DecryptError::ToolReported(t)) };
                }
            },
            None => {},
        }
    }

    /// Report that the tool's stream ended with no failure text: the run
    /// derives the expected output file's name from the source path. A
    /// source path with no usable base name finishes the run with the
    /// fixed message; otherwise `<temp_dir>/<base_name>` is to be read.
    pub fn stream_ended(&mut self)
        requires
            old(self).phase is Draining,
        ensures
            final(self).source == old(self).source,
            base_name_spec(old(self).source@) matches Some(n) ==> (final(self).phase
                matches Phase::ReadOutput { temp_dir, base } && temp_dir == old(
                self,
            ).phase->Draining_temp_dir && base@ == n),
            base_name_spec(old(self).source@) is None ==> final(self).phase == (Phase::Finished {
                outcome: Err::<Content, DecryptError>(DecryptError::MissingBaseName),
            }),
    {
        let temp_dir = match &self.phase {
            Phase::Draining { temp_dir } => temp_dir.clone(),
            _ => unreached(),
        };
        match base_name(self.source.as_str()) {
            Some(base) => {
                self.phase = Phase::ReadOutput { temp_dir, base };
            },
            None => {
                self.phase = Phase::Finished { outcome: Err(DecryptError::MissingBaseName) };
            },
        }
    }

    /// Report the outcome of reading the output file: its text, or `None`
    /// when it was absent or unreadable. Success pairs the base name with
    /// the file's text, verbatim; an unreadable file finishes the run with
    /// the fixed message rather than with empty contents.
    pub fn output_read(&mut self, text: Option<String>)
        requires
            old(self).phase is ReadOutput,
        ensures
            final(self).source == old(self).source,
            text matches Some(t) ==> (final(self).phase matches Phase::Finished { outcome }
                && outcome matches Ok(c) && c.filename == old(self).phase->ReadOutput_base
                && c.content == t),
            text is None ==> final(self).phase == (Phase::Finished {
                outcome: Err::<Content, DecryptError>(DecryptError::OutputUnreadable),
            }),
    {
        match text {
            Some(t) => {
                let base = match &self.phase {
                    Phase::ReadOutput { base, .. } => base.clone(),
                    _ => unreached(),
                };
                self.phase = Phase::Finished {
                    outcome: Ok(Content { filename: base, content: t }),
                };
            },
            None => {
                self.phase = Phase::Finished { outcome: Err(DecryptError::OutputUnreadable) };
            },
        }
    }

    /// Whether the run is over.
    pub fn is_finished(&self) -> (b: bool)
        ensures
            b == (self.phase is Finished),
    {
        match &self.phase {
            Phase::Finished { .. } => true,
            _ => false,
        }
    }

    /// Take the finished run's outcome: the decrypted record, or the
    /// failure.
    pub fn into_outcome(self) -> (r: Result<Content, DecryptError>)
        requires
            self.phase is Finished,
        ensures
            r == self.phase->Finished_outcome,
    {
        match self.phase {
            Phase::Finished { outcome } => outcome,
            _ => unreached(),
        }
    }
}

} // verus!
