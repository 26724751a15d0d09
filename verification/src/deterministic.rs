//! The deterministic test runner, seen from the engine: which command to
//! run, which events a finished run amounts to, and the buffer from which
//! the events are drained.
//!
//! Starting the process and reading its output is left to the caller, who
//! reports back what happened.

use crate::agent::{event_views, AgentEvent, EventView};
use crate::text::{clone_lines, decimal, i32_to_string, texts, trim, trimmed};
use std::collections::VecDeque;
use vstd::prelude::*;
use vstd::string::StringExecFns;

verus! {

/// Exit code reported when the process could not be started or awaited.
pub const EXIT_NOT_RUN: i32 = -1;

/// Exit code reported when no test command is configured.
pub const EXIT_NO_COMMAND: i32 = -2;

/// The command line of a test run.
#[derive(Debug, Clone, PartialEq, Eq)]
pub struct TestRunnerConfig {
    pub program: String,
    pub args: Vec<String>,
}

/// Mathematical value of a [`TestRunnerConfig`].
pub struct CommandView {
    pub program: Seq<char>,
    pub args: Seq<Seq<char>>,
}

impl View for TestRunnerConfig {
    type V = CommandView;

    open spec fn view(&self) -> CommandView {
        CommandView { program: self.program@, args: texts(self.args@) }
    }
}

impl Default for TestRunnerConfig {
    /// `cargo test`.
    fn default() -> (config: Self)
        ensures
            config@ == (CommandView { program: "cargo"@, args: seq!["test"@] }),
    {
        let mut args: Vec<String> = Vec::new();
        args.push(String::from_str("test"));
        let config = TestRunnerConfig { program: String::from_str("cargo"), args };
        assert(config@.args =~= seq!["test"@]);
        config
    }
}

/// How an attempt to run the test command ended.
#[derive(Debug, Clone, PartialEq, Eq)]
pub enum RunOutcome {
    /// The process could not be started; the text says why.
    SpawnFailed(String),
    /// The process ran and exited; `code` is absent where it was ended by a signal.
    Exited { success: bool, code: Option<i32> },
    /// The process was started but could not be awaited; the text says why.
    WaitFailed(String),
}

/// The events that report how a run ended.
///
/// A run that could not be started or awaited is explained first and then
/// completed as failed with [`EXIT_NOT_RUN`]. A run that exited is
/// completed with its exit code, [`EXIT_NOT_RUN`] where it has none, and a
/// failed one is explained after that.
pub open spec fn outcome_events(outcome: RunOutcome) -> Seq<EventView> {
    match outcome {
        RunOutcome::SpawnFailed(error) => seq![
            EventView::System("Deterministic test runner failed to start: "@ + error@),
            EventView::Completed { success: false, code: EXIT_NOT_RUN },
        ],
        RunOutcome::Exited { success, code } => {
            let code = match code {
                Some(c) => c,
                None => EXIT_NOT_RUN,
            };
            if success {
                seq![EventView::Completed { success, code }]
            } else {
                seq![
                    EventView::Completed { success, code },
                    EventView::System(
                        "Deterministic test runner exited with status code "@ + decimal(code as int),
                    ),
                ]
            }
        },
        RunOutcome::WaitFailed(error) => seq![
            EventView::System("Deterministic test runner wait failed: "@ + error@),
            EventView::Completed { success: false, code: EXIT_NOT_RUN },
        ],
    }
}

/// The events that report that no test command is configured.
pub open spec fn missing_command_events() -> Seq<EventView> {
    seq![
        EventView::System(
            "Deterministic test runner failed: no test command configured in meta.json."@,
        ),
        EventView::Completed { success: false, code: EXIT_NO_COMMAND },
    ]
}

/// The command to run for a configured test command: none where the
/// command is absent or blank, else `bash -lc` with the trimmed command.
pub open spec fn shell_command(command: Option<Seq<char>>) -> Option<CommandView> {
    match command {
        Some(c) => if trimmed(c).len() == 0 {
            None
        } else {
            Some(CommandView { program: "bash"@, args: seq!["-lc"@, trimmed(c)] })
        },
        None => None,
    }
}

/// The characters of an optional string slice.
pub open spec fn optional_str(s: Option<&str>) -> Option<Seq<char>> {
    match s {
        Some(s) => Some(s@),
        None => None,
    }
}

/// The view of an optional command.
pub open spec fn optional_command(c: Option<TestRunnerConfig>) -> Option<CommandView> {
    match c {
        Some(c) => Some(c@),
        None => None,
    }
}

/// The events that report how a run ended, in the order in which they are
/// to be delivered.
pub fn completion_events(outcome: RunOutcome) -> (events: Vec<AgentEvent>)
    ensures
        event_views(events@) == outcome_events(outcome),
{
    let mut events: Vec<AgentEvent> = Vec::new();
    match &outcome {
        RunOutcome::SpawnFailed(error) => {
            let mut message = String::from_str("Deterministic test runner failed to start: ");
            message.append(error.as_str());
            events.push(AgentEvent::System(message));
            events.push(AgentEvent::Completed { success: false, code: EXIT_NOT_RUN });
        },
        RunOutcome::Exited { success, code } => {
            let code: i32 = match code {
                Some(c) => *c,
                None => EXIT_NOT_RUN,
            };
            events.push(AgentEvent::Completed { success: *success, code });
            if !*success {
                let mut message = String::from_str(
                    "Deterministic test runner exited with status code ",
                );
                message.append(i32_to_string(code).as_str());
                events.push(AgentEvent::System(message));
            }
        },
        RunOutcome::WaitFailed(error) => {
            let mut message = String::from_str("Deterministic test runner wait failed: ");
            message.append(error.as_str());
            events.push(AgentEvent::System(message));
            events.push(AgentEvent::Completed { success: false, code: EXIT_NOT_RUN });
        },
    }
    assert(event_views(events@) =~= outcome_events(outcome));
    events
}

/// Buffers the events of test runs until they are drained.
#[derive(Debug, Clone)]
pub struct TestRunnerAdapter {
    config: TestRunnerConfig,
    events: VecDeque<AgentEvent>,
}

impl TestRunnerAdapter {
    /// The events that wait to be drained, oldest first.
    pub closed spec fn pending(&self) -> Seq<EventView> {
        event_views(self.events@)
    }

    /// The command that [`run_tests`](Self::run_tests) asks for.
    pub closed spec fn command(&self) -> CommandView {
        self.config@
    }

    /// An adapter for `cargo test` with nothing buffered.
    pub fn new() -> (adapter: Self)
        ensures
            adapter.pending() == Seq::<EventView>::empty(),
            adapter.command() == (CommandView { program: "cargo"@, args: seq!["test"@] }),
    {
        let adapter = TestRunnerAdapter {
            config: TestRunnerConfig::default(),
            events: VecDeque::new(),
        };
        assert(adapter.pending() =~= Seq::<EventView>::empty());
        adapter
    }

    /// An adapter for the command `config` with nothing buffered.
    pub fn with_config(config: TestRunnerConfig) -> (adapter: Self)
        ensures
            adapter.pending() == Seq::<EventView>::empty(),
            adapter.command() == config@,
    {
        let adapter = TestRunnerAdapter { config, events: VecDeque::new() };
        assert(adapter.pending() =~= Seq::<EventView>::empty());
        adapter
    }

    /// The command to start for a run of the configured tests.
    pub fn run_tests(&self) -> (command: TestRunnerConfig)
        ensures
            command@ == self.command(),
    {
        let args = clone_lines(self.config.args.as_slice());
        TestRunnerConfig { program: self.config.program.clone(), args }
    }

    /// Decides how to run the test command of a session.
    ///
    /// A command that is present and not blank is to be run through
    /// `bash -lc`; it is returned and nothing is buffered. Without one
    /// there is nothing to start: the run is reported as failed with
    /// [`EXIT_NO_COMMAND`], after a message that says why.
    pub fn run_tests_with_command(&mut self, command: Option<&str>) -> (start: Option<
        TestRunnerConfig,
    >)
        ensures
            optional_command(start) == shell_command(optional_str(command)),
            final(self).command() == old(self).command(),
            start is Some ==> final(self).pending() == old(self).pending(),
            start is None ==> final(self).pending() == old(self).pending()
                + missing_command_events(),
    {
        let normalized: Option<String> = match command {
            Some(c) => {
                let t = trim(c);
                if t.as_str().is_empty() {
                    None
                } else {
                    Some(t)
                }
            },
            None => None,
        };
        if let Some(command_line) = normalized {
            let mut args: Vec<String> = Vec::new();
            args.push(String::from_str("-lc"));
            args.push(command_line);
            let config = TestRunnerConfig { program: String::from_str("bash"), args };
            assert(config@.args =~= seq!["-lc"@, trimmed(command->0@)]);
            Some(config)
        } else {
            self.events.push_back(
                AgentEvent::System(
                    String::from_str(
                        "Deterministic test runner failed: no test command configured in meta.json.",
                    ),
                ),
            );
            self.events.push_back(AgentEvent::Completed { success: false, code: EXIT_NO_COMMAND });
            assert(self.pending() =~= old(self).pending() + missing_command_events());
            None
        }
    }

    /// Takes in an event of a run, behind those already buffered.
    pub fn push_event(&mut self, event: AgentEvent)
        ensures
            final(self).pending() == old(self).pending().push(event@),
            final(self).command() == old(self).command(),
    {
        self.events.push_back(event);
        assert(self.pending() =~= old(self).pending().push(event@));
    }

    /// Takes in the events that report how a run ended.
    pub fn finish_run(&mut self, outcome: RunOutcome)
        ensures
            final(self).pending() == old(self).pending() + outcome_events(outcome),
            final(self).command() == old(self).command(),
    {
        let mut events = completion_events(outcome);
        let ghost all = event_views(events@);
        let ghost n = events.len();
        while events.len() > 0
            invariant
                self.config == old(self).config,
                events.len() <= n == all.len(),
                event_views(events@) == all.skip(n - events.len()),
                self.pending() == old(self).pending() + all.take(n - events.len()),
            decreases events.len(),
        {
            let ghost before = events@;
            let ghost buffered = self.events@;
            let event = events.remove(0);
            assert(event_views(events@) =~= event_views(before).skip(1));
            assert(event@ == all[n - before.len()]) by {
                assert(event_views(before)[0] == event@);
            }
            self.events.push_back(event);
            assert(self.pending() =~= old(self).pending() + all.take(n - events.len())) by {
                assert(self.pending() =~= event_views(buffered).push(event@));
                assert(all.take(n - events.len()) =~= all.take(n - before.len()).push(event@));
            }
        }
        assert(all.take(n as int) == all);
    }

    /// Removes and returns every buffered event, oldest first.
    pub fn drain_events(&mut self) -> (events: Vec<AgentEvent>)
        ensures
            event_views(events@) == old(self).pending(),
            final(self).pending() == Seq::<EventView>::empty(),
            final(self).command() == old(self).command(),
    {
        let ghost n = self.events@.len();
        assert(n == self.pending().len());
        proof {
            vstd::std_specs::vecdeque::axiom_spec_len(&self.events);
        }
        let events = self.drain_events_limited(usize::MAX);
        assert(old(self).pending().take(n as int) == old(self).pending());
        assert(old(self).pending().skip(n as int) =~= Seq::<EventView>::empty());
        events
    }

    /// Removes and returns the oldest buffered events, at most
    /// `max_events` of them, oldest first. The others stay buffered in
    /// their order.
    pub fn drain_events_limited(&mut self, max_events: usize) -> (events: Vec<AgentEvent>)
        ensures
            events@.len() == if max_events <= old(self).pending().len() {
                max_events as nat
            } else {
                old(self).pending().len()
            },
            event_views(events@) == old(self).pending().take(events@.len() as int),
            final(self).pending() == old(self).pending().skip(events@.len() as int),
            final(self).command() == old(self).command(),
    {
        let mut events: Vec<AgentEvent> = Vec::new();
        if max_events == 0 {
            assert(event_views(events@) =~= old(self).pending().take(0));
            assert(self.pending() =~= old(self).pending().skip(0));
            return events;
        }
        while events.len() < max_events
            invariant
                self.config == old(self).config,
                events@.len() <= max_events,
                events@.len() + self.events@.len() == old(self).events@.len(),
                event_views(events@) == old(self).pending().take(events@.len() as int),
                self.pending() == old(self).pending().skip(events@.len() as int),
            ensures
                events@.len() == max_events || self.events@.len() == 0,
            decreases self.events@.len(),
        {
            let ghost before = self.events@;
            let ghost taken = events@;
            let next = self.events.pop_front();
            match next {
                Some(event) => {
                    events.push(event);
                    assert(event@ == old(self).pending()[taken.len() as int]) by {
                        assert(event_views(before)[0] == old(self).pending().skip(
                            taken.len() as int,
                        )[0]);
                    }
                    assert(event_views(events@) =~= event_views(taken).push(event@));
                    assert(event_views(events@) =~= old(self).pending().take(events@.len() as int));
                    assert(self.pending() =~= event_views(before).skip(1));
                    assert(self.pending() =~= old(self).pending().skip(events@.len() as int));
                },
                None => {
                    break ;
                },
            }
        }
        events
    }
}

} // verus!
