//! One run of the agent loop, from a prompt to its last event.

use std::sync::Arc;

use vstd::prelude::*;

use crate::events::AgentEvent;
use crate::messages::AgentMessage;

verus! {

/// A run under way: what it was started with, and what its events have come to so far.
pub struct ActiveRun {
    user: Arc<AgentMessage>,
    generation: u64,
    max_turns: u32,
    turns_left: u32,
    failed: bool,
    ended: bool,
    new_messages: Vec<Arc<AgentMessage>>,
}

/// A run, as plain values.
#[verifier::ext_equal]
pub struct RunView {
    /// What the user asked.
    pub user: Arc<AgentMessage>,
    /// The generation of the history at the start.
    pub generation: u64,
    pub max_turns: u32,
    /// How many turns may still start.
    pub turns_left: nat,
    /// Whether an error has occurred.
    pub failed: bool,
    /// Whether the agent loop has ended the run.
    pub ended: bool,
    /// What was said in the run, the user's question aside.
    pub new_messages: Seq<Arc<AgentMessage>>,
}

/// A run before its first event.
pub open spec fn run_started(
    user: Arc<AgentMessage>,
    generation: u64,
    max_turns: u32,
) -> RunView {
    RunView {
        user,
        generation,
        max_turns,
        turns_left: max_turns as nat,
        failed: false,
        ended: false,
        new_messages: Seq::empty(),
    }
}

/// A run after one more event.
pub open spec fn run_after(run: RunView, event: AgentEvent) -> RunView {
    match event {
        AgentEvent::TurnStart { .. } => RunView {
            turns_left: if run.turns_left > 0 {
                (run.turns_left - 1) as nat
            } else {
                0
            },
            ..run
        },
        AgentEvent::Error(_) => RunView { failed: true, ..run },
        AgentEvent::AgentEnd { new_messages } => RunView {
            ended: true,
            new_messages: run.new_messages + new_messages@,
            ..run
        },
        _ => run,
    }
}

/// Whether an event starts one turn more than the run may have.
pub open spec fn exceeds_turns(run: RunView, event: AgentEvent) -> bool {
    event is TurnStart && run.turns_left == 0
}

/// Whether what was said in a run belongs into the history: the agent loop ended it, and no
/// error occurred.
pub open spec fn is_completed(run: RunView) -> bool {
    run.ended && !run.failed
}

impl View for ActiveRun {
    type V = RunView;

    closed spec fn view(&self) -> RunView {
        RunView {
            user: self.user,
            generation: self.generation,
            max_turns: self.max_turns,
            turns_left: self.turns_left as nat,
            failed: self.failed,
            ended: self.ended,
            new_messages: self.new_messages@,
        }
    }
}

impl ActiveRun {
    pub(crate) fn new(user: Arc<AgentMessage>, generation: u64, max_turns: u32) -> (run: ActiveRun)
        ensures
            run@ == run_started(user, generation, max_turns),
    {
        ActiveRun {
            user,
            generation,
            max_turns,
            turns_left: max_turns,
            failed: false,
            ended: false,
            new_messages: Vec::new(),
        }
    }

    /// What the user asked.
    pub fn user(&self) -> (user: &Arc<AgentMessage>)
        ensures
            *user == self@.user,
    {
        &self.user
    }

    pub fn generation(&self) -> (generation: u64)
        ensures
            generation == self@.generation,
    {
        self.generation
    }

    pub fn max_turns(&self) -> (max_turns: u32)
        ensures
            max_turns == self@.max_turns,
    {
        self.max_turns
    }

    /// How many turns may still start.
    pub fn turns_left(&self) -> (turns: u32)
        ensures
            turns == self@.turns_left,
    {
        self.turns_left
    }

    /// Takes in one event.
    pub(crate) fn advance(&mut self, event: AgentEvent)
        ensures
            final(self)@ == run_after(old(self)@, event),
    {
        match event {
            AgentEvent::TurnStart { .. } => {
                self.turns_left = self.turns_left.saturating_sub(1);
            },
            AgentEvent::Error(_) => {
                self.failed = true;
            },
            AgentEvent::AgentEnd { new_messages } => {
                let mut more = new_messages;
                self.ended = true;
                self.new_messages.append(&mut more);
            },
            _ => {},
        }
    }

    /// What the run adds to the history, if anything.
    pub(crate) fn into_messages(self) -> (messages: Option<Vec<Arc<AgentMessage>>>)
        ensures
            match messages {
                Some(messages) => is_completed(self@) && messages@ == seq![self@.user]
                    + self@.new_messages,
                None => !is_completed(self@),
            },
    {
        if self.ended && !self.failed {
            let mut messages: Vec<Arc<AgentMessage>> = Vec::new();
            let mut more = self.new_messages;
            messages.push(self.user);
            messages.append(&mut more);
            assert(messages@ =~= seq![self@.user] + self@.new_messages);
            Some(messages)
        } else {
            None
        }
    }
}

} // verus!
