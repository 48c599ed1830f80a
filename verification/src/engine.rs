//! Output engine, modelled as data: a module's run is a script of stages,
//! each a block of styled lines followed by a delay and, where the stage says
//! so, a poll of the exit signal. A `ScriptRunner` hands the stages out one
//! by one and goes silent the moment the signal is observed at a checkpoint;
//! `sleep_step` is the decision core of the cancellable sleep, which never
//! waits longer than one poll interval before looking at the signal again.

use vstd::prelude::*;

verus! {

/// Cosmetic colouring of a span; it never changes the characters printed.
#[derive(Clone, Copy, PartialEq, Eq, Structural, Debug)]
pub enum Style {
    Plain,
    Green,
    Yellow,
}

/// A run of characters printed in one style.
pub struct Span {
    pub text: String,
    pub style: Style,
}

/// One output line: its text is the concatenation of its spans' texts.
pub struct Line {
    pub spans: Vec<Span>,
}

/// One discrete unit of output: lines printed in order, then a delay, then,
/// if `checks_exit` holds, a poll of the exit signal before the next stage.
pub struct Stage {
    pub lines: Vec<Line>,
    pub delay: u64,
    pub checks_exit: bool,
}

/// A whole planned run of a module, stage by stage in program order.
pub struct Script {
    pub stages: Vec<Stage>,
}

/// Walks a script stage by stage. Between stages it is handed the exit
/// signal as currently observed; a signal seen right after a checking stage
/// cancels the rest of the run for good.
pub struct ScriptRunner {
    pub script: Script,
    pub pos: usize,
    pub cancelled: bool,
}

impl ScriptRunner {
    pub open spec fn wf(self) -> bool {
        self.pos <= self.script.stages@.len()
    }

    /// The stage just finished polls the exit signal.
    pub open spec fn at_checkpoint(self) -> bool {
        0 < self.pos <= self.script.stages@.len() && self.script.stages@[self.pos
            - 1].checks_exit
    }

    /// The transition the runner makes on one request for a stage, given the
    /// exit signal as observed at that moment.
    pub open spec fn spec_step(self, exit_observed: bool) -> (ScriptRunner, Option<usize>) {
        if self.cancelled {
            (self, None)
        } else if self.at_checkpoint() && exit_observed {
            (ScriptRunner { script: self.script, pos: self.pos, cancelled: true }, None)
        } else if (self.pos as int) < self.script.stages@.len() {
            (
                ScriptRunner {
                    script: self.script,
                    pos: (self.pos + 1) as usize,
                    cancelled: false,
                },
                Some(self.pos),
            )
        } else {
            (self, None)
        }
    }

    pub fn new(script: Script) -> (r: ScriptRunner)
        ensures
            r.script == script,
            r.pos == 0,
            !r.cancelled,
            r.wf(),
    {
        ScriptRunner { script, pos: 0, cancelled: false }
    }

    /// Asks for the next stage to emit. `exit_observed` is the exit signal as
    /// read from the shared run state at this very boundary. `None` means the
    /// run is over, by completion or by cancellation, and stays over.
    pub fn advance(&mut self, exit_observed: bool) -> (r: Option<usize>)
        requires
            old(self).wf(),
        ensures
            final(self).wf(),
            *final(self) == old(self).spec_step(exit_observed).0,
            r == old(self).spec_step(exit_observed).1,
            r is Some ==> r->0 == old(self).pos && (old(self).pos as int)
                < final(self).script.stages@.len(),
    {
        if self.cancelled {
            return None;
        }
        let len = self.script.stages.len();
        if self.pos > 0 && self.script.stages[self.pos - 1].checks_exit && exit_observed {
            self.cancelled = true;
            return None;
        }
        if self.pos < len {
            let i = self.pos;
            self.pos = i + 1;
            Some(i)
        } else {
            None
        }
    }

    /// Law: a cancelled runner never yields another stage, whatever the
    /// signal does afterwards, and its state no longer changes.
    pub proof fn lemma_cancelled_runner_stays_silent(self, exit_observed: bool)
        requires
            self.cancelled,
        ensures
            self.spec_step(exit_observed).0 == self,
            self.spec_step(exit_observed).1 is None,
    {
    }

    /// The runner's state after a whole sequence of stage requests, one per
    /// observation of the exit signal.
    pub open spec fn spec_run(self, exits: Seq<bool>) -> ScriptRunner
        decreases exits.len(),
    {
        if exits.len() == 0 {
            self
        } else {
            self.spec_step(exits[0]).0.spec_run(exits.drop_first())
        }
    }

    /// Law: cancellation is permanent. A cancelled runner is left unchanged
    /// by any sequence of further requests, whatever the signal does, so no
    /// stage after the observed signal is ever handed out.
    pub proof fn lemma_cancellation_is_permanent(self, exits: Seq<bool>)
        requires
            self.cancelled,
        ensures
            self.spec_run(exits) == self,
        decreases exits.len(),
    {
        if exits.len() > 0 {
            self.lemma_cancelled_runner_stays_silent(exits[0]);
            self.lemma_cancellation_is_permanent(exits.drop_first());
        }
    }

    /// Law: bounded cancellation latency. Once the signal is raised and stays
    /// raised, a runner whose every stage polls the signal hands out at most
    /// one more stage: the second request under the raised signal is empty.
    pub proof fn lemma_bounded_cancellation_latency(self)
        requires
            self.wf(),
            forall|i: int|
                0 <= i < self.script.stages@.len() ==> (#[trigger] self.script.stages@[i]).checks_exit,
        ensures
            self.spec_step(true).0.spec_step(true).1 is None,
    {
    }

    /// Law: at a checking stage boundary, a single observation of the raised
    /// signal ends the run at once — no stage comes out then, nor at any later
    /// request; observing the signal again changes nothing more.
    pub proof fn lemma_exit_observed_is_prompt(self, exit_later: bool)
        requires
            self.at_checkpoint(),
            !self.cancelled,
        ensures
            self.spec_step(true).1 is None,
            self.spec_step(true).0.cancelled,
            self.spec_step(true).0.spec_step(exit_later).1 is None,
            self.spec_step(true).0.spec_step(exit_later).0 == self.spec_step(true).0,
    {
    }
}

/// The span holds exactly the text `t`, in style `st`.
pub open spec fn span_is(sp: Span, t: Seq<char>, st: Style) -> bool {
    sp.text@ == t && sp.style == st
}

/// The line is one single span with text `t` in style `st`.
pub open spec fn single_span_line(l: Line, t: Seq<char>, st: Style) -> bool {
    l.spans@.len() == 1 && span_is(l.spans@[0], t, st)
}

/// Builds a one-span line.
pub fn single_line(text: String, style: Style) -> (l: Line)
    ensures
        single_span_line(l, text@, style),
{
    let mut spans: Vec<Span> = Vec::new();
    spans.push(Span { text, style });
    Line { spans }
}

/// Decision core of the cancellable sleep. Given how much of the requested
/// delay is left and the exit signal as observed now, it either ends the
/// sleep (`None`) or asks the host to wait one more bounded chunk: never more
/// than `poll_interval`, so a raised signal is seen after at most one poll
/// interval, never after the full remaining delay.
pub fn sleep_step(remaining: u64, poll_interval: u64, exit_observed: bool) -> (r: Option<u64>)
    requires
        poll_interval > 0,
    ensures
        exit_observed ==> r is None,
        !exit_observed && remaining == 0 ==> r is None,
        !exit_observed && remaining > 0 ==> r == Some(
            if remaining < poll_interval {
                remaining
            } else {
                poll_interval
            },
        ),
        r is Some ==> 0 < r->0 <= remaining && r->0 <= poll_interval,
{
    if exit_observed || remaining == 0 {
        None
    } else if remaining < poll_interval {
        Some(remaining)
    } else {
        Some(poll_interval)
    }
}

} // verus!
