//! The interactive front end's decisions: what each key press, finished run
//! and output line does to the screen state, and when a run starts or
//! resumes. At most one run is in flight; the caller spawns what it is told
//! to and reports back.

use vstd::prelude::*;
use crate::controller::{LoopOutcome, PromptType, StepView};
use crate::text::{chars_of, concat2, owned, pop_char, push_char, string_of};
use crate::tui::{history_view, Tui};

verus! {

/// A key press, as the front end tells keys apart.
#[derive(Clone, Copy, Debug, PartialEq, Eq, Structural)]
pub enum Key {
    Char(char),
    Backspace,
    Enter,
    Up,
    Esc,
    Other,
}

/// What the caller does after an input event.
#[derive(Clone, Debug)]
pub enum Command {
    Nothing,
    /// Start a run for a new request.
    StartRun(String),
    /// Resume the suspended run with the approval decision.
    ResumeApproval(bool),
    /// Resume the suspended run with the clarification answer.
    ResumeClarification(String),
}

pub enum CommandView {
    Nothing,
    StartRun(Seq<char>),
    ResumeApproval(bool),
    ResumeClarification(Seq<char>),
}

impl Command {
    pub open spec fn view(self) -> CommandView {
        match self {
            Command::Nothing => CommandView::Nothing,
            Command::StartRun(s) => CommandView::StartRun(s@),
            Command::ResumeApproval(b) => CommandView::ResumeApproval(b),
            Command::ResumeClarification(s) => CommandView::ResumeClarification(s@),
        }
    }
}

/// The front end's state as plain values. A prompt is (is an approval, text).
pub struct AppView {
    pub input: Seq<char>,
    pub history: Seq<Seq<char>>,
    pub should_quit: bool,
    pub processing: bool,
    pub prompt: Option<(bool, Seq<char>)>,
    pub approval: Option<bool>,
}

pub open spec fn user_prefix() -> Seq<char> {
    seq!['U', 's', 'e', 'r', ':', ' ']
}

pub open spec fn is_user_line(s: Seq<char>) -> bool {
    s.len() >= 6 && s.subrange(0, 6) == user_prefix()
}

/// The request of the latest "User: " line in the history.
pub open spec fn last_request(h: Seq<Seq<char>>) -> Option<Seq<char>>
    decreases h.len(),
{
    if h.len() == 0 {
        None
    } else if is_user_line(h.last()) {
        Some(h.last().subrange(6, h.last().len() as int))
    } else {
        last_request(h.drop_last())
    }
}

pub open spec fn approval_key(c: char) -> Option<bool> {
    if c == 'y' || c == 'Y' {
        Some(true)
    } else if c == 'n' || c == 'N' {
        Some(false)
    } else {
        None
    }
}

pub open spec fn quit_key(k: Key) -> bool {
    k is Esc || k == Key::Char('\u{4}')
}

/// A key press. Quitting is always possible; while a run is in flight every
/// other key is ignored. Typed characters are buffered; with an approval
/// outstanding, y/Y/n/N also record the decision. Enter resumes the
/// suspended run with the decision or the answer, or else starts a run.
pub open spec fn after_key(a: AppView, k: Key) -> (AppView, CommandView) {
    if quit_key(k) {
        (AppView { should_quit: true, ..a }, CommandView::Nothing)
    } else if a.processing {
        (a, CommandView::Nothing)
    } else {
        match k {
            Key::Char(c) => {
                let decision = if a.prompt matches Some(p) && p.0 && approval_key(c) is Some {
                    approval_key(c)
                } else {
                    a.approval
                };
                (AppView { input: a.input.push(c), approval: decision, ..a }, CommandView::Nothing)
            },
            Key::Backspace => {
                let input = if a.input.len() > 0 {
                    a.input.drop_last()
                } else {
                    a.input
                };
                (AppView { input, ..a }, CommandView::Nothing)
            },
            Key::Up => {
                if a.prompt is None && last_request(a.history) is Some {
                    (AppView { input: last_request(a.history)->Some_0, ..a }, CommandView::Nothing)
                } else {
                    (a, CommandView::Nothing)
                }
            },
            Key::Enter => match a.prompt {
                Some(p) => {
                    if p.0 {
                        match a.approval {
                            Some(b) => (
                                AppView {
                                    input: Seq::empty(),
                                    history: a.history.push("Processing approval..."@),
                                    processing: true,
                                    prompt: None,
                                    approval: None,
                                    ..a
                                },
                                CommandView::ResumeApproval(b),
                            ),
                            None => (AppView { input: Seq::empty(), ..a }, CommandView::Nothing),
                        }
                    } else {
                        (
                            AppView {
                                input: Seq::empty(),
                                history: a.history.push(user_prefix() + a.input).push(
                                    "Processing clarification..."@,
                                ),
                                processing: true,
                                prompt: None,
                                ..a
                            },
                            CommandView::ResumeClarification(a.input),
                        )
                    }
                },
                None => (
                    AppView {
                        input: Seq::empty(),
                        history: a.history.push(user_prefix() + a.input).push(
                            "Processing request..."@,
                        ),
                        processing: true,
                        ..a
                    },
                    CommandView::StartRun(a.input),
                ),
            },
            _ => (a, CommandView::Nothing),
        }
    }
}

/// A run stopped: input is accepted again; a suspension shows its prompt
/// and waits for the answer, a failure shows its error.
pub open spec fn after_outcome(a: AppView, o: StepView) -> AppView {
    let b = AppView { processing: false, ..a };
    match o {
        StepView::Suspended(is_approval, text) => AppView {
            history: a.history.push(
                if is_approval {
                    "Approval: "@
                } else {
                    "Clarification: "@
                } + text,
            ),
            prompt: Some((is_approval, text)),
            input: if is_approval {
                a.input
            } else {
                Seq::empty()
            },
            ..b
        },
        StepView::Failed(e) => AppView { history: a.history.push("Error: "@ + e), ..b },
        _ => b,
    }
}

/// A prompt is outstanding only while no run is in flight: a run stops
/// before it asks, and answering it starts the run again.
pub open spec fn app_wf(a: AppView) -> bool {
    a.processing ==> a.prompt is None
}

/// Every transition keeps the front end well formed, and a finished run
/// makes it so.
pub proof fn lemma_app_wf_kept(a: AppView, k: Key, o: StepView, line: Seq<char>)
    ensures
        app_wf(a) ==> app_wf(after_key(a, k).0),
        app_wf(after_outcome(a, o)),
        app_wf(a) ==> app_wf(AppView { history: a.history.push(line), ..a }),
{
}

pub open spec fn outcome_view(o: LoopOutcome) -> StepView {
    match o {
        LoopOutcome::Completed => StepView::Completed,
        LoopOutcome::Suspended(p) => StepView::Suspended(p.is_approval(), p.text()),
        LoopOutcome::Failed(e) => StepView::Failed(e@),
    }
}

/// The front end and the settings that each run is started with.
pub struct App {
    pub tui: Tui,
    pub should_quit: bool,
    pub model: String,
    pub retries: u32,
    pub max_tokens: u32,
    pub max_tool_calls: u32,
    pub base_url: String,
    pub verbose: bool,
    pub tool_call_details: bool,
    pub disable_agents_md: bool,
    pub yolo: bool,
    pub continue_task: bool,
    pub plan: bool,
    pub ui_mode: bool,
    /// A run is in flight.
    pub processing: bool,
    /// The suspension that the next Enter answers.
    pub pending_prompt: Option<PromptType>,
    /// The approval decision typed so far.
    pub pending_approval: Option<bool>,
}

impl App {
    pub open spec fn wf(&self) -> bool {
        app_wf(self.view())
    }

    pub open spec fn view(&self) -> AppView {
        AppView {
            input: self.tui.input@,
            history: history_view(self.tui.history@),
            should_quit: self.should_quit,
            processing: self.processing,
            prompt: match self.pending_prompt {
                Some(p) => Some((p.is_approval(), p.text())),
                None => None,
            },
            approval: self.pending_approval,
        }
    }

    pub fn new(
        model: String,
        retries: u32,
        max_tokens: u32,
        max_tool_calls: u32,
        base_url: String,
        verbose: bool,
        tool_call_details: bool,
        disable_agents_md: bool,
        yolo: bool,
        continue_task: bool,
        plan: bool,
        ui_mode: bool,
    ) -> (r: App)
        ensures
            r.wf(),
            r.view() == (AppView {
                input: Seq::empty(),
                history: Seq::empty(),
                should_quit: false,
                processing: false,
                prompt: None,
                approval: None,
            }),
            r.model == model,
            r.retries == retries,
            r.max_tokens == max_tokens,
            r.max_tool_calls == max_tool_calls,
            r.base_url == base_url,
            r.verbose == verbose,
            r.tool_call_details == tool_call_details,
            r.disable_agents_md == disable_agents_md,
            r.yolo == yolo,
            r.continue_task == continue_task,
            r.plan == plan,
            r.ui_mode == ui_mode,
    {
        let r = App {
            tui: Tui::new(),
            should_quit: false,
            model,
            retries,
            max_tokens,
            max_tool_calls,
            base_url,
            verbose,
            tool_call_details,
            disable_agents_md,
            yolo,
            continue_task,
            plan,
            ui_mode,
            processing: false,
            pending_prompt: None,
            pending_approval: None,
        };
        assert(history_view(r.tui.history@) =~= Seq::empty());
        r
    }

    /// Takes a key press.
    pub fn on_key(&mut self, key: Key) -> (c: Command)
        ensures
            (final(self).view(), c.view()) == after_key(old(self).view(), key),
            old(self).wf() ==> final(self).wf(),
    {
        if matches!(key, Key::Esc) || key == Key::Char('\u{4}') {
            self.should_quit = true;
            return Command::Nothing;
        }
        if self.processing {
            return Command::Nothing;
        }
        match key {
            Key::Char(c) => {
                let is_approval = matches!(self.pending_prompt, Some(PromptType::Approval(_)));
                if is_approval && (c == 'y' || c == 'Y') {
                    self.pending_approval = Some(true);
                } else if is_approval && (c == 'n' || c == 'N') {
                    self.pending_approval = Some(false);
                }
                push_char(&mut self.tui.input, c);
                Command::Nothing
            },
            Key::Backspace => {
                pop_char(&mut self.tui.input);
                Command::Nothing
            },
            Key::Up => {
                if self.pending_prompt.is_none() {
                    match last_request_in(&self.tui.history) {
                        Some(s) => {
                            self.tui.input = s;
                        },
                        None => {},
                    }
                }
                Command::Nothing
            },
            Key::Enter => self.on_enter(),
            _ => Command::Nothing,
        }
    }

    fn on_enter(&mut self) -> (c: Command)
        requires
            !old(self).processing,
        ensures
            (final(self).view(), c.view()) == after_key(old(self).view(), Key::Enter),
    {
        let is_approval = matches!(self.pending_prompt, Some(PromptType::Approval(_)));
        if is_approval {
            match self.pending_approval {
                Some(b) => {
                    self.tui.input = String::new();
                    self.tui.add_to_history(owned("Processing approval..."));
                    self.processing = true;
                    self.pending_prompt = None;
                    self.pending_approval = None;
                    Command::ResumeApproval(b)
                },
                None => {
                    self.tui.input = String::new();
                    Command::Nothing
                },
            }
        } else {
            let text = owned(self.tui.input.as_str());
            self.tui.input = String::new();
            let line = concat2("User: ", text.as_str());
            proof {
                reveal_strlit("User: ");
                assert("User: "@ =~= user_prefix());
            }
            self.tui.add_to_history(line);
            if self.pending_prompt.is_some() {
                self.tui.add_to_history(owned("Processing clarification..."));
                self.processing = true;
                self.pending_prompt = None;
                Command::ResumeClarification(text)
            } else {
                self.tui.add_to_history(owned("Processing request..."));
                self.processing = true;
                Command::StartRun(text)
            }
        }
    }

    /// Takes the outcome of the run in flight.
    pub fn on_outcome(&mut self, outcome: LoopOutcome)
        ensures
            final(self).view() == after_outcome(old(self).view(), outcome_view(outcome)),
            final(self).wf(),
    {
        self.processing = false;
        match outcome {
            LoopOutcome::Suspended(p) => {
                let line = match &p {
                    PromptType::Approval(m) => concat2("Approval: ", m.as_str()),
                    PromptType::Clarification(m) => concat2("Clarification: ", m.as_str()),
                };
                self.tui.add_to_history(line);
                if matches!(p, PromptType::Clarification(_)) {
                    self.tui.input = String::new();
                }
                self.pending_prompt = Some(p);
            },
            LoopOutcome::Failed(e) => {
                self.tui.add_to_history(concat2("Error: ", e.as_str()));
            },
            LoopOutcome::Completed => {},
        }
    }

    /// Takes a line of live output from the run in flight.
    pub fn on_output(&mut self, line: String)
        ensures
            old(self).wf() ==> final(self).wf(),
            final(self).view() == (AppView {
                history: old(self).view().history.push(line@),
                ..old(self).view()
            }),
    {
        self.tui.add_to_history(line);
    }
}

/// The request of the latest "User: " line in the history.
fn last_request_in(h: &Vec<String>) -> (r: Option<String>)
    ensures
        match r {
            Some(s) => last_request(history_view(h@)) == Some(s@),
            None => last_request(history_view(h@)) is None,
        },
{
    let ghost all = history_view(h@);
    let mut i: usize = h.len();
    assert(all.subrange(0, i as int) =~= all);
    while i > 0
        invariant
            i <= h@.len(),
            all == history_view(h@),
            last_request(all) == last_request(all.subrange(0, i as int)),
        decreases i,
    {
        let cs = chars_of(h[i - 1].as_str());
        let ghost pre = all.subrange(0, i as int);
        assert(pre.last() == cs@);
        assert(pre.drop_last() =~= all.subrange(0, i - 1));
        if cs.len() >= 6 && cs[0] == 'U' && cs[1] == 's' && cs[2] == 'e' && cs[3] == 'r' && cs[4]
            == ':' && cs[5] == ' ' {
            assert(cs@.subrange(0, 6) =~= user_prefix());
            let mut rest: Vec<char> = Vec::new();
            let mut j: usize = 6;
            while j < cs.len()
                invariant
                    6 <= j <= cs@.len(),
                    rest@ =~= cs@.subrange(6, j as int),
                decreases cs@.len() - j,
            {
                rest.push(cs[j]);
                j = j + 1;
            }
            return Some(string_of(rest.as_slice()));
        }
        assert(!is_user_line(cs@));
        i = i - 1;
    }
    assert(all.subrange(0, 0) =~= Seq::<Seq<char>>::empty());
    None
}

/// While a run is in flight no input starts or resumes another: every key
/// but quit leaves the state as it was and commands nothing.
pub proof fn lemma_single_in_flight(a: AppView, k: Key)
    requires
        a.processing,
        !quit_key(k),
    ensures
        after_key(a, k).0 == a,
        after_key(a, k).1 is Nothing,
{
}

/// Only a front end with no run in flight starts or resumes one, and doing
/// so marks a run as in flight.
pub proof fn lemma_start_marks_processing(a: AppView, k: Key)
    ensures
        !(after_key(a, k).1 is Nothing) ==> !a.processing && after_key(a, k).0.processing,
{
}

} // verus!
