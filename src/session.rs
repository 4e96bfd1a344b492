use vstd::prelude::*;

use crate::prompt::{assemble_prompt, assembled};
use crate::turn::{ChatError, ErrorView};

verus! {

/// Unicode's `White_Space` property.
pub open spec fn is_white_space(c: char) -> bool {
    let u = c as u32;
    ||| 0x9 <= u <= 0xd
    ||| u == 0x20
    ||| u == 0x85
    ||| u == 0xa0
    ||| u == 0x1680
    ||| 0x2000 <= u <= 0x200a
    ||| u == 0x2028
    ||| u == 0x2029
    ||| u == 0x202f
    ||| u == 0x205f
    ||| u == 0x3000
}

/// The text without its leading white space.
pub open spec fn trim_start(s: Seq<char>) -> Seq<char>
    decreases s.len(),
{
    if s.len() > 0 && is_white_space(s[0]) {
        trim_start(s.drop_first())
    } else {
        s
    }
}

/// The text without its trailing white space.
pub open spec fn trim_end(s: Seq<char>) -> Seq<char>
    decreases s.len(),
{
    if s.len() > 0 && is_white_space(s.last()) {
        trim_end(s.drop_last())
    } else {
        s
    }
}

/// The text without white space at either end.
pub open spec fn trimmed(s: Seq<char>) -> Seq<char> {
    trim_end(trim_start(s))
}

/// Relies on `str::trim`: it removes leading and trailing characters that
/// have Unicode's `White_Space` property, and nothing else.
#[verifier::external_body]
fn trim_line(s: &str) -> (r: &str)
    ensures
        r@ == trimmed(s@),
{
    s.trim()
}

/// What a trimmed input line asks for.
#[derive(Clone, Copy, PartialEq, Eq, Structural, Debug)]
pub enum LineKind {
    /// Nothing: read again.
    Blank,
    /// One of the exit commands.
    Quit,
    /// A message to send.
    Message,
}

/// The kind of a trimmed line.
pub open spec fn line_kind(t: Seq<char>) -> LineKind {
    if t.len() == 0 {
        LineKind::Blank
    } else if t == ":q"@ || t == ":quit"@ {
        LineKind::Quit
    } else {
        LineKind::Message
    }
}

/// Classifies an already trimmed line.
pub fn classify(t: &str) -> (r: LineKind)
    ensures
        r == line_kind(t@),
{
    if t.is_empty() {
        LineKind::Blank
    } else {
        let owned = t.to_owned();
        if owned == ":q".to_owned() || owned == ":quit".to_owned() {
            LineKind::Quit
        } else {
            LineKind::Message
        }
    }
}

/// Classifies a raw input line: the kind of the line once trimmed.
pub fn classify_line(line: &str) -> (r: LineKind)
    ensures
        r == line_kind(trimmed(line@)),
{
    classify(trim_line(line))
}

/// How a session runs: one turn, or turns until told to stop.
#[derive(Clone, Copy, PartialEq, Eq, Structural, Debug)]
pub enum Mode {
    OneShot,
    Interactive,
}

/// What the session asks its driver to do next.
pub enum Action {
    /// Read one line of input.
    ReadLine,
    /// Show the user's own message.
    ShowMessage(String),
    /// Send this prompt to the service.
    Send(String),
    /// Show the service's reply.
    ShowReply(String),
    /// Show a failed turn; the session goes on.
    ShowError(ChatError),
    /// Stop; the run succeeded.
    Exit,
    /// Stop; the run failed.
    Fail(ChatError),
}

/// What the driver reports back.
pub enum Event {
    /// A line was read.
    Line(String),
    /// There is no more input.
    EndOfInput,
    /// The service replied with this text.
    Replied(String),
    /// The exchange failed.
    Failed(ChatError),
    /// What was to be shown has been shown.
    Shown,
}

/// The abstract value of an action.
pub enum ActionView {
    ReadLine,
    ShowMessage(Seq<char>),
    Send(Seq<char>),
    ShowReply(Seq<char>),
    ShowError(ErrorView),
    Exit,
    Fail(ErrorView),
}

/// The abstract value of an event.
pub enum EventView {
    Line(Seq<char>),
    EndOfInput,
    Replied(Seq<char>),
    Failed(ErrorView),
    Shown,
}

impl View for Action {
    type V = ActionView;

    open spec fn view(&self) -> ActionView {
        match self {
            Action::ReadLine => ActionView::ReadLine,
            Action::ShowMessage(m) => ActionView::ShowMessage(m@),
            Action::Send(p) => ActionView::Send(p@),
            Action::ShowReply(r) => ActionView::ShowReply(r@),
            Action::ShowError(e) => ActionView::ShowError(e@),
            Action::Exit => ActionView::Exit,
            Action::Fail(e) => ActionView::Fail(e@),
        }
    }
}

impl View for Event {
    type V = EventView;

    open spec fn view(&self) -> EventView {
        match self {
            Event::Line(l) => EventView::Line(l@),
            Event::EndOfInput => EventView::EndOfInput,
            Event::Replied(r) => EventView::Replied(r@),
            Event::Failed(e) => EventView::Failed(e@),
            Event::Shown => EventView::Shown,
        }
    }
}

impl Action {
    /// A copy of the action.
    pub fn duplicate(&self) -> (r: Action)
        ensures
            r@ == self@,
    {
        match self {
            Action::ReadLine => Action::ReadLine,
            Action::ShowMessage(m) => Action::ShowMessage(m.clone()),
            Action::Send(p) => Action::Send(p.clone()),
            Action::ShowReply(r) => Action::ShowReply(r.clone()),
            Action::ShowError(e) => Action::ShowError(e.duplicate()),
            Action::Exit => Action::Exit,
            Action::Fail(e) => Action::Fail(e.duplicate()),
        }
    }
}

/// What an input line leads to: read again on a blank line, stop on an exit
/// command, else send the line, trimmed, with the context.
pub open spec fn after_line(context: Seq<char>, line: Seq<char>) -> ActionView {
    let t = trimmed(line);
    match line_kind(t) {
        LineKind::Blank => ActionView::ReadLine,
        LineKind::Quit => ActionView::Exit,
        LineKind::Message => ActionView::Send(assembled(context, t)),
    }
}

/// The session's transition: the action that follows the pending one once
/// the driver reports an event. An event that does not answer the pending
/// action changes nothing.
pub open spec fn next(
    mode: Mode,
    context: Seq<char>,
    pending: ActionView,
    event: EventView,
) -> ActionView {
    match (pending, event) {
        (ActionView::ReadLine, EventView::Line(l)) => after_line(context, l),
        (ActionView::ReadLine, EventView::EndOfInput) => ActionView::Exit,
        (ActionView::ShowMessage(m), EventView::Shown) => ActionView::Send(assembled(context, m)),
        (ActionView::Send(_), EventView::Replied(r)) => ActionView::ShowReply(r),
        (ActionView::Send(_), EventView::Failed(e)) => if mode == Mode::Interactive {
            ActionView::ShowError(e)
        } else {
            ActionView::Fail(e)
        },
        (ActionView::ShowReply(_), EventView::Shown) => if mode == Mode::Interactive {
            ActionView::ReadLine
        } else {
            ActionView::Exit
        },
        (ActionView::ShowError(_), EventView::Shown) => ActionView::ReadLine,
        _ => pending,
    }
}

/// In an interactive session that waits on input, a line that is blank once
/// trimmed leads to reading again, an exit command (`:q` or `:quit`, with
/// any white space round it) ends the session, and the end of input ends
/// it too; none of these sends anything.
pub proof fn lemma_lines_without_turn(context: Seq<char>, line: Seq<char>)
    ensures
        trimmed(line).len() == 0 ==> next(
            Mode::Interactive,
            context,
            ActionView::ReadLine,
            EventView::Line(line),
        ) == ActionView::ReadLine,
        (trimmed(line) == ":q"@ || trimmed(line) == ":quit"@) ==> next(
            Mode::Interactive,
            context,
            ActionView::ReadLine,
            EventView::Line(line),
        ) == ActionView::Exit,
        next(Mode::Interactive, context, ActionView::ReadLine, EventView::EndOfInput)
            == ActionView::Exit,
{
    reveal_strlit(":q");
    reveal_strlit(":quit");
}

/// In an interactive session, any other line is sent once, trimmed, with
/// the context before it.
pub proof fn lemma_message_line_sends(context: Seq<char>, line: Seq<char>)
    requires
        trimmed(line).len() > 0,
        trimmed(line) != ":q"@,
        trimmed(line) != ":quit"@,
    ensures
        next(Mode::Interactive, context, ActionView::ReadLine, EventView::Line(line))
            == ActionView::Send(assembled(context, trimmed(line))),
{
}

/// A failed turn does not end an interactive session: the failure is shown,
/// then the session reads input again, and the next message line is sent.
pub proof fn lemma_failed_turn_recovers(
    context: Seq<char>,
    prompt: Seq<char>,
    failure: ErrorView,
    line: Seq<char>,
)
    requires
        line_kind(trimmed(line)) == LineKind::Message,
    ensures
        ({
            let a1 = next(
                Mode::Interactive,
                context,
                ActionView::Send(prompt),
                EventView::Failed(failure),
            );
            let a2 = next(Mode::Interactive, context, a1, EventView::Shown);
            let a3 = next(Mode::Interactive, context, a2, EventView::Line(line));
            &&& a1 == ActionView::ShowError(failure)
            &&& a2 == ActionView::ReadLine
            &&& a3 == ActionView::Send(assembled(context, trimmed(line)))
        }),
{
}

/// An interactive session never reaches a failed end: whatever the driver
/// reports, a session that has not failed does not fail.
pub proof fn lemma_interactive_never_fails(
    context: Seq<char>,
    pending: ActionView,
    event: EventView,
)
    requires
        !(pending is Fail),
    ensures
        !(next(Mode::Interactive, context, pending, event) is Fail),
{
}

/// A single-turn session that fails its exchange ends failed with that
/// failure; one that gets a reply shows it and then ends cleanly.
pub proof fn lemma_one_shot_outcomes(
    context: Seq<char>,
    prompt: Seq<char>,
    failure: ErrorView,
    reply: Seq<char>,
)
    ensures
        next(Mode::OneShot, context, ActionView::ShowMessage(prompt), EventView::Shown)
            == ActionView::Send(assembled(context, prompt)),
        next(Mode::OneShot, context, ActionView::Send(prompt), EventView::Failed(failure))
            == ActionView::Fail(failure),
        next(Mode::OneShot, context, ActionView::Send(prompt), EventView::Replied(reply))
            == ActionView::ShowReply(reply),
        next(Mode::OneShot, context, ActionView::ShowReply(reply), EventView::Shown)
            == ActionView::Exit,
{
}

/// The action pending after the driver reports each event in turn.
pub open spec fn run(
    mode: Mode,
    context: Seq<char>,
    pending: ActionView,
    events: Seq<EventView>,
) -> ActionView
    decreases events.len(),
{
    if events.len() == 0 {
        pending
    } else {
        run(mode, context, next(mode, context, pending, events[0]), events.drop_first())
    }
}

/// The event with a failed exchange reported as a successful one.
pub open spec fn as_success(event: EventView) -> EventView {
    match event {
        EventView::Failed(_) => EventView::Replied(Seq::empty()),
        _ => event,
    }
}

/// An action with what is shown for a turn's outcome left out: showing a
/// failure and showing a reply look the same.
pub open spec fn shape(a: ActionView) -> ActionView {
    match a {
        ActionView::ShowError(_) => ActionView::ShowReply(Seq::empty()),
        ActionView::ShowReply(_) => ActionView::ShowReply(Seq::empty()),
        _ => a,
    }
}

proof fn lemma_run_shape(
    context: Seq<char>,
    a: ActionView,
    b: ActionView,
    events: Seq<EventView>,
)
    requires
        shape(a) == shape(b),
    ensures
        shape(run(Mode::Interactive, context, a, events)) == shape(
            run(Mode::Interactive, context, b, events.map_values(|e: EventView| as_success(e))),
        ),
    decreases events.len(),
{
    let blind = events.map_values(|e: EventView| as_success(e));
    if events.len() > 0 {
        assert(blind[0] == as_success(events[0]));
        assert(blind.drop_first() =~= events.drop_first().map_values(
            |e: EventView| as_success(e),
        ));
        lemma_run_shape(
            context,
            next(Mode::Interactive, context, a, events[0]),
            next(Mode::Interactive, context, b, blind[0]),
            events.drop_first(),
        );
    }
}

/// Failed turns never change the course of an interactive session: after
/// any sequence of events, the session waits on the same kind of action
/// (the same read, the same prompt to send, the same end) as it would had
/// every exchange succeeded; only what is shown for a turn differs.
pub proof fn lemma_failures_keep_course(
    context: Seq<char>,
    pending: ActionView,
    events: Seq<EventView>,
)
    ensures
        shape(run(Mode::Interactive, context, pending, events)) == shape(
            run(
                Mode::Interactive,
                context,
                pending,
                events.map_values(|e: EventView| as_success(e)),
            ),
        ),
{
    lemma_run_shape(context, pending, pending, events);
}

/// No sequence of events brings an interactive session to a failed end.
pub proof fn lemma_interactive_run_never_fails(
    context: Seq<char>,
    pending: ActionView,
    events: Seq<EventView>,
)
    requires
        !(pending is Fail),
    ensures
        !(run(Mode::Interactive, context, pending, events) is Fail),
    decreases events.len(),
{
    if events.len() > 0 {
        lemma_interactive_never_fails(context, pending, events[0]);
        lemma_interactive_run_never_fails(
            context,
            next(Mode::Interactive, context, pending, events[0]),
            events.drop_first(),
        );
    }
}

/// The abstract value of a session.
pub struct SessionView {
    pub mode: Mode,
    pub context: Seq<char>,
    pub pending: ActionView,
}

/// A running session: its mode, the file context fixed at its start, and
/// the action it waits on.
pub struct Session {
    mode: Mode,
    context: String,
    pending: Action,
}

impl View for Session {
    type V = SessionView;

    closed spec fn view(&self) -> SessionView {
        SessionView { mode: self.mode, context: self.context@, pending: self.pending@ }
    }
}

impl Session {
    /// A single-turn session: it shows the message, trimmed, sends it with
    /// the context, shows the reply and stops.
    pub fn one_shot(context: String, message: String) -> (r: Session)
        ensures
            r@ == (SessionView {
                mode: Mode::OneShot,
                context: context@,
                pending: ActionView::ShowMessage(trimmed(message@)),
            }),
    {
        let m = trim_line(message.as_str()).to_owned();
        Session { mode: Mode::OneShot, context, pending: Action::ShowMessage(m) }
    }

    /// An interactive session: it reads lines until an exit command or the
    /// end of input.
    pub fn interactive(context: String) -> (r: Session)
        ensures
            r@ == (SessionView {
                mode: Mode::Interactive,
                context: context@,
                pending: ActionView::ReadLine,
            }),
    {
        Session { mode: Mode::Interactive, context, pending: Action::ReadLine }
    }

    /// The action the session waits on.
    pub fn action(&self) -> (r: Action)
        ensures
            r@ == self@.pending,
    {
        self.pending.duplicate()
    }

    /// Whether the session carries file context.
    pub fn has_context(&self) -> (r: bool)
        ensures
            r == (self@.context.len() > 0),
    {
        !self.context.as_str().is_empty()
    }

    fn after_line(&self, line: &str) -> (r: Action)
        ensures
            r@ == after_line(self@.context, line@),
    {
        let t = trim_line(line);
        match classify(t) {
            LineKind::Blank => Action::ReadLine,
            LineKind::Quit => Action::Exit,
            LineKind::Message => Action::Send(assemble_prompt(self.context.as_str(), t)),
        }
    }

    /// Takes the driver's report on the pending action and returns the next
    /// action. Mode and context never change.
    pub fn step(&mut self, event: Event) -> (r: Action)
        ensures
            final(self)@ == (SessionView {
                mode: old(self)@.mode,
                context: old(self)@.context,
                pending: next(old(self)@.mode, old(self)@.context, old(self)@.pending, event@),
            }),
            r@ == final(self)@.pending,
    {
        let next_action = match event {
            Event::Line(line) => match &self.pending {
                Action::ReadLine => self.after_line(line.as_str()),
                _ => self.pending.duplicate(),
            },
            Event::EndOfInput => match &self.pending {
                Action::ReadLine => Action::Exit,
                _ => self.pending.duplicate(),
            },
            Event::Replied(reply) => match &self.pending {
                Action::Send(_) => Action::ShowReply(reply),
                _ => self.pending.duplicate(),
            },
            Event::Failed(e) => match &self.pending {
                Action::Send(_) => match self.mode {
                    Mode::Interactive => Action::ShowError(e),
                    Mode::OneShot => Action::Fail(e),
                },
                _ => self.pending.duplicate(),
            },
            Event::Shown => match &self.pending {
                Action::ShowMessage(m) => Action::Send(
                    assemble_prompt(self.context.as_str(), m.as_str()),
                ),
                Action::ShowReply(_) => match self.mode {
                    Mode::Interactive => Action::ReadLine,
                    Mode::OneShot => Action::Exit,
                },
                Action::ShowError(_) => Action::ReadLine,
                _ => self.pending.duplicate(),
            },
        };
        self.pending = next_action;
        self.pending.duplicate()
    }
}

} // verus!
