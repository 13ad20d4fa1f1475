use vstd::prelude::*;
use crate::context::ActionContext;
use crate::domain::{log_view, Automation, Event, EventView, MouseButton};
use crate::text::join3;

verus! {

/// A named, fallible unit of work run against the shared context.
pub trait Action {
    /// The stable name reported in events; every action of this library gives its own.
    open spec fn label(&self) -> Seq<char> {
        Seq::empty()
    }

    fn name(&self) -> (r: &'static str)
        ensures
            r@ == self.label(),
    ;

    fn execute<A: Automation>(&self, automation: &A, context: &mut ActionContext) -> (r: Result<(), String>)
        requires
            old(context).wf(),
        ensures
            final(context).wf(),
    ;
}

/// Moves the pointer to a screen position.
pub struct MoveCursor {
    pub x: u32,
    pub y: u32,
}

impl Action for MoveCursor {
    open spec fn label(&self) -> Seq<char> {
        "MoveCursor"@
    }

    fn name(&self) -> (r: &'static str) {
        "MoveCursor"
    }

    fn execute<A: Automation>(&self, automation: &A, context: &mut ActionContext) -> (r: Result<(), String>)
        ensures
            *final(context) == *old(context),
    {
        automation.move_cursor(self.x, self.y)
    }
}

/// Clicks a mouse button.
pub struct Click {
    pub button: MouseButton,
}

impl Action for Click {
    open spec fn label(&self) -> Seq<char> {
        "Click"@
    }

    fn name(&self) -> (r: &'static str) {
        "Click"
    }

    fn execute<A: Automation>(&self, automation: &A, context: &mut ActionContext) -> (r: Result<(), String>)
        ensures
            *final(context) == *old(context),
    {
        automation.click(self.button)
    }
}

/// What a typing step sends to the automation collaborator.
#[derive(Debug, Clone)]
pub enum Keystroke {
    /// One named key press.
    Key(String),
    /// Literal text.
    Text(String),
}

/// Whether `s` is the inline key syntax `{Key:<name>}`.
pub open spec fn is_key_syntax(s: Seq<char>) -> bool {
    s.len() >= 6 && s.subrange(0, 5) == "{Key:"@ && s.last() == '}'
}

/// What typing `expanded` sends: a key press for `{Key:<name>}`, else the text itself.
pub open spec fn keystroke_of(expanded: Seq<char>) -> (bool, Seq<char>) {
    if is_key_syntax(expanded) {
        (true, expanded.subrange(5, expanded.len() - 1))
    } else {
        (false, expanded)
    }
}

impl Keystroke {
    pub open spec fn view_pair(&self) -> (bool, Seq<char>) {
        match self {
            Keystroke::Key(k) => (true, k@),
            Keystroke::Text(t) => (false, t@),
        }
    }
}

/// Classifies already expanded text as a key press or literal typing.
pub fn keystroke_for(expanded: &str) -> (r: Keystroke)
    ensures
        r.view_pair() == keystroke_of(expanded@),
{
    proof {
        reveal_strlit("{Key:");
    }
    let n = expanded.unicode_len();
    if n >= 6 && expanded.get_char(n - 1) == '}' {
        let head = String::from_str(expanded.substring_char(0, 5));
        let marker = String::from_str("{Key:");
        if head == marker {
            let name = String::from_str(expanded.substring_char(5, n - 1));
            return Keystroke::Key(name);
        }
    }
    Keystroke::Text(String::from_str(expanded))
}

/// Types text after `$name` expansion; `{Key:<name>}` presses the named key instead.
pub struct TypeText {
    pub text: String,
}

impl TypeText {
    /// What this step sends, given the variables of `context`.
    pub fn plan(&self, context: &ActionContext) -> (r: Keystroke)
        ensures
            r.view_pair() == keystroke_of(crate::context::expand_from(context.entries(), self.text@, 0)),
    {
        let expanded = context.expand(self.text.as_str());
        keystroke_for(expanded.as_str())
    }
}

impl Action for TypeText {
    open spec fn label(&self) -> Seq<char> {
        "Type"@
    }

    fn name(&self) -> (r: &'static str) {
        "Type"
    }

    fn execute<A: Automation>(&self, automation: &A, context: &mut ActionContext) -> (r: Result<(), String>)
        ensures
            *final(context) == *old(context),
    {
        match self.plan(context) {
            Keystroke::Key(k) => automation.key(k.as_str()),
            Keystroke::Text(t) => automation.type_text(t.as_str()),
        }
    }
}

/// The error text reported when action `name` fails with `e`.
pub open spec fn failure_message(name: Seq<char>, e: Seq<char>) -> Seq<char> {
    "action '"@ + name + "': "@ + e
}

/// The events of `k` actions that all succeeded.
pub open spec fn ok_trace(names: Seq<Seq<char>>, k: nat) -> Seq<EventView>
    decreases k,
{
    if k == 0 {
        Seq::empty()
    } else {
        ok_trace(names, (k - 1) as nat) + seq![
            EventView::ActionStarted { action: names[k - 1] },
            EventView::ActionCompleted { action: names[k - 1], success: true },
        ]
    }
}

/// The reason recorded with a termination request, with a fallback when none was given.
pub open spec fn reason_or_default(c: ActionContext) -> Seq<char> {
    match c.reason() {
        Some(r) => r,
        None => "termination_requested"@,
    }
}

/// How a run of `names` ended, given the events it appended (`added`) and its result.
/// Exactly `k` actions succeeded, in order; then either nothing more ran (all done), or a
/// termination request stopped the run, or action `k` failed with an error.
pub open spec fn run_outcome(
    names: Seq<Seq<char>>,
    k: int,
    added: Seq<EventView>,
    r: bool,
    after: ActionContext,
) -> bool {
    &&& 0 <= k <= names.len()
    &&& 2 * k <= added.len()
    &&& added.subrange(0, 2 * k) == ok_trace(names, k as nat)
    &&& {
        let tail = added.subrange(2 * k, added.len() as int);
        ||| (r && k == names.len() && tail.len() == 0 && (k > 0 ==> !after.should_terminate))
        ||| (r && k > 0 && after.should_terminate && tail == seq![
            EventView::TerminationCheckTriggered { reason: reason_or_default(after) },
        ])
        ||| (!r && k < names.len() && exists|e: Seq<char>|
            tail == seq![
                EventView::ActionStarted { action: names[k] },
                EventView::Error { message: #[trigger] failure_message(names[k], e) },
                EventView::ActionCompleted { action: names[k], success: false },
            ])
    }
}

/// Pause between two consecutive actions, so that focus and visibility changes settle.
pub const ACTION_SETTLE_MS: u64 = 50;

/// Actions run strictly in order, stopping at the first failure.
pub struct ActionSequence<X> {
    pub actions: Vec<X>,
}

impl<X: Action> ActionSequence<X> {
    pub open spec fn names(&self) -> Seq<Seq<char>> {
        self.actions@.map_values(|a: X| a.label())
    }

    pub fn new(actions: Vec<X>) -> (r: ActionSequence<X>)
        ensures
            r.actions@ == actions@,
    {
        ActionSequence { actions }
    }

    /// Runs the actions in order, reporting each one's start and completion. Stops at the first
    /// failure (reporting its error; the result is `false`) or after an action that left a
    /// termination request in the context (the result is `true`).
    pub fn run<A: Automation>(&self, automation: &A, context: &mut ActionContext, events: &mut Vec<Event>) -> (r: bool)
        requires
            old(context).wf(),
        ensures
            final(context).wf(),
            final(events)@.len() >= old(events)@.len(),
            log_view(final(events)@).subrange(0, old(events)@.len() as int) == log_view(old(events)@),
            exists|k: int| run_outcome(
                self.names(),
                k,
                #[trigger] log_view(final(events)@).subrange(old(events)@.len() as int, final(events)@.len() as int),
                r,
                *final(context),
            ),
    {
        let ghost names = self.names();
        let ghost base = events@.len();
        let n = self.actions.len();
        let mut i: usize = 0;
        while i < n
            invariant
                n == self.actions@.len(),
                names == self.names(),
                i <= n,
                context.wf(),
                base == old(events)@.len(),
                events@.len() == base + 2 * i,
                log_view(events@).subrange(0, base as int) == log_view(old(events)@),
                log_view(events@).subrange(base as int, events@.len() as int) == ok_trace(names, i as nat),
                i > 0 ==> !context.should_terminate,
            decreases n - i,
        {
            let a = &self.actions[i];
            let name = a.name();
            let ghost before = events@;
            events.push(Event::ActionStarted { action: String::from_str(name) });
            match a.execute(automation, context) {
                Ok(()) => {
                    events.push(Event::ActionCompleted { action: String::from_str(name), success: true });
                    proof {
                        assert(log_view(events@).subrange(0, base as int) =~= log_view(before).subrange(0, base as int));
                        assert(log_view(events@).subrange(base as int, events@.len() as int) =~=
                            log_view(before).subrange(base as int, before.len() as int) + seq![
                                EventView::ActionStarted { action: names[i as int] },
                                EventView::ActionCompleted { action: names[i as int], success: true },
                            ]);
                    }
                    if context.is_termination_requested() {
                        let reason = match &context.termination_reason {
                            Some(r) => r.clone(),
                            None => String::from_str("termination_requested"),
                        };
                        let ghost mid = events@;
                        events.push(Event::TerminationCheckTriggered { reason });
                        proof {
                            let added = log_view(events@).subrange(base as int, events@.len() as int);
                            assert(log_view(events@).subrange(0, base as int) =~= log_view(mid).subrange(0, base as int));
                            assert(added.subrange(0, 2 * (i + 1)) =~= log_view(mid).subrange(base as int, mid.len() as int));
                            assert(added.subrange(2 * (i + 1), added.len() as int) =~= seq![
                                EventView::TerminationCheckTriggered { reason: reason_or_default(*context) },
                            ]);
                            assert(run_outcome(names, i + 1, added, true, *context));
                        }
                        return true;
                    }
                    if i + 1 < n {
                        automation.settle(ACTION_SETTLE_MS);
                    }
                },
                Err(e) => {
                    let mut message = join3("action '", name, "': ");
                    message.append(e.as_str());
                    events.push(Event::Error { message });
                    events.push(Event::ActionCompleted { action: String::from_str(name), success: false });
                    proof {
                        let added = log_view(events@).subrange(base as int, events@.len() as int);
                        assert(log_view(events@).subrange(0, base as int) =~= log_view(before).subrange(0, base as int));
                        assert(added.subrange(0, 2 * i) =~= log_view(before).subrange(base as int, before.len() as int));
                        let tail = added.subrange(2 * i, added.len() as int);
                        assert(tail =~= seq![
                            EventView::ActionStarted { action: names[i as int] },
                            EventView::Error { message: failure_message(names[i as int], e@) },
                            EventView::ActionCompleted { action: names[i as int], success: false },
                        ]);
                        assert(run_outcome(names, i as int, added, false, *context));
                    }
                    return false;
                },
            }
            i = i + 1;
        }
        proof {
            let added = log_view(events@).subrange(base as int, events@.len() as int);
            assert(added.subrange(0, 2 * n) =~= added);
            assert(added.subrange(2 * n, added.len() as int) =~= Seq::<EventView>::empty());
            assert(run_outcome(names, n as int, added, true, *context));
        }
        true
    }
}

} // verus!
