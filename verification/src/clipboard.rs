//! The clipboard producer: what one look at the clipboard leads to.
//!
//! The producer looks at the clipboard at a fixed interval and remembers the
//! last text that it acted on, so that a text that stays on the clipboard is
//! acted on once.

use crate::mode::ProducerMode;
use crate::state::ContentStore;
use crate::text::{is_blank, is_blank_text};
use vstd::prelude::*;

verus! {

/// The time between two looks at the clipboard, in milliseconds.
pub const SAMPLING_INTERVAL_MS: u64 = 500;

/// What one look at the clipboard gave.
#[derive(Clone, Debug, PartialEq, Eq)]
pub enum Sample {
    /// The clipboard holds this text.
    Text(String),
    /// The clipboard could not be read, or holds something that is no text.
    Unreadable,
}

impl View for Sample {
    type V = Option<Seq<char>>;

    open spec fn view(&self) -> Option<Seq<char>> {
        match self {
            Sample::Text(text) => Some(text@),
            Sample::Unreadable => None,
        }
    }
}

/// What a look at the clipboard asks for, before anything is done.
#[derive(Clone, Copy, Debug, PartialEq, Eq, Structural)]
pub enum Plan {
    /// Nothing to do.
    Nothing,
    /// Forget the text seen last, so that it counts as new when it comes back.
    Forget,
    /// Write the sampled text to the content store.
    Replace,
    /// Hand the sampled text to the editor.
    Notify,
}

/// What a tick did.
#[derive(Clone, Debug, PartialEq, Eq)]
pub enum TickAction {
    /// Nothing was written and nothing is to be sent.
    Idle,
    /// The sampled text is now the document.
    DocumentReplaced,
    /// The sampled text was new, but the content store could not be locked.
    StoreFailed,
    /// The text is to be sent to the editor, which merges it and writes the
    /// document itself.
    NotifyEditor(String),
}

/// What a tick did, with texts as sequences of characters.
pub enum TickActionView {
    Idle,
    DocumentReplaced,
    StoreFailed,
    NotifyEditor(Seq<char>),
}

impl View for TickAction {
    type V = TickActionView;

    open spec fn view(&self) -> TickActionView {
        match self {
            TickAction::Idle => TickActionView::Idle,
            TickAction::DocumentReplaced => TickActionView::DocumentReplaced,
            TickAction::StoreFailed => TickActionView::StoreFailed,
            TickAction::NotifyEditor(text) => TickActionView::NotifyEditor(text@),
        }
    }
}

/// A sampled text is new when it is not blank and differs from the text seen last.
pub open spec fn is_new_text(last: Seq<char>, current: Seq<char>) -> bool {
    !is_blank(current) && current != last
}

/// What a sample asks for, given the text seen last and the mode.
pub open spec fn plan_of(last: Seq<char>, mode: ProducerMode, sample: Option<Seq<char>>) -> Plan {
    match mode {
        ProducerMode::Disabled => Plan::Nothing,
        _ => match sample {
            None => Plan::Forget,
            Some(current) => if !is_new_text(last, current) {
                Plan::Nothing
            } else if mode == ProducerMode::ReplaceDocument {
                Plan::Replace
            } else {
                Plan::Notify
            },
        },
    }
}

/// The text seen last after a tick. `stored` says whether the write to the
/// content store went through; it matters only where the plan is to replace.
pub open spec fn next_last(
    last: Seq<char>,
    mode: ProducerMode,
    sample: Option<Seq<char>>,
    stored: bool,
) -> Seq<char> {
    match plan_of(last, mode, sample) {
        Plan::Nothing => last,
        Plan::Forget => Seq::empty(),
        Plan::Replace => if stored {
            sample->0
        } else {
            last
        },
        Plan::Notify => sample->0,
    }
}

/// What a tick reports. `stored` as in [`next_last`].
pub open spec fn action_of(
    last: Seq<char>,
    mode: ProducerMode,
    sample: Option<Seq<char>>,
    stored: bool,
) -> TickActionView {
    match plan_of(last, mode, sample) {
        Plan::Nothing => TickActionView::Idle,
        Plan::Forget => TickActionView::Idle,
        Plan::Replace => if stored {
            TickActionView::DocumentReplaced
        } else {
            TickActionView::StoreFailed
        },
        Plan::Notify => TickActionView::NotifyEditor(sample->0),
    }
}

/// The state that the producer carries from one tick to the next.
pub struct ClipboardMonitor {
    last_text: String,
}

impl View for ClipboardMonitor {
    type V = Seq<char>;

    /// The text seen last.
    closed spec fn view(&self) -> Seq<char> {
        self.last_text@
    }
}

impl ClipboardMonitor {
    /// Starts from what the clipboard holds at startup: that text counts as
    /// seen, so only a later change is acted on. An unreadable clipboard
    /// counts as the empty text.
    pub fn new(first: Sample) -> (monitor: ClipboardMonitor)
        ensures
            monitor@ == match first@ {
                Some(text) => text,
                None => Seq::empty(),
            },
    {
        match first {
            Sample::Text(text) => ClipboardMonitor { last_text: text },
            Sample::Unreadable => ClipboardMonitor { last_text: String::new() },
        }
    }

    /// The text seen last.
    pub fn last_observed(&self) -> (text: &str)
        ensures
            text@ == self@,
    {
        self.last_text.as_str()
    }

    /// What `sample` asks for in `mode`. Changes nothing.
    pub fn plan(&self, mode: ProducerMode, sample: &Sample) -> (plan: Plan)
        ensures
            plan == plan_of(self@, mode, sample@),
    {
        match mode {
            ProducerMode::Disabled => Plan::Nothing,
            ProducerMode::ReplaceDocument | ProducerMode::AppendNotify => match sample {
                Sample::Unreadable => Plan::Forget,
                Sample::Text(current) => {
                    if is_blank_text(current.as_str()) || *current == self.last_text {
                        Plan::Nothing
                    } else {
                        match mode {
                            ProducerMode::ReplaceDocument => Plan::Replace,
                            _ => Plan::Notify,
                        }
                    }
                },
            },
        }
    }

    /// Ends a tick whose write to the content store, if the plan asked for
    /// one, has been tried: `stored` says whether it went through.
    pub fn settle(&mut self, mode: ProducerMode, sample: Sample, stored: bool) -> (action:
        TickAction)
        ensures
            final(self)@ == next_last(old(self)@, mode, sample@, stored),
            action@ == action_of(old(self)@, mode, sample@, stored),
    {
        let plan = self.plan(mode, &sample);
        match plan {
            Plan::Nothing => TickAction::Idle,
            Plan::Forget => {
                self.last_text = String::new();
                TickAction::Idle
            },
            Plan::Replace => {
                if stored {
                    match sample {
                        Sample::Text(current) => {
                            self.last_text = current;
                        },
                        Sample::Unreadable => {},
                    }
                    TickAction::DocumentReplaced
                } else {
                    TickAction::StoreFailed
                }
            },
            Plan::Notify => {
                match sample {
                    Sample::Text(current) => {
                        self.last_text = current.clone();
                        TickAction::NotifyEditor(current)
                    },
                    Sample::Unreadable => TickAction::Idle,
                }
            },
        }
    }

    /// One tick of the producer in `mode`, with what the clipboard gave.
    ///
    /// In `ReplaceDocument` a new text is written to `store` as a manual edit
    /// would be, as it was sampled. Whether that write goes through is for
    /// the store to say; the action reports it, and a text that could not be
    /// written does not count as seen, so the next tick tries again.
    pub fn tick(&mut self, mode: ProducerMode, sample: Sample, store: &ContentStore) -> (action:
        TickAction)
        ensures
            final(self)@ == next_last(old(self)@, mode, sample@, !(action is StoreFailed)),
            action@ == action_of(old(self)@, mode, sample@, !(action is StoreFailed)),
            action is DocumentReplaced ==> sample@ is Some && store.holds(sample@->0),
    {
        let stored = match self.plan(mode, &sample) {
            Plan::Replace => match &sample {
                Sample::Text(current) => store.write(current.clone()).is_ok(),
                Sample::Unreadable => true,
            },
            _ => true,
        };
        self.settle(mode, sample, stored)
    }
}

/// A text is acted on once while it stays on the clipboard: after a tick of
/// an enabled producer that saw a text, and whose write went through if it
/// made one, the same text at the next tick asks for nothing.
pub proof fn lemma_repeated_sample_asks_nothing(
    last: Seq<char>,
    mode: ProducerMode,
    text: Seq<char>,
    next_mode: ProducerMode,
)
    requires
        mode != ProducerMode::Disabled,
    ensures
        plan_of(next_last(last, mode, Some(text), true), next_mode, Some(text)) == Plan::Nothing,
{
}

/// A tick at which the clipboard could not be read forgets the text seen
/// last: at the next tick every text that is not blank counts as new.
pub proof fn lemma_unreadable_sample_resets(
    last: Seq<char>,
    mode: ProducerMode,
    text: Seq<char>,
    next_mode: ProducerMode,
)
    requires
        mode != ProducerMode::Disabled,
        next_mode != ProducerMode::Disabled,
        !is_blank(text),
    ensures
        plan_of(next_last(last, mode, None, true), next_mode, Some(text)) != Plan::Nothing,
        plan_of(next_last(last, mode, None, true), next_mode, Some(text)) != Plan::Forget,
{
    assert(is_blank(Seq::<char>::empty()));
}

/// While the producer is disabled nothing is written, sent or forgotten,
/// whatever the clipboard holds.
pub proof fn lemma_disabled_changes_nothing(last: Seq<char>, sample: Option<Seq<char>>, stored: bool)
    ensures
        next_last(last, ProducerMode::Disabled, sample, stored) == last,
        action_of(last, ProducerMode::Disabled, sample, stored) == TickActionView::Idle,
{
}

} // verus!
