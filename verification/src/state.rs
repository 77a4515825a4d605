//! The shared state: the content store that guards the document, and the two
//! switches that select what the clipboard producer does.

use crate::mode::{ModeCommand, ModeFlags, ProducerMode};
use std::sync::atomic::AtomicBool;
use std::sync::atomic::Ordering;
use std::sync::Arc;
use std::sync::RwLock;
use vstd::prelude::*;

verus! {

/// `std::sync::RwLock`, a reader-writer lock. What it guards is not visible in
/// contracts: any holder of a shared reference may replace it.
#[verifier::external_type_specification]
#[verifier::external_body]
#[verifier::reject_recursive_types(T)]
pub struct ExRwLock<T: ?Sized>(RwLock<T>);

/// The store could not be locked: a holder of the lock panicked and left it
/// poisoned.
#[derive(Clone, Copy, Debug, PartialEq, Eq)]
pub struct StoreUnavailable;

impl StoreUnavailable {
    /// The words that describe the failure.
    pub open spec fn message_text() -> Seq<char> {
        "poisoned lock: another task failed inside"@
    }

    /// The words that describe the failure.
    pub fn message(&self) -> (text: String)
        ensures
            text@ == Self::message_text(),
    {
        String::from_str("poisoned lock: another task failed inside")
    }
}

/// What reading the content store gave, with the text as a sequence of
/// characters.
pub open spec fn read_view(read: Result<String, StoreUnavailable>) -> Result<
    Seq<char>,
    StoreUnavailable,
> {
    match read {
        Ok(text) => Ok(text@),
        Err(error) => Err(error),
    }
}

/// The text of a document that nobody has written to yet.
pub open spec fn default_greeting_text() -> Seq<char> {
    "## Добро пожаловать!\n\nЭто редактор для вашей E-Ink читалки. Введите текст в формате Markdown здесь, и он появится на странице, которую вы откроете на читалке."@
}

/// The text of a document that nobody has written to yet.
pub fn default_greeting() -> (text: String)
    ensures
        text@ == default_greeting_text(),
{
    String::from_str(
        "## Добро пожаловать!\n\nЭто редактор для вашей E-Ink читалки. Введите текст в формате Markdown здесь, и он появится на странице, которую вы откроете на читалке.",
    )
}

/// The texts that a lock guards at one time or another of its life: the text
/// that it was made with, and every text that a write puts under it. Which of
/// them it guards at a given moment is not visible in contracts.
pub uninterp spec fn texts_held(lock: RwLock<String>) -> Set<Seq<char>>;

/// Calls `RwLock::new`, which makes an unlocked lock around `text`. The
/// contract claims that `text` is then a text that the lock guards.
#[verifier::external_body]
fn lock_new(text: String) -> (lock: RwLock<String>)
    ensures
        texts_held(lock).contains(text@),
{
    RwLock::new(text)
}

/// Calls `RwLock::read` and clones the guarded text while the shared lock is
/// held. `None` stands for a poisoned lock. The contract claims that a text
/// that comes back is one that the lock guards, whole; it does not say which
/// write left it.
#[verifier::external_body]
fn lock_read(lock: &RwLock<String>) -> (read: Option<String>)
    ensures
        read matches Some(text) ==> texts_held(*lock).contains(text@),
{
    match lock.read() {
        Ok(guard) => Some(guard.clone()),
        Err(_) => None,
    }
}

/// Calls `RwLock::write` and replaces the guarded text while the exclusive
/// lock is held. `false` stands for a poisoned lock, in which case the text
/// is dropped. The contract claims that a text that was stored is one that
/// the lock guards.
#[verifier::external_body]
fn lock_write(lock: &RwLock<String>, text: String) -> (stored: bool)
    ensures
        stored ==> texts_held(*lock).contains(text@),
{
    match lock.write() {
        Ok(mut guard) => {
            *guard = text;
            true
        },
        Err(_) => false,
    }
}

/// Owns the canonical document behind a reader-writer lock. Reads run in
/// parallel; a write excludes every other read and write. The lock is held
/// only while the text is copied out or replaced.
///
/// Every holder of a shared reference may write, from any thread, so no
/// contract says which text is the document at a given moment. What the
/// contracts do say is which texts go into the store and that only those come
/// out of it: see [`ContentStore::holds`].
pub struct ContentStore {
    lock: RwLock<String>,
}

impl ContentStore {
    /// Whether `text` is the document at one time or another of the store's
    /// life: the text that the store was made with, or a text that was
    /// written to it.
    pub closed spec fn holds(&self, text: Seq<char>) -> bool {
        texts_held(self.lock).contains(text)
    }

    /// A store whose document is `text`.
    pub fn new(text: String) -> (store: ContentStore)
        ensures
            store.holds(text@),
    {
        ContentStore { lock: lock_new(text) }
    }

    /// The current document, whole: what the last completed write left, or
    /// the text that the store was made with, and never a mixture of two.
    /// Fails when the lock is poisoned.
    pub fn read(&self) -> (read: Result<String, StoreUnavailable>)
        ensures
            read matches Ok(text) ==> self.holds(text@),
    {
        match lock_read(&self.lock) {
            Some(text) => Ok(text),
            None => Err(StoreUnavailable),
        }
    }

    /// Replaces the document, whole; nothing of the old text is kept. Fails,
    /// and leaves the document as it was, when the lock is poisoned.
    pub fn write(&self, text: String) -> (written: Result<(), StoreUnavailable>)
        ensures
            written is Ok ==> self.holds(text@),
    {
        if lock_write(&self.lock, text) {
            Ok(())
        } else {
            Err(StoreUnavailable)
        }
    }
}

/// The state that the producers and the server share.
pub struct AppState {
    /// The Markdown text that the reader shows.
    pub shared_text: ContentStore,
    /// Replace the document by what is copied to the clipboard.
    pub send_on_copy: Arc<AtomicBool>,
    /// Hand what is copied to the clipboard to the editor.
    pub add_to_editor_on_copy: Arc<AtomicBool>,
}

impl Default for AppState {
    /// The state at startup: the greeting as the document, both switches off.
    fn default() -> (state: AppState)
        ensures
            state.shared_text.holds(default_greeting_text()),
    {
        AppState {
            shared_text: ContentStore::new(default_greeting()),
            send_on_copy: Arc::new(AtomicBool::new(false)),
            add_to_editor_on_copy: Arc::new(AtomicBool::new(false)),
        }
    }
}

impl AppState {
    /// Turns replacing the document on copy on or off.
    pub fn set_send_on_copy(&self, enabled: bool) {
        self.send_on_copy.store(enabled, Ordering::Relaxed);
    }

    /// Turns adding to the editor on copy on or off.
    pub fn set_add_to_editor_on_copy(&self, enabled: bool) {
        self.add_to_editor_on_copy.store(enabled, Ordering::Relaxed);
    }

    /// Sets one switch as the command says.
    pub fn apply_mode_command(&self, command: ModeCommand) {
        match command {
            ModeCommand::SetSendOnCopy(enabled) => self.set_send_on_copy(enabled),
            ModeCommand::SetAddToEditorOnCopy(enabled) => self.set_add_to_editor_on_copy(enabled),
        }
    }

    /// The two switches as they stand now. Any holder of the state may set
    /// them between two calls.
    pub fn mode_flags(&self) -> ModeFlags {
        ModeFlags {
            send_on_copy: self.send_on_copy.load(Ordering::Relaxed),
            add_to_editor_on_copy: self.add_to_editor_on_copy.load(Ordering::Relaxed),
        }
    }

    /// The mode that the switches select now. The producer asks afresh at
    /// every tick, so a change takes effect within one interval.
    pub fn producer_mode(&self) -> ProducerMode {
        self.mode_flags().producer_mode()
    }
}

} // verus!
