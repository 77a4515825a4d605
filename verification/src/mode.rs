//! What the clipboard producer does with a new text, and the two switches that
//! select it.

use vstd::prelude::*;

verus! {

/// What the clipboard producer does with a text that it has not seen before.
#[derive(Clone, Copy, Debug, PartialEq, Eq, Structural)]
pub enum ProducerMode {
    /// The clipboard is not looked at.
    Disabled,
    /// The text replaces the document.
    ReplaceDocument,
    /// The text is handed to the editor, which appends it and writes the document itself.
    AppendNotify,
}

/// A request to set one of the two switches of the shared state.
#[derive(Clone, Copy, Debug, PartialEq, Eq, Structural)]
pub enum ModeCommand {
    /// Set the switch that replaces the document on copy.
    SetSendOnCopy(bool),
    /// Set the switch that adds to the editor on copy.
    SetAddToEditorOnCopy(bool),
}

/// The two switches as plain values.
#[derive(Clone, Copy, Debug, PartialEq, Eq, Structural)]
pub struct ModeFlags {
    /// Replace the document by what is copied.
    pub send_on_copy: bool,
    /// Hand what is copied to the editor.
    pub add_to_editor_on_copy: bool,
}

/// The mode that a pair of switches selects. Replacing wins where both are on,
/// so exactly one mode is in force at any time.
pub open spec fn mode_of_flags(send_on_copy: bool, add_to_editor_on_copy: bool) -> ProducerMode {
    if send_on_copy {
        ProducerMode::ReplaceDocument
    } else if add_to_editor_on_copy {
        ProducerMode::AppendNotify
    } else {
        ProducerMode::Disabled
    }
}

/// The mode that a pair of switches selects.
pub fn producer_mode(send_on_copy: bool, add_to_editor_on_copy: bool) -> (mode: ProducerMode)
    ensures
        mode == mode_of_flags(send_on_copy, add_to_editor_on_copy),
{
    if send_on_copy {
        ProducerMode::ReplaceDocument
    } else if add_to_editor_on_copy {
        ProducerMode::AppendNotify
    } else {
        ProducerMode::Disabled
    }
}

impl ProducerMode {
    /// Whether the producer looks at the clipboard at all in this mode. While
    /// it is disabled it only sleeps.
    pub fn samples_clipboard(self) -> (wanted: bool)
        ensures
            wanted == (self != ProducerMode::Disabled),
    {
        match self {
            ProducerMode::Disabled => false,
            ProducerMode::ReplaceDocument => true,
            ProducerMode::AppendNotify => true,
        }
    }
}

impl ModeFlags {
    /// At most one of the two switches is on.
    pub open spec fn exclusive(self) -> bool {
        !(self.send_on_copy && self.add_to_editor_on_copy)
    }

    /// The mode that these switches select.
    pub open spec fn mode(self) -> ProducerMode {
        mode_of_flags(self.send_on_copy, self.add_to_editor_on_copy)
    }

    /// The switches after one command.
    pub open spec fn after(self, command: ModeCommand) -> ModeFlags {
        match command {
            ModeCommand::SetSendOnCopy(enabled) => ModeFlags { send_on_copy: enabled, ..self },
            ModeCommand::SetAddToEditorOnCopy(enabled) => ModeFlags {
                add_to_editor_on_copy: enabled,
                ..self
            },
        }
    }

    /// The switches after a list of commands, taken in order.
    pub open spec fn after_all(self, commands: Seq<ModeCommand>) -> ModeFlags
        decreases commands.len(),
    {
        if commands.len() == 0 {
            self
        } else {
            self.after(commands[0]).after_all(commands.drop_first())
        }
    }

    /// The switches after the first one was flipped: turning it on turns the
    /// second one off.
    pub open spec fn with_send_toggled(self) -> ModeFlags {
        ModeFlags {
            send_on_copy: !self.send_on_copy,
            add_to_editor_on_copy: self.add_to_editor_on_copy && self.send_on_copy,
        }
    }

    /// The switches after the second one was flipped: turning it on turns the
    /// first one off.
    pub open spec fn with_add_toggled(self) -> ModeFlags {
        ModeFlags {
            send_on_copy: self.send_on_copy && self.add_to_editor_on_copy,
            add_to_editor_on_copy: !self.add_to_editor_on_copy,
        }
    }

    /// The commands that carry a flip of the first switch to the shared state.
    pub open spec fn send_toggle_commands(self) -> Seq<ModeCommand> {
        if !self.send_on_copy && self.add_to_editor_on_copy {
            seq![
                ModeCommand::SetAddToEditorOnCopy(false),
                ModeCommand::SetSendOnCopy(true),
            ]
        } else {
            seq![ModeCommand::SetSendOnCopy(!self.send_on_copy)]
        }
    }

    /// The commands that carry a flip of the second switch to the shared state.
    pub open spec fn add_toggle_commands(self) -> Seq<ModeCommand> {
        if !self.add_to_editor_on_copy && self.send_on_copy {
            seq![
                ModeCommand::SetSendOnCopy(false),
                ModeCommand::SetAddToEditorOnCopy(true),
            ]
        } else {
            seq![ModeCommand::SetAddToEditorOnCopy(!self.add_to_editor_on_copy)]
        }
    }

    /// Both switches off.
    pub fn new() -> (flags: ModeFlags)
        ensures
            flags == (ModeFlags { send_on_copy: false, add_to_editor_on_copy: false }),
            flags.mode() == ProducerMode::Disabled,
    {
        ModeFlags { send_on_copy: false, add_to_editor_on_copy: false }
    }

    /// The mode that these switches select.
    pub fn producer_mode(&self) -> (mode: ProducerMode)
        ensures
            mode == self.mode(),
    {
        producer_mode(self.send_on_copy, self.add_to_editor_on_copy)
    }

    /// Sets one switch as the command says.
    pub fn apply(&mut self, command: ModeCommand)
        ensures
            *final(self) == old(self).after(command),
    {
        match command {
            ModeCommand::SetSendOnCopy(enabled) => {
                self.send_on_copy = enabled;
            },
            ModeCommand::SetAddToEditorOnCopy(enabled) => {
                self.add_to_editor_on_copy = enabled;
            },
        }
    }

    /// Flips the first switch. Where that turns it on while the second is on,
    /// the second goes off. Returns the commands to send to the shared state,
    /// in the order in which to send them.
    pub fn toggle_send_on_copy(&mut self) -> (commands: Vec<ModeCommand>)
        ensures
            *final(self) == old(self).with_send_toggled(),
            commands@ == old(self).send_toggle_commands(),
    {
        let mut commands: Vec<ModeCommand> = Vec::new();
        let enabled = !self.send_on_copy;
        self.send_on_copy = enabled;
        if enabled && self.add_to_editor_on_copy {
            self.add_to_editor_on_copy = false;
            commands.push(ModeCommand::SetAddToEditorOnCopy(false));
        }
        commands.push(ModeCommand::SetSendOnCopy(enabled));
        assert(commands@ =~= old(self).send_toggle_commands());
        commands
    }

    /// Flips the second switch. Where that turns it on while the first is on,
    /// the first goes off. Returns the commands to send to the shared state,
    /// in the order in which to send them.
    pub fn toggle_add_to_editor_on_copy(&mut self) -> (commands: Vec<ModeCommand>)
        ensures
            *final(self) == old(self).with_add_toggled(),
            commands@ == old(self).add_toggle_commands(),
    {
        let mut commands: Vec<ModeCommand> = Vec::new();
        let enabled = !self.add_to_editor_on_copy;
        self.add_to_editor_on_copy = enabled;
        if enabled && self.send_on_copy {
            self.send_on_copy = false;
            commands.push(ModeCommand::SetSendOnCopy(false));
        }
        commands.push(ModeCommand::SetAddToEditorOnCopy(enabled));
        assert(commands@ =~= old(self).add_toggle_commands());
        commands
    }
}

/// Flipping a switch never leaves both on, whatever stood before; and where it
/// turns one mode on, the other mode is off afterwards.
pub proof fn lemma_toggle_keeps_modes_exclusive(flags: ModeFlags)
    ensures
        flags.with_send_toggled().exclusive(),
        flags.with_add_toggled().exclusive(),
        !flags.send_on_copy ==> flags.with_send_toggled().mode() == ProducerMode::ReplaceDocument,
        !flags.add_to_editor_on_copy ==> flags.with_add_toggled().mode()
            == ProducerMode::AppendNotify,
        !flags.send_on_copy ==> !flags.with_send_toggled().add_to_editor_on_copy,
        !flags.add_to_editor_on_copy ==> !flags.with_add_toggled().send_on_copy,
{
}

/// A shared state whose switches agree with the local ones before a flip agrees
/// with them again once it has taken the commands of the flip in order.
pub proof fn lemma_toggle_commands_carry_the_flip(flags: ModeFlags)
    ensures
        flags.after_all(flags.send_toggle_commands()) == flags.with_send_toggled(),
        flags.after_all(flags.add_toggle_commands()) == flags.with_add_toggled(),
{
    reveal_with_fuel(ModeFlags::after_all, 3);
    let send = flags.send_toggle_commands();
    let add = flags.add_toggle_commands();
    if send.len() == 2 {
        assert(send.drop_first() =~= seq![send[1]]);
        assert(send.drop_first().drop_first() =~= Seq::<ModeCommand>::empty());
    } else {
        assert(send.drop_first() =~= Seq::<ModeCommand>::empty());
    }
    if add.len() == 2 {
        assert(add.drop_first() =~= seq![add[1]]);
        assert(add.drop_first().drop_first() =~= Seq::<ModeCommand>::empty());
    } else {
        assert(add.drop_first() =~= Seq::<ModeCommand>::empty());
    }
}

} // verus!
