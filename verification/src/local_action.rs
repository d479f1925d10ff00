//! The privileged actions that a command can ask of the host.

use vstd::prelude::*;

verus! {

/// A privileged action carried out on the host itself.
#[derive(Copy, Clone, PartialEq, Eq, Structural, Debug)]
pub enum LocalAction {
    /// Restart the media service.
    RestartService,
    /// Shut the host down.
    Shutdown,
    /// Reboot the host.
    Reboot,
}

/// The action that the command name `text` asks for, if it names one.
pub open spec fn action_named(text: Seq<char>) -> Option<LocalAction> {
    if text == "pi_restart_vlc"@ {
        Some(LocalAction::RestartService)
    } else if text == "pi_shutdown"@ {
        Some(LocalAction::Shutdown)
    } else if text == "pi_reboot"@ {
        Some(LocalAction::Reboot)
    } else {
        None
    }
}

impl LocalAction {
    /// The command name that asks for this action.
    pub open spec fn name(self) -> Seq<char> {
        match self {
            LocalAction::RestartService => "pi_restart_vlc"@,
            LocalAction::Shutdown => "pi_shutdown"@,
            LocalAction::Reboot => "pi_reboot"@,
        }
    }

    /// The program that carries this action out.
    pub open spec fn program_name(self) -> Seq<char> {
        match self {
            LocalAction::RestartService => "systemctl"@,
            LocalAction::Shutdown => "sudo"@,
            LocalAction::Reboot => "sudo"@,
        }
    }

    /// The arguments handed to that program, in order.
    pub open spec fn argument_words(self) -> Seq<Seq<char>> {
        match self {
            LocalAction::RestartService => seq!["--user"@, "restart"@, "vlc-loader.service"@],
            LocalAction::Shutdown => seq!["shutdown"@, "-h"@, "now"@],
            LocalAction::Reboot => seq!["shutdown"@, "-r"@, "now"@],
        }
    }

    /// The command name that asks for this action.
    pub fn command_name(&self) -> (word: &'static str)
        ensures
            word@ == self.name(),
    {
        match self {
            LocalAction::RestartService => "pi_restart_vlc",
            LocalAction::Shutdown => "pi_shutdown",
            LocalAction::Reboot => "pi_reboot",
        }
    }

    /// The program to run for this action.
    pub fn program(&self) -> (word: &'static str)
        ensures
            word@ == self.program_name(),
    {
        match self {
            LocalAction::RestartService => "systemctl",
            LocalAction::Shutdown => "sudo",
            LocalAction::Reboot => "sudo",
        }
    }

    /// The arguments to run that program with.
    pub fn arguments(&self) -> (words: Vec<&'static str>)
        ensures
            words@.map_values(|w: &'static str| w@) == self.argument_words(),
    {
        let mut words: Vec<&'static str> = Vec::new();
        match self {
            LocalAction::RestartService => {
                words.push("--user");
                words.push("restart");
                words.push("vlc-loader.service");
            },
            LocalAction::Shutdown => {
                words.push("shutdown");
                words.push("-h");
                words.push("now");
            },
            LocalAction::Reboot => {
                words.push("shutdown");
                words.push("-r");
                words.push("now");
            },
        }
        assert(words@.map_values(|w: &'static str| w@) =~= self.argument_words());
        words
    }
}

/// The names of the three actions differ from one another, and each names its
/// own action.
pub proof fn lemma_action_names(action: LocalAction)
    ensures
        action_named(action.name()) == Some(action),
{
    reveal_strlit("pi_restart_vlc");
    reveal_strlit("pi_shutdown");
    reveal_strlit("pi_reboot");
    assert("pi_restart_vlc"@.len() == 14);
    assert("pi_shutdown"@.len() == 11);
    assert("pi_reboot"@.len() == 9);
}

} // verus!
