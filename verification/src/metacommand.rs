//! Commands typed at the `oxy>` prompt.

use crate::innermessage::InnerMessage;
use vstd::prelude::*;

verus! {

/// What a command typed at the prompt asks for.
#[derive(Debug, PartialEq, Eq)]
pub enum MetaCommand {
    /// Stop the event loop.
    Quit,
    /// Send this inner message to the peer.
    Send(InnerMessage),
    /// Nothing: the command is not known.
    Nothing,
}

/// The shell a `pty` command asks the peer to start.
pub open spec fn spec_pty_path() -> Seq<char> {
    "/bin/bash"@
}

/// The argument vector of that shell: a login shell.
pub open spec fn spec_pty_argv0() -> Seq<char> {
    "-bash"@
}

/// Reads a command typed at the prompt: `quit` stops, `pty` asks the peer
/// for a login bash on a new terminal, anything else does nothing.
pub fn do_metacommand(command: &str) -> (r: MetaCommand)
    ensures
        command@ == "quit"@ ==> r == MetaCommand::Quit,
        command@ == "pty"@ ==> (r matches MetaCommand::Send(InnerMessage::PtyRequest { path, argv })
            && path@ == spec_pty_path() && argv@.len() == 1 && argv@[0]@ == spec_pty_argv0()),
        command@ != "quit"@ && command@ != "pty"@ ==> r == MetaCommand::Nothing,
{
    proof {
        reveal_strlit("quit");
        reveal_strlit("pty");
        assert("pty"@.len() == 3);
        assert("quit"@.len() == 4);
    }
    let typed: String = command.to_owned();
    let quit: String = "quit".to_owned();
    let pty: String = "pty".to_owned();
    if typed == quit {
        MetaCommand::Quit
    } else if typed == pty {
        let path: String = "/bin/bash".to_owned();
        let mut argv: Vec<String> = Vec::new();
        let login: String = "-bash".to_owned();
        argv.push(login);
        MetaCommand::Send(InnerMessage::PtyRequest { path, argv })
    } else {
        MetaCommand::Nothing
    }
}

} // verus!
