//! The per-connection driver's decisions: what to write and whether to
//! close, for each action the protocol engine hands back, and the line
//! framing the engine expects.

use vstd::prelude::*;

verus! {

/// One action of the protocol engine after it processed a line, with the
/// reply already rendered to bytes.
pub enum EngineAction {
    /// Write the bytes, keep reading.
    Reply(Vec<u8>),
    /// Write the bytes, then end the connection; the flag marks an error
    /// close.
    Close(Vec<u8>, bool),
    /// Nothing to write.
    NoReply,
    /// TLS negotiation is not implemented by this server: a pass-through,
    /// nothing written.
    UpgradeTls,
}

/// What the connection driver does with one engine action: the bytes to
/// write, if any, and whether the read loop ends.
pub fn interpret_action(action: EngineAction) -> (r: (Option<Vec<u8>>, bool))
    ensures
        match action {
            EngineAction::Reply(bytes) => r == (Some(bytes), false),
            EngineAction::Close(bytes, _) => r == (Some(bytes), true),
            EngineAction::NoReply => r == (None::<Vec<u8>>, false),
            EngineAction::UpgradeTls => r == (None::<Vec<u8>>, false),
        },
{
    match action {
        EngineAction::Reply(bytes) => (Some(bytes), false),
        EngineAction::Close(bytes, _) => (Some(bytes), true),
        EngineAction::NoReply => (None, false),
        EngineAction::UpgradeTls => (None, false),
    }
}

/// A line as the engine wants it fed: with the CRLF ending restored, which
/// the line reader strips.
pub fn line_with_crlf(line: &str) -> (r: String)
    ensures
        r@ == line@ + "\r\n"@,
{
    let mut out = String::from_str(line);
    out.append("\r\n");
    out
}

} // verus!
