use vstd::prelude::*;

use cargo_metadata::diagnostic::Diagnostic;

verus! {

/// A compiler diagnostic as cargo reports it; carried through unread.
#[verifier::external_type_specification]
#[verifier::external_body]
pub struct ExDiagnostic(Diagnostic);

/// One structured line of cargo's output, reduced to what the supervision reads.
#[derive(Debug)]
pub enum RawMessage {
    /// An artifact was produced; `fresh` when it was already up to date.
    CompilerArtifact { fresh: bool, target_name: String },
    /// The compiler reported a diagnostic.
    CompilerMessage { diagnostic: Diagnostic },
    /// A build script ran.
    BuildScriptExecuted,
    /// A message of a kind this library does not know.
    Unknown,
}

/// What a line of text parses to as one cargo message in JSON form: `None`
/// when it does not parse, else its shape (see `message_shape`).
pub uninterp spec fn parsed_line(line: Seq<char>) -> Option<(int, bool, Seq<char>)>;

/// The shape of a message: its variant (0 artifact, 1 compiler message, 2 build
/// script, 3 unknown), and for an artifact its freshness and target name.
pub open spec fn message_shape(m: RawMessage) -> (int, bool, Seq<char>) {
    match m {
        RawMessage::CompilerArtifact { fresh, target_name } => (0, fresh, target_name@),
        RawMessage::CompilerMessage { .. } => (1, false, Seq::empty()),
        RawMessage::BuildScriptExecuted => (2, false, Seq::empty()),
        RawMessage::Unknown => (3, false, Seq::empty()),
    }
}

/// Whether a line of text is one cargo message in JSON form.
pub open spec fn parses_as_message(line: Seq<char>) -> bool {
    parsed_line(line) is Some
}

/// Relies on `serde_json::from_str::<cargo_metadata::Message>`: what a line
/// parses to depends on its text alone; each variant is moved into `RawMessage`.
#[verifier::external_body]
pub(crate) fn parse_message(line: &str) -> (r: Option<RawMessage>)
    ensures
        match r {
            Some(m) => parsed_line(line@) == Some(message_shape(m)),
            None => parsed_line(line@) is None,
        },
{
    match serde_json::from_str::<cargo_metadata::Message>(line) {
        Ok(cargo_metadata::Message::CompilerArtifact(a)) => Some(
            RawMessage::CompilerArtifact { fresh: a.fresh, target_name: a.target.name },
        ),
        Ok(cargo_metadata::Message::CompilerMessage(m)) => Some(
            RawMessage::CompilerMessage { diagnostic: m.message },
        ),
        Ok(cargo_metadata::Message::BuildScriptExecuted(_)) => Some(RawMessage::BuildScriptExecuted),
        Ok(cargo_metadata::Message::Unknown) => Some(RawMessage::Unknown),
        Err(_) => None,
    }
}

/// Whether a run forwards a message: fresh artifacts, build scripts and unknown
/// messages are dropped, everything else goes on.
pub open spec fn forwarded(m: RawMessage) -> bool {
    match m {
        RawMessage::CompilerArtifact { fresh, .. } => !fresh,
        RawMessage::CompilerMessage { .. } => true,
        RawMessage::BuildScriptExecuted => false,
        RawMessage::Unknown => false,
    }
}

/// Decides whether a run forwards a message.
pub fn is_forwarded(m: &RawMessage) -> (r: bool)
    ensures
        r == forwarded(*m),
{
    match m {
        RawMessage::CompilerArtifact { fresh, .. } => !*fresh,
        RawMessage::CompilerMessage { .. } => true,
        RawMessage::BuildScriptExecuted => false,
        RawMessage::Unknown => false,
    }
}

} // verus!
