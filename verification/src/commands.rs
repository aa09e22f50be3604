//! Switcher commands, and how the requests of the interface are turned into them.
use vstd::prelude::*;
use crate::snapshot::AtemSnapshot;
use crate::source::{Duplicate, TransitionType, VideoSource};
use crate::text::{ascii_lower, decimal, decimal_text, joined, same_text, to_ascii_lowercase};

verus! {

/// A command that the client sends to the switcher.
#[derive(Debug, Clone)]
pub enum SwitcherCommand {
    SetProgramInput { me: u8, source: VideoSource },
    SetPreviewInput { me: u8, source: VideoSource },
    Cut { me: u8 },
    Auto { me: u8 },
    SetNextTransition { me: u8, transition: TransitionType },
    SetAuxSource { aux_bus: u8, source: VideoSource },
    DskAuto { key: u8 },
    SetDskOnAir { key: u8, on_air: bool },
    SetDskTie { key: u8, tie: bool },
    SetDskCutSource { key: u8, source: VideoSource },
    SetDskFillSource { key: u8, source: VideoSource },
    SetDskRate { key: u8, rate: u8 },
    ToggleAutoBlack { me: u8 },
}

/// A request of the desktop interface, as it arrives: sources by their position in the
/// list of available sources, transitions by name.
#[derive(Debug, Clone)]
pub enum CommandRequest {
    SetProgramInputByIndex { me: u8, source_index: usize },
    SetPreviewInputByIndex { me: u8, source_index: usize },
    Cut { me: u8 },
    AutoTransition { me: u8 },
    SetNextTransition { me: u8, transition: String },
    DskAuto { key: u8 },
    SetDskOnAir { key: u8, on_air: bool },
    SetDskTie { key: u8, tie: bool },
    SetDskRate { key: u8, rate: u8 },
    ToggleAutoBlack { me: u8 },
}

/// The transition style that a lower-case name denotes.
pub open spec fn transition_named(l: Seq<char>) -> Option<TransitionType> {
    if l == "mix"@ {
        Some(TransitionType::Mix)
    } else if l == "dip"@ {
        Some(TransitionType::Dip)
    } else if l == "wipe"@ {
        Some(TransitionType::Wipe)
    } else if l == "sting"@ {
        Some(TransitionType::Sting)
    } else if l == "dve"@ {
        Some(TransitionType::DVE)
    } else {
        None
    }
}

/// The message for a transition name that denotes no style; `l` is the name in lower case.
pub open spec fn unsupported_transition_text(l: Seq<char>) -> Seq<char> {
    "unsupported transition: "@ + l
}

/// The message for a source position past the end of the available sources.
pub open spec fn invalid_index_text(i: nat) -> Seq<char> {
    "invalid source index: "@ + decimal_text(i)
}

/// The message for a request made while no switcher is connected.
pub open spec fn not_connected_text() -> Seq<char> {
    "not connected"@
}

/// The style that `name` denotes, ignoring ASCII case; an unknown name is refused with a
/// message that quotes it in lower case.
pub fn parse_transition(name: &str) -> (r: Result<TransitionType, String>)
    ensures
        transition_named(ascii_lower(name@)) is Some ==> r == Ok::<TransitionType, String>(
            transition_named(ascii_lower(name@))->0,
        ),
        transition_named(ascii_lower(name@)) is None ==> (r matches Err(m) && m@
            == unsupported_transition_text(ascii_lower(name@))),
{
    let lower = to_ascii_lowercase(name);
    let l = lower.as_str();
    if same_text(l, "mix") {
        Ok(TransitionType::Mix)
    } else if same_text(l, "dip") {
        Ok(TransitionType::Dip)
    } else if same_text(l, "wipe") {
        Ok(TransitionType::Wipe)
    } else if same_text(l, "sting") {
        Ok(TransitionType::Sting)
    } else if same_text(l, "dve") {
        Ok(TransitionType::DVE)
    } else {
        Err(joined("unsupported transition: ", l))
    }
}

/// The available source at `source_index`; a position past the end is refused with a
/// message that quotes it.
pub fn source_by_index(snapshot: &AtemSnapshot, source_index: usize) -> (r: Result<
    VideoSource,
    String,
>)
    ensures
        source_index < snapshot.available_sources@.len() ==> r == Ok::<VideoSource, String>(
            snapshot.available_sources@[source_index as int],
        ),
        source_index >= snapshot.available_sources@.len() ==> (r matches Err(m) && m@
            == invalid_index_text(source_index as nat)),
{
    if source_index < snapshot.available_sources.len() {
        Ok(snapshot.available_sources[source_index].duplicate())
    } else {
        let number = decimal(source_index as u64);
        Err(joined("invalid source index: ", number.as_str()))
    }
}

/// What a request comes to: the command to send, or the message to answer with. A
/// transition name is checked first; then the request needs a connection (`session` holds
/// its current snapshot); then a source position must be within the available sources.
pub open spec fn request_outcome(session: Option<AtemSnapshot>, req: CommandRequest) -> Result<
    SwitcherCommand,
    Seq<char>,
> {
    match req {
        CommandRequest::SetNextTransition { me, transition } => {
            let l = ascii_lower(transition@);
            match transition_named(l) {
                None => Err(unsupported_transition_text(l)),
                Some(t) => if session is None {
                    Err(not_connected_text())
                } else {
                    Ok(SwitcherCommand::SetNextTransition { me, transition: t })
                },
            }
        },
        _ => match session {
            None => Err(not_connected_text()),
            Some(s) => match req {
                CommandRequest::SetProgramInputByIndex { me, source_index } => {
                    if source_index < s.available_sources@.len() {
                        Ok(
                            SwitcherCommand::SetProgramInput {
                                me,
                                source: s.available_sources@[source_index as int],
                            },
                        )
                    } else {
                        Err(invalid_index_text(source_index as nat))
                    }
                },
                CommandRequest::SetPreviewInputByIndex { me, source_index } => {
                    if source_index < s.available_sources@.len() {
                        Ok(
                            SwitcherCommand::SetPreviewInput {
                                me,
                                source: s.available_sources@[source_index as int],
                            },
                        )
                    } else {
                        Err(invalid_index_text(source_index as nat))
                    }
                },
                CommandRequest::Cut { me } => Ok(SwitcherCommand::Cut { me }),
                CommandRequest::AutoTransition { me } => Ok(SwitcherCommand::Auto { me }),
                CommandRequest::DskAuto { key } => Ok(SwitcherCommand::DskAuto { key }),
                CommandRequest::SetDskOnAir { key, on_air } => Ok(
                    SwitcherCommand::SetDskOnAir { key, on_air },
                ),
                CommandRequest::SetDskTie { key, tie } => Ok(SwitcherCommand::SetDskTie { key, tie }),
                CommandRequest::SetDskRate { key, rate } => Ok(
                    SwitcherCommand::SetDskRate { key, rate },
                ),
                CommandRequest::ToggleAutoBlack { me } => Ok(SwitcherCommand::ToggleAutoBlack { me }),
                CommandRequest::SetNextTransition { .. } => Err(not_connected_text()),
            },
        },
    }
}

/// `r` is what the request comes to: the same command, or a message with the same text.
pub open spec fn answers(
    r: Result<SwitcherCommand, String>,
    outcome: Result<SwitcherCommand, Seq<char>>,
) -> bool {
    match r {
        Ok(c) => outcome == Ok::<SwitcherCommand, Seq<char>>(c),
        Err(m) => outcome matches Err(t) && m@ == t,
    }
}

/// Turns a request into the command to send, given the snapshot of the current connection
/// (`None` where there is none).
pub fn resolve_command(session: Option<&AtemSnapshot>, request: &CommandRequest) -> (r: Result<
    SwitcherCommand,
    String,
>)
    ensures
        answers(
            r,
            request_outcome(
                match session {
                    Some(s) => Some(*s),
                    None => None,
                },
                *request,
            ),
        ),
{
    if let CommandRequest::SetNextTransition { me, transition } = request {
        let t = match parse_transition(transition.as_str()) {
            Ok(t) => t,
            Err(m) => return Err(m),
        };
        return match session {
            None => Err(String::from_str("not connected")),
            Some(_) => Ok(SwitcherCommand::SetNextTransition { me: *me, transition: t }),
        };
    }
    let s = match session {
        None => return Err(String::from_str("not connected")),
        Some(s) => s,
    };
    match request {
        CommandRequest::SetProgramInputByIndex { me, source_index } => {
            match source_by_index(s, *source_index) {
                Ok(source) => Ok(SwitcherCommand::SetProgramInput { me: *me, source }),
                Err(m) => Err(m),
            }
        },
        CommandRequest::SetPreviewInputByIndex { me, source_index } => {
            match source_by_index(s, *source_index) {
                Ok(source) => Ok(SwitcherCommand::SetPreviewInput { me: *me, source }),
                Err(m) => Err(m),
            }
        },
        CommandRequest::Cut { me } => Ok(SwitcherCommand::Cut { me: *me }),
        CommandRequest::AutoTransition { me } => Ok(SwitcherCommand::Auto { me: *me }),
        CommandRequest::DskAuto { key } => Ok(SwitcherCommand::DskAuto { key: *key }),
        CommandRequest::SetDskOnAir { key, on_air } => Ok(
            SwitcherCommand::SetDskOnAir { key: *key, on_air: *on_air },
        ),
        CommandRequest::SetDskTie { key, tie } => Ok(
            SwitcherCommand::SetDskTie { key: *key, tie: *tie },
        ),
        CommandRequest::SetDskRate { key, rate } => Ok(
            SwitcherCommand::SetDskRate { key: *key, rate: *rate },
        ),
        CommandRequest::ToggleAutoBlack { me } => Ok(SwitcherCommand::ToggleAutoBlack { me: *me }),
        CommandRequest::SetNextTransition { .. } => Err(String::from_str("not connected")),
    }
}

} // verus!
