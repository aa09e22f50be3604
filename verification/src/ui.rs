//! The state of the switcher panel of the desktop interface: what is selected, what each
//! control does, and what the labels read.
use vstd::prelude::*;
use crate::commands::SwitcherCommand;
use crate::connection::ConnectionStatus;
use crate::snapshot::AtemSnapshot;
use crate::source::{next_style, transition_next, Duplicate, TransitionType, VideoSource};
use crate::text::{
    chars_of, decimal, decimal_text, join_strings, join_texts, joined, same_text, texts_of,
};
use vstd::string::StrSliceExecFns;

verus! {

/// The rate that the keyer-rate control starts from.
pub const DEFAULT_DSK_RATE: u8 = 20;

/// How many sources the source list names before it summarises the rest.
pub const SOURCES_SHOWN: usize = 20;

/// The panel: link status, last snapshot, whether a session is open, and the selections.
#[derive(Debug, Clone)]
pub struct PanelState {
    pub status: ConnectionStatus,
    pub snapshot: Option<AtemSnapshot>,
    /// Whether a connection (and so a client) is held.
    pub session_open: bool,
    pub selected_me: u8,
    pub selected_source_index: usize,
    pub next_transition: TransitionType,
    pub selected_aux_bus: u8,
    pub selected_dsk_key_index: usize,
    pub dsk_rate: u8,
}

/// The number of mix/effects buses shown: that of the snapshot, or 0 without one.
pub open spec fn shown_mes(p: PanelState) -> nat {
    match p.snapshot {
        Some(s) => s.mes_count as nat,
        None => 0,
    }
}

/// The number of auxiliary outputs shown: that of the snapshot, or 0 without one.
pub open spec fn shown_auxs(p: PanelState) -> nat {
    match p.snapshot {
        Some(s) => s.aux_count as nat,
        None => 0,
    }
}

/// The sources offered: those of the snapshot, or none.
pub open spec fn shown_sources(p: PanelState) -> Seq<VideoSource> {
    match p.snapshot {
        Some(s) => s.available_sources@,
        None => Seq::empty(),
    }
}

/// The downstream keyers offered: those of the snapshot, or none.
pub open spec fn shown_dsk_keys(p: PanelState) -> Seq<u8> {
    match p.snapshot {
        Some(s) => s.dsk_keys@,
        None => Seq::empty(),
    }
}

/// The panel after stepping the selected bus down: by one, unless it is the first.
pub open spec fn after_me_down(p: PanelState) -> PanelState {
    if p.selected_me > 0 {
        PanelState { selected_me: (p.selected_me - 1) as u8, ..p }
    } else {
        p
    }
}

/// The panel after stepping the selected bus up: by one, while a next bus exists.
pub open spec fn after_me_up(p: PanelState) -> PanelState {
    if shown_mes(p) > 0 && p.selected_me + 1 < shown_mes(p) {
        PanelState { selected_me: (p.selected_me + 1) as u8, ..p }
    } else {
        p
    }
}

/// The panel after stepping the selected source down: by one, unless it is the first or no
/// source is offered.
pub open spec fn after_source_down(p: PanelState) -> PanelState {
    if shown_sources(p).len() > 0 && p.selected_source_index > 0 {
        PanelState { selected_source_index: (p.selected_source_index - 1) as usize, ..p }
    } else {
        p
    }
}

/// The panel after stepping the selected source up: by one, while a next source exists.
pub open spec fn after_source_up(p: PanelState) -> PanelState {
    if shown_sources(p).len() > 0 && p.selected_source_index + 1 < shown_sources(p).len() {
        PanelState { selected_source_index: (p.selected_source_index + 1) as usize, ..p }
    } else {
        p
    }
}

/// The panel after stepping the selected auxiliary output down: by one, unless it is the first.
pub open spec fn after_aux_down(p: PanelState) -> PanelState {
    if p.selected_aux_bus > 0 {
        PanelState { selected_aux_bus: (p.selected_aux_bus - 1) as u8, ..p }
    } else {
        p
    }
}

/// The panel after stepping the selected auxiliary output up: by one, while a next one exists.
pub open spec fn after_aux_up(p: PanelState) -> PanelState {
    if shown_auxs(p) > 0 && p.selected_aux_bus + 1 < shown_auxs(p) {
        PanelState { selected_aux_bus: (p.selected_aux_bus + 1) as u8, ..p }
    } else {
        p
    }
}

/// The panel after stepping the selected keyer down: by one, unless it is the first.
pub open spec fn after_dsk_down(p: PanelState) -> PanelState {
    if p.selected_dsk_key_index > 0 {
        PanelState { selected_dsk_key_index: (p.selected_dsk_key_index - 1) as usize, ..p }
    } else {
        p
    }
}

/// The panel after stepping the selected keyer up: by one, while a next keyer exists.
pub open spec fn after_dsk_up(p: PanelState) -> PanelState {
    if shown_dsk_keys(p).len() > 0 && p.selected_dsk_key_index + 1 < shown_dsk_keys(p).len() {
        PanelState { selected_dsk_key_index: (p.selected_dsk_key_index + 1) as usize, ..p }
    } else {
        p
    }
}

/// The panel after lowering the keyer rate by one, stopping at 0.
pub open spec fn after_rate_down(p: PanelState) -> PanelState {
    PanelState { dsk_rate: if p.dsk_rate > 0 { (p.dsk_rate - 1) as u8 } else { 0 }, ..p }
}

/// The panel after raising the keyer rate by one, stopping at 255.
pub open spec fn after_rate_up(p: PanelState) -> PanelState {
    PanelState { dsk_rate: if p.dsk_rate < 255 { (p.dsk_rate + 1) as u8 } else { 255 }, ..p }
}

/// The panel after choosing the next transition style.
pub open spec fn after_cycle_transition(p: PanelState) -> PanelState {
    PanelState { next_transition: next_style(p.next_transition), ..p }
}

/// The panel after a connection has been made, with its first snapshot: every selection back
/// at its start.
pub open spec fn after_connected(p: PanelState, snapshot: AtemSnapshot) -> PanelState {
    PanelState {
        status: ConnectionStatus::Connected,
        snapshot: Some(snapshot),
        session_open: true,
        selected_me: 0,
        selected_source_index: 0,
        next_transition: TransitionType::Mix,
        selected_aux_bus: 0,
        selected_dsk_key_index: 0,
        dsk_rate: DEFAULT_DSK_RATE,
    }
}

/// The panel after the user disconnected: no session, no snapshot, the auxiliary and keyer
/// selections and the keyer rate back at their start; the other selections kept.
pub open spec fn after_disconnect(p: PanelState) -> PanelState {
    PanelState {
        status: ConnectionStatus::Disconnected,
        snapshot: None,
        session_open: false,
        selected_aux_bus: 0,
        selected_dsk_key_index: 0,
        dsk_rate: DEFAULT_DSK_RATE,
        ..p
    }
}

impl PanelState {
    /// The panel at start: disconnected, nothing selected beyond the first of everything, the
    /// Mix style and the default keyer rate.
    pub fn new() -> (r: PanelState)
        ensures
            r.status == ConnectionStatus::Disconnected,
            r.snapshot is None,
            !r.session_open,
            r.selected_me == 0,
            r.selected_source_index == 0,
            r.next_transition == TransitionType::Mix,
            r.selected_aux_bus == 0,
            r.selected_dsk_key_index == 0,
            r.dsk_rate == DEFAULT_DSK_RATE,
    {
        PanelState {
            status: ConnectionStatus::Disconnected,
            snapshot: None,
            session_open: false,
            selected_me: 0,
            selected_source_index: 0,
            next_transition: TransitionType::Mix,
            selected_aux_bus: 0,
            selected_dsk_key_index: 0,
            dsk_rate: DEFAULT_DSK_RATE,
        }
    }

    /// Shows that a connection is being made; nothing else changes.
    pub fn begin_connect(&mut self)
        ensures
            final(self).status matches ConnectionStatus::Error(m) && m@ == "Connecting..."@,
            *final(self) == (PanelState { status: final(self).status, ..*old(self) }),
    {
        self.status = ConnectionStatus::Error(String::from_str("Connecting..."));
    }

    /// Takes up a new connection and its first snapshot.
    pub fn connected(&mut self, snapshot: AtemSnapshot)
        ensures
            *final(self) == after_connected(*old(self), snapshot),
    {
        self.status = ConnectionStatus::Connected;
        self.snapshot = Some(snapshot);
        self.session_open = true;
        self.selected_me = 0;
        self.selected_source_index = 0;
        self.next_transition = TransitionType::Mix;
        self.selected_aux_bus = 0;
        self.selected_dsk_key_index = 0;
        self.dsk_rate = DEFAULT_DSK_RATE;
    }

    /// Shows that a connection could not be made: no session, no snapshot, the error's message
    /// as status; the selections are kept.
    pub fn connect_failed(&mut self, message: String)
        ensures
            *final(self) == (PanelState {
                status: ConnectionStatus::Error(message),
                snapshot: None,
                session_open: false,
                ..*old(self)
            }),
    {
        self.session_open = false;
        self.snapshot = None;
        self.status = ConnectionStatus::Error(message);
    }

    /// Takes up a newer snapshot of the switcher.
    pub fn snapshot_changed(&mut self, snapshot: AtemSnapshot)
        ensures
            *final(self) == (PanelState { snapshot: Some(snapshot), ..*old(self) }),
    {
        self.snapshot = Some(snapshot);
    }

    /// Drops the session.
    pub fn disconnect(&mut self)
        ensures
            *final(self) == after_disconnect(*old(self)),
    {
        self.session_open = false;
        self.snapshot = None;
        self.status = ConnectionStatus::Disconnected;
        self.selected_aux_bus = 0;
        self.selected_dsk_key_index = 0;
        self.dsk_rate = DEFAULT_DSK_RATE;
    }

    /// The number of mix/effects buses shown.
    pub fn mes_count(&self) -> (r: u8)
        ensures
            r == shown_mes(*self),
    {
        match &self.snapshot {
            Some(s) => s.mes_count,
            None => 0,
        }
    }

    /// The number of auxiliary outputs shown.
    pub fn aux_count(&self) -> (r: u8)
        ensures
            r == shown_auxs(*self),
    {
        match &self.snapshot {
            Some(s) => s.aux_count,
            None => 0,
        }
    }

    /// The number of sources offered.
    pub fn source_count(&self) -> (r: usize)
        ensures
            r == shown_sources(*self).len(),
    {
        match &self.snapshot {
            Some(s) => s.available_sources.len(),
            None => 0,
        }
    }

    /// The number of downstream keyers offered.
    pub fn dsk_key_count(&self) -> (r: usize)
        ensures
            r == shown_dsk_keys(*self).len(),
    {
        match &self.snapshot {
            Some(s) => s.dsk_keys.len(),
            None => 0,
        }
    }

    /// Steps the selected bus down.
    pub fn me_down(&mut self)
        ensures
            *final(self) == after_me_down(*old(self)),
    {
        if self.selected_me > 0 {
            self.selected_me = self.selected_me - 1;
        }
    }

    /// Steps the selected bus up.
    pub fn me_up(&mut self)
        ensures
            *final(self) == after_me_up(*old(self)),
    {
        let max_me = self.mes_count();
        if max_me > 0 && (self.selected_me as u16) + 1 < (max_me as u16) {
            self.selected_me = self.selected_me + 1;
        }
    }

    /// Steps the selected source down.
    pub fn source_down(&mut self)
        ensures
            *final(self) == after_source_down(*old(self)),
    {
        let len = self.source_count();
        if len > 0 && self.selected_source_index > 0 {
            self.selected_source_index = self.selected_source_index - 1;
        }
    }

    /// Steps the selected source up.
    pub fn source_up(&mut self)
        ensures
            *final(self) == after_source_up(*old(self)),
    {
        let len = self.source_count();
        if len > 0 && self.selected_source_index < len - 1 {
            self.selected_source_index = self.selected_source_index + 1;
        }
    }

    /// Steps the selected auxiliary output down.
    pub fn aux_down(&mut self)
        ensures
            *final(self) == after_aux_down(*old(self)),
    {
        if self.selected_aux_bus > 0 {
            self.selected_aux_bus = self.selected_aux_bus - 1;
        }
    }

    /// Steps the selected auxiliary output up.
    pub fn aux_up(&mut self)
        ensures
            *final(self) == after_aux_up(*old(self)),
    {
        let max_aux = self.aux_count();
        if max_aux > 0 && (self.selected_aux_bus as u16) + 1 < (max_aux as u16) {
            self.selected_aux_bus = self.selected_aux_bus + 1;
        }
    }

    /// Steps the selected keyer down.
    pub fn dsk_down(&mut self)
        ensures
            *final(self) == after_dsk_down(*old(self)),
    {
        if self.selected_dsk_key_index > 0 {
            self.selected_dsk_key_index = self.selected_dsk_key_index - 1;
        }
    }

    /// Steps the selected keyer up.
    pub fn dsk_up(&mut self)
        ensures
            *final(self) == after_dsk_up(*old(self)),
    {
        let len = self.dsk_key_count();
        if len > 0 && self.selected_dsk_key_index < len - 1 {
            self.selected_dsk_key_index = self.selected_dsk_key_index + 1;
        }
    }

    /// Lowers the keyer rate by one, stopping at 0.
    pub fn rate_down(&mut self)
        ensures
            *final(self) == after_rate_down(*old(self)),
    {
        self.dsk_rate = self.dsk_rate.saturating_sub(1);
    }

    /// Raises the keyer rate by one, stopping at 255.
    pub fn rate_up(&mut self)
        ensures
            *final(self) == after_rate_up(*old(self)),
    {
        self.dsk_rate = self.dsk_rate.saturating_add(1);
    }

    /// Chooses the next transition style.
    pub fn cycle_transition(&mut self)
        ensures
            *final(self) == after_cycle_transition(*old(self)),
    {
        self.next_transition = transition_next(self.next_transition);
    }
}

/// The source selected: the offered source at the selected position, if there is one.
pub open spec fn chosen_source(p: PanelState) -> Option<VideoSource> {
    if p.selected_source_index < shown_sources(p).len() {
        Some(shown_sources(p)[p.selected_source_index as int])
    } else {
        None
    }
}

/// The keyer selected: the offered keyer at the selected position, if there is one.
pub open spec fn chosen_dsk_key(p: PanelState) -> Option<u8> {
    if p.selected_dsk_key_index < shown_dsk_keys(p).len() {
        Some(shown_dsk_keys(p)[p.selected_dsk_key_index as int])
    } else {
        None
    }
}

/// Which controls of the panel can be used.
#[derive(Debug, Clone, Copy, PartialEq, Eq, Structural)]
pub struct PanelControls {
    pub connect: bool,
    pub disconnect: bool,
    pub me_down: bool,
    pub me_up: bool,
    pub source_down: bool,
    pub source_up: bool,
    pub transition_next: bool,
    pub cut: bool,
    pub auto: bool,
    pub set_next_transition: bool,
    pub set_program: bool,
    pub set_preview: bool,
    pub aux_down: bool,
    pub aux_up: bool,
    pub set_aux_source: bool,
    pub dsk_down: bool,
    pub dsk_up: bool,
    pub dsk_rate_down: bool,
    pub dsk_rate_up: bool,
    pub dsk_auto: bool,
    pub dsk_on: bool,
    pub dsk_off: bool,
    pub dsk_tie_on: bool,
    pub dsk_tie_off: bool,
    pub dsk_set_cut: bool,
    pub dsk_set_fill: bool,
    pub dsk_set_rate: bool,
}

/// The controls that can be used in `p`: connecting unless connected; disconnecting and the
/// style cycle with a session; bus, source and output stepping where there is something to
/// step through; commands with a session and whatever bus, source or keyer they act on.
pub open spec fn usable_controls(p: PanelState) -> PanelControls {
    let session = p.session_open;
    let buses = shown_mes(p) != 0;
    let source = chosen_source(p) is Some;
    let key = chosen_dsk_key(p) is Some;
    let keyers = shown_dsk_keys(p).len() != 0;
    PanelControls {
        connect: !(p.status is Connected),
        disconnect: session,
        me_down: shown_mes(p) > 1,
        me_up: buses,
        source_down: shown_sources(p).len() != 0,
        source_up: shown_sources(p).len() != 0,
        transition_next: session,
        cut: session && buses,
        auto: session && buses,
        set_next_transition: session && buses,
        set_program: session && source,
        set_preview: session && source,
        aux_down: session && shown_auxs(p) > 1,
        aux_up: session && shown_auxs(p) != 0,
        set_aux_source: session && source && shown_auxs(p) != 0,
        dsk_down: session && keyers,
        dsk_up: session && keyers,
        dsk_rate_down: session && key,
        dsk_rate_up: session && key,
        dsk_auto: session && key,
        dsk_on: session && key,
        dsk_off: session && key,
        dsk_tie_on: session && key,
        dsk_tie_off: session && key,
        dsk_set_cut: session && key && source,
        dsk_set_fill: session && key && source,
        dsk_set_rate: session && key,
    }
}

/// A panel control that sends a command to the switcher.
#[derive(Debug, Clone, Copy, PartialEq, Eq, Structural)]
pub enum CommandButton {
    Cut,
    Auto,
    SetNextTransition,
    SetProgram,
    SetPreview,
    SetAuxSource,
    DskAuto,
    DskOn,
    DskOff,
    DskTieOn,
    DskTieOff,
    DskSetCut,
    DskSetFill,
    DskSetRate,
}

/// The command that a control sends in `p`: none without a session, nor without the source
/// or keyer it acts on; otherwise the command on the selected bus, source, output or keyer.
pub open spec fn button_command(p: PanelState, b: CommandButton) -> Option<SwitcherCommand> {
    let me = p.selected_me;
    if !p.session_open {
        None
    } else {
        match b {
            CommandButton::Cut => Some(SwitcherCommand::Cut { me }),
            CommandButton::Auto => Some(SwitcherCommand::Auto { me }),
            CommandButton::SetNextTransition => Some(
                SwitcherCommand::SetNextTransition { me, transition: p.next_transition },
            ),
            CommandButton::SetProgram => match chosen_source(p) {
                Some(source) => Some(SwitcherCommand::SetProgramInput { me, source }),
                None => None,
            },
            CommandButton::SetPreview => match chosen_source(p) {
                Some(source) => Some(SwitcherCommand::SetPreviewInput { me, source }),
                None => None,
            },
            CommandButton::SetAuxSource => match chosen_source(p) {
                Some(source) => Some(
                    SwitcherCommand::SetAuxSource { aux_bus: p.selected_aux_bus, source },
                ),
                None => None,
            },
            CommandButton::DskSetCut => match (chosen_dsk_key(p), chosen_source(p)) {
                (Some(key), Some(source)) => Some(SwitcherCommand::SetDskCutSource { key, source }),
                _ => None,
            },
            CommandButton::DskSetFill => match (chosen_dsk_key(p), chosen_source(p)) {
                (Some(key), Some(source)) => Some(
                    SwitcherCommand::SetDskFillSource { key, source },
                ),
                _ => None,
            },
            _ => match chosen_dsk_key(p) {
                None => None,
                Some(key) => match b {
                    CommandButton::DskAuto => Some(SwitcherCommand::DskAuto { key }),
                    CommandButton::DskOn => Some(SwitcherCommand::SetDskOnAir { key, on_air: true }),
                    CommandButton::DskOff => Some(
                        SwitcherCommand::SetDskOnAir { key, on_air: false },
                    ),
                    CommandButton::DskTieOn => Some(SwitcherCommand::SetDskTie { key, tie: true }),
                    CommandButton::DskTieOff => Some(SwitcherCommand::SetDskTie { key, tie: false }),
                    _ => Some(SwitcherCommand::SetDskRate { key, rate: p.dsk_rate }),
                },
            },
        }
    }
}

impl PanelState {
    /// The source selected, if any.
    pub fn selected_source(&self) -> (r: Option<VideoSource>)
        ensures
            r == chosen_source(*self),
    {
        match &self.snapshot {
            Some(s) => {
                if self.selected_source_index < s.available_sources.len() {
                    Some(s.available_sources[self.selected_source_index].duplicate())
                } else {
                    None
                }
            },
            None => None,
        }
    }

    /// The keyer selected, if any.
    pub fn selected_dsk_key(&self) -> (r: Option<u8>)
        ensures
            r == chosen_dsk_key(*self),
    {
        match &self.snapshot {
            Some(s) => {
                if self.selected_dsk_key_index < s.dsk_keys.len() {
                    Some(s.dsk_keys[self.selected_dsk_key_index])
                } else {
                    None
                }
            },
            None => None,
        }
    }

    /// The controls that can be used now.
    pub fn controls(&self) -> (r: PanelControls)
        ensures
            r == usable_controls(*self),
    {
        let session = self.session_open;
        let mes = self.mes_count();
        let auxs = self.aux_count();
        let buses = mes != 0;
        let source = self.selected_source().is_some();
        let key = self.selected_dsk_key().is_some();
        let keyers = self.dsk_key_count() != 0;
        let sources = self.source_count() != 0;
        let connected = match self.status {
            ConnectionStatus::Connected => true,
            _ => false,
        };
        PanelControls {
            connect: !connected,
            disconnect: session,
            me_down: mes > 1,
            me_up: buses,
            source_down: sources,
            source_up: sources,
            transition_next: session,
            cut: session && buses,
            auto: session && buses,
            set_next_transition: session && buses,
            set_program: session && source,
            set_preview: session && source,
            aux_down: session && auxs > 1,
            aux_up: session && auxs != 0,
            set_aux_source: session && source && auxs != 0,
            dsk_down: session && keyers,
            dsk_up: session && keyers,
            dsk_rate_down: session && key,
            dsk_rate_up: session && key,
            dsk_auto: session && key,
            dsk_on: session && key,
            dsk_off: session && key,
            dsk_tie_on: session && key,
            dsk_tie_off: session && key,
            dsk_set_cut: session && key && source,
            dsk_set_fill: session && key && source,
            dsk_set_rate: session && key,
        }
    }

    /// The command that the control `b` sends now, if any.
    pub fn command_for(&self, b: CommandButton) -> (r: Option<SwitcherCommand>)
        ensures
            r == button_command(*self, b),
    {
        if !self.session_open {
            return None;
        }
        let me = self.selected_me;
        match b {
            CommandButton::Cut => Some(SwitcherCommand::Cut { me }),
            CommandButton::Auto => Some(SwitcherCommand::Auto { me }),
            CommandButton::SetNextTransition => Some(
                SwitcherCommand::SetNextTransition { me, transition: self.next_transition },
            ),
            CommandButton::SetProgram => match self.selected_source() {
                Some(source) => Some(SwitcherCommand::SetProgramInput { me, source }),
                None => None,
            },
            CommandButton::SetPreview => match self.selected_source() {
                Some(source) => Some(SwitcherCommand::SetPreviewInput { me, source }),
                None => None,
            },
            CommandButton::SetAuxSource => match self.selected_source() {
                Some(source) => Some(
                    SwitcherCommand::SetAuxSource { aux_bus: self.selected_aux_bus, source },
                ),
                None => None,
            },
            CommandButton::DskSetCut => match (self.selected_dsk_key(), self.selected_source()) {
                (Some(key), Some(source)) => Some(SwitcherCommand::SetDskCutSource { key, source }),
                _ => None,
            },
            CommandButton::DskSetFill => match (self.selected_dsk_key(), self.selected_source()) {
                (Some(key), Some(source)) => Some(
                    SwitcherCommand::SetDskFillSource { key, source },
                ),
                _ => None,
            },
            _ => match self.selected_dsk_key() {
                None => None,
                Some(key) => match b {
                    CommandButton::DskAuto => Some(SwitcherCommand::DskAuto { key }),
                    CommandButton::DskOn => Some(SwitcherCommand::SetDskOnAir { key, on_air: true }),
                    CommandButton::DskOff => Some(
                        SwitcherCommand::SetDskOnAir { key, on_air: false },
                    ),
                    CommandButton::DskTieOn => Some(SwitcherCommand::SetDskTie { key, tie: true }),
                    CommandButton::DskTieOff => Some(SwitcherCommand::SetDskTie { key, tie: false }),
                    _ => Some(SwitcherCommand::SetDskRate { key, rate: self.dsk_rate }),
                },
            },
        }
    }
}

/// Whether `n` names one of the first six auxiliary outputs: "Auxilary" and a digit 1 to 6.
pub open spec fn is_aux_name(n: Seq<char>) -> bool {
    n.len() == 9 && n.take(8) == "Auxilary"@ && '1' <= n[8] && n[8] <= '6'
}

/// The short label of a source named `n`: "Aux" and the digit for the first six auxiliary
/// outputs, the name itself for every other source.
pub open spec fn source_label(n: Seq<char>) -> Seq<char> {
    if is_aux_name(n) {
        "Aux"@.push(n[8])
    } else {
        n
    }
}

/// The labels of a sequence of sources.
pub open spec fn source_labels(v: Seq<VideoSource>) -> Seq<Seq<char>> {
    v.map_values(|s: VideoSource| source_label(s.name@))
}

/// The text of a status: "Disconnected", "Connected", or "Error: " and the message.
pub open spec fn status_text(s: ConnectionStatus) -> Seq<char> {
    match s {
        ConnectionStatus::Disconnected => "Disconnected"@,
        ConnectionStatus::Connected => "Connected"@,
        ConnectionStatus::Error(e) => "Error: "@ + e@,
    }
}

/// The label of the source at `i` of `v`, or "-" where there is none.
pub open spec fn label_at(v: Seq<VideoSource>, i: int) -> Seq<char> {
    if 0 <= i < v.len() {
        source_label(v[i].name@)
    } else {
        "-"@
    }
}

/// The label of the program source of the selected bus, or "-".
pub open spec fn program_text(p: PanelState) -> Seq<char> {
    match p.snapshot {
        Some(s) => label_at(s.program_sources@, p.selected_me as int),
        None => "-"@,
    }
}

/// The label of the preview source of the selected bus, or "-".
pub open spec fn preview_text(p: PanelState) -> Seq<char> {
    match p.snapshot {
        Some(s) => label_at(s.preview_sources@, p.selected_me as int),
        None => "-"@,
    }
}

/// The label of the selected source, or "-".
pub open spec fn selected_source_text(p: PanelState) -> Seq<char> {
    match chosen_source(p) {
        Some(s) => source_label(s.name@),
        None => "-"@,
    }
}

/// How many sources the list names: all of them, up to `SOURCES_SHOWN`.
pub open spec fn shown_count(len: nat) -> nat {
    if len < SOURCES_SHOWN {
        len
    } else {
        SOURCES_SHOWN as nat
    }
}

/// The list of sources: "-" for none; else the labels of the first `SOURCES_SHOWN` sources,
/// followed, where more are offered, by "+N more" for the N others, all separated by ", ".
pub open spec fn sources_summary(v: Seq<VideoSource>) -> Seq<char> {
    if v.len() == 0 {
        "-"@
    } else {
        let shown = source_labels(v.take(shown_count(v.len()) as int));
        let parts = if v.len() > SOURCES_SHOWN {
            shown.push("+"@ + decimal_text((v.len() - SOURCES_SHOWN) as nat) + " more"@)
        } else {
            shown
        };
        join_texts(parts, ", "@)
    }
}

/// The short label of a source.
pub fn video_source_label(src: &VideoSource) -> (r: String)
    ensures
        r@ == source_label(src.name@),
{
    let name = src.name.as_str();
    let chars = chars_of(name);
    if chars.len() == 9 && '1' <= chars[8] && chars[8] <= '6' {
        let head = name.substring_char(0, 8);
        if same_text(head, "Auxilary") {
            let digit = name.substring_char(8, 9);
            let r = joined("Aux", digit);
            assert(r@ =~= "Aux"@.push(src.name@[8]));
            return r;
        }
        assert(head@ =~= src.name@.take(8));
    }
    src.name.clone()
}

/// The label of the source at `i` of `v`, or "-".
fn label_at_index(v: &Vec<VideoSource>, i: usize) -> (r: String)
    ensures
        r@ == label_at(v@, i as int),
{
    if i < v.len() {
        video_source_label(&v[i])
    } else {
        String::from_str("-")
    }
}

/// The text of a status.
pub fn status_label(status: &ConnectionStatus) -> (r: String)
    ensures
        r@ == status_text(*status),
{
    match status {
        ConnectionStatus::Disconnected => String::from_str("Disconnected"),
        ConnectionStatus::Connected => String::from_str("Connected"),
        ConnectionStatus::Error(e) => joined("Error: ", e.as_str()),
    }
}

/// The list of sources, as the panel shows it.
pub fn sources_preview(v: &Vec<VideoSource>) -> (r: String)
    ensures
        r@ == sources_summary(v@),
{
    if v.len() == 0 {
        return String::from_str("-");
    }
    let count = if v.len() < SOURCES_SHOWN {
        v.len()
    } else {
        SOURCES_SHOWN
    };
    let mut parts: Vec<String> = Vec::new();
    let mut i: usize = 0;
    while i < count
        invariant
            count <= v.len(),
            count == shown_count(v@.len()),
            i <= count,
            texts_of(parts@) == source_labels(v@.take(i as int)),
        decreases count - i,
    {
        let label = video_source_label(&v[i]);
        let ghost prev = parts@;
        parts.push(label);
        proof {
            assert(texts_of(parts@) =~= texts_of(prev).push(source_label(v@[i as int].name@)));
            assert(source_labels(v@.take(i + 1)) =~= source_labels(v@.take(i as int)).push(
                source_label(v@[i as int].name@),
            ));
        }
        i = i + 1;
    }
    if v.len() > SOURCES_SHOWN {
        let more = decimal((v.len() - SOURCES_SHOWN) as u64);
        let with_plus = joined("+", more.as_str());
        let note = joined(with_plus.as_str(), " more");
        let ghost prev = parts@;
        parts.push(note);
        assert(texts_of(parts@) =~= texts_of(prev).push(note@));
    }
    join_strings(&parts, ", ")
}

impl PanelState {
    /// The text of the status.
    pub fn status_line(&self) -> (r: String)
        ensures
            r@ == status_text(self.status),
    {
        status_label(&self.status)
    }

    /// The label of the program source of the selected bus.
    pub fn program_label(&self) -> (r: String)
        ensures
            r@ == program_text(*self),
    {
        match &self.snapshot {
            Some(s) => label_at_index(&s.program_sources, self.selected_me as usize),
            None => String::from_str("-"),
        }
    }

    /// The label of the preview source of the selected bus.
    pub fn preview_label(&self) -> (r: String)
        ensures
            r@ == preview_text(*self),
    {
        match &self.snapshot {
            Some(s) => label_at_index(&s.preview_sources, self.selected_me as usize),
            None => String::from_str("-"),
        }
    }

    /// The label of the selected source.
    pub fn selected_source_label(&self) -> (r: String)
        ensures
            r@ == selected_source_text(*self),
    {
        match self.selected_source() {
            Some(s) => video_source_label(&s),
            None => String::from_str("-"),
        }
    }

    /// The list of offered sources.
    pub fn sources_label(&self) -> (r: String)
        ensures
            r@ == sources_summary(shown_sources(*self)),
    {
        match &self.snapshot {
            Some(s) => sources_preview(&s.available_sources),
            None => {
                let empty: Vec<VideoSource> = Vec::new();
                sources_preview(&empty)
            },
        }
    }
}

} // verus!
