//! Properties that relate several operations of the library.
use vstd::prelude::*;
use crate::commands::{not_connected_text, request_outcome, CommandRequest, SwitcherCommand};
use crate::connection::ConnectionStatus;
use crate::dto::{
    is_dto_of, is_empty_dto, is_item_of, is_status_dto_of, names_of, AtemSnapshotDto,
    ConnectionStatusDto,
};
use crate::snapshot::{
    has_distinct_entries, is_snapshot_of, routed_source, AtemSnapshot, SwitcherState,
};
use crate::text::{ascii_lower, decimal_text, join_texts, texts_of};
use crate::address::{decimal_text_reads_back, digits_value, is_digit};
use crate::source::{ids_of, TransitionType, VideoSource};
use crate::commands::transition_named;
use crate::ui::{
    after_connected, after_disconnect, after_me_down, after_me_up, after_rate_down,
    after_rate_up, after_source_down, after_source_up, button_command, chosen_source,
    shown_mes, shown_sources, source_labels, sources_summary, usable_controls, CommandButton,
    PanelState,
};

verus! {

/// A source picked by its position in the record shown for a snapshot is the source that
/// the program and preview commands are then sent for: same id, same name.
pub proof fn listed_source_is_commanded(s: AtemSnapshot, d: AtemSnapshotDto, i: int, me: u8)
    requires
        is_dto_of(d, s),
        0 <= i < d.available_source_items@.len(),
    ensures
        ({
            let item = d.available_source_items@[i];
            &&& request_outcome(
                Some(s),
                CommandRequest::SetProgramInputByIndex { me, source_index: item.source_index },
            ) matches Ok(SwitcherCommand::SetProgramInput { me: m, source }) && m == me
                && source.id == item.source_id && source.name@ == item.source_name@
            &&& request_outcome(
                Some(s),
                CommandRequest::SetPreviewInputByIndex { me, source_index: item.source_index },
            ) matches Ok(SwitcherCommand::SetPreviewInput { me: m, source }) && m == me
                && source.id == item.source_id && source.name@ == item.source_name@
        }),
{
    assert(is_item_of(d.available_source_items@[i], i, s.available_sources@[i]));
}

/// Without a connection every request is refused: with the message for an unknown
/// transition name where it names none, and otherwise with "not connected".
pub proof fn requests_need_a_connection(req: CommandRequest)
    ensures
        request_outcome(None, req) is Err,
        (match req {
            CommandRequest::SetNextTransition { transition, .. } => transition_named(
                ascii_lower(transition@),
            ) is None,
            _ => false,
        }) || request_outcome(None, req) == Err::<SwitcherCommand, Seq<char>>(
            not_connected_text(),
        ),
{
}

/// The shown record of the snapshot of a switcher state lists every bus once, with the
/// program and preview source that the state routes to it.
pub proof fn every_bus_is_shown(state: SwitcherState, s: AtemSnapshot, d: AtemSnapshotDto)
    requires
        is_snapshot_of(s, state),
        is_dto_of(d, s),
    ensures
        d.mes_count == state.mes,
        d.program_source_ids@.len() == state.mes,
        d.preview_source_ids@.len() == state.mes,
        forall|me: int|
            0 <= me < state.mes ==> #[trigger] d.program_source_ids@[me] == routed_source(
                state.program_inputs@,
                me as u8,
                state.default_source,
            ).id,
        forall|me: int|
            0 <= me < state.mes ==> #[trigger] d.preview_source_ids@[me] == routed_source(
                state.preview_inputs@,
                me as u8,
                state.default_source,
            ).id,
{
    assert forall|me: int| 0 <= me < state.mes implies #[trigger] d.program_source_ids@[me]
        == routed_source(state.program_inputs@, me as u8, state.default_source).id by {
        assert(s.program_sources@[me] == routed_source(
            state.program_inputs@,
            me as u8,
            state.default_source,
        ));
    }
    assert forall|me: int| 0 <= me < state.mes implies #[trigger] d.preview_source_ids@[me]
        == routed_source(state.preview_inputs@, me as u8, state.default_source).id by {
        assert(s.preview_sources@[me] == routed_source(
            state.preview_inputs@,
            me as u8,
            state.default_source,
        ));
    }
}

/// The snapshot of a switcher state offers keyer controls exactly when the switcher has
/// downstream keyers, each keyer once, and offers each input source once.
pub proof fn keyers_and_sources_offered_once(state: SwitcherState, s: AtemSnapshot)
    requires
        is_snapshot_of(s, state),
        has_distinct_entries(s),
    ensures
        (s.dsk_keys@.len() == 0) == (state.dsk_sources@.len() == 0),
        s.dsk_keys@.no_duplicates(),
        s.dsk_keys@.len() == state.dsk_sources@.len(),
        forall|i: int| 0 <= i < s.dsk_keys@.len() ==> #[trigger] s.dsk_keys@[i]
            == state.dsk_sources@[i].0,
        s.available_sources@.no_duplicates(),
        s.available_sources@ == state.input_sources@,
{
}

/// Once the user has disconnected, no control of the panel sends a command and none of the
/// command controls can be used.
pub proof fn disconnected_panel_is_silent(p: PanelState, b: CommandButton)
    ensures
        button_command(after_disconnect(p), b) is None,
        ({
            let c = usable_controls(after_disconnect(p));
            !c.disconnect && !c.cut && !c.auto && !c.set_next_transition && !c.set_program
                && !c.set_preview && !c.set_aux_source && !c.dsk_auto && !c.dsk_on && !c.dsk_off
                && !c.dsk_tie_on && !c.dsk_tie_off && !c.dsk_set_cut && !c.dsk_set_fill
                && !c.dsk_set_rate
        }),
{
}

/// Stepping the selected bus or source keeps a selection that lies within the shown buses
/// or offered sources within them; a step up that moved is undone by a step down.
pub proof fn selections_stay_in_range(p: PanelState)
    ensures
        p.selected_me < shown_mes(p) ==> after_me_up(p).selected_me < shown_mes(after_me_up(p))
            && after_me_down(p).selected_me < shown_mes(after_me_down(p)),
        after_me_up(p) != p ==> after_me_down(after_me_up(p)) == p,
        p.selected_source_index < shown_sources(p).len() ==> {
            &&& after_source_up(p).selected_source_index < shown_sources(
                after_source_up(p),
            ).len()
            &&& after_source_down(p).selected_source_index < shown_sources(
                after_source_down(p),
            ).len()
            &&& chosen_source(after_source_up(p)) is Some
            &&& chosen_source(after_source_down(p)) is Some
        },
        after_source_up(p) != p ==> after_source_down(after_source_up(p)) == p,
{
    let q = after_source_up(p);
    if let Some(snap) = p.snapshot {
        assert(snap.available_sources@.len() == snap.available_sources.len());
    }
    if q != p {
        assert(shown_sources(q) == shown_sources(p));
        assert(q.selected_source_index == p.selected_source_index + 1);
        assert(after_source_down(q) =~= p);
    }
}

/// Raising the keyer rate and lowering it again gives back the rate, unless it was at the top.
pub proof fn rate_steps_undo(p: PanelState)
    ensures
        p.dsk_rate < 255 ==> after_rate_down(after_rate_up(p)) == p,
        p.dsk_rate > 0 ==> after_rate_up(after_rate_down(p)) == p,
{
}

/// After a connection is made, the panel selects the first bus, source, output and keyer,
/// and the first offered source is selected whenever the snapshot offers any.
pub proof fn connecting_starts_at_the_first(p: PanelState, s: AtemSnapshot)
    ensures
        after_connected(p, s).selected_me == 0,
        s.available_sources@.len() > 0 ==> chosen_source(after_connected(p, s)) == Some(
            s.available_sources@[0],
        ),
        after_connected(p, s).status == ConnectionStatus::Connected,
{
}

/// With a connection, every request that names no source becomes the command of the same
/// kind on the same bus or keyer with the same setting; a request by source position names
/// the source listed at that position, on the same bus, or is refused past the end of the
/// list; and a transition request keeps its bus and takes the style whose name it gives in
/// any ASCII case.
pub proof fn requests_keep_their_arguments(s: AtemSnapshot, req: CommandRequest)
    ensures
        match req {
            CommandRequest::Cut { me } => request_outcome(Some(s), req) == Ok::<
                SwitcherCommand,
                Seq<char>,
            >(SwitcherCommand::Cut { me }),
            CommandRequest::AutoTransition { me } => request_outcome(Some(s), req) == Ok::<
                SwitcherCommand,
                Seq<char>,
            >(SwitcherCommand::Auto { me }),
            CommandRequest::DskAuto { key } => request_outcome(Some(s), req) == Ok::<
                SwitcherCommand,
                Seq<char>,
            >(SwitcherCommand::DskAuto { key }),
            CommandRequest::SetDskOnAir { key, on_air } => request_outcome(Some(s), req) == Ok::<
                SwitcherCommand,
                Seq<char>,
            >(SwitcherCommand::SetDskOnAir { key, on_air }),
            CommandRequest::SetDskTie { key, tie } => request_outcome(Some(s), req) == Ok::<
                SwitcherCommand,
                Seq<char>,
            >(SwitcherCommand::SetDskTie { key, tie }),
            CommandRequest::SetDskRate { key, rate } => request_outcome(Some(s), req) == Ok::<
                SwitcherCommand,
                Seq<char>,
            >(SwitcherCommand::SetDskRate { key, rate }),
            CommandRequest::ToggleAutoBlack { me } => request_outcome(Some(s), req) == Ok::<
                SwitcherCommand,
                Seq<char>,
            >(SwitcherCommand::ToggleAutoBlack { me }),
            CommandRequest::SetProgramInputByIndex { me, source_index } => {
                &&& source_index < s.available_sources@.len() ==> request_outcome(Some(s), req)
                    == Ok::<SwitcherCommand, Seq<char>>(
                    SwitcherCommand::SetProgramInput {
                        me,
                        source: s.available_sources@[source_index as int],
                    },
                )
                &&& source_index >= s.available_sources@.len() ==> request_outcome(
                    Some(s),
                    req,
                ) is Err
            },
            CommandRequest::SetPreviewInputByIndex { me, source_index } => {
                &&& source_index < s.available_sources@.len() ==> request_outcome(Some(s), req)
                    == Ok::<SwitcherCommand, Seq<char>>(
                    SwitcherCommand::SetPreviewInput {
                        me,
                        source: s.available_sources@[source_index as int],
                    },
                )
                &&& source_index >= s.available_sources@.len() ==> request_outcome(
                    Some(s),
                    req,
                ) is Err
            },
            CommandRequest::SetNextTransition { me, transition } => {
                let l = ascii_lower(transition@);
                &&& l == "mix"@ ==> request_outcome(Some(s), req) == Ok::<
                    SwitcherCommand,
                    Seq<char>,
                >(SwitcherCommand::SetNextTransition { me, transition: TransitionType::Mix })
                &&& l == "dip"@ ==> request_outcome(Some(s), req) == Ok::<
                    SwitcherCommand,
                    Seq<char>,
                >(SwitcherCommand::SetNextTransition { me, transition: TransitionType::Dip })
                &&& l == "wipe"@ ==> request_outcome(Some(s), req) == Ok::<
                    SwitcherCommand,
                    Seq<char>,
                >(SwitcherCommand::SetNextTransition { me, transition: TransitionType::Wipe })
                &&& l == "sting"@ ==> request_outcome(Some(s), req) == Ok::<
                    SwitcherCommand,
                    Seq<char>,
                >(SwitcherCommand::SetNextTransition { me, transition: TransitionType::Sting })
                &&& l == "dve"@ ==> request_outcome(Some(s), req) == Ok::<
                    SwitcherCommand,
                    Seq<char>,
                >(SwitcherCommand::SetNextTransition { me, transition: TransitionType::DVE })
                &&& (request_outcome(Some(s), req) matches Ok(c) ==> c
                    matches SwitcherCommand::SetNextTransition { me: m, .. } && m == me)
            },
        },
{
    reveal_strlit("mix");
    reveal_strlit("dip");
    reveal_strlit("wipe");
    reveal_strlit("sting");
    reveal_strlit("dve");
    assert("dip"@[0] != "mix"@[0]);
    assert("wipe"@.len() != "mix"@.len() && "wipe"@.len() != "dip"@.len());
    assert("sting"@.len() != "mix"@.len() && "sting"@.len() != "dip"@.len() && "sting"@.len()
        != "wipe"@.len());
    assert("dve"@[0] != "mix"@[0] && "dve"@[1] != "dip"@[1]);
}

/// A refused source position is quoted in the message: the text after
/// "invalid source index: " is a run of decimal digits that reads back as the position.
pub proof fn refused_positions_are_quoted(s: AtemSnapshot, me: u8, source_index: usize)
    requires
        source_index >= s.available_sources@.len(),
    ensures
        request_outcome(Some(s), CommandRequest::SetProgramInputByIndex { me, source_index })
            matches Err(m) && m.len() > "invalid source index: "@.len() && m.take(
            "invalid source index: "@.len() as int,
        ) == "invalid source index: "@ && digits_value(
            m.skip("invalid source index: "@.len() as int),
        ) == source_index && (forall|i: int|
            "invalid source index: "@.len() <= i < m.len() ==> #[trigger] is_digit(m[i])),
{
    decimal_text_reads_back(source_index as nat);
    let p = "invalid source index: "@;
    let t = decimal_text(source_index as nat);
    assert((p + t).take(p.len() as int) =~= p);
    assert((p + t).skip(p.len() as int) =~= t);
    assert forall|i: int| p.len() <= i < (p + t).len() implies #[trigger] is_digit((p + t)[i]) by {
        assert((p + t)[i] == t[i - p.len()]);
    }
}

/// With a session and a snapshot, each command control acts on what is selected: the bus
/// controls on the selected bus (and the chosen style), the source controls on the offered
/// source at the selected position, the auxiliary control on the selected output, the keyer
/// controls on the offered keyer at the selected position, with on-air and tie set as the
/// control says and the rate set to the panel's current rate. Without that source or keyer
/// the control sends nothing, and without a session no control sends anything.
pub proof fn panel_commands_use_the_selection(p: PanelState, s: AtemSnapshot, b: CommandButton)
    ensures
        !p.session_open ==> button_command(p, b) is None,
        p.session_open && p.snapshot == Some(s) ==> {
            let me = p.selected_me;
            let has_source = p.selected_source_index < s.available_sources@.len();
            let has_key = p.selected_dsk_key_index < s.dsk_keys@.len();
            let source = s.available_sources@[p.selected_source_index as int];
            let key = s.dsk_keys@[p.selected_dsk_key_index as int];
            &&& button_command(p, CommandButton::Cut) == Some(SwitcherCommand::Cut { me })
            &&& button_command(p, CommandButton::Auto) == Some(SwitcherCommand::Auto { me })
            &&& button_command(p, CommandButton::SetNextTransition) == Some(
                SwitcherCommand::SetNextTransition { me, transition: p.next_transition },
            )
            &&& has_source ==> button_command(p, CommandButton::SetProgram) == Some(
                SwitcherCommand::SetProgramInput { me, source },
            )
            &&& has_source ==> button_command(p, CommandButton::SetPreview) == Some(
                SwitcherCommand::SetPreviewInput { me, source },
            )
            &&& has_source ==> button_command(p, CommandButton::SetAuxSource) == Some(
                SwitcherCommand::SetAuxSource { aux_bus: p.selected_aux_bus, source },
            )
            &&& !has_source ==> button_command(p, CommandButton::SetProgram) is None
                && button_command(p, CommandButton::SetPreview) is None && button_command(
                p,
                CommandButton::SetAuxSource,
            ) is None && button_command(p, CommandButton::DskSetCut) is None
                && button_command(p, CommandButton::DskSetFill) is None
            &&& has_key ==> button_command(p, CommandButton::DskAuto) == Some(
                SwitcherCommand::DskAuto { key },
            )
            &&& has_key ==> button_command(p, CommandButton::DskOn) == Some(
                SwitcherCommand::SetDskOnAir { key, on_air: true },
            )
            &&& has_key ==> button_command(p, CommandButton::DskOff) == Some(
                SwitcherCommand::SetDskOnAir { key, on_air: false },
            )
            &&& has_key ==> button_command(p, CommandButton::DskTieOn) == Some(
                SwitcherCommand::SetDskTie { key, tie: true },
            )
            &&& has_key ==> button_command(p, CommandButton::DskTieOff) == Some(
                SwitcherCommand::SetDskTie { key, tie: false },
            )
            &&& has_key ==> button_command(p, CommandButton::DskSetRate) == Some(
                SwitcherCommand::SetDskRate { key, rate: p.dsk_rate },
            )
            &&& has_key && has_source ==> button_command(p, CommandButton::DskSetCut) == Some(
                SwitcherCommand::SetDskCutSource { key, source },
            )
            &&& has_key && has_source ==> button_command(p, CommandButton::DskSetFill) == Some(
                SwitcherCommand::SetDskFillSource { key, source },
            )
            &&& !has_key ==> button_command(p, CommandButton::DskAuto) is None && button_command(
                p,
                CommandButton::DskOn,
            ) is None && button_command(p, CommandButton::DskOff) is None && button_command(
                p,
                CommandButton::DskTieOn,
            ) is None && button_command(p, CommandButton::DskTieOff) is None && button_command(
                p,
                CommandButton::DskSetRate,
            ) is None && button_command(p, CommandButton::DskSetCut) is None
                && button_command(p, CommandButton::DskSetFill) is None
        },
{
}

/// The rate that the set-rate control sends follows the rate steps: one more after a step
/// up below the top, one less after a step down above 0.
pub proof fn rate_control_sends_the_stepped_rate(p: PanelState)
    ensures
        p.dsk_rate < 255 ==> (button_command(p, CommandButton::DskSetRate) matches Some(
            SwitcherCommand::SetDskRate { key, rate },
        ) ==> rate == p.dsk_rate && button_command(after_rate_up(p), CommandButton::DskSetRate)
            == Some(SwitcherCommand::SetDskRate { key, rate: (rate + 1) as u8 })),
        p.dsk_rate > 0 ==> (button_command(p, CommandButton::DskSetRate) matches Some(
            SwitcherCommand::SetDskRate { key, rate },
        ) ==> rate == p.dsk_rate && button_command(after_rate_down(p), CommandButton::DskSetRate)
            == Some(SwitcherCommand::SetDskRate { key, rate: (rate - 1) as u8 })),
{
}

/// The connect control can be used exactly while the link is not up: after a failed attempt
/// (an error status, no session) and when disconnected, but not when connected. Disconnecting
/// and cycling the style need a session; the bus commands need a session and a bus; stepping
/// the buses needs more than one bus to step down and one to step up.
pub proof fn controls_follow_the_link(p: PanelState, message: String)
    ensures
        usable_controls(
            PanelState {
                status: ConnectionStatus::Error(message),
                snapshot: None,
                session_open: false,
                ..p
            },
        ).connect,
        usable_controls(PanelState { status: ConnectionStatus::Error(message), ..p }).connect,
        usable_controls(PanelState { status: ConnectionStatus::Disconnected, ..p }).connect,
        !usable_controls(PanelState { status: ConnectionStatus::Connected, ..p }).connect,
        usable_controls(p).disconnect == p.session_open,
        usable_controls(p).transition_next == p.session_open,
        usable_controls(p).cut == (p.session_open && (p.snapshot matches Some(s) && s.mes_count
            > 0)),
        usable_controls(p).auto == usable_controls(p).cut,
        usable_controls(p).set_next_transition == usable_controls(p).cut,
        usable_controls(p).me_up == (p.snapshot matches Some(s) && s.mes_count > 0),
        usable_controls(p).me_down == (p.snapshot matches Some(s) && s.mes_count > 1),
        usable_controls(p).set_program == (p.session_open && (p.snapshot matches Some(s)
            && p.selected_source_index < s.available_sources@.len())),
        usable_controls(p).dsk_set_rate == (p.session_open && (p.snapshot matches Some(s)
            && p.selected_dsk_key_index < s.dsk_keys@.len())),
{
}

/// Every control that sends a command can be used exactly when it would send one, except
/// the bus controls, which also need a bus to act on.
pub proof fn usable_controls_send_commands(p: PanelState)
    ensures
        usable_controls(p).set_program == button_command(p, CommandButton::SetProgram) is Some,
        usable_controls(p).set_preview == button_command(p, CommandButton::SetPreview) is Some,
        usable_controls(p).dsk_auto == button_command(p, CommandButton::DskAuto) is Some,
        usable_controls(p).dsk_on == button_command(p, CommandButton::DskOn) is Some,
        usable_controls(p).dsk_off == button_command(p, CommandButton::DskOff) is Some,
        usable_controls(p).dsk_tie_on == button_command(p, CommandButton::DskTieOn) is Some,
        usable_controls(p).dsk_tie_off == button_command(p, CommandButton::DskTieOff) is Some,
        usable_controls(p).dsk_set_rate == button_command(p, CommandButton::DskSetRate) is Some,
        usable_controls(p).dsk_set_cut == button_command(p, CommandButton::DskSetCut) is Some,
        usable_controls(p).dsk_set_fill == button_command(p, CommandButton::DskSetFill) is Some,
        usable_controls(p).cut ==> button_command(p, CommandButton::Cut) is Some,
        usable_controls(p).auto ==> button_command(p, CommandButton::Auto) is Some,
{
}

/// Appending a part to a non-empty list of parts appends the separator and the part to the
/// joined text.
pub proof fn join_appends(parts: Seq<Seq<char>>, sep: Seq<char>, x: Seq<char>)
    requires
        parts.len() >= 1,
    ensures
        join_texts(parts.push(x), sep) == join_texts(parts, sep) + sep + x,
{
    assert(parts.push(x).drop_last() =~= parts);
}

/// The source list names the first twenty sources by label, in order, separated by ", ";
/// past twenty it then says how many sources it left out: ", +N more", where N, read as a
/// decimal number, is the number of sources minus twenty, so the named sources and N add up
/// to all of them. Without sources it reads "-".
pub proof fn source_list_counts_the_rest(v: Seq<VideoSource>)
    ensures
        v.len() == 0 ==> sources_summary(v) == "-"@,
        0 < v.len() <= 20 ==> sources_summary(v) == join_texts(source_labels(v), ", "@),
        v.len() > 20 ==> {
            &&& sources_summary(v) == join_texts(source_labels(v.take(20)), ", "@) + ", +"@
                + decimal_text((v.len() - 20) as nat) + " more"@
            &&& source_labels(v.take(20)).len() + digits_value(
                decimal_text((v.len() - 20) as nat),
            ) == v.len()
        },
{
    if v.len() > 0 && v.len() <= 20 {
        assert(v.take(v.len() as int) =~= v);
    }
    if v.len() > 20 {
        let shown = source_labels(v.take(20));
        let note = "+"@ + decimal_text((v.len() - 20) as nat) + " more"@;
        join_appends(shown, ", "@, note);
        assert(join_texts(shown, ", "@) + ", "@ + note =~= join_texts(shown, ", "@) + ", +"@
            + decimal_text((v.len() - 20) as nat) + " more"@) by {
            reveal_strlit(", ");
            reveal_strlit(", +");
            reveal_strlit("+");
        }
        decimal_text_reads_back((v.len() - 20) as nat);
    }
}

/// The record shown for a snapshot copies each keyer's run-time state and settings field by
/// field under the same key; writes each keyer's key as decimal digits that read back as the
/// key; lists for each tally entry the label "Program" exactly when the source is on program
/// and "Preview" exactly when it is on preview, in that order; and shows each source of each
/// bus under its own name and id.
pub proof fn shown_record_keeps_every_field(s: AtemSnapshot, d: AtemSnapshotDto)
    requires
        is_dto_of(d, s),
    ensures
        d.dsk_state@.len() == s.dsk_state@.len(),
        forall|i: int|
            0 <= i < s.dsk_state@.len() ==> {
                &&& (#[trigger] d.dsk_state@[i]).0 == s.dsk_state@[i].0
                &&& d.dsk_state@[i].1.on_air == s.dsk_state@[i].1.on_air
                &&& d.dsk_state@[i].1.in_transition == s.dsk_state@[i].1.in_transition
                &&& d.dsk_state@[i].1.remaining_frames == s.dsk_state@[i].1.remaining_frames
            },
        d.dsk_properties@.len() == s.dsk_properties@.len(),
        forall|i: int|
            0 <= i < s.dsk_properties@.len() ==> {
                &&& (#[trigger] d.dsk_properties@[i]).0 == s.dsk_properties@[i].0
                &&& d.dsk_properties@[i].1.tie == s.dsk_properties@[i].1.tie
                &&& d.dsk_properties@[i].1.rate == s.dsk_properties@[i].1.rate
            },
        d.dsk_sources@.len() == s.dsk_sources@.len(),
        forall|i: int|
            0 <= i < s.dsk_sources@.len() ==> {
                &&& digits_value((#[trigger] d.dsk_sources@[i]).0@) == s.dsk_sources@[i].0
                &&& d.dsk_sources@[i].1.0@ == s.dsk_sources@[i].1.name@
                &&& d.dsk_sources@[i].1.1@ == s.dsk_sources@[i].2.name@
            },
        d.tally_by_source@.len() == s.tally_by_source@.len(),
        forall|i: int|
            0 <= i < s.tally_by_source@.len() ==> {
                let labels = texts_of((#[trigger] d.tally_by_source@[i]).1@);
                let f = s.tally_by_source@[i].1;
                &&& d.tally_by_source@[i].0@ == s.tally_by_source@[i].0.name@
                &&& labels.len() == (if f.program { 1int } else { 0 }) + (if f.preview {
                    1int
                } else {
                    0
                })
                &&& f.program ==> labels[0] == "Program"@
                &&& f.preview ==> labels[labels.len() - 1] == "Preview"@
            },
        d.program_source_ids@.len() == s.program_sources@.len(),
        d.program_sources@.len() == s.program_sources@.len(),
        forall|i: int|
            0 <= i < s.program_sources@.len() ==> #[trigger] d.program_source_ids@[i]
                == s.program_sources@[i].id && d.program_sources@[i]@ == s.program_sources@[i].name@,
        d.preview_source_ids@.len() == s.preview_sources@.len(),
        d.preview_sources@.len() == s.preview_sources@.len(),
        forall|i: int|
            0 <= i < s.preview_sources@.len() ==> #[trigger] d.preview_source_ids@[i]
                == s.preview_sources@[i].id && d.preview_sources@[i]@ == s.preview_sources@[i].name@,
{
    assert forall|i: int| 0 <= i < s.dsk_sources@.len() implies digits_value(
        (#[trigger] d.dsk_sources@[i]).0@,
    ) == s.dsk_sources@[i].0 by {
        decimal_text_reads_back(s.dsk_sources@[i].0 as nat);
    }
    assert(texts_of(d.program_sources@).len() == d.program_sources@.len());
    assert(names_of(s.program_sources@).len() == s.program_sources@.len());
    assert(texts_of(d.preview_sources@).len() == d.preview_sources@.len());
    assert(names_of(s.preview_sources@).len() == s.preview_sources@.len());
    assert forall|i: int| 0 <= i < s.program_sources@.len() implies #[trigger] d.program_source_ids@[i]
        == s.program_sources@[i].id && d.program_sources@[i]@ == s.program_sources@[i].name@ by {
        assert(ids_of(s.program_sources@)[i] == s.program_sources@[i].id);
        assert(texts_of(d.program_sources@)[i] == d.program_sources@[i]@);
        assert(names_of(s.program_sources@)[i] == s.program_sources@[i].name@);
    }
    assert forall|i: int| 0 <= i < s.preview_sources@.len() implies #[trigger] d.preview_source_ids@[i]
        == s.preview_sources@[i].id && d.preview_sources@[i]@ == s.preview_sources@[i].name@ by {
        assert(ids_of(s.preview_sources@)[i] == s.preview_sources@[i].id);
        assert(texts_of(d.preview_sources@)[i] == d.preview_sources@[i]@);
        assert(names_of(s.preview_sources@)[i] == s.preview_sources@[i].name@);
    }
}

/// The source of a bus is that of the first entry for the bus; a bus without an entry gets
/// the fallback source.
pub proof fn routed_source_is_the_first_entry(
    entries: Seq<(u8, VideoSource)>,
    me: u8,
    fallback: VideoSource,
)
    ensures
        forall|k: int|
            0 <= k < entries.len() && entries[k].0 == me && (forall|j: int|
                0 <= j < k ==> #[trigger] entries[j].0 != me) ==> routed_source(
                entries,
                me,
                fallback,
            ) == #[trigger] entries[k].1,
        (forall|j: int| 0 <= j < entries.len() ==> #[trigger] entries[j].0 != me) ==> routed_source(
            entries,
            me,
            fallback,
        ) == fallback,
    decreases entries.len(),
{
    if entries.len() > 0 {
        let rest = entries.drop_first();
        routed_source_is_the_first_entry(rest, me, fallback);
        assert forall|k: int|
            0 <= k < entries.len() && entries[k].0 == me && (forall|j: int|
                0 <= j < k ==> #[trigger] entries[j].0 != me) implies routed_source(
            entries,
            me,
            fallback,
        ) == #[trigger] entries[k].1 by {
            if k > 0 {
                assert(entries[0].0 != me);
                assert(rest[k - 1] == entries[k]);
                assert forall|j: int| 0 <= j < k - 1 implies #[trigger] rest[j].0 != me by {
                    assert(rest[j] == entries[j + 1]);
                }
            }
        }
        if forall|j: int| 0 <= j < entries.len() ==> #[trigger] entries[j].0 != me {
            assert(entries[0].0 != me);
            assert forall|j: int| 0 <= j < rest.len() implies #[trigger] rest[j].0 != me by {
                assert(rest[j] == entries[j + 1]);
            }
        }
    }
}

/// The status shown is of the same kind as the link status, and an error shows the same
/// message.
pub proof fn shown_status_matches(d: ConnectionStatusDto, st: ConnectionStatus)
    requires
        is_status_dto_of(d, st),
    ensures
        (d is Disconnected) == (st is Disconnected),
        (d is Connected) == (st is Connected),
        (d is Error) == (st is Error),
        st matches ConnectionStatus::Error(e) ==> (d matches ConnectionStatusDto::Error(m) && m@
            == e@),
{
}

/// The record shown without a connection has one bus and nothing else in it.
pub proof fn empty_record_has_one_bus(d: AtemSnapshotDto)
    requires
        is_empty_dto(d),
    ensures
        d.mes_count == 1,
        d.aux_count == 0,
        !d.initialisation_complete,
        d.program_sources@.len() + d.preview_sources@.len() + d.available_sources@.len()
            + d.available_source_items@.len() + d.tally_by_source@.len() + d.dsk_keys@.len()
            + d.dsk_sources@.len() + d.dsk_state@.len() + d.dsk_properties@.len() == 0,
{
}

/// The refusals quote what they refuse: an unknown style name is answered with
/// "unsupported transition: " and the name in lower case, with or without a connection; a
/// request without a connection is answered with "not connected".
pub proof fn refusals_quote_the_request(session: Option<AtemSnapshot>, me: u8, name: String)
    ensures
        not_connected_text() == "not connected"@,
        transition_named(ascii_lower(name@)) is None ==> request_outcome(
            session,
            CommandRequest::SetNextTransition { me, transition: name },
        ) == Err::<SwitcherCommand, Seq<char>>("unsupported transition: "@ + ascii_lower(name@)),
{
}

} // verus!
