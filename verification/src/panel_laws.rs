//! Properties of the switcher panel's steps and labels.
use vstd::prelude::*;
use crate::connection::ConnectionStatus;
use crate::snapshot::AtemSnapshot;
use crate::source::{next_style, TransitionType};
use crate::ui::{
    after_aux_down, after_aux_up, after_connected, after_cycle_transition, after_disconnect,
    after_dsk_down, after_dsk_up, after_me_down, after_me_up, after_rate_down, after_rate_up,
    after_source_down, after_source_up, is_aux_name, preview_text, program_text,
    selected_source_text, source_label, status_text, DEFAULT_DSK_RATE, PanelState,
};

verus! {

/// Each step control moves its own selection by exactly one, towards the first or the last
/// item that exists, and leaves it where it is at the end of the range; nothing else of the
/// panel changes.
pub proof fn steps_move_by_one(p: PanelState)
    ensures
        p.selected_me > 0 ==> after_me_down(p) == (PanelState {
            selected_me: (p.selected_me - 1) as u8,
            ..p
        }),
        p.selected_me == 0 ==> after_me_down(p) == p,
        (p.snapshot matches Some(s) && p.selected_me + 1 < s.mes_count) ==> after_me_up(p) == (
        PanelState { selected_me: (p.selected_me + 1) as u8, ..p }),
        !(p.snapshot matches Some(s) && p.selected_me + 1 < s.mes_count) ==> after_me_up(p) == p,
        (p.snapshot matches Some(s) && p.selected_source_index + 1 < s.available_sources@.len())
            ==> after_source_up(p) == (PanelState {
            selected_source_index: (p.selected_source_index + 1) as usize,
            ..p
        }),
        !(p.snapshot matches Some(s) && p.selected_source_index + 1 < s.available_sources@.len())
            ==> after_source_up(p) == p,
        (p.snapshot matches Some(s) && s.available_sources@.len() > 0 && p.selected_source_index
            > 0) ==> after_source_down(p) == (PanelState {
            selected_source_index: (p.selected_source_index - 1) as usize,
            ..p
        }),
        p.selected_source_index == 0 ==> after_source_down(p) == p,
        p.selected_aux_bus > 0 ==> after_aux_down(p) == (PanelState {
            selected_aux_bus: (p.selected_aux_bus - 1) as u8,
            ..p
        }),
        p.selected_aux_bus == 0 ==> after_aux_down(p) == p,
        (p.snapshot matches Some(s) && p.selected_aux_bus + 1 < s.aux_count) ==> after_aux_up(p)
            == (PanelState { selected_aux_bus: (p.selected_aux_bus + 1) as u8, ..p }),
        !(p.snapshot matches Some(s) && p.selected_aux_bus + 1 < s.aux_count) ==> after_aux_up(p)
            == p,
        p.selected_dsk_key_index > 0 ==> after_dsk_down(p) == (PanelState {
            selected_dsk_key_index: (p.selected_dsk_key_index - 1) as usize,
            ..p
        }),
        p.selected_dsk_key_index == 0 ==> after_dsk_down(p) == p,
        (p.snapshot matches Some(s) && p.selected_dsk_key_index + 1 < s.dsk_keys@.len())
            ==> after_dsk_up(p) == (PanelState {
            selected_dsk_key_index: (p.selected_dsk_key_index + 1) as usize,
            ..p
        }),
        !(p.snapshot matches Some(s) && p.selected_dsk_key_index + 1 < s.dsk_keys@.len())
            ==> after_dsk_up(p) == p,
{
}

/// The keyer rate steps by one and stops at 0 and at 255; nothing else changes.
pub proof fn rate_steps_by_one(p: PanelState)
    ensures
        after_rate_up(p).dsk_rate == if p.dsk_rate < 255 { p.dsk_rate + 1 } else { 255 },
        after_rate_down(p).dsk_rate == if p.dsk_rate > 0 { p.dsk_rate - 1 } else { 0 },
        after_rate_up(p) == (PanelState { dsk_rate: after_rate_up(p).dsk_rate, ..p }),
        after_rate_down(p) == (PanelState { dsk_rate: after_rate_down(p).dsk_rate, ..p }),
{
}

/// The style control steps through Mix, Dip, Wipe, DVE and Sting in that order and then
/// comes back to Mix; nothing else changes.
pub proof fn styles_cycle_in_order(p: PanelState)
    ensures
        next_style(TransitionType::Mix) == TransitionType::Dip,
        next_style(TransitionType::Dip) == TransitionType::Wipe,
        next_style(TransitionType::Wipe) == TransitionType::DVE,
        next_style(TransitionType::DVE) == TransitionType::Sting,
        next_style(TransitionType::Sting) == TransitionType::Mix,
        after_cycle_transition(p) == (PanelState {
            next_transition: next_style(p.next_transition),
            ..p
        }),
{
}

/// Connecting opens a session on the new snapshot with the link up, the first bus, source,
/// output and keyer selected, the Mix style and the default keyer rate; disconnecting closes
/// the session, drops the snapshot, marks the link down and puts the output, keyer and rate
/// back at their start while keeping the bus, source and style chosen.
pub proof fn session_changes(p: PanelState, s: AtemSnapshot)
    ensures
        after_connected(p, s).session_open,
        after_connected(p, s).snapshot == Some(s),
        after_connected(p, s).status == ConnectionStatus::Connected,
        after_connected(p, s).selected_me == 0,
        after_connected(p, s).selected_source_index == 0,
        after_connected(p, s).selected_aux_bus == 0,
        after_connected(p, s).selected_dsk_key_index == 0,
        after_connected(p, s).next_transition == TransitionType::Mix,
        after_connected(p, s).dsk_rate == 20,
        !after_disconnect(p).session_open,
        after_disconnect(p).snapshot is None,
        after_disconnect(p).status == ConnectionStatus::Disconnected,
        after_disconnect(p).selected_aux_bus == 0,
        after_disconnect(p).selected_dsk_key_index == 0,
        after_disconnect(p).dsk_rate == 20,
        after_disconnect(p).selected_me == p.selected_me,
        after_disconnect(p).selected_source_index == p.selected_source_index,
        after_disconnect(p).next_transition == p.next_transition,
        DEFAULT_DSK_RATE == 20,
{
}

/// The label of a source is its name, except that the first six auxiliary outputs
/// ("Auxilary1" to "Auxilary6") are shortened to "Aux" and their digit.
pub proof fn labels_shorten_only_the_first_six_outputs(n: Seq<char>)
    ensures
        !is_aux_name(n) ==> source_label(n) == n,
        is_aux_name(n) ==> source_label(n) == "Aux"@ + n.skip(8) && n == "Auxilary"@ + n.skip(8)
            && n.skip(8).len() == 1 && '1' <= n[8] <= '6',
{
    if is_aux_name(n) {
        assert(n.skip(8) =~= seq![n[8]]);
        assert("Aux"@ + n.skip(8) =~= "Aux"@.push(n[8]));
        assert(n =~= n.take(8) + n.skip(8));
    }
}

/// The program and preview labels show the sources of the selected bus, program from the
/// program list and preview from the preview list, and "-" where there is none; the status
/// line reads "Disconnected", "Connected" or "Error: " followed by the message.
pub proof fn labels_show_the_selected_bus(p: PanelState, s: AtemSnapshot)
    ensures
        p.snapshot == Some(s) && p.selected_me < s.program_sources@.len() ==> program_text(p)
            == source_label(s.program_sources@[p.selected_me as int].name@),
        p.snapshot == Some(s) && p.selected_me < s.preview_sources@.len() ==> preview_text(p)
            == source_label(s.preview_sources@[p.selected_me as int].name@),
        p.snapshot is None ==> program_text(p) == "-"@ && preview_text(p) == "-"@
            && selected_source_text(p) == "-"@,
        p.snapshot == Some(s) && p.selected_me >= s.program_sources@.len() ==> program_text(p)
            == "-"@,
        p.snapshot == Some(s) && p.selected_source_index < s.available_sources@.len()
            ==> selected_source_text(p) == source_label(
            s.available_sources@[p.selected_source_index as int].name@,
        ),
        status_text(ConnectionStatus::Disconnected) == "Disconnected"@,
        status_text(ConnectionStatus::Connected) == "Connected"@,
        forall|m: String| status_text(ConnectionStatus::Error(m)) == "Error: "@ + m@,
{
}

} // verus!
