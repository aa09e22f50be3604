use atem_core::ui::{sources_preview, status_label, CommandButton};
use atem_core::{
    transition_next, video_source_label, AtemSnapshot, ConnectionStatus, PanelState,
    SwitcherCommand, SwitcherState, TransitionType, VideoSource,
};

fn src(id: u16, name: &str) -> VideoSource {
    VideoSource { id, name: name.to_string() }
}

fn snapshot(mes: u8, auxs: u8, sources: Vec<VideoSource>, keys: Vec<u8>) -> AtemSnapshot {
    AtemSnapshot::from_state(&SwitcherState {
        initialisation_complete: true,
        mes,
        auxs,
        program_inputs: vec![(0, src(1, "Input1")), (1, src(8002, "Auxilary2"))],
        preview_inputs: vec![(0, src(2, "Input2"))],
        default_source: src(0, "Black"),
        input_sources: sources,
        tally: vec![],
        dsk_sources: keys.iter().map(|k| (*k, src(0, "Black"), src(0, "Black"))).collect(),
        dsk_state: vec![],
        dsk_properties: vec![],
        transition_position: vec![],
        transition_in_progress: vec![],
        ftb_fully_black: vec![],
        ftb_in_transition: vec![],
        ftb_frames_remaining: vec![],
        ftb_rate: vec![],
    })
}

fn connected_panel() -> PanelState {
    let mut p = PanelState::new();
    p.connected(snapshot(2, 2, vec![src(0, "Black"), src(1, "Input1"), src(2, "Input2")], vec![0, 1]));
    p
}

#[test]
fn new_panel_is_disconnected() {
    let p = PanelState::new();
    assert_eq!(p.status, ConnectionStatus::Disconnected);
    assert!(p.snapshot.is_none());
    assert!(!p.session_open);
    assert_eq!(p.next_transition, TransitionType::Mix);
    assert_eq!(p.dsk_rate, 20);
    assert_eq!(p.status_line(), "Disconnected");
    assert_eq!(p.program_label(), "-");
    assert_eq!(p.sources_label(), "-");
    let c = p.controls();
    assert!(c.connect && !c.disconnect && !c.cut && !c.me_up && !c.source_up);
}

#[test]
fn transition_cycle_law() {
    let mut t = TransitionType::Mix;
    let mut seen = vec![];
    for _ in 0..5 {
        seen.push(t);
        t = transition_next(t);
    }
    assert_eq!(t, TransitionType::Mix);
    assert_eq!(seen, vec![TransitionType::Mix, TransitionType::Dip, TransitionType::Wipe, TransitionType::DVE, TransitionType::Sting]);
}

#[test]
fn connecting_resets_the_selections_law() {
    let mut p = PanelState::new();
    p.selected_me = 1;
    p.dsk_rate = 3;
    p.next_transition = TransitionType::Sting;
    p.begin_connect();
    assert_eq!(p.status, ConnectionStatus::Error("Connecting...".to_string()));
    assert_eq!(p.dsk_rate, 3);
    p.connected(snapshot(2, 0, vec![src(5, "Input5")], vec![]));
    assert_eq!(p.status, ConnectionStatus::Connected);
    assert!(p.session_open);
    assert_eq!(p.selected_me, 0);
    assert_eq!(p.next_transition, TransitionType::Mix);
    assert_eq!(p.dsk_rate, 20);
    assert_eq!(p.selected_source().unwrap().id, 5);
}

#[test]
fn failed_connection_shows_the_message() {
    let mut p = connected_panel();
    p.connect_failed("timed out".to_string());
    assert!(!p.session_open);
    assert!(p.snapshot.is_none());
    assert_eq!(p.status_line(), "Error: timed out");
}

#[test]
fn bus_selection_stays_within_the_buses_law() {
    let mut p = connected_panel();
    p.me_up();
    assert_eq!(p.selected_me, 1);
    p.me_up();
    assert_eq!(p.selected_me, 1);
    p.me_down();
    p.me_down();
    assert_eq!(p.selected_me, 0);
}

#[test]
fn source_selection_stays_within_the_sources_law() {
    let mut p = connected_panel();
    p.source_up();
    p.source_up();
    p.source_up();
    assert_eq!(p.selected_source_index, 2);
    assert_eq!(p.selected_source_label(), "Input2");
    p.source_down();
    assert_eq!(p.selected_source_index, 1);
    let mut empty = PanelState::new();
    empty.source_up();
    empty.source_down();
    assert_eq!(empty.selected_source_index, 0);
}

#[test]
fn aux_and_keyer_selection() {
    let mut p = connected_panel();
    p.aux_up();
    p.aux_up();
    assert_eq!(p.selected_aux_bus, 1);
    p.aux_down();
    assert_eq!(p.selected_aux_bus, 0);
    p.dsk_up();
    p.dsk_up();
    assert_eq!(p.selected_dsk_key_index, 1);
    assert_eq!(p.selected_dsk_key(), Some(1));
    p.dsk_down();
    assert_eq!(p.selected_dsk_key(), Some(0));
}

#[test]
fn keyer_rate_saturates_law() {
    let mut p = connected_panel();
    p.dsk_rate = 0;
    p.rate_down();
    assert_eq!(p.dsk_rate, 0);
    p.dsk_rate = 255;
    p.rate_up();
    assert_eq!(p.dsk_rate, 255);
    p.dsk_rate = 40;
    p.rate_up();
    p.rate_down();
    assert_eq!(p.dsk_rate, 40);
}

#[test]
fn cycling_the_transition_style() {
    let mut p = connected_panel();
    p.cycle_transition();
    assert_eq!(p.next_transition, TransitionType::Dip);
}

#[test]
fn buttons_send_commands_on_the_selection() {
    let mut p = connected_panel();
    p.me_up();
    p.source_up();
    p.aux_up();
    p.dsk_up();
    p.cycle_transition();
    assert!(matches!(p.command_for(CommandButton::Cut), Some(SwitcherCommand::Cut { me: 1 })));
    assert!(matches!(p.command_for(CommandButton::Auto), Some(SwitcherCommand::Auto { me: 1 })));
    assert!(matches!(p.command_for(CommandButton::SetNextTransition), Some(SwitcherCommand::SetNextTransition { me: 1, transition: TransitionType::Dip })));
    assert!(matches!(p.command_for(CommandButton::SetProgram), Some(SwitcherCommand::SetProgramInput { me: 1, source }) if source.id == 1));
    assert!(matches!(p.command_for(CommandButton::SetPreview), Some(SwitcherCommand::SetPreviewInput { me: 1, source }) if source.id == 1));
    assert!(matches!(p.command_for(CommandButton::SetAuxSource), Some(SwitcherCommand::SetAuxSource { aux_bus: 1, source }) if source.id == 1));
    assert!(matches!(p.command_for(CommandButton::DskAuto), Some(SwitcherCommand::DskAuto { key: 1 })));
    assert!(matches!(p.command_for(CommandButton::DskOn), Some(SwitcherCommand::SetDskOnAir { key: 1, on_air: true })));
    assert!(matches!(p.command_for(CommandButton::DskOff), Some(SwitcherCommand::SetDskOnAir { key: 1, on_air: false })));
    assert!(matches!(p.command_for(CommandButton::DskTieOn), Some(SwitcherCommand::SetDskTie { key: 1, tie: true })));
    assert!(matches!(p.command_for(CommandButton::DskTieOff), Some(SwitcherCommand::SetDskTie { key: 1, tie: false })));
    assert!(matches!(p.command_for(CommandButton::DskSetCut), Some(SwitcherCommand::SetDskCutSource { key: 1, source }) if source.id == 1));
    assert!(matches!(p.command_for(CommandButton::DskSetFill), Some(SwitcherCommand::SetDskFillSource { key: 1, source }) if source.id == 1));
    assert!(matches!(p.command_for(CommandButton::DskSetRate), Some(SwitcherCommand::SetDskRate { key: 1, rate: 20 })));
}

#[test]
fn disconnected_panel_is_silent_law() {
    let mut p = connected_panel();
    p.disconnect();
    assert_eq!(p.status, ConnectionStatus::Disconnected);
    assert_eq!(p.dsk_rate, 20);
    for b in [CommandButton::Cut, CommandButton::SetProgram, CommandButton::DskAuto, CommandButton::DskSetRate] {
        assert!(p.command_for(b).is_none());
    }
    let c = p.controls();
    assert!(c.connect && !c.disconnect && !c.cut && !c.set_program && !c.dsk_auto);
}

#[test]
fn controls_follow_the_selection() {
    let p = connected_panel();
    let c = p.controls();
    assert!(!c.connect);
    assert!(c.disconnect && c.cut && c.auto && c.me_down && c.me_up);
    assert!(c.set_program && c.set_aux_source && c.aux_down && c.dsk_set_cut);
    let mut q = connected_panel();
    q.connected(snapshot(1, 1, vec![], vec![]));
    let c = q.controls();
    assert!(!c.me_down && c.me_up && !c.aux_down && c.aux_up);
    assert!(!c.set_program && !c.set_aux_source && !c.dsk_auto && !c.dsk_down);
    assert!(q.command_for(CommandButton::SetProgram).is_none());
    assert!(q.command_for(CommandButton::DskAuto).is_none());
}

#[test]
fn labels_of_sources() {
    assert_eq!(video_source_label(&src(8001, "Auxilary1")), "Aux1");
    assert_eq!(video_source_label(&src(8006, "Auxilary6")), "Aux6");
    assert_eq!(video_source_label(&src(8007, "Auxilary7")), "Auxilary7");
    assert_eq!(video_source_label(&src(0, "Black")), "Black");
    assert_eq!(video_source_label(&src(8010, "Auxilary10")), "Auxilary10");
}

#[test]
fn program_and_preview_labels() {
    let mut p = connected_panel();
    assert_eq!(p.program_label(), "Input1");
    assert_eq!(p.preview_label(), "Input2");
    p.me_up();
    assert_eq!(p.program_label(), "Aux2");
    assert_eq!(p.preview_label(), "Black");
}

#[test]
fn source_list_summarises_past_twenty() {
    assert_eq!(sources_preview(&vec![]), "-");
    assert_eq!(sources_preview(&vec![src(0, "Black"), src(8003, "Auxilary3")]), "Black, Aux3");
    let many: Vec<VideoSource> = (1..=23).map(|i| src(i, &format!("Input{i}"))).collect();
    let expected = (1..=20).map(|i| format!("Input{i}")).collect::<Vec<_>>().join(", ") + ", +3 more";
    assert_eq!(sources_preview(&many), expected);
    let twenty: Vec<VideoSource> = (1..=20).map(|i| src(i, &format!("Input{i}"))).collect();
    assert!(!sources_preview(&twenty).contains("more"));
}

#[test]
fn status_labels() {
    assert_eq!(status_label(&ConnectionStatus::Connected), "Connected");
    assert_eq!(status_label(&ConnectionStatus::Error("x".to_string())), "Error: x");
}
