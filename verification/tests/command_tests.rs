use atem_core::{
    parse_transition, resolve_command, snapshot_to_dto, source_by_index, AtemSnapshot,
    CommandRequest, SwitcherCommand, SwitcherState, TransitionType, VideoSource,
};

fn src(id: u16, name: &str) -> VideoSource {
    VideoSource { id, name: name.to_string() }
}

fn snapshot() -> AtemSnapshot {
    AtemSnapshot::from_state(&SwitcherState {
        initialisation_complete: true,
        mes: 1,
        auxs: 1,
        program_inputs: vec![],
        preview_inputs: vec![],
        default_source: src(0, "Black"),
        input_sources: vec![src(0, "Black"), src(1, "Input1"), src(2, "Input2")],
        tally: vec![],
        dsk_sources: vec![],
        dsk_state: vec![],
        dsk_properties: vec![],
        transition_position: vec![],
        transition_in_progress: vec![],
        ftb_fully_black: vec![],
        ftb_in_transition: vec![],
        ftb_frames_remaining: vec![],
        ftb_rate: vec![],
    })
}

#[test]
fn transition_names_ignore_case() {
    assert_eq!(parse_transition("mix").ok(), Some(TransitionType::Mix));
    assert_eq!(parse_transition("MIX").ok(), Some(TransitionType::Mix));
    assert_eq!(parse_transition("Dip").ok(), Some(TransitionType::Dip));
    assert_eq!(parse_transition("wIpE").ok(), Some(TransitionType::Wipe));
    assert_eq!(parse_transition("STING").ok(), Some(TransitionType::Sting));
    assert_eq!(parse_transition("dve").ok(), Some(TransitionType::DVE));
}

#[test]
fn unknown_transition_is_quoted_in_lower_case() {
    assert_eq!(parse_transition("Fade").err(), Some("unsupported transition: fade".to_string()));
    assert_eq!(parse_transition("").err(), Some("unsupported transition: ".to_string()));
    assert_eq!(parse_transition(" mix").err(), Some("unsupported transition:  mix".to_string()));
}

#[test]
fn source_by_index_picks_the_listed_source() {
    let s = snapshot();
    let v = source_by_index(&s, 1).ok().unwrap();
    assert_eq!(v.id, 1);
    assert_eq!(v.name, "Input1");
}

#[test]
fn source_by_index_refuses_past_the_end() {
    let s = snapshot();
    assert_eq!(source_by_index(&s, 3).err(), Some("invalid source index: 3".to_string()));
    assert_eq!(source_by_index(&s, 17).err(), Some("invalid source index: 17".to_string()));
}

#[test]
fn requests_without_connection_are_refused() {
    let reqs = vec![
        CommandRequest::Cut { me: 0 },
        CommandRequest::AutoTransition { me: 0 },
        CommandRequest::SetProgramInputByIndex { me: 0, source_index: 0 },
        CommandRequest::SetPreviewInputByIndex { me: 0, source_index: 9 },
        CommandRequest::DskAuto { key: 0 },
        CommandRequest::SetDskOnAir { key: 0, on_air: true },
        CommandRequest::SetDskTie { key: 0, tie: true },
        CommandRequest::SetDskRate { key: 0, rate: 3 },
        CommandRequest::ToggleAutoBlack { me: 0 },
        CommandRequest::SetNextTransition { me: 0, transition: "mix".to_string() },
    ];
    for r in reqs {
        assert_eq!(resolve_command(None, &r).err(), Some("not connected".to_string()));
    }
}

#[test]
fn transition_name_is_checked_before_the_connection() {
    let r = CommandRequest::SetNextTransition { me: 0, transition: "Fade".to_string() };
    assert_eq!(resolve_command(None, &r).err(), Some("unsupported transition: fade".to_string()));
}

#[test]
fn requests_become_commands() {
    let s = snapshot();
    let c = resolve_command(Some(&s), &CommandRequest::SetProgramInputByIndex { me: 1, source_index: 2 });
    assert!(matches!(c, Ok(SwitcherCommand::SetProgramInput { me: 1, source }) if source.id == 2));
    let c = resolve_command(Some(&s), &CommandRequest::SetPreviewInputByIndex { me: 0, source_index: 0 });
    assert!(matches!(c, Ok(SwitcherCommand::SetPreviewInput { me: 0, source }) if source.name == "Black"));
    let c = resolve_command(Some(&s), &CommandRequest::SetNextTransition { me: 2, transition: "Wipe".to_string() });
    assert!(matches!(c, Ok(SwitcherCommand::SetNextTransition { me: 2, transition: TransitionType::Wipe })));
    assert!(matches!(resolve_command(Some(&s), &CommandRequest::Cut { me: 3 }), Ok(SwitcherCommand::Cut { me: 3 })));
    assert!(matches!(resolve_command(Some(&s), &CommandRequest::AutoTransition { me: 0 }), Ok(SwitcherCommand::Auto { me: 0 })));
    assert!(matches!(resolve_command(Some(&s), &CommandRequest::DskAuto { key: 1 }), Ok(SwitcherCommand::DskAuto { key: 1 })));
    assert!(matches!(resolve_command(Some(&s), &CommandRequest::SetDskOnAir { key: 1, on_air: false }), Ok(SwitcherCommand::SetDskOnAir { key: 1, on_air: false })));
    assert!(matches!(resolve_command(Some(&s), &CommandRequest::SetDskTie { key: 0, tie: true }), Ok(SwitcherCommand::SetDskTie { key: 0, tie: true })));
    assert!(matches!(resolve_command(Some(&s), &CommandRequest::SetDskRate { key: 0, rate: 30 }), Ok(SwitcherCommand::SetDskRate { key: 0, rate: 30 })));
    assert!(matches!(resolve_command(Some(&s), &CommandRequest::ToggleAutoBlack { me: 1 }), Ok(SwitcherCommand::ToggleAutoBlack { me: 1 })));
}

#[test]
fn out_of_range_index_is_refused_with_a_connection() {
    let s = snapshot();
    let c = resolve_command(Some(&s), &CommandRequest::SetProgramInputByIndex { me: 0, source_index: 3 });
    assert_eq!(c.err(), Some("invalid source index: 3".to_string()));
}

#[test]
fn listed_items_resolve_to_their_source_law() {
    let s = snapshot();
    let d = snapshot_to_dto(&s);
    for item in &d.available_source_items {
        let c = resolve_command(Some(&s), &CommandRequest::SetProgramInputByIndex { me: 0, source_index: item.source_index });
        match c {
            Ok(SwitcherCommand::SetProgramInput { me: 0, source }) => {
                assert_eq!(source.id, item.source_id);
                assert_eq!(source.name, item.source_name);
            }
            _ => panic!("every listed item resolves"),
        }
    }
}
