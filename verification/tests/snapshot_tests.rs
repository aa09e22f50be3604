use atem_core::dto::{current_snapshot_dto, current_status_dto, snapshot_event, tally_names};
use atem_core::source::{DskProperties, DskState};
use atem_core::{
    empty_snapshot_dto, snapshot_to_dto, source_id, status_to_dto, stringify_source,
    AtemSnapshot, ConnectionStatus, ConnectionStatusDto, SwitcherState, TallyFlags, VideoSource,
};

fn src(id: u16, name: &str) -> VideoSource {
    VideoSource { id, name: name.to_string() }
}

fn state() -> SwitcherState {
    SwitcherState {
        initialisation_complete: true,
        mes: 2,
        auxs: 3,
        program_inputs: vec![(1, src(2, "Input2")), (0, src(1, "Input1")), (1, src(3, "Input3"))],
        preview_inputs: vec![(1, src(1000, "ColourBars"))],
        default_source: src(0, "Black"),
        input_sources: vec![src(0, "Black"), src(1, "Input1"), src(8001, "Auxilary1")],
        tally: vec![
            (src(1, "Input1"), TallyFlags { program: true, preview: false }),
            (src(1000, "ColourBars"), TallyFlags { program: true, preview: true }),
            (src(0, "Black"), TallyFlags { program: false, preview: false }),
        ],
        dsk_sources: vec![(1, src(1, "Input1"), src(2, "Input2")), (0, src(3010, "MediaPlayer1"), src(3011, "MediaPlayer1Key"))],
        dsk_state: vec![(0, DskState { on_air: true, in_transition: false, remaining_frames: 12 })],
        dsk_properties: vec![(0, DskProperties { tie: true, rate: 25 })],
        transition_position: vec![0, 5000],
        transition_in_progress: vec![false, true],
        ftb_fully_black: vec![false, false],
        ftb_in_transition: vec![true, false],
        ftb_frames_remaining: vec![3, 0],
        ftb_rate: vec![25, 30],
    }
}

#[test]
fn snapshot_takes_the_first_entry_of_each_bus() {
    let s = AtemSnapshot::from_state(&state());
    assert!(s.initialisation_complete);
    assert_eq!(s.mes_count, 2);
    assert_eq!(s.aux_count, 3);
    let program: Vec<u16> = s.program_sources.iter().map(|v| v.id).collect();
    assert_eq!(program, vec![1, 2]);
    let preview: Vec<u16> = s.preview_sources.iter().map(|v| v.id).collect();
    assert_eq!(preview, vec![0, 1000]);
    assert_eq!(s.preview_sources[0].name, "Black");
}

#[test]
fn snapshot_keeps_sources_tally_and_keyers() {
    let s = AtemSnapshot::from_state(&state());
    let names: Vec<&str> = s.available_sources.iter().map(|v| v.name.as_str()).collect();
    assert_eq!(names, vec!["Black", "Input1", "Auxilary1"]);
    assert_eq!(s.tally_by_source.len(), 3);
    assert_eq!(s.tally_by_source[1].1, TallyFlags { program: true, preview: true });
    assert_eq!(s.dsk_keys, vec![1, 0]);
    assert_eq!(s.dsk_sources[1].2.name, "MediaPlayer1Key");
    assert_eq!(s.dsk_state[0].1.remaining_frames, 12);
    assert_eq!(s.dsk_properties[0].1.rate, 25);
    assert_eq!(s.transition_position, vec![0, 5000]);
    assert_eq!(s.ftb_rate, vec![25, 30]);
    assert_eq!(s.ftb_in_transition, vec![true, false]);
}

#[test]
fn snapshot_of_a_state_without_buses() {
    let mut st = state();
    st.mes = 0;
    let s = AtemSnapshot::from_state(&st);
    assert!(s.program_sources.is_empty());
    assert!(s.preview_sources.is_empty());
}

#[test]
fn sources_print_as_their_name_and_id() {
    let s = src(3020, "MediaPlayer2");
    assert_eq!(stringify_source(&s), "MediaPlayer2");
    assert_eq!(source_id(&s), 3020);
}

#[test]
fn dto_shows_sources_by_name_and_id() {
    let d = snapshot_to_dto(&AtemSnapshot::from_state(&state()));
    assert!(d.initialisation_complete);
    assert_eq!(d.mes_count, 2);
    assert_eq!(d.program_sources, vec!["Input1", "Input2"]);
    assert_eq!(d.preview_sources, vec!["Black", "ColourBars"]);
    assert_eq!(d.program_source_ids, vec![1, 2]);
    assert_eq!(d.preview_source_ids, vec![0, 1000]);
    assert_eq!(d.available_sources, vec!["Black", "Input1", "Auxilary1"]);
    assert_eq!(d.available_source_items.len(), 3);
    assert_eq!(d.available_source_items[2].source_index, 2);
    assert_eq!(d.available_source_items[2].source_id, 8001);
    assert_eq!(d.available_source_items[2].source_name, "Auxilary1");
}

#[test]
fn dto_shows_tally_labels() {
    let d = snapshot_to_dto(&AtemSnapshot::from_state(&state()));
    assert_eq!(d.tally_by_source[0], ("Input1".to_string(), vec!["Program".to_string()]));
    assert_eq!(
        d.tally_by_source[1],
        ("ColourBars".to_string(), vec!["Program".to_string(), "Preview".to_string()])
    );
    assert_eq!(d.tally_by_source[2], ("Black".to_string(), vec![]));
    assert_eq!(tally_names(TallyFlags { program: false, preview: true }), vec!["Preview"]);
}

#[test]
fn dto_shows_keyers() {
    let d = snapshot_to_dto(&AtemSnapshot::from_state(&state()));
    assert_eq!(d.dsk_keys, vec![1, 0]);
    assert_eq!(d.dsk_sources[0], ("1".to_string(), ("Input1".to_string(), "Input2".to_string())));
    assert_eq!(d.dsk_sources[1].0, "0");
    assert_eq!(d.dsk_state[0].0, 0);
    assert!(d.dsk_state[0].1.on_air);
    assert_eq!(d.dsk_state[0].1.remaining_frames, 12);
    assert!(d.dsk_properties[0].1.tie);
    assert_eq!(d.dsk_properties[0].1.rate, 25);
    assert_eq!(d.transition_in_progress, vec![false, true]);
    assert_eq!(d.ftb_frames_remaining, vec![3, 0]);
    assert_eq!(d.ftb_fully_black, vec![false, false]);
}

#[test]
fn dto_writes_keys_in_decimal() {
    let mut st = state();
    st.dsk_sources = vec![(255, src(0, "Black"), src(0, "Black")), (10, src(0, "Black"), src(0, "Black"))];
    let d = snapshot_to_dto(&AtemSnapshot::from_state(&st));
    assert_eq!(d.dsk_sources[0].0, "255");
    assert_eq!(d.dsk_sources[1].0, "10");
}

#[test]
fn empty_dto_has_one_bus_and_nothing_else() {
    let d = empty_snapshot_dto();
    assert!(!d.initialisation_complete);
    assert_eq!(d.mes_count, 1);
    assert_eq!(d.aux_count, 0);
    assert!(d.program_sources.is_empty() && d.available_source_items.is_empty());
    assert!(d.tally_by_source.is_empty() && d.dsk_sources.is_empty() && d.ftb_rate.is_empty());
}

#[test]
fn status_dto_mirrors_status() {
    assert!(matches!(status_to_dto(&ConnectionStatus::Disconnected), ConnectionStatusDto::Disconnected));
    assert!(matches!(status_to_dto(&ConnectionStatus::Connected), ConnectionStatusDto::Connected));
    match status_to_dto(&ConnectionStatus::Error("lost".to_string())) {
        ConnectionStatusDto::Error(m) => assert_eq!(m, "lost"),
        _ => panic!("expected an error status"),
    }
}

#[test]
fn current_records_without_a_connection() {
    let d = current_snapshot_dto(None);
    assert_eq!(d.mes_count, 1);
    assert!(matches!(current_status_dto(None), ConnectionStatusDto::Disconnected));
    let s = AtemSnapshot::from_state(&state());
    assert_eq!(current_snapshot_dto(Some(&s)).mes_count, 2);
    assert!(matches!(current_status_dto(Some(&ConnectionStatus::Connected)), ConnectionStatusDto::Connected));
}

#[test]
fn event_carries_snapshot_and_status() {
    let s = AtemSnapshot::from_state(&state());
    let e = snapshot_event(&s, &ConnectionStatus::Connected);
    assert_eq!(e.snapshot.program_source_ids, vec![1, 2]);
    assert!(matches!(e.status, ConnectionStatusDto::Connected));
}

#[test]
fn bus_records_line_up_law() {
    let st = state();
    let d = snapshot_to_dto(&AtemSnapshot::from_state(&st));
    assert_eq!(d.program_source_ids.len(), st.mes as usize);
    assert_eq!(d.preview_source_ids.len(), st.mes as usize);
    assert_eq!(d.program_source_ids[1], 2);
}

#[test]
fn well_formed_states_are_recognised() {
    assert!(state().is_well_formed());
    let mut st = state();
    st.input_sources.push(src(1, "Input1"));
    assert!(!st.is_well_formed());
    let mut st = state();
    st.tally.push((src(0, "Black"), TallyFlags { program: true, preview: false }));
    assert!(!st.is_well_formed());
    let mut st = state();
    st.dsk_sources.push((1, src(0, "Black"), src(0, "Black")));
    assert!(!st.is_well_formed());
    let mut st = state();
    st.dsk_state.push((0, DskState { on_air: false, in_transition: false, remaining_frames: 0 }));
    assert!(!st.is_well_formed());
    let mut st = state();
    st.dsk_properties.push((0, DskProperties { tie: false, rate: 1 }));
    assert!(!st.is_well_formed());
}

#[test]
fn snapshot_offers_each_source_and_keyer_once_law() {
    let s = AtemSnapshot::from_state(&state());
    let mut ids: Vec<u16> = s.available_sources.iter().map(|v| v.id).collect();
    ids.sort();
    ids.dedup();
    assert_eq!(ids.len(), s.available_sources.len());
    let mut keys = s.dsk_keys.clone();
    keys.sort();
    keys.dedup();
    assert_eq!(keys.len(), s.dsk_keys.len());
    let mut st = state();
    st.dsk_sources.clear();
    assert!(AtemSnapshot::from_state(&st).dsk_keys.is_empty());
}
