//! The plain records that the desktop shell hands to its interface, and how they are made
//! from snapshots and statuses.
use vstd::prelude::*;
use crate::connection::ConnectionStatus;
use crate::snapshot::AtemSnapshot;
use crate::source::{
    duplicate_all, ids_of, source_ids, stringify_source, source_id, DskProperties, DskState,
    TallyFlags, VideoSource,
};
use crate::text::{decimal, decimal_text, texts_of};

verus! {

/// The settings of a downstream keyer, as shown.
#[derive(Debug, Clone, Copy)]
pub struct DskPropertiesDto {
    pub tie: bool,
    pub rate: u8,
}

/// The run-time state of a downstream keyer, as shown.
#[derive(Debug, Clone, Copy)]
pub struct DskRuntimeDto {
    pub on_air: bool,
    pub in_transition: bool,
    pub remaining_frames: u8,
}

/// A selectable source: its position in the list of available sources, its id and name.
#[derive(Debug, Clone)]
pub struct SourceItemDto {
    pub source_index: usize,
    pub source_id: u16,
    pub source_name: String,
}

/// A snapshot as shown: sources by name and id, tally and keyers keyed by text or key.
#[derive(Debug, Clone)]
pub struct AtemSnapshotDto {
    pub initialisation_complete: bool,
    pub mes_count: u8,
    pub aux_count: u8,
    pub program_sources: Vec<String>,
    pub preview_sources: Vec<String>,
    pub available_sources: Vec<String>,
    pub program_source_ids: Vec<u16>,
    pub preview_source_ids: Vec<u16>,
    pub available_source_items: Vec<SourceItemDto>,
    /// Source name -> the tally labels that apply to it.
    pub tally_by_source: Vec<(String, Vec<String>)>,
    pub dsk_keys: Vec<u8>,
    /// Key, in decimal -> (fill name, cut name).
    pub dsk_sources: Vec<(String, (String, String))>,
    pub dsk_state: Vec<(u8, DskRuntimeDto)>,
    pub dsk_properties: Vec<(u8, DskPropertiesDto)>,
    pub transition_position: Vec<u16>,
    pub transition_in_progress: Vec<bool>,
    pub ftb_fully_black: Vec<bool>,
    pub ftb_in_transition: Vec<bool>,
    pub ftb_frames_remaining: Vec<u8>,
    pub ftb_rate: Vec<u8>,
}

/// The link status, as shown.
#[derive(Debug, Clone)]
pub enum ConnectionStatusDto {
    Disconnected,
    Connected,
    Error(String),
}

/// What the interface is sent whenever the snapshot or the status changes.
#[derive(Debug, Clone)]
pub struct SnapshotEventDto {
    pub snapshot: AtemSnapshotDto,
    pub status: ConnectionStatusDto,
}

/// The names of a sequence of sources.
pub open spec fn names_of(v: Seq<VideoSource>) -> Seq<Seq<char>> {
    v.map_values(|x: VideoSource| x.name@)
}


/// The tally labels of `f`: "Program" where the source is on program, then "Preview" where it
/// is on preview.
pub open spec fn tally_labels(f: TallyFlags) -> Seq<Seq<char>> {
    (if f.program { seq!["Program"@] } else { Seq::empty() }) + (if f.preview {
        seq!["Preview"@]
    } else {
        Seq::empty()
    })
}

/// `item` describes the source `s` at position `i` of the available sources.
pub open spec fn is_item_of(item: SourceItemDto, i: int, s: VideoSource) -> bool {
    &&& item.source_index == i
    &&& item.source_id == s.id
    &&& item.source_name@ == s.name@
}

/// `d` shows the keyer state `s`.
pub open spec fn is_runtime_of(d: DskRuntimeDto, s: DskState) -> bool {
    d.on_air == s.on_air && d.in_transition == s.in_transition && d.remaining_frames
        == s.remaining_frames
}

/// `d` shows the keyer settings `p`.
pub open spec fn is_properties_of(d: DskPropertiesDto, p: DskProperties) -> bool {
    d.tie == p.tie && d.rate == p.rate
}

/// `d` shows the snapshot `s`, field by field and entry by entry, in the snapshot's order.
pub open spec fn is_dto_of(d: AtemSnapshotDto, s: AtemSnapshot) -> bool {
    &&& d.initialisation_complete == s.initialisation_complete
    &&& d.mes_count == s.mes_count
    &&& d.aux_count == s.aux_count
    &&& texts_of(d.program_sources@) == names_of(s.program_sources@)
    &&& texts_of(d.preview_sources@) == names_of(s.preview_sources@)
    &&& texts_of(d.available_sources@) == names_of(s.available_sources@)
    &&& d.program_source_ids@ == ids_of(s.program_sources@)
    &&& d.preview_source_ids@ == ids_of(s.preview_sources@)
    &&& d.available_source_items@.len() == s.available_sources@.len()
    &&& forall|i: int|
        0 <= i < s.available_sources@.len() ==> is_item_of(
            #[trigger] d.available_source_items@[i],
            i,
            s.available_sources@[i],
        )
    &&& d.tally_by_source@.len() == s.tally_by_source@.len()
    &&& forall|i: int|
        0 <= i < s.tally_by_source@.len() ==> {
            &&& (#[trigger] d.tally_by_source@[i]).0@ == s.tally_by_source@[i].0.name@
            &&& texts_of(d.tally_by_source@[i].1@) == tally_labels(s.tally_by_source@[i].1)
        }
    &&& d.dsk_keys@ == s.dsk_keys@
    &&& d.dsk_sources@.len() == s.dsk_sources@.len()
    &&& forall|i: int|
        0 <= i < s.dsk_sources@.len() ==> {
            &&& (#[trigger] d.dsk_sources@[i]).0@ == decimal_text(s.dsk_sources@[i].0 as nat)
            &&& d.dsk_sources@[i].1.0@ == s.dsk_sources@[i].1.name@
            &&& d.dsk_sources@[i].1.1@ == s.dsk_sources@[i].2.name@
        }
    &&& d.dsk_state@.len() == s.dsk_state@.len()
    &&& forall|i: int|
        0 <= i < s.dsk_state@.len() ==> {
            &&& (#[trigger] d.dsk_state@[i]).0 == s.dsk_state@[i].0
            &&& is_runtime_of(d.dsk_state@[i].1, s.dsk_state@[i].1)
        }
    &&& d.dsk_properties@.len() == s.dsk_properties@.len()
    &&& forall|i: int|
        0 <= i < s.dsk_properties@.len() ==> {
            &&& (#[trigger] d.dsk_properties@[i]).0 == s.dsk_properties@[i].0
            &&& is_properties_of(d.dsk_properties@[i].1, s.dsk_properties@[i].1)
        }
    &&& d.transition_position@ == s.transition_position@
    &&& d.transition_in_progress@ == s.transition_in_progress@
    &&& d.ftb_fully_black@ == s.ftb_fully_black@
    &&& d.ftb_in_transition@ == s.ftb_in_transition@
    &&& d.ftb_frames_remaining@ == s.ftb_frames_remaining@
    &&& d.ftb_rate@ == s.ftb_rate@
}

/// `d` is the record shown while no switcher is connected: one bus, nothing else.
pub open spec fn is_empty_dto(d: AtemSnapshotDto) -> bool {
    &&& !d.initialisation_complete
    &&& d.mes_count == 1
    &&& d.aux_count == 0
    &&& d.program_sources@.len() == 0
    &&& d.preview_sources@.len() == 0
    &&& d.available_sources@.len() == 0
    &&& d.program_source_ids@.len() == 0
    &&& d.preview_source_ids@.len() == 0
    &&& d.available_source_items@.len() == 0
    &&& d.tally_by_source@.len() == 0
    &&& d.dsk_keys@.len() == 0
    &&& d.dsk_sources@.len() == 0
    &&& d.dsk_state@.len() == 0
    &&& d.dsk_properties@.len() == 0
    &&& d.transition_position@.len() == 0
    &&& d.transition_in_progress@.len() == 0
    &&& d.ftb_fully_black@.len() == 0
    &&& d.ftb_in_transition@.len() == 0
    &&& d.ftb_frames_remaining@.len() == 0
    &&& d.ftb_rate@.len() == 0
}

/// `d` shows the status `s`.
pub open spec fn is_status_dto_of(d: ConnectionStatusDto, s: ConnectionStatus) -> bool {
    match s {
        ConnectionStatus::Disconnected => d is Disconnected,
        ConnectionStatus::Connected => d is Connected,
        ConnectionStatus::Error(e) => d matches ConnectionStatusDto::Error(m) && m@ == e@,
    }
}

fn source_names(v: &Vec<VideoSource>) -> (r: Vec<String>)
    ensures
        texts_of(r@) == names_of(v@),
{
    let mut r: Vec<String> = Vec::new();
    let mut i: usize = 0;
    while i < v.len()
        invariant
            i <= v.len(),
            texts_of(r@) == names_of(v@.take(i as int)),
        decreases v.len() - i,
    {
        let name = stringify_source(&v[i]);
        let ghost prev = r@;
        r.push(name);
        proof {
            assert(texts_of(r@) =~= texts_of(prev).push(v@[i as int].name@));
            assert(names_of(v@.take(i + 1)) =~= names_of(v@.take(i as int)).push(
                v@[i as int].name@,
            ));
        }
        i = i + 1;
    }
    assert(v@.take(v.len() as int) =~= v@);
    r
}


fn source_items(v: &Vec<VideoSource>) -> (r: Vec<SourceItemDto>)
    ensures
        r@.len() == v@.len(),
        forall|i: int| 0 <= i < v@.len() ==> is_item_of(#[trigger] r@[i], i, v@[i]),
{
    let mut r: Vec<SourceItemDto> = Vec::new();
    let mut i: usize = 0;
    while i < v.len()
        invariant
            i <= v.len(),
            r@.len() == i,
            forall|k: int| 0 <= k < i ==> is_item_of(#[trigger] r@[k], k, v@[k]),
        decreases v.len() - i,
    {
        let item = SourceItemDto {
            source_index: i,
            source_id: source_id(&v[i]),
            source_name: stringify_source(&v[i]),
        };
        r.push(item);
        i = i + 1;
    }
    r
}

/// The tally labels of `flags`, as shown.
pub fn tally_names(flags: TallyFlags) -> (r: Vec<String>)
    ensures
        texts_of(r@) == tally_labels(flags),
{
    let mut names: Vec<String> = Vec::new();
    if flags.program {
        names.push(String::from_str("Program"));
    }
    if flags.preview {
        names.push(String::from_str("Preview"));
    }
    assert(texts_of(names@) =~= tally_labels(flags));
    names
}

fn tally_entries(v: &Vec<(VideoSource, TallyFlags)>) -> (r: Vec<(String, Vec<String>)>)
    ensures
        r@.len() == v@.len(),
        forall|i: int|
            0 <= i < v@.len() ==> {
                &&& (#[trigger] r@[i]).0@ == v@[i].0.name@
                &&& texts_of(r@[i].1@) == tally_labels(v@[i].1)
            },
{
    let mut r: Vec<(String, Vec<String>)> = Vec::new();
    let mut i: usize = 0;
    while i < v.len()
        invariant
            i <= v.len(),
            r@.len() == i,
            forall|k: int|
                0 <= k < i ==> {
                    &&& (#[trigger] r@[k]).0@ == v@[k].0.name@
                    &&& texts_of(r@[k].1@) == tally_labels(v@[k].1)
                },
        decreases v.len() - i,
    {
        let entry = (stringify_source(&v[i].0), tally_names(v[i].1));
        r.push(entry);
        i = i + 1;
    }
    r
}

fn dsk_source_entries(v: &Vec<(u8, VideoSource, VideoSource)>) -> (r: Vec<(String, (String, String))>)
    ensures
        r@.len() == v@.len(),
        forall|i: int|
            0 <= i < v@.len() ==> {
                &&& (#[trigger] r@[i]).0@ == decimal_text(v@[i].0 as nat)
                &&& r@[i].1.0@ == v@[i].1.name@
                &&& r@[i].1.1@ == v@[i].2.name@
            },
{
    let mut r: Vec<(String, (String, String))> = Vec::new();
    let mut i: usize = 0;
    while i < v.len()
        invariant
            i <= v.len(),
            r@.len() == i,
            forall|k: int|
                0 <= k < i ==> {
                    &&& (#[trigger] r@[k]).0@ == decimal_text(v@[k].0 as nat)
                    &&& r@[k].1.0@ == v@[k].1.name@
                    &&& r@[k].1.1@ == v@[k].2.name@
                },
        decreases v.len() - i,
    {
        let key = decimal(v[i].0 as u64);
        let entry = (key, (stringify_source(&v[i].1), stringify_source(&v[i].2)));
        r.push(entry);
        i = i + 1;
    }
    r
}

fn dsk_runtime_entries(v: &Vec<(u8, DskState)>) -> (r: Vec<(u8, DskRuntimeDto)>)
    ensures
        r@.len() == v@.len(),
        forall|i: int|
            0 <= i < v@.len() ==> {
                &&& (#[trigger] r@[i]).0 == v@[i].0
                &&& is_runtime_of(r@[i].1, v@[i].1)
            },
{
    let mut r: Vec<(u8, DskRuntimeDto)> = Vec::new();
    let mut i: usize = 0;
    while i < v.len()
        invariant
            i <= v.len(),
            r@.len() == i,
            forall|k: int|
                0 <= k < i ==> {
                    &&& (#[trigger] r@[k]).0 == v@[k].0
                    &&& is_runtime_of(r@[k].1, v@[k].1)
                },
        decreases v.len() - i,
    {
        let s = v[i].1;
        r.push(
            (
                v[i].0,
                DskRuntimeDto {
                    on_air: s.on_air,
                    in_transition: s.in_transition,
                    remaining_frames: s.remaining_frames,
                },
            ),
        );
        i = i + 1;
    }
    r
}

fn dsk_property_entries(v: &Vec<(u8, DskProperties)>) -> (r: Vec<(u8, DskPropertiesDto)>)
    ensures
        r@.len() == v@.len(),
        forall|i: int|
            0 <= i < v@.len() ==> {
                &&& (#[trigger] r@[i]).0 == v@[i].0
                &&& is_properties_of(r@[i].1, v@[i].1)
            },
{
    let mut r: Vec<(u8, DskPropertiesDto)> = Vec::new();
    let mut i: usize = 0;
    while i < v.len()
        invariant
            i <= v.len(),
            r@.len() == i,
            forall|k: int|
                0 <= k < i ==> {
                    &&& (#[trigger] r@[k]).0 == v@[k].0
                    &&& is_properties_of(r@[k].1, v@[k].1)
                },
        decreases v.len() - i,
    {
        let p = v[i].1;
        r.push((v[i].0, DskPropertiesDto { tie: p.tie, rate: p.rate }));
        i = i + 1;
    }
    r
}

/// The record that shows `snapshot`.
pub fn snapshot_to_dto(snapshot: &AtemSnapshot) -> (r: AtemSnapshotDto)
    ensures
        is_dto_of(r, *snapshot),
{
    AtemSnapshotDto {
        initialisation_complete: snapshot.initialisation_complete,
        mes_count: snapshot.mes_count,
        aux_count: snapshot.aux_count,
        program_sources: source_names(&snapshot.program_sources),
        preview_sources: source_names(&snapshot.preview_sources),
        available_sources: source_names(&snapshot.available_sources),
        program_source_ids: source_ids(&snapshot.program_sources),
        preview_source_ids: source_ids(&snapshot.preview_sources),
        available_source_items: source_items(&snapshot.available_sources),
        tally_by_source: tally_entries(&snapshot.tally_by_source),
        dsk_keys: duplicate_all(&snapshot.dsk_keys),
        dsk_sources: dsk_source_entries(&snapshot.dsk_sources),
        dsk_state: dsk_runtime_entries(&snapshot.dsk_state),
        dsk_properties: dsk_property_entries(&snapshot.dsk_properties),
        transition_position: duplicate_all(&snapshot.transition_position),
        transition_in_progress: duplicate_all(&snapshot.transition_in_progress),
        ftb_fully_black: duplicate_all(&snapshot.ftb_fully_black),
        ftb_in_transition: duplicate_all(&snapshot.ftb_in_transition),
        ftb_frames_remaining: duplicate_all(&snapshot.ftb_frames_remaining),
        ftb_rate: duplicate_all(&snapshot.ftb_rate),
    }
}

/// The record that shows `status`.
pub fn status_to_dto(status: &ConnectionStatus) -> (r: ConnectionStatusDto)
    ensures
        is_status_dto_of(r, *status),
{
    match status {
        ConnectionStatus::Disconnected => ConnectionStatusDto::Disconnected,
        ConnectionStatus::Connected => ConnectionStatusDto::Connected,
        ConnectionStatus::Error(e) => ConnectionStatusDto::Error(e.clone()),
    }
}

/// The record shown while no switcher is connected.
pub fn empty_snapshot_dto() -> (r: AtemSnapshotDto)
    ensures
        is_empty_dto(r),
{
    AtemSnapshotDto {
        initialisation_complete: false,
        mes_count: 1,
        aux_count: 0,
        program_sources: Vec::new(),
        preview_sources: Vec::new(),
        available_sources: Vec::new(),
        program_source_ids: Vec::new(),
        preview_source_ids: Vec::new(),
        available_source_items: Vec::new(),
        tally_by_source: Vec::new(),
        dsk_keys: Vec::new(),
        dsk_sources: Vec::new(),
        dsk_state: Vec::new(),
        dsk_properties: Vec::new(),
        transition_position: Vec::new(),
        transition_in_progress: Vec::new(),
        ftb_fully_black: Vec::new(),
        ftb_in_transition: Vec::new(),
        ftb_frames_remaining: Vec::new(),
        ftb_rate: Vec::new(),
    }
}

/// The event that carries `snapshot` and `status` to the interface.
pub fn snapshot_event(snapshot: &AtemSnapshot, status: &ConnectionStatus) -> (r: SnapshotEventDto)
    ensures
        is_dto_of(r.snapshot, *snapshot),
        is_status_dto_of(r.status, *status),
{
    SnapshotEventDto { snapshot: snapshot_to_dto(snapshot), status: status_to_dto(status) }
}

/// The record shown for the current connection: that of its snapshot, or the empty record
/// where there is no connection.
pub fn current_snapshot_dto(snapshot: Option<&AtemSnapshot>) -> (r: AtemSnapshotDto)
    ensures
        match snapshot {
            Some(s) => is_dto_of(r, *s),
            None => is_empty_dto(r),
        },
{
    match snapshot {
        Some(s) => snapshot_to_dto(s),
        None => empty_snapshot_dto(),
    }
}

/// The status shown for the current connection: its status, or `Disconnected` where there
/// is no connection.
pub fn current_status_dto(status: Option<&ConnectionStatus>) -> (r: ConnectionStatusDto)
    ensures
        match status {
            Some(s) => is_status_dto_of(r, *s),
            None => r is Disconnected,
        },
{
    match status {
        Some(s) => status_to_dto(s),
        None => ConnectionStatusDto::Disconnected,
    }
}

} // verus!
