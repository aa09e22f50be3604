//! The switcher state that the client reads, and the snapshot of it that it publishes.
use vstd::prelude::*;
use crate::source::{
    duplicate_all, ids_of, source_ids, Duplicate, DskProperties, DskState, TallyFlags, VideoSource,
};

verus! {

/// What the client reads of the switcher's state when it publishes a snapshot.
pub struct SwitcherState {
    /// Whether the switcher has sent its whole initial state.
    pub initialisation_complete: bool,
    /// The number of mix/effects buses.
    pub mes: u8,
    /// The number of auxiliary outputs.
    pub auxs: u8,
    /// The program source known for each mix/effects bus, as (bus, source) entries.
    pub program_inputs: Vec<(u8, VideoSource)>,
    /// The preview source known for each mix/effects bus, as (bus, source) entries.
    pub preview_inputs: Vec<(u8, VideoSource)>,
    /// The source that stands for a bus whose source is not known.
    pub default_source: VideoSource,
    /// The sources for which the switcher has sent input properties, in the state's order.
    pub input_sources: Vec<VideoSource>,
    /// The tally of each source.
    pub tally: Vec<(VideoSource, TallyFlags)>,
    /// The fill and cut source of each downstream keyer, as (key, fill, cut) entries.
    pub dsk_sources: Vec<(u8, VideoSource, VideoSource)>,
    /// The run-time state of each downstream keyer.
    pub dsk_state: Vec<(u8, DskState)>,
    /// The settings of each downstream keyer.
    pub dsk_properties: Vec<(u8, DskProperties)>,
    /// The transition position of each mix/effects bus.
    pub transition_position: Vec<u16>,
    /// Whether a transition is running on each mix/effects bus.
    pub transition_in_progress: Vec<bool>,
    /// Whether each mix/effects bus is faded to black.
    pub ftb_fully_black: Vec<bool>,
    /// Whether a fade to black is running on each mix/effects bus.
    pub ftb_in_transition: Vec<bool>,
    /// The frames left of the fade to black of each mix/effects bus.
    pub ftb_frames_remaining: Vec<u8>,
    /// The fade-to-black rate of each mix/effects bus.
    pub ftb_rate: Vec<u8>,
}

/// What the user interface shows of the switcher: one consistent snapshot of its state.
#[derive(Clone, Debug)]
pub struct AtemSnapshot {
    pub initialisation_complete: bool,
    pub mes_count: u8,
    pub aux_count: u8,
    /// The program source of each mix/effects bus, by bus.
    pub program_sources: Vec<VideoSource>,
    /// The preview source of each mix/effects bus, by bus.
    pub preview_sources: Vec<VideoSource>,
    /// Inputs / sources that can be offered for selection.
    pub available_sources: Vec<VideoSource>,
    /// Source -> tally info.
    pub tally_by_source: Vec<(VideoSource, TallyFlags)>,
    /// The downstream keyers, so that the interface offers their controls only when present.
    pub dsk_keys: Vec<u8>,
    /// Key -> (fill, cut) source.
    pub dsk_sources: Vec<(u8, VideoSource, VideoSource)>,
    pub dsk_state: Vec<(u8, DskState)>,
    pub dsk_properties: Vec<(u8, DskProperties)>,
    pub transition_position: Vec<u16>,
    pub transition_in_progress: Vec<bool>,
    pub ftb_fully_black: Vec<bool>,
    pub ftb_in_transition: Vec<bool>,
    pub ftb_frames_remaining: Vec<u8>,
    pub ftb_rate: Vec<u8>,
}

/// The source of bus `me` in `entries`: that of the first entry for `me`, or `fallback`
/// where there is none.
pub open spec fn routed_source(
    entries: Seq<(u8, VideoSource)>,
    me: u8,
    fallback: VideoSource,
) -> VideoSource
    decreases entries.len(),
{
    if entries.len() == 0 {
        fallback
    } else if entries[0].0 == me {
        entries[0].1
    } else {
        routed_source(entries.drop_first(), me, fallback)
    }
}

/// The keys of keyer entries, in order.
pub open spec fn dsk_keys_of(entries: Seq<(u8, VideoSource, VideoSource)>) -> Seq<u8> {
    entries.map_values(|e: (u8, VideoSource, VideoSource)| e.0)
}

/// The ids of the sources of tally entries, in order.
pub open spec fn tally_ids(entries: Seq<(VideoSource, TallyFlags)>) -> Seq<u16> {
    entries.map_values(|e: (VideoSource, TallyFlags)| e.0.id)
}

/// The keys of keyer state entries, in order.
pub open spec fn dsk_state_keys(entries: Seq<(u8, DskState)>) -> Seq<u8> {
    entries.map_values(|e: (u8, DskState)| e.0)
}

/// The keys of keyer settings entries, in order.
pub open spec fn dsk_property_keys(entries: Seq<(u8, DskProperties)>) -> Seq<u8> {
    entries.map_values(|e: (u8, DskProperties)| e.0)
}

impl SwitcherState {
    /// The state's collections are keyed: no source occurs twice among the input sources or
    /// the tally entries, and no keyer occurs twice among the keyer entries of each kind.
    pub open spec fn well_formed(&self) -> bool {
        &&& ids_of(self.input_sources@).no_duplicates()
        &&& tally_ids(self.tally@).no_duplicates()
        &&& dsk_keys_of(self.dsk_sources@).no_duplicates()
        &&& dsk_state_keys(self.dsk_state@).no_duplicates()
        &&& dsk_property_keys(self.dsk_properties@).no_duplicates()
    }
}

/// The snapshot's collections are keyed: the offered sources, the tally entries' sources and
/// the keyers of each kind of entry each occur once.
pub open spec fn has_distinct_entries(r: AtemSnapshot) -> bool {
    &&& r.available_sources@.no_duplicates()
    &&& ids_of(r.available_sources@).no_duplicates()
    &&& tally_ids(r.tally_by_source@).no_duplicates()
    &&& r.dsk_keys@.no_duplicates()
    &&& dsk_state_keys(r.dsk_state@).no_duplicates()
    &&& dsk_property_keys(r.dsk_properties@).no_duplicates()
}

/// Sources with distinct ids are distinct sources.
proof fn lemma_distinct_ids(v: Seq<VideoSource>)
    requires
        ids_of(v).no_duplicates(),
    ensures
        v.no_duplicates(),
{
    assert forall|i: int, j: int|
        0 <= i < v.len() && 0 <= j < v.len() && i != j implies v[i] != v[j] by {
        assert(ids_of(v)[i] == v[i].id);
        assert(ids_of(v)[j] == v[j].id);
    }
}

/// Whether no value occurs twice in `v`.
pub fn no_repeated_u16(v: &Vec<u16>) -> (r: bool)
    ensures
        r == v@.no_duplicates(),
{
    let n = v.len();
    let mut i: usize = 0;
    while i < n
        invariant
            n == v.len(),
            i <= n,
            forall|a: int, b: int| 0 <= a < i && 0 <= b < n && a != b ==> v@[a] != v@[b],
        decreases n - i,
    {
        let mut j: usize = 0;
        while j < n
            invariant
                n == v.len(),
                i < n,
                j <= n,
                forall|a: int, b: int| 0 <= a < i && 0 <= b < n && a != b ==> v@[a] != v@[b],
                forall|b: int| 0 <= b < j && b != i ==> v@[i as int] != v@[b],
            decreases n - j,
        {
            if j != i && v[i] == v[j] {
                return false;
            }
            j = j + 1;
        }
        i = i + 1;
    }
    true
}

/// Whether no value occurs twice in `v`.
pub fn no_repeated_u8(v: &Vec<u8>) -> (r: bool)
    ensures
        r == v@.no_duplicates(),
{
    let n = v.len();
    let mut i: usize = 0;
    while i < n
        invariant
            n == v.len(),
            i <= n,
            forall|a: int, b: int| 0 <= a < i && 0 <= b < n && a != b ==> v@[a] != v@[b],
        decreases n - i,
    {
        let mut j: usize = 0;
        while j < n
            invariant
                n == v.len(),
                i < n,
                j <= n,
                forall|a: int, b: int| 0 <= a < i && 0 <= b < n && a != b ==> v@[a] != v@[b],
                forall|b: int| 0 <= b < j && b != i ==> v@[i as int] != v@[b],
            decreases n - j,
        {
            if j != i && v[i] == v[j] {
                return false;
            }
            j = j + 1;
        }
        i = i + 1;
    }
    true
}

fn tally_source_ids(entries: &Vec<(VideoSource, TallyFlags)>) -> (r: Vec<u16>)
    ensures
        r@ == tally_ids(entries@),
{
    let mut r: Vec<u16> = Vec::new();
    let mut i: usize = 0;
    while i < entries.len()
        invariant
            i <= entries.len(),
            r@ == tally_ids(entries@.take(i as int)),
        decreases entries.len() - i,
    {
        r.push(entries[i].0.id);
        proof {
            assert(tally_ids(entries@.take(i + 1)) =~= tally_ids(entries@.take(i as int)).push(
                entries@[i as int].0.id,
            ));
        }
        i = i + 1;
    }
    assert(entries@.take(entries.len() as int) =~= entries@);
    r
}

fn keys_of_dsk_state(entries: &Vec<(u8, DskState)>) -> (r: Vec<u8>)
    ensures
        r@ == dsk_state_keys(entries@),
{
    let mut r: Vec<u8> = Vec::new();
    let mut i: usize = 0;
    while i < entries.len()
        invariant
            i <= entries.len(),
            r@ == dsk_state_keys(entries@.take(i as int)),
        decreases entries.len() - i,
    {
        r.push(entries[i].0);
        proof {
            assert(dsk_state_keys(entries@.take(i + 1)) =~= dsk_state_keys(
                entries@.take(i as int),
            ).push(entries@[i as int].0));
        }
        i = i + 1;
    }
    assert(entries@.take(entries.len() as int) =~= entries@);
    r
}

fn keys_of_dsk_properties(entries: &Vec<(u8, DskProperties)>) -> (r: Vec<u8>)
    ensures
        r@ == dsk_property_keys(entries@),
{
    let mut r: Vec<u8> = Vec::new();
    let mut i: usize = 0;
    while i < entries.len()
        invariant
            i <= entries.len(),
            r@ == dsk_property_keys(entries@.take(i as int)),
        decreases entries.len() - i,
    {
        r.push(entries[i].0);
        proof {
            assert(dsk_property_keys(entries@.take(i + 1)) =~= dsk_property_keys(
                entries@.take(i as int),
            ).push(entries@[i as int].0));
        }
        i = i + 1;
    }
    assert(entries@.take(entries.len() as int) =~= entries@);
    r
}

/// `r` is the snapshot of `state`: the program and preview source of every bus (the
/// state's default source where it knows none), the sources with input properties, the
/// tally, the keys of the downstream keyers, and the other per-bus and per-keyer records as
/// the state holds them.
pub open spec fn is_snapshot_of(r: AtemSnapshot, state: SwitcherState) -> bool {
    &&& r.initialisation_complete == state.initialisation_complete
    &&& r.mes_count == state.mes
    &&& r.aux_count == state.auxs
    &&& r.program_sources@.len() == state.mes
    &&& r.preview_sources@.len() == state.mes
    &&& forall|me: int|
        0 <= me < state.mes ==> #[trigger] r.program_sources@[me] == routed_source(
            state.program_inputs@,
            me as u8,
            state.default_source,
        )
    &&& forall|me: int|
        0 <= me < state.mes ==> #[trigger] r.preview_sources@[me] == routed_source(
            state.preview_inputs@,
            me as u8,
            state.default_source,
        )
    &&& r.available_sources@ == state.input_sources@
    &&& r.tally_by_source@ == state.tally@
    &&& r.dsk_keys@ == dsk_keys_of(state.dsk_sources@)
    &&& r.dsk_sources@ == state.dsk_sources@
    &&& r.dsk_state@ == state.dsk_state@
    &&& r.dsk_properties@ == state.dsk_properties@
    &&& r.transition_position@ == state.transition_position@
    &&& r.transition_in_progress@ == state.transition_in_progress@
    &&& r.ftb_fully_black@ == state.ftb_fully_black@
    &&& r.ftb_in_transition@ == state.ftb_in_transition@
    &&& r.ftb_frames_remaining@ == state.ftb_frames_remaining@
    &&& r.ftb_rate@ == state.ftb_rate@
}

/// The source of bus `me` in `entries`, or `fallback`.
fn source_of_me(entries: &Vec<(u8, VideoSource)>, me: u8, fallback: &VideoSource) -> (r:
    VideoSource)
    ensures
        r == routed_source(entries@, me, *fallback),
{
    let mut i: usize = 0;
    assert(entries@.skip(0) =~= entries@);
    while i < entries.len()
        invariant
            i <= entries.len(),
            routed_source(entries@, me, *fallback) == routed_source(
                entries@.skip(i as int),
                me,
                *fallback,
            ),
        decreases entries.len() - i,
    {
        assert(entries@.skip(i as int)[0] == entries@[i as int]);
        assert(entries@.skip(i as int).drop_first() =~= entries@.skip(i + 1));
        if entries[i].0 == me {
            return entries[i].1.duplicate();
        }
        i = i + 1;
    }
    assert(entries@.skip(i as int).len() == 0);
    fallback.duplicate()
}

/// The sources of buses `0..count`, each looked up in `entries`.
fn sources_by_bus(entries: &Vec<(u8, VideoSource)>, count: u8, fallback: &VideoSource) -> (r: Vec<
    VideoSource,
>)
    ensures
        r@.len() == count,
        forall|me: int|
            0 <= me < count ==> #[trigger] r@[me] == routed_source(
                entries@,
                me as u8,
                *fallback,
            ),
{
    let mut r: Vec<VideoSource> = Vec::new();
    let mut me: u8 = 0;
    while me < count
        invariant
            me <= count,
            r@.len() == me,
            forall|k: int|
                0 <= k < me ==> #[trigger] r@[k] == routed_source(entries@, k as u8, *fallback),
        decreases count - me,
    {
        let s = source_of_me(entries, me, fallback);
        r.push(s);
        me = me + 1;
    }
    r
}

/// The keys of the keyer entries, in order.
fn keys_of_dsk_sources(entries: &Vec<(u8, VideoSource, VideoSource)>) -> (r: Vec<u8>)
    ensures
        r@ == dsk_keys_of(entries@),
{
    let mut r: Vec<u8> = Vec::new();
    let mut i: usize = 0;
    while i < entries.len()
        invariant
            i <= entries.len(),
            r@ == dsk_keys_of(entries@.take(i as int)),
        decreases entries.len() - i,
    {
        r.push(entries[i].0);
        proof {
            assert(dsk_keys_of(entries@.take(i + 1)) =~= dsk_keys_of(entries@.take(i as int)).push(
                entries@[i as int].0,
            ));
        }
        i = i + 1;
    }
    assert(entries@.take(entries.len() as int) =~= entries@);
    r
}

impl AtemSnapshot {
    /// The snapshot of `state`; its collections are keyed as the state's are.
    pub fn from_state(state: &SwitcherState) -> (r: AtemSnapshot)
        requires
            state.well_formed(),
        ensures
            is_snapshot_of(r, *state),
            has_distinct_entries(r),
    {
        proof {
            lemma_distinct_ids(state.input_sources@);
        }
        let mes_count = state.mes;
        let aux_count = state.auxs;
        let program_sources = sources_by_bus(&state.program_inputs, mes_count, &state.default_source);
        let preview_sources = sources_by_bus(&state.preview_inputs, mes_count, &state.default_source);
        let available_sources = duplicate_all(&state.input_sources);
        let tally_by_source = duplicate_all(&state.tally);
        let dsk_keys = keys_of_dsk_sources(&state.dsk_sources);
        AtemSnapshot {
            initialisation_complete: state.initialisation_complete,
            mes_count,
            aux_count,
            program_sources,
            preview_sources,
            available_sources,
            tally_by_source,
            dsk_keys,
            dsk_sources: duplicate_all(&state.dsk_sources),
            dsk_state: duplicate_all(&state.dsk_state),
            dsk_properties: duplicate_all(&state.dsk_properties),
            transition_position: duplicate_all(&state.transition_position),
            transition_in_progress: duplicate_all(&state.transition_in_progress),
            ftb_fully_black: duplicate_all(&state.ftb_fully_black),
            ftb_in_transition: duplicate_all(&state.ftb_in_transition),
            ftb_frames_remaining: duplicate_all(&state.ftb_frames_remaining),
            ftb_rate: duplicate_all(&state.ftb_rate),
        }
    }
}

impl SwitcherState {
    /// Whether the state's collections are keyed.
    pub fn is_well_formed(&self) -> (r: bool)
        ensures
            r == self.well_formed(),
    {
        no_repeated_u16(&source_ids(&self.input_sources))
            && no_repeated_u16(&tally_source_ids(&self.tally))
            && no_repeated_u8(&keys_of_dsk_sources(&self.dsk_sources))
            && no_repeated_u8(&keys_of_dsk_state(&self.dsk_state))
            && no_repeated_u8(&keys_of_dsk_properties(&self.dsk_properties))
    }
}

} // verus!
