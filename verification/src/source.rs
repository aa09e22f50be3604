//! Video sources, tally flags, downstream keyer records and transition styles.
use vstd::prelude::*;

verus! {

/// A value that can be copied into an equal value.
pub trait Duplicate: Sized {
    /// An equal copy of `self`.
    fn duplicate(&self) -> (r: Self)
        ensures
            r == *self,
    ;
}

impl Duplicate for bool {
    fn duplicate(&self) -> (r: bool) {
        *self
    }
}

impl Duplicate for u8 {
    fn duplicate(&self) -> (r: u8) {
        *self
    }
}

impl Duplicate for u16 {
    fn duplicate(&self) -> (r: u16) {
        *self
    }
}

/// An equal copy of every element of `v`, in order.
pub fn duplicate_all<T: Duplicate>(v: &Vec<T>) -> (r: Vec<T>)
    ensures
        r@ == v@,
{
    let mut r: Vec<T> = Vec::new();
    let mut i: usize = 0;
    while i < v.len()
        invariant
            i <= v.len(),
            r@ == v@.take(i as int),
        decreases v.len() - i,
    {
        let x = v[i].duplicate();
        r.push(x);
        proof {
            assert(r@ =~= v@.take(i + 1));
        }
        i = i + 1;
    }
    assert(v@.take(v.len() as int) =~= v@);
    r
}

/// A video source of the switcher: the protocol's numeric id of the source, and the name
/// under which the protocol library lists it.
#[derive(Clone, Debug)]
pub struct VideoSource {
    pub id: u16,
    pub name: String,
}

impl Duplicate for VideoSource {
    fn duplicate(&self) -> (r: VideoSource) {
        VideoSource { id: self.id, name: self.name.clone() }
    }
}

/// The display text of a source: its name.
pub fn stringify_source(source: &VideoSource) -> (r: String)
    ensures
        r@ == source.name@,
{
    source.name.clone()
}

/// The protocol's numeric id of a source.
pub fn source_id(source: &VideoSource) -> (r: u16)
    ensures
        r == source.id,
{
    source.id
}

/// The ids of a sequence of sources.
pub open spec fn ids_of(v: Seq<VideoSource>) -> Seq<u16> {
    v.map_values(|x: VideoSource| x.id)
}

/// The ids of a sequence of sources, in order.
pub fn source_ids(v: &Vec<VideoSource>) -> (r: Vec<u16>)
    ensures
        r@ == ids_of(v@),
{
    let mut r: Vec<u16> = Vec::new();
    let mut i: usize = 0;
    while i < v.len()
        invariant
            i <= v.len(),
            r@ == ids_of(v@.take(i as int)),
        decreases v.len() - i,
    {
        r.push(source_id(&v[i]));
        proof {
            assert(r@ =~= ids_of(v@.take(i + 1)));
        }
        i = i + 1;
    }
    assert(v@.take(v.len() as int) =~= v@);
    r
}

/// Whether a source is currently on program and/or on preview.
#[derive(Clone, Copy, Debug, PartialEq, Eq)]
pub struct TallyFlags {
    pub program: bool,
    pub preview: bool,
}

/// The run-time state of a downstream keyer.
#[derive(Clone, Copy, Debug, PartialEq, Eq)]
pub struct DskState {
    pub on_air: bool,
    pub in_transition: bool,
    pub remaining_frames: u8,
}

/// The settings of a downstream keyer.
#[derive(Clone, Copy, Debug, PartialEq, Eq)]
pub struct DskProperties {
    pub tie: bool,
    pub rate: u8,
}

impl Duplicate for (VideoSource, TallyFlags) {
    fn duplicate(&self) -> (r: (VideoSource, TallyFlags)) {
        (self.0.duplicate(), self.1)
    }
}

impl Duplicate for (u8, VideoSource) {
    fn duplicate(&self) -> (r: (u8, VideoSource)) {
        (self.0, self.1.duplicate())
    }
}

impl Duplicate for (u8, VideoSource, VideoSource) {
    fn duplicate(&self) -> (r: (u8, VideoSource, VideoSource)) {
        (self.0, self.1.duplicate(), self.2.duplicate())
    }
}

impl Duplicate for (u8, DskState) {
    fn duplicate(&self) -> (r: (u8, DskState)) {
        (self.0, self.1)
    }
}

impl Duplicate for (u8, DskProperties) {
    fn duplicate(&self) -> (r: (u8, DskProperties)) {
        (self.0, self.1)
    }
}

/// The style of the next transition of a mix/effects bus.
#[derive(Clone, Copy, Debug, PartialEq, Eq, Structural)]
pub enum TransitionType {
    Mix,
    Dip,
    Wipe,
    Sting,
    DVE,
}

/// The style that follows `t` when cycling through the styles.
pub open spec fn next_style(t: TransitionType) -> TransitionType {
    match t {
        TransitionType::Mix => TransitionType::Dip,
        TransitionType::Dip => TransitionType::Wipe,
        TransitionType::Wipe => TransitionType::DVE,
        TransitionType::DVE => TransitionType::Sting,
        TransitionType::Sting => TransitionType::Mix,
    }
}

/// The style that follows `t`: Mix, Dip, Wipe, DVE, Sting, then Mix again.
pub fn transition_next(t: TransitionType) -> (r: TransitionType)
    ensures
        r == next_style(t),
{
    match t {
        TransitionType::Mix => TransitionType::Dip,
        TransitionType::Dip => TransitionType::Wipe,
        TransitionType::Wipe => TransitionType::DVE,
        TransitionType::DVE => TransitionType::Sting,
        TransitionType::Sting => TransitionType::Mix,
    }
}

/// Cycling through the transition styles visits five different styles and comes back to the
/// first after five steps.
pub proof fn transition_cycle(t: TransitionType)
    ensures
        next_style(next_style(next_style(next_style(next_style(t))))) == t,
        next_style(t) != t,
        next_style(next_style(t)) != t,
        next_style(next_style(next_style(t))) != t,
        next_style(next_style(next_style(next_style(t)))) != t,
{
}

} // verus!
