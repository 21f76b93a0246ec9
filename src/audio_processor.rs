use vstd::prelude::*;
use crate::plugin_parameter::{
    last_point, last_point_value, NormalizedParameterValue, ParameterChanges, ParameterId, ParameterPoint,
};

verus! {

/// The automation points of one parameter for a block, borrowed.
pub struct InputParameterChanges<'t> {
    pub parameter_id: ParameterId,
    pub points: &'t [ParameterPoint],
}

/// Automation points that the plugin sends back for one parameter.
pub struct OutputParameterChanges {
    pub parameter_id: ParameterId,
    pub points: Vec<ParameterPoint>,
}

/// One input channel: a borrowed view of the host's samples for one block.
pub struct InChannel<'t, T> {
    pub is_silenced: bool,
    pub samples: &'t [T],
}

pub struct InBus<'t, T> {
    pub channels: Vec<InChannel<'t, T>>,
}

/// One output channel: a mutable borrowed view of the host's buffer for one
/// block.
pub struct OutChannel<'t, T> {
    pub is_silenced: bool,
    pub samples: &'t mut [T],
}

pub struct OutBus<'t, T> {
    channels: Vec<OutChannel<'t, T>>,
}

impl<'t, T> OutBus<'t, T> {
    pub closed spec fn channel_views(&self) -> Seq<OutChannel<'t, T>> {
        self.channels@
    }

    pub fn new(channels: Vec<OutChannel<'t, T>>) -> (r: Self)
        ensures
            r.channel_views() == channels@,
    {
        Self { channels }
    }

    pub fn channels(&mut self) -> (r: &mut [OutChannel<'t, T>])
        ensures
            r@ == old(self).channel_views(),
            final(self).channel_views() == final(r)@,
    {
        self.channels.as_mut_slice()
    }
}

/// How the host runs the block.
#[derive(Clone, Copy, Debug, PartialEq, Eq, Structural)]
pub enum ProcessModes {
    Offline,
    Prefetch,
    Realtime,
}

/// The width of the samples in a block.
#[derive(Clone, Copy, Debug, PartialEq, Eq, Structural)]
pub enum SymbolicSampleSizes {
    Sample32,
    Sample64,
}

/// The host's transport and timing for one block. Floating-point fields are
/// held as the bit patterns of their IEEE 754 values (`f64` unless noted).
#[derive(Clone, Copy, Debug, Default, PartialEq, Eq, Structural)]
pub struct ProcessContext {
    pub state: u32,
    pub sample_rate: u64,
    pub project_time_samples: i64,
    pub system_time: i64,
    pub continuous_time_samples: i64,
    pub project_time_music: u64,
    pub bar_position_music: u64,
    pub cycle_start_music: u64,
    pub cycle_end_music: u64,
    pub tempo: u64,
    pub time_sig_numerator: i32,
    pub time_sig_denominator: i32,
    pub samples_to_next_clock: i32,
}

/// Floating-point fields of the event payloads are held as the bit patterns
/// of their IEEE 754 `f32` values (`f64` for a note expression value).
#[derive(Clone, Copy, Debug, PartialEq, Eq, Structural)]
pub struct NoteOnEvent {
    pub channel: i16,
    pub pitch: i16,
    pub tuning: u32,
    pub velocity: u32,
    pub length: i32,
    pub note_id: i32,
}

#[derive(Clone, Copy, Debug, PartialEq, Eq, Structural)]
pub struct NoteOffEvent {
    pub channel: i16,
    pub pitch: i16,
    pub velocity: u32,
    pub note_id: i32,
    pub tuning: u32,
}

#[derive(Clone, Copy, Debug)]
pub struct DataEvent<'t> {
    pub type_: u32,
    pub bytes: &'t [u8],
}

#[derive(Clone, Copy, Debug, PartialEq, Eq, Structural)]
pub struct PolyPressureEvent {
    pub channel: i16,
    pub pitch: i16,
    pub pressure: u32,
    pub note_id: i32,
}

#[derive(Clone, Copy, Debug, PartialEq, Eq, Structural)]
pub struct NoteExpressionValueEvent {
    pub type_id: u32,
    pub note_id: i32,
    pub value: u64,
}

#[derive(Clone, Copy, Debug)]
pub struct NoteExpressionTextEvent<'t> {
    pub type_id: u32,
    pub note_id: i32,
    pub text: &'t [u16],
}

#[derive(Clone, Copy, Debug)]
pub struct ChordEvent<'t> {
    pub root: i16,
    pub bass_note: i16,
    pub mask: i16,
    pub text: &'t [u16],
}

#[derive(Clone, Copy, Debug)]
pub struct ScaleEvent<'t> {
    pub root: i16,
    pub mask: i16,
    pub text: &'t [u16],
}

#[derive(Clone, Copy, Debug, PartialEq, Eq, Structural)]
pub struct LegacyMidiCCOutEvent {
    pub control_number: u8,
    pub channel: i8,
    pub value: i8,
    pub value2: i8,
}

/// What an event is, as its kind tag says.
#[derive(Clone, Copy, Debug, PartialEq, Eq, Structural)]
pub enum EventKind {
    NoteOn,
    NoteOff,
    Data,
    PolyPressure,
    NoteExpressionValue,
    NoteExpressionText,
    Chord,
    Scale,
    LegacyMidiCcOut,
}

/// The payload of an event, one variant per kind.
#[derive(Clone, Copy, Debug)]
pub enum EventData<'t> {
    NoteOn(NoteOnEvent),
    NoteOff(NoteOffEvent),
    Data(DataEvent<'t>),
    PolyPressure(PolyPressureEvent),
    NoteExpressionValue(NoteExpressionValueEvent),
    NoteExpressionText(NoteExpressionTextEvent<'t>),
    Chord(ChordEvent<'t>),
    Scale(ScaleEvent<'t>),
    LegacyMidiCcOut(LegacyMidiCCOutEvent),
}

/// The kind of a payload.
pub open spec fn payload_kind(d: EventData) -> EventKind {
    match d {
        EventData::NoteOn(_) => EventKind::NoteOn,
        EventData::NoteOff(_) => EventKind::NoteOff,
        EventData::Data(_) => EventKind::Data,
        EventData::PolyPressure(_) => EventKind::PolyPressure,
        EventData::NoteExpressionValue(_) => EventKind::NoteExpressionValue,
        EventData::NoteExpressionText(_) => EventKind::NoteExpressionText,
        EventData::Chord(_) => EventKind::Chord,
        EventData::Scale(_) => EventKind::Scale,
        EventData::LegacyMidiCcOut(_) => EventKind::LegacyMidiCcOut,
    }
}

impl<'t> EventData<'t> {
    pub fn kind(&self) -> (r: EventKind)
        ensures
            r == payload_kind(*self),
    {
        match self {
            EventData::NoteOn(_) => EventKind::NoteOn,
            EventData::NoteOff(_) => EventKind::NoteOff,
            EventData::Data(_) => EventKind::Data,
            EventData::PolyPressure(_) => EventKind::PolyPressure,
            EventData::NoteExpressionValue(_) => EventKind::NoteExpressionValue,
            EventData::NoteExpressionText(_) => EventKind::NoteExpressionText,
            EventData::Chord(_) => EventKind::Chord,
            EventData::Scale(_) => EventKind::Scale,
            EventData::LegacyMidiCcOut(_) => EventKind::LegacyMidiCcOut,
        }
    }
}

/// A timed event of one block. `ppq_position` is the bit pattern of an
/// IEEE 754 `f64`.
#[derive(Clone, Copy, Debug)]
pub struct Event<'t> {
    pub bus_index: i32,
    pub sample_offset: i32,
    pub ppq_position: u64,
    pub flags: u16,
    pub event: EventData<'t>,
}

/// The typed input of one block. Everything borrowed in it lives only as
/// long as the block.
pub struct ProcessInput<'t, T> {
    pub process_mode: ProcessModes,
    pub sample_size: SymbolicSampleSizes,
    pub sample_count: u32,
    pub buses: Vec<InBus<'t, T>>,
    pub param_changes: ParameterChanges,
    pub events: Vec<Event<'t>>,
    pub context: &'t ProcessContext,
}

impl<'t, T> ProcessInput<'t, T> {
    /// The last automation point of the block for parameter `id`, if any.
    pub fn get_last_param_value(&self, id: ParameterId) -> (r: Option<NormalizedParameterValue>)
        ensures
            r == last_point_value(self.param_changes@, id),
    {
        last_point(&self.param_changes, id)
    }
}

/// The typed output of one block: the host's output buffers, and the
/// parameter changes and events that the plugin sends back.
pub struct ProcessOutput<'t, T> {
    buses: Vec<OutBus<'t, T>>,
    pub param_changes: ParameterChanges,
    pub events: Vec<Event<'t>>,
}

impl<'t, T> ProcessOutput<'t, T> {
    pub closed spec fn bus_views(&self) -> Seq<OutBus<'t, T>> {
        self.buses@
    }

    /// The outgoing parameter changes.
    pub closed spec fn changes_view(&self) -> Map<ParameterId, Vec<ParameterPoint>> {
        self.param_changes@
    }

    /// The outgoing events.
    pub closed spec fn events_view(&self) -> Seq<Event<'t>> {
        self.events@
    }

    /// Output over `buses`, with no parameter changes and no events yet.
    pub fn new(buses: Vec<OutBus<'t, T>>) -> (r: Self)
        ensures
            r.bus_views() == buses@,
            r.changes_view() == Map::<ParameterId, Vec<crate::plugin_parameter::ParameterPoint>>::empty(),
            r.events_view().len() == 0,
    {
        Self { buses, param_changes: ParameterChanges::new(), events: Vec::new() }
    }

    pub fn buses(&mut self) -> (r: &mut [OutBus<'t, T>])
        ensures
            r@ == old(self).bus_views(),
            final(self).bus_views() == final(r)@,
    {
        self.buses.as_mut_slice()
    }
}

} // verus!
