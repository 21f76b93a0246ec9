use vstd::prelude::*;
use crate::audio_processor::{
    payload_kind, Event, EventData, EventKind, InBus, InChannel, OutBus, OutChannel, ProcessContext,
    ProcessInput, ProcessModes, ProcessOutput, SymbolicSampleSizes,
};
use crate::plugin_parameter::{ParameterChanges, ParameterId, ParameterPoint};

verus! {

broadcast use vstd::std_specs::hash::group_hash_axioms;

/// The process mode that a header tag names.
pub open spec fn mode_of(tag: i32) -> Option<ProcessModes> {
    if tag == 0 {
        Some(ProcessModes::Offline)
    } else if tag == 1 {
        Some(ProcessModes::Prefetch)
    } else if tag == 2 {
        Some(ProcessModes::Realtime)
    } else {
        None
    }
}

/// The sample width that a header tag names.
pub open spec fn size_of(tag: i32) -> Option<SymbolicSampleSizes> {
    if tag == 0 {
        Some(SymbolicSampleSizes::Sample32)
    } else if tag == 1 {
        Some(SymbolicSampleSizes::Sample64)
    } else {
        None
    }
}

/// The event kind that a host kind tag names.
pub open spec fn kind_of(tag: u16) -> Option<EventKind> {
    if tag == 0 {
        Some(EventKind::NoteOn)
    } else if tag == 1 {
        Some(EventKind::NoteOff)
    } else if tag == 2 {
        Some(EventKind::Data)
    } else if tag == 3 {
        Some(EventKind::PolyPressure)
    } else if tag == 4 {
        Some(EventKind::NoteExpressionValue)
    } else if tag == 5 {
        Some(EventKind::NoteExpressionText)
    } else if tag == 6 {
        Some(EventKind::Chord)
    } else if tag == 7 {
        Some(EventKind::Scale)
    } else if tag == 0xffff {
        Some(EventKind::LegacyMidiCcOut)
    } else {
        None
    }
}

pub fn decode_process_mode(tag: i32) -> (r: Option<ProcessModes>)
    ensures
        r == mode_of(tag),
{
    match tag {
        0 => Some(ProcessModes::Offline),
        1 => Some(ProcessModes::Prefetch),
        2 => Some(ProcessModes::Realtime),
        _ => None,
    }
}

pub fn decode_sample_size(tag: i32) -> (r: Option<SymbolicSampleSizes>)
    ensures
        r == size_of(tag),
{
    match tag {
        0 => Some(SymbolicSampleSizes::Sample32),
        1 => Some(SymbolicSampleSizes::Sample64),
        _ => None,
    }
}

/// Whether blocks of this sample width can be processed.
pub fn can_process_sample_size(tag: i32) -> (r: bool)
    ensures
        r == size_of(tag) is Some,
{
    decode_sample_size(tag).is_some()
}

pub fn decode_event_kind(tag: u16) -> (r: Option<EventKind>)
    ensures
        r == kind_of(tag),
{
    match tag {
        0 => Some(EventKind::NoteOn),
        1 => Some(EventKind::NoteOff),
        2 => Some(EventKind::Data),
        3 => Some(EventKind::PolyPressure),
        4 => Some(EventKind::NoteExpressionValue),
        5 => Some(EventKind::NoteExpressionText),
        6 => Some(EventKind::Chord),
        7 => Some(EventKind::Scale),
        0xffff => Some(EventKind::LegacyMidiCcOut),
        _ => None,
    }
}

/// An event as the host's list gives it: the header, the kind tag, and the
/// payload read for that tag (`None` where the tag names no known kind).
#[derive(Clone, Copy, Debug)]
pub struct HostEvent<'t> {
    pub bus_index: i32,
    pub sample_offset: i32,
    pub ppq_position: u64,
    pub flags: u16,
    pub type_: u16,
    pub payload: Option<EventData<'t>>,
}

/// The typed event for a host event: there is one only where the tag names
/// a known kind and the payload is of that kind.
pub open spec fn decoded_event<'t>(e: HostEvent<'t>) -> Option<Event<'t>> {
    if kind_of(e.type_) is Some && e.payload is Some && payload_kind(e.payload.unwrap()) == kind_of(
        e.type_,
    ).unwrap() {
        Some(
            Event {
                bus_index: e.bus_index,
                sample_offset: e.sample_offset,
                ppq_position: e.ppq_position,
                flags: e.flags,
                event: e.payload.unwrap(),
            },
        )
    } else {
        None
    }
}

pub fn to_plugin_event<'t>(e: &HostEvent<'t>) -> (r: Option<Event<'t>>)
    ensures
        r == decoded_event(*e),
{
    let kind = match decode_event_kind(e.type_) {
        Some(k) => k,
        None => return None,
    };
    match e.payload {
        Some(d) => {
            if d.kind() == kind {
                Some(
                    Event {
                        bus_index: e.bus_index,
                        sample_offset: e.sample_offset,
                        ppq_position: e.ppq_position,
                        flags: e.flags,
                        event: d,
                    },
                )
            } else {
                None
            }
        },
        None => None,
    }
}

/// Every read of the host's event list succeeded and gave a known event.
pub open spec fn events_ok<'t>(reads: Seq<Option<HostEvent<'t>>>) -> bool {
    forall|k: int| 0 <= k < reads.len() ==> #[trigger] reads[k] is Some && decoded_event(reads[k].unwrap()) is Some
}

/// The typed events for a list of reads that are all good.
pub open spec fn decoded_events<'t>(reads: Seq<Option<HostEvent<'t>>>) -> Seq<Event<'t>> {
    reads.map_values(|o: Option<HostEvent<'t>>| decoded_event(o.unwrap()).unwrap())
}

/// Decodes the block's events, in order. One failed read or one event of an
/// unknown kind rejects the whole list.
pub fn collect_events<'t>(reads: &Vec<Option<HostEvent<'t>>>) -> (r: Option<Vec<Event<'t>>>)
    ensures
        r is Some <==> events_ok(reads@),
        r matches Some(v) ==> v@ == decoded_events(reads@),
{
    let mut out: Vec<Event<'t>> = Vec::new();
    let mut k: usize = 0;
    while k < reads.len()
        invariant
            k <= reads@.len(),
            events_ok(reads@.subrange(0, k as int)),
            out@ == decoded_events(reads@.subrange(0, k as int)),
        decreases reads@.len() - k,
    {
        let e = match reads[k] {
            Some(h) => match to_plugin_event(&h) {
                Some(e) => e,
                None => {
                    assert(!events_ok(reads@)) by {
                        assert(decoded_event(reads@[k as int].unwrap()) is None);
                    }
                    return None;
                },
            },
            None => {
                assert(!events_ok(reads@)) by {
                    assert(reads@[k as int] is None);
                }
                return None;
            },
        };
        out.push(e);
        proof {
            let s0 = reads@.subrange(0, k as int);
            let s1 = reads@.subrange(0, k + 1);
            assert(s1 =~= s0.push(reads@[k as int]));
            assert forall|j: int| 0 <= j < s1.len() implies #[trigger] s1[j] is Some && decoded_event(
                s1[j].unwrap(),
            ) is Some by {
                if j < k {
                    assert(s1[j] == s0[j]);
                }
            }
            assert(out@ =~= decoded_events(s1));
        }
        k = k + 1;
    }
    assert(reads@.subrange(0, k as int) =~= reads@);
    Some(out)
}

/// Bit `i` of a silence bitfield is set.
pub open spec fn bit_set(flags: u64, i: int) -> bool {
    0 <= i < 64 && (flags >> (i as u64)) & 1u64 == 1u64
}

/// Whether channel `i` is marked silent: bit `i` of the bitfield is set.
pub fn channel_is_silenced(flags: u64, i: usize) -> (r: bool)
    ensures
        r == bit_set(flags, i as int),
{
    if i < 64 {
        (flags >> (i as u64)) & 1u64 == 1u64
    } else {
        false
    }
}

/// The number of set bits among the low `n` bits of `arr`.
pub open spec fn bits_in(arr: u64, n: nat) -> nat
    decreases n,
{
    if n == 0 {
        0
    } else {
        bits_in(arr, (n - 1) as nat) + if (arr >> ((n - 1) as u64)) & 1u64 == 1u64 {
            1nat
        } else {
            0nat
        }
    }
}

/// The number of channels of a speaker arrangement: one per set bit.
pub fn get_channel_count(arr: u64) -> (r: i32)
    ensures
        r as nat == bits_in(arr, 64),
{
    let mut count: i32 = 0;
    let mut i: u64 = 0;
    while i < 64
        invariant
            i <= 64,
            count as nat == bits_in(arr, i as nat),
            0 <= count <= i,
        decreases 64 - i,
    {
        let set = (arr >> i) & 1u64 == 1u64;
        proof {
            let n = (i + 1) as nat;
            assert(((n - 1) as nat) as u64 == i);
            assert(bits_in(arr, n) == bits_in(arr, i as nat) + if set {
                1nat
            } else {
                0nat
            });
        }
        if set {
            count = count + 1;
        }
        i = i + 1;
    }
    count
}

/// One automation queue as the host gives it: the parameter, and the result
/// of reading each point (`None` where the host reported a failed read).
pub struct HostParamQueue {
    pub parameter_id: ParameterId,
    pub points: Vec<Option<ParameterPoint>>,
}

/// The queue is there and each of its points was read.
pub open spec fn queue_ok(q: Option<HostParamQueue>) -> bool {
    q matches Some(q) && forall|j: int| 0 <= j < q.points@.len() ==> #[trigger] q.points@[j] is Some
}

/// Every queue is there and every point of each was read.
pub open spec fn queues_ok(qs: Seq<Option<HostParamQueue>>) -> bool {
    forall|k: int| 0 <= k < qs.len() ==> #[trigger] queue_ok(qs[k])
}

/// The points of a queue whose reads all succeeded.
pub open spec fn queue_points(q: HostParamQueue) -> Seq<ParameterPoint> {
    q.points@.map_values(|p: Option<ParameterPoint>| p.unwrap())
}

/// Some queue is for parameter `id`.
pub open spec fn has_queue_for(qs: Seq<Option<HostParamQueue>>, id: ParameterId) -> bool {
    exists|k: int| 0 <= k < qs.len() && (#[trigger] qs[k]).unwrap().parameter_id == id
}

/// The points of all queues for `id`, queue after queue, each in its order.
pub open spec fn grouped_points(qs: Seq<Option<HostParamQueue>>, id: ParameterId) -> Seq<ParameterPoint>
    decreases qs.len(),
{
    if qs.len() == 0 {
        Seq::empty()
    } else {
        let q = qs.last().unwrap();
        grouped_points(qs.drop_last(), id) + if q.parameter_id == id {
            queue_points(q)
        } else {
            Seq::empty()
        }
    }
}

/// `m` holds, for each parameter that has a queue, all of its points.
pub open spec fn groups_queues(m: Map<ParameterId, Vec<ParameterPoint>>, qs: Seq<Option<HostParamQueue>>) -> bool {
    &&& forall|id: ParameterId| #[trigger] m.contains_key(id) <==> has_queue_for(qs, id)
    &&& forall|id: ParameterId| #[trigger] m.contains_key(id) ==> m[id]@ == grouped_points(qs, id)
}

/// Groups the block's automation points by parameter. One missing queue or
/// one failed point read rejects the whole block's automation.
pub fn collect_parameter_changes(queues: &Vec<Option<HostParamQueue>>) -> (r: Option<ParameterChanges>)
    ensures
        r is Some <==> queues_ok(queues@),
        r matches Some(m) ==> groups_queues(m@, queues@),
{
    let mut changes: ParameterChanges = ParameterChanges::new();
    let mut k: usize = 0;
    while k < queues.len()
        invariant
            k <= queues@.len(),
            queues_ok(queues@.subrange(0, k as int)),
            groups_queues(changes@, queues@.subrange(0, k as int)),
        decreases queues@.len() - k,
    {
        let q = match &queues[k] {
            Some(q) => q,
            None => {
                assert(!queue_ok(queues@[k as int]));
                return None;
            },
        };
        let id = q.parameter_id;
        let ghost s0 = queues@.subrange(0, k as int);
        let ghost s1 = queues@.subrange(0, k + 1);
        let ghost prior = changes@;
        let mut points: Vec<ParameterPoint> = match changes.remove(&id) {
            Some(v) => v,
            None => Vec::new(),
        };
        assert(points@ == grouped_points(s0, id)) by {
            if !prior.contains_key(id) {
                assert(!has_queue_for(s0, id));
                lemma_no_queue_no_points(s0, id);
            }
        }
        let ghost base = points@;
        let mut j: usize = 0;
        while j < q.points.len()
            invariant
                k < queues@.len(),
                queues@[k as int] == Some(*q),
                id == q.parameter_id,
                s0 == queues@.subrange(0, k as int),
                s1 == queues@.subrange(0, k + 1),
                queues_ok(s0),
                groups_queues(prior, s0),
                changes@ == prior.remove(id),
                base == grouped_points(s0, id),
                j <= q.points@.len(),
                points@ == base + q.points@.subrange(0, j as int).map_values(
                    |p: Option<ParameterPoint>| p.unwrap(),
                ),
                forall|i: int| 0 <= i < j ==> #[trigger] q.points@[i] is Some,
            decreases q.points@.len() - j,
        {
            match q.points[j] {
                Some(p) => {
                    points.push(p);
                    proof {
                        assert(q.points@.subrange(0, j + 1).map_values(
                            |p: Option<ParameterPoint>| p.unwrap(),
                        ) =~= q.points@.subrange(0, j as int).map_values(
                            |p: Option<ParameterPoint>| p.unwrap(),
                        ).push(p));
                    }
                },
                None => {
                    assert(!queue_ok(queues@[k as int]));
                    return None;
                },
            }
            j = j + 1;
        }
        assert(q.points@.subrange(0, j as int) =~= q.points@);
        changes.insert(id, points);
        proof {
            assert(s1 =~= s0.push(queues@[k as int]));
            assert(s1.drop_last() =~= s0);
            assert forall|i: int| 0 <= i < s1.len() implies #[trigger] queue_ok(s1[i]) by {
                if i < k {
                    assert(s1[i] == s0[i]);
                }
            }
            assert forall|x: ParameterId| #[trigger]
                changes@.contains_key(x) <==> has_queue_for(s1, x) by {
                if has_queue_for(s1, x) && x != id {
                    let i = choose|i: int| 0 <= i < s1.len() && (#[trigger] s1[i]).unwrap().parameter_id == x;
                    assert(s0[i] == s1[i]);
                    assert(has_queue_for(s0, x));
                }
                if x == id {
                    assert(s1[k as int].unwrap().parameter_id == id);
                }
                if prior.contains_key(x) {
                    let i = choose|i: int| 0 <= i < s0.len() && (#[trigger] s0[i]).unwrap().parameter_id == x;
                    assert(s1[i] == s0[i]);
                }
            }
            assert forall|x: ParameterId| #[trigger] changes@.contains_key(x) implies changes@[x]@
                == grouped_points(s1, x) by {
                if x != id {
                    assert(grouped_points(s1, x) =~= grouped_points(s0, x));
                }
            }
        }
        k = k + 1;
    }
    assert(queues@.subrange(0, k as int) =~= queues@);
    Some(changes)
}

/// Where no queue is for `id`, the grouping holds no point for it.
proof fn lemma_no_queue_no_points(qs: Seq<Option<HostParamQueue>>, id: ParameterId)
    requires
        !has_queue_for(qs, id),
    ensures
        grouped_points(qs, id) == Seq::<ParameterPoint>::empty(),
    decreases qs.len(),
{
    if qs.len() > 0 {
        let s = qs.drop_last();
        assert(!has_queue_for(s, id)) by {
            if has_queue_for(s, id) {
                let i = choose|i: int| 0 <= i < s.len() && (#[trigger] s[i]).unwrap().parameter_id == id;
                assert(qs[i] == s[i]);
            }
        }
        assert(qs.last() == qs[qs.len() - 1]);
        lemma_no_queue_no_points(s, id);
        assert(grouped_points(qs, id) =~= Seq::<ParameterPoint>::empty());
    }
}

/// One input bus as the host gives it: a buffer per channel and the
/// silence bitfield.
pub struct HostInBus<'t, T> {
    pub silence_flags: u64,
    pub buffers: Vec<&'t [T]>,
}

/// One output bus as the host gives it: a buffer per channel.
pub struct HostOutBus<'t, T> {
    pub buffers: Vec<&'t mut [T]>,
}

/// `b` views the buffers of `h`, with channel `i` silent iff bit `i` is set.
pub open spec fn in_bus_matches<'t, T>(b: InBus<'t, T>, h: HostInBus<'t, T>) -> bool {
    &&& b.channels@.len() == h.buffers@.len()
    &&& forall|i: int|
        0 <= i < b.channels@.len() ==> (#[trigger] b.channels@[i]).samples == h.buffers@[i]
            && b.channels@[i].is_silenced == bit_set(h.silence_flags, i)
}

/// `b` has one channel per buffer of `h`, which starts out holding what that
/// buffer holds, and no channel is marked silent.
pub open spec fn out_bus_matches<'t, T>(b: OutBus<'t, T>, h: Seq<&'t mut [T]>) -> bool {
    &&& b.channel_views().len() == h.len()
    &&& forall|i: int|
        0 <= i < h.len() ==> (#[trigger] b.channel_views()[i]).samples@ == h[i]@
            && !b.channel_views()[i].is_silenced
}

/// The input bus over the host's buffers, with the silence bits decoded.
pub fn make_in_bus<'t, T>(bus: &HostInBus<'t, T>) -> (r: InBus<'t, T>)
    ensures
        in_bus_matches(r, *bus),
{
    let mut channels: Vec<InChannel<'t, T>> = Vec::new();
    let mut i: usize = 0;
    while i < bus.buffers.len()
        invariant
            i <= bus.buffers@.len(),
            channels@.len() == i,
            forall|j: int|
                0 <= j < i ==> (#[trigger] channels@[j]).samples == bus.buffers@[j]
                    && channels@[j].is_silenced == bit_set(bus.silence_flags, j),
        decreases bus.buffers@.len() - i,
    {
        let is_silenced = channel_is_silenced(bus.silence_flags, i);
        channels.push(InChannel { is_silenced, samples: bus.buffers[i] });
        i = i + 1;
    }
    InBus { channels }
}

/// The output bus over the host's buffers, with every channel's silence
/// flag cleared.
pub fn make_out_bus<'t, T>(bus: HostOutBus<'t, T>) -> (r: OutBus<'t, T>)
    ensures
        out_bus_matches(r, bus.buffers@),
{
    let ghost all = bus.buffers@;
    let mut buffers = bus.buffers;
    let mut channels: Vec<OutChannel<'t, T>> = Vec::new();
    while buffers.len() > 0
        invariant
            buffers@.len() + channels@.len() == all.len(),
            buffers@ == all.subrange(0, buffers@.len() as int),
            forall|j: int|
                0 <= j < channels@.len() ==> (#[trigger] channels@[j]).samples@ == all[buffers@.len()
                    + j]@ && !channels@[j].is_silenced,
        decreases buffers@.len(),
    {
        let ghost prev = channels@;
        let ghost remaining = buffers@;
        let b = buffers.pop().unwrap();
        let ghost taken = b;
        assert(taken == all[buffers@.len() as int]);
        channels.insert(0, OutChannel { is_silenced: false, samples: b });
        proof {
            assert(channels@[0].samples@ == taken@);
            assert forall|j: int| 0 <= j < channels@.len() implies (#[trigger] channels@[j]).samples@
                == all[buffers@.len() + j]@ && !channels@[j].is_silenced by {
                if j > 0 {
                    assert(channels@[j] == prev[j - 1]);
                }
            }
        }
    }
    OutBus::new(channels)
}

/// A block as the host delivers it, read into plain values. The sample
/// buffers are already views of the width that the header names.
pub struct HostBlock<'t, T> {
    pub process_mode: i32,
    pub symbolic_sample_size: i32,
    pub num_samples: i32,
    pub inputs: Vec<HostInBus<'t, T>>,
    pub outputs: Vec<HostOutBus<'t, T>>,
    /// The automation queues, where the host gave a list of them.
    pub param_queues: Option<Vec<Option<HostParamQueue>>>,
    /// The results of reading each event, where the host gave an event list.
    pub events: Option<Vec<Option<HostEvent<'t>>>>,
    pub context: &'t ProcessContext,
}

/// The header names a known mode and width, and the block has a bus.
pub open spec fn header_ok(process_mode: i32, symbolic_sample_size: i32, num_inputs: int, num_outputs: int) -> bool {
    &&& !(num_inputs == 0 && num_outputs == 0)
    &&& mode_of(process_mode) is Some
    &&& size_of(symbolic_sample_size) is Some
}

/// The length of channel `i`'s buffer in an input bus.
pub open spec fn in_len<'t, T>(bus: HostInBus<'t, T>, i: int) -> int {
    bus.buffers@[i]@.len() as int
}

/// The length of channel `i`'s buffer in an output bus.
pub open spec fn out_len<'t, T>(bus: HostOutBus<'t, T>, i: int) -> int {
    bus.buffers@[i]@.len() as int
}

/// Every input buffer holds exactly `n` samples.
pub open spec fn inputs_sized<'t, T>(buses: Seq<HostInBus<'t, T>>, n: i32) -> bool {
    forall|k: int, i: int|
        0 <= k < buses.len() && 0 <= i < buses[k].buffers@.len() ==> #[trigger] in_len(buses[k], i)
            == n as int
}

/// Every output buffer holds exactly `n` samples.
pub open spec fn outputs_sized<'t, T>(buses: Seq<HostOutBus<'t, T>>, n: i32) -> bool {
    forall|k: int, i: int|
        0 <= k < buses.len() && 0 <= i < buses[k].buffers@.len() ==> #[trigger] out_len(buses[k], i)
            == n as int
}

/// Checks that every input buffer holds exactly `n` samples.
pub fn check_inputs_sized<'t, T>(buses: &Vec<HostInBus<'t, T>>, n: i32) -> (r: bool)
    ensures
        r == inputs_sized(buses@, n),
{
    let mut k: usize = 0;
    while k < buses.len()
        invariant
            k <= buses@.len(),
            forall|kk: int, i: int|
                0 <= kk < k && 0 <= i < buses@[kk].buffers@.len() ==> #[trigger] in_len(buses@[kk], i)
                    == n as int,
        decreases buses@.len() - k,
    {
        let bufs = &buses[k].buffers;
        let mut i: usize = 0;
        while i < bufs.len()
            invariant
                k < buses@.len(),
                *bufs == buses@[k as int].buffers,
                i <= bufs@.len(),
                forall|kk: int, ii: int|
                    0 <= kk < k && 0 <= ii < buses@[kk].buffers@.len() ==> #[trigger] in_len(
                    buses@[kk],
                    ii,
                ) == n as int,
                forall|ii: int| 0 <= ii < i ==> #[trigger] in_len(buses@[k as int], ii) == n as int,
            decreases bufs@.len() - i,
        {
            if n < 0 || bufs[i].len() != n as usize {
                assert(in_len(buses@[k as int], i as int) != n as int);
                return false;
            }
            i = i + 1;
        }
        k = k + 1;
    }
    true
}

/// Checks that every output buffer holds exactly `n` samples.
pub fn check_outputs_sized<'t, T>(buses: &Vec<HostOutBus<'t, T>>, n: i32) -> (r: bool)
    ensures
        r == outputs_sized(buses@, n),
{
    let mut k: usize = 0;
    while k < buses.len()
        invariant
            k <= buses@.len(),
            forall|kk: int, i: int|
                0 <= kk < k && 0 <= i < buses@[kk].buffers@.len() ==> #[trigger] out_len(buses@[kk], i)
                    == n as int,
        decreases buses@.len() - k,
    {
        let bufs = &buses[k].buffers;
        let mut i: usize = 0;
        while i < bufs.len()
            invariant
                k < buses@.len(),
                *bufs == buses@[k as int].buffers,
                i <= bufs@.len(),
                forall|kk: int, ii: int|
                    0 <= kk < k && 0 <= ii < buses@[kk].buffers@.len() ==> #[trigger] out_len(
                    buses@[kk],
                    ii,
                ) == n as int,
                forall|ii: int| 0 <= ii < i ==> #[trigger] out_len(buses@[k as int], ii) == n as int,
            decreases bufs@.len() - i,
        {
            if n < 0 || bufs[i].len() != n as usize {
                assert(out_len(buses@[k as int], i as int) != n as int);
                return false;
            }
            i = i + 1;
        }
        k = k + 1;
    }
    true
}

/// A block from which fully typed views can be built.
pub open spec fn block_ok<'t, T>(b: HostBlock<'t, T>) -> bool {
    &&& header_ok(b.process_mode, b.symbolic_sample_size, b.inputs@.len() as int, b.outputs@.len() as int)
    &&& inputs_sized(b.inputs@, b.num_samples)
    &&& outputs_sized(b.outputs@, b.num_samples)
    &&& b.param_queues matches Some(q) ==> queues_ok(q@)
    &&& b.events matches Some(e) ==> events_ok(e@)
}

/// A block whose sample-width tag names no known width is rejected: neither
/// the header check nor `create_data` yields anything to process.
pub proof fn lemma_unknown_width_rejected<'t, T>(b: HostBlock<'t, T>, num_inputs: i32, num_outputs: i32)
    requires
        size_of(b.symbolic_sample_size) is None,
    ensures
        !block_ok(b),
        !header_ok(b.process_mode, b.symbolic_sample_size, num_inputs as int, num_outputs as int),
{
}

/// Checks a block's header before anything is built from it: the decoded
/// mode and width, or `None` where the block is to be rejected.
pub fn check_block_header(
    process_mode: i32,
    symbolic_sample_size: i32,
    num_inputs: i32,
    num_outputs: i32,
) -> (r: Option<(ProcessModes, SymbolicSampleSizes)>)
    ensures
        r is Some <==> header_ok(process_mode, symbolic_sample_size, num_inputs as int, num_outputs as int),
        r matches Some((m, s)) ==> m == mode_of(process_mode).unwrap() && s == size_of(
            symbolic_sample_size,
        ).unwrap(),
{
    if num_inputs == 0 && num_outputs == 0 {
        return None;
    }
    let mode = match decode_process_mode(process_mode) {
        Some(m) => m,
        None => return None,
    };
    let size = match decode_sample_size(symbolic_sample_size) {
        Some(s) => s,
        None => return None,
    };
    Some((mode, size))
}

/// The typed input and output views of a block, or `None` where the block
/// is rejected: unknown mode or width, no bus at all, a missing queue or
/// failed point read, or a failed event read or unknown event kind. There is
/// no partial view: a rejected block yields nothing to process. So does a
/// block whose buffers do not each hold `num_samples` samples.
pub fn create_data<'t, T>(block: HostBlock<'t, T>) -> (r: Option<
    (ProcessInput<'t, T>, ProcessOutput<'t, T>),
>)
    ensures
        r is Some <==> block_ok(block),
        r is None ==> forall|k: int, i: int|
            0 <= k < block.outputs@.len() && 0 <= i < block.outputs@[k].buffers@.len()
                ==> #[trigger] final(block.outputs@[k].buffers@[i])@ == block.outputs@[k].buffers@[i]@,
        r matches Some((i, o)) ==> {
            &&& i.process_mode == mode_of(block.process_mode).unwrap()
            &&& i.sample_size == size_of(block.symbolic_sample_size).unwrap()
            &&& i.sample_count == block.num_samples as u32
            &&& i.buses@.len() == block.inputs@.len()
            &&& forall|k: int|
                0 <= k < i.buses@.len() ==> #[trigger] in_bus_matches(i.buses@[k], block.inputs@[k])
            &&& match block.param_queues {
                Some(q) => groups_queues(i.param_changes@, q@),
                None => i.param_changes@ == Map::<ParameterId, Vec<ParameterPoint>>::empty(),
            }
            &&& match block.events {
                Some(e) => i.events@ == decoded_events(e@),
                None => i.events@.len() == 0,
            }
            &&& i.context == block.context
            &&& o.bus_views().len() == block.outputs@.len()
            &&& forall|k: int|
                0 <= k < o.bus_views().len() ==> #[trigger] out_bus_matches(
                    o.bus_views()[k],
                    block.outputs@[k].buffers@,
                )
            &&& o.changes_view() == Map::<ParameterId, Vec<ParameterPoint>>::empty()
            &&& o.events_view().len() == 0
        },
{
    let ghost b = block;
    let HostBlock {
        process_mode,
        symbolic_sample_size,
        num_samples,
        inputs,
        mut outputs,
        param_queues,
        events,
        context,
    } = block;
    if inputs.len() == 0 && outputs.len() == 0 {
        return None;
    }
    let mode = match decode_process_mode(process_mode) {
        Some(m) => m,
        None => return None,
    };
    let size = match decode_sample_size(symbolic_sample_size) {
        Some(s) => s,
        None => return None,
    };
    if !check_inputs_sized(&inputs, num_samples) || !check_outputs_sized(&outputs, num_samples) {
        return None;
    }
    let param_changes = match &param_queues {
        Some(q) => match collect_parameter_changes(q) {
            Some(m) => m,
            None => return None,
        },
        None => ParameterChanges::new(),
    };
    let decoded = match &events {
        Some(e) => match collect_events(e) {
            Some(v) => v,
            None => return None,
        },
        None => Vec::new(),
    };
    let mut in_buses: Vec<InBus<'t, T>> = Vec::new();
    let mut k: usize = 0;
    while k < inputs.len()
        invariant
            k <= inputs@.len(),
            in_buses@.len() == k,
            forall|j: int| 0 <= j < k ==> #[trigger] in_bus_matches(in_buses@[j], inputs@[j]),
        decreases inputs@.len() - k,
    {
        in_buses.push(make_in_bus(&inputs[k]));
        k = k + 1;
    }
    let ghost all = outputs@;
    let mut out_buses: Vec<OutBus<'t, T>> = Vec::new();
    while outputs.len() > 0
        invariant
            outputs@.len() + out_buses@.len() == all.len(),
            outputs@ == all.subrange(0, outputs@.len() as int),
            forall|j: int|
                0 <= j < out_buses@.len() ==> #[trigger] out_bus_matches(
                    out_buses@[j],
                    all[outputs@.len() + j].buffers@,
                ),
        decreases outputs@.len(),
    {
        let ghost prev = out_buses@;
        let bus = outputs.pop().unwrap();
        let ghost popped = bus.buffers@;
        assert(popped == all[outputs@.len() as int].buffers@);
        let made = make_out_bus(bus);
        assert(out_bus_matches(made, popped));
        out_buses.insert(0, made);
        proof {
            assert(out_buses@[0] == made);
            assert forall|j: int| 0 <= j < out_buses@.len() implies #[trigger] out_bus_matches(
                out_buses@[j],
                all[outputs@.len() + j].buffers@,
            ) by {
                if j > 0 {
                    assert(out_buses@[j] == prev[j - 1]);
                    let i = j - 1;
                    assert(out_bus_matches(prev[i], all[outputs@.len() + 1 + i].buffers@));
                    assert(outputs@.len() + 1 + i == outputs@.len() + j);
                } else {
                    assert(outputs@.len() + j == outputs@.len() as int);
                }
            }
        }
    }
    assert forall|k: int| 0 <= k < out_buses@.len() implies #[trigger] out_bus_matches(
        out_buses@[k],
        b.outputs@[k].buffers@,
    ) by {
        assert(out_bus_matches(out_buses@[k], all[outputs@.len() + k].buffers@));
        assert(outputs@.len() + k == k);
    }
    let input = ProcessInput {
        process_mode: mode,
        sample_size: size,
        sample_count: #[verifier::truncate] (num_samples as u32),
        buses: in_buses,
        param_changes,
        events: decoded,
        context,
    };
    let output = ProcessOutput::new(out_buses);
    Some((input, output))
}

} // verus!
