use vst3::audio_processor::{
    EventData, EventKind, NoteOffEvent, NoteOnEvent, ProcessContext, ProcessModes, SymbolicSampleSizes,
};
use vst3::marshal::{
    can_process_sample_size, channel_is_silenced, check_block_header, collect_events,
    collect_parameter_changes, create_data, decode_event_kind, decode_process_mode, decode_sample_size,
    get_channel_count, make_in_bus, to_plugin_event, HostBlock, HostEvent, HostInBus, HostOutBus,
    HostParamQueue,
};
use vst3::plugin_parameter::{NormalizedParameterValue, ParameterPoint};

fn point(offset: i32, v: f64) -> ParameterPoint {
    ParameterPoint { sample_offset: offset, value: NormalizedParameterValue::new(v.to_bits()) }
}

fn note_on() -> EventData<'static> {
    EventData::NoteOn(NoteOnEvent {
        channel: 0,
        pitch: 60,
        tuning: 0,
        velocity: 1.0f32.to_bits(),
        length: 0,
        note_id: 1,
    })
}

fn host_event(type_: u16, payload: Option<EventData<'static>>) -> HostEvent<'static> {
    HostEvent { bus_index: 0, sample_offset: 3, ppq_position: 0, flags: 0, type_, payload }
}

#[test]
fn header_tags_decode() {
    assert_eq!(decode_process_mode(0), Some(ProcessModes::Offline));
    assert_eq!(decode_process_mode(1), Some(ProcessModes::Prefetch));
    assert_eq!(decode_process_mode(2), Some(ProcessModes::Realtime));
    assert_eq!(decode_process_mode(3), None);
    assert_eq!(decode_sample_size(0), Some(SymbolicSampleSizes::Sample32));
    assert_eq!(decode_sample_size(1), Some(SymbolicSampleSizes::Sample64));
    assert_eq!(decode_sample_size(2), None);
    assert!(can_process_sample_size(1));
    assert!(!can_process_sample_size(-1));
}

#[test]
fn header_check_rejects() {
    assert_eq!(check_block_header(2, 0, 1, 1), Some((ProcessModes::Realtime, SymbolicSampleSizes::Sample32)));
    assert_eq!(check_block_header(2, 7, 1, 1), None);
    assert_eq!(check_block_header(9, 0, 1, 1), None);
    assert_eq!(check_block_header(0, 0, 0, 0), None);
    assert!(check_block_header(0, 1, 0, 1).is_some());
}

#[test]
fn event_kind_tags() {
    assert_eq!(decode_event_kind(0), Some(EventKind::NoteOn));
    assert_eq!(decode_event_kind(7), Some(EventKind::Scale));
    assert_eq!(decode_event_kind(65535), Some(EventKind::LegacyMidiCcOut));
    assert_eq!(decode_event_kind(8), None);
}

#[test]
fn event_decoding() {
    let e = to_plugin_event(&host_event(0, Some(note_on()))).unwrap();
    assert_eq!(e.sample_offset, 3);
    assert_eq!(e.event.kind(), EventKind::NoteOn);
    assert!(to_plugin_event(&host_event(42, None)).is_none());
    let off = EventData::NoteOff(NoteOffEvent { channel: 0, pitch: 60, velocity: 0, note_id: 1, tuning: 0 });
    assert!(to_plugin_event(&host_event(0, Some(off))).is_none());
}

#[test]
fn event_list_fails_closed() {
    let good = vec![Some(host_event(0, Some(note_on()))), Some(host_event(0, Some(note_on())))];
    assert_eq!(collect_events(&good).unwrap().len(), 2);
    let unknown = vec![Some(host_event(0, Some(note_on()))), Some(host_event(99, None))];
    assert!(collect_events(&unknown).is_none());
    let failed = vec![None, Some(host_event(0, Some(note_on())))];
    assert!(collect_events(&failed).is_none());
    assert_eq!(collect_events(&vec![]).unwrap().len(), 0);
}

#[test]
fn automation_grouped_by_parameter() {
    let queues = vec![
        Some(HostParamQueue { parameter_id: 1, points: vec![Some(point(0, 0.1)), Some(point(4, 0.2))] }),
        Some(HostParamQueue { parameter_id: 2, points: vec![Some(point(1, 0.5))] }),
        Some(HostParamQueue { parameter_id: 1, points: vec![Some(point(2, 0.3))] }),
    ];
    let m = collect_parameter_changes(&queues).unwrap();
    assert_eq!(m.len(), 2);
    assert_eq!(m[&1], vec![point(0, 0.1), point(4, 0.2), point(2, 0.3)]);
    assert_eq!(m[&2], vec![point(1, 0.5)]);
}

#[test]
fn automation_failed_read_rejects() {
    let queues = vec![
        Some(HostParamQueue { parameter_id: 1, points: vec![Some(point(0, 0.1))] }),
        Some(HostParamQueue { parameter_id: 2, points: vec![Some(point(1, 0.5)), None] }),
    ];
    assert!(collect_parameter_changes(&queues).is_none());
    let missing = vec![None];
    assert!(collect_parameter_changes(&missing).is_none());
}

#[test]
fn silence_bits_and_channel_count() {
    assert!(channel_is_silenced(0b10, 1));
    assert!(!channel_is_silenced(0b10, 0));
    assert!(channel_is_silenced(0b110, 2));
    assert!(!channel_is_silenced(u64::MAX, 64));
    assert_eq!(get_channel_count(3), 2);
    assert_eq!(get_channel_count(0), 0);
    assert_eq!(get_channel_count(0b1011), 3);
    assert_eq!(get_channel_count(u64::MAX), 64);
}

#[test]
fn input_bus_views_host_buffers() {
    let a = [1.0f32, 2.0];
    let b = [3.0f32, 4.0];
    let c = [5.0f32, 6.0];
    let bus = HostInBus { silence_flags: 0b100, buffers: vec![&a[..], &b[..], &c[..]] };
    let made = make_in_bus(&bus);
    assert_eq!(made.channels.len(), 3);
    assert_eq!(made.channels[1].samples, &[3.0f32, 4.0][..]);
    assert!(!made.channels[0].is_silenced);
    assert!(!made.channels[1].is_silenced);
    assert!(made.channels[2].is_silenced);
}

#[test]
fn block_builds_views_and_output_is_writable() {
    let ctx = ProcessContext::default();
    let input = [0.5f32; 4];
    let mut left = [0.0f32; 4];
    let mut right = [0.0f32; 4];
    {
        let block = HostBlock {
            process_mode: 2,
            symbolic_sample_size: 0,
            num_samples: 4,
            inputs: vec![HostInBus { silence_flags: 1, buffers: vec![&input[..]] }],
            outputs: vec![HostOutBus { buffers: vec![&mut left[..], &mut right[..]] }],
            param_queues: Some(vec![Some(HostParamQueue {
                parameter_id: 5,
                points: vec![Some(point(0, 0.2)), Some(point(3, 0.7))],
            })]),
            events: Some(vec![Some(host_event(0, Some(note_on())))]),
            context: &ctx,
        };
        let (i, mut o) = create_data(block).unwrap();
        assert_eq!(i.process_mode, ProcessModes::Realtime);
        assert_eq!(i.sample_size, SymbolicSampleSizes::Sample32);
        assert_eq!(i.sample_count, 4);
        assert!(i.buses[0].channels[0].is_silenced);
        assert_eq!(i.events.len(), 1);
        assert_eq!(f64::from_bits(*i.get_last_param_value(5).unwrap().get()), 0.7);
        assert!(i.get_last_param_value(6).is_none());
        assert!(o.param_changes.is_empty());
        assert!(o.events.is_empty());
        for bus in o.buses().iter_mut() {
            for (k, ch) in bus.channels().iter_mut().enumerate() {
                assert!(!ch.is_silenced);
                for s in ch.samples.iter_mut() {
                    *s = k as f32 + 1.0;
                }
            }
        }
    }
    assert_eq!(left, [1.0f32; 4]);
    assert_eq!(right, [2.0f32; 4]);
}

fn process_counting(block: HostBlock<'_, f64>, calls: &mut u32) -> bool {
    match create_data(block) {
        Some((_i, _o)) => {
            *calls += 1;
            true
        }
        None => false,
    }
}

#[test]
fn block_with_unknown_width_is_rejected() {
    let ctx = ProcessContext::default();
    let mut out = [0.0f64; 2];
    let mut calls = 0u32;
    let block = HostBlock {
        process_mode: 0,
        symbolic_sample_size: 5,
        num_samples: 2,
        inputs: vec![],
        outputs: vec![HostOutBus { buffers: vec![&mut out[..]] }],
        param_queues: None,
        events: None,
        context: &ctx,
    };
    assert!(!process_counting(block, &mut calls));
    assert_eq!(calls, 0);
    let good = HostBlock {
        process_mode: 0,
        symbolic_sample_size: 1,
        num_samples: 2,
        inputs: vec![],
        outputs: vec![HostOutBus { buffers: vec![&mut out[..]] }],
        param_queues: None,
        events: None,
        context: &ctx,
    };
    assert!(process_counting(good, &mut calls));
    assert_eq!(calls, 1);
}

#[test]
fn block_without_buses_or_with_bad_data_is_rejected() {
    let ctx = ProcessContext::default();
    let none: HostBlock<'_, f32> = HostBlock {
        process_mode: 0,
        symbolic_sample_size: 0,
        num_samples: 0,
        inputs: vec![],
        outputs: vec![],
        param_queues: None,
        events: None,
        context: &ctx,
    };
    assert!(create_data(none).is_none());
    let input = [0.0f32; 2];
    let bad_event: HostBlock<'_, f32> = HostBlock {
        process_mode: 1,
        symbolic_sample_size: 0,
        num_samples: 2,
        inputs: vec![HostInBus { silence_flags: 0, buffers: vec![&input[..]] }],
        outputs: vec![],
        param_queues: None,
        events: Some(vec![Some(host_event(12, None))]),
        context: &ctx,
    };
    assert!(create_data(bad_event).is_none());
    let bad_point: HostBlock<'_, f32> = HostBlock {
        process_mode: 1,
        symbolic_sample_size: 0,
        num_samples: 2,
        inputs: vec![HostInBus { silence_flags: 0, buffers: vec![&input[..]] }],
        outputs: vec![],
        param_queues: Some(vec![Some(HostParamQueue { parameter_id: 1, points: vec![None] })]),
        events: None,
        context: &ctx,
    };
    assert!(create_data(bad_point).is_none());
}

#[test]
fn block_with_short_buffer_is_rejected_and_outputs_untouched() {
    let ctx = ProcessContext::default();
    let mut out = [7.0f32; 3];
    let input = [0.0f32; 4];
    {
        let block = HostBlock {
            process_mode: 0,
            symbolic_sample_size: 0,
            num_samples: 4,
            inputs: vec![HostInBus { silence_flags: 0, buffers: vec![&input[..]] }],
            outputs: vec![HostOutBus { buffers: vec![&mut out[..]] }],
            param_queues: None,
            events: None,
            context: &ctx,
        };
        assert!(create_data(block).is_none());
    }
    assert_eq!(out, [7.0f32; 3]);
    let mut out2 = [7.0f32; 4];
    {
        let block = HostBlock {
            process_mode: 5,
            symbolic_sample_size: 0,
            num_samples: 4,
            inputs: vec![],
            outputs: vec![HostOutBus { buffers: vec![&mut out2[..]] }],
            param_queues: None,
            events: None,
            context: &ctx,
        };
        assert!(create_data(block).is_none());
    }
    assert_eq!(out2, [7.0f32; 4]);
}
