use vst3::converter::{Converter, InverseIsoConverter, IsoConverter};
use vst3::edit_controller::{
    decode_bus_direction, decode_knob_mode, decode_media_type, get_program_list_by_id, BusDirection, KnobMode,
    MediaType, ProgramListId, ProgramListInfo,
};
use vst3::range::Range;
use vst3::type_cell::TypeCell;
use vst3::utils::{string_copy_into_i16, string_copy_into_u16};
use vst3::vst_categories::{to_vst_category_string, AudioProcessorCategory, Fx, Instrument};
use vst3::vst_factory::{class_flags, controller_name, AudioProcessorInfo, AudioProcessorType};
use vst3::vst_stream::SeekMode;

#[test]
fn range_contains_clamp_extend() {
    let r = Range::new(0.0f64, 100.0);
    assert!(r.contains(&0.0));
    assert!(r.contains(&100.0));
    assert!(!r.contains(&100.5));
    assert_eq!(r.clamp(&-3.0), 0.0);
    assert_eq!(r.clamp(&150.0), 100.0);
    assert_eq!(r.clamp(&42.0), 42.0);
    let e = r.extend_with(&-10.0);
    assert_eq!((*e.min(), *e.max()), (-10.0, 100.0));
    let e = r.extend_with(&120.0);
    assert_eq!((*e.min(), *e.max()), (0.0, 120.0));
    assert_eq!(r.extend_with(&5.0), r);
    assert_eq!((*r.min(), *r.max()), (0.0, 100.0));
}

#[test]
fn range_converts_bounds() {
    let r = Range::new(3u8, 9u8);
    let w: Range<u32> = r.to();
    assert_eq!((*w.min(), *w.max()), (3u32, 9u32));
}

#[test]
fn type_cell_get_set() {
    struct Tag;
    let mut c: TypeCell<Tag, i32> = TypeCell::new(4);
    assert_eq!(*c.get(), 4);
    c.set(-2);
    assert_eq!(*c.get(), -2);
}

struct Double;

impl Converter<i64, i64> for Double {
    fn spec_convert(&self, value: i64) -> i64 {
        self.convert(value)
    }

    fn convert(&self, value: i64) -> i64 {
        value * 2
    }
}

impl IsoConverter<i64, i64> for Double {
    fn spec_convert_inverse(&self, value: i64) -> i64 {
        self.convert_inverse(value)
    }

    fn convert_inverse(&self, value: i64) -> i64 {
        value / 2
    }
}

#[test]
fn inverse_converter_swaps_directions() {
    let inv = InverseIsoConverter::new(Double);
    assert_eq!(inv.convert(10), 5);
    assert_eq!(inv.convert_inverse(10), 20);
    assert_eq!(inv.invert().convert(3), 6);
}

#[test]
fn category_strings() {
    assert_eq!(to_vst_category_string(&AudioProcessorCategory::Fx(Fx::Delay)), "Fx|Delay");
    assert_eq!(to_vst_category_string(&AudioProcessorCategory::Fx(Fx::EQ)), "Fx|EQ");
    assert_eq!(to_vst_category_string(&AudioProcessorCategory::Fx(Fx::Other)), "Fx");
    assert_eq!(to_vst_category_string(&AudioProcessorCategory::Instrument(Instrument::Synth)), "Instrument|Synth");
    assert_eq!(
        to_vst_category_string(&AudioProcessorCategory::Instrument(Instrument::SynthSampler)),
        "Instrument|Synth|Sampler"
    );
    assert_eq!(to_vst_category_string(&AudioProcessorCategory::Instrument(Instrument::Other)), "Instrument");
    assert_eq!(to_vst_category_string(&AudioProcessorCategory::SpatialFx), "Spatial|Fx");
    assert_eq!(to_vst_category_string(&AudioProcessorCategory::OnlyRealTime), "OnlyRT");
    assert_eq!(to_vst_category_string(&AudioProcessorCategory::UpDownMix), "Up-Downmix");
    assert_eq!(to_vst_category_string(&AudioProcessorCategory::Mono), "|Mono");
}

#[test]
fn utf16_copy_fits_and_terminates() {
    let mut dst = [9u16; 6];
    string_copy_into_u16("abc", &mut dst);
    assert_eq!(dst, [97, 98, 99, 0, 9, 9]);
    let mut small = [9u16; 3];
    string_copy_into_u16("abcdef", &mut small);
    assert_eq!(small, [97, 98, 0]);
    let mut emoji = [9u16; 4];
    string_copy_into_u16("\u{1F600}", &mut emoji);
    assert_eq!(emoji, [0xD83D, 0xDE00, 0, 9]);
    let mut one = [9u16; 1];
    string_copy_into_u16("x", &mut one);
    assert_eq!(one, [0]);
}

#[test]
fn utf16_copy_signed() {
    let mut dst = [7i16; 4];
    string_copy_into_i16("\u{e9}z", &mut dst);
    assert_eq!(dst, [0xe9, 122, 0, 7]);
    let mut hi = [7i16; 3];
    string_copy_into_i16("\u{FFFF}", &mut hi);
    assert_eq!(hi, [-1, 0, 7]);
}

#[test]
fn editor_tags_decode() {
    assert_eq!(decode_knob_mode(0), Some(KnobMode::Circular));
    assert_eq!(decode_knob_mode(2), Some(KnobMode::Linear));
    assert_eq!(decode_knob_mode(3), None);
    assert_eq!(decode_media_type(1), Some(MediaType::Event));
    assert_eq!(decode_media_type(2), None);
    assert_eq!(decode_bus_direction(0), Some(BusDirection::Input));
    assert_eq!(decode_bus_direction(-1), None);
}

#[test]
fn program_list_lookup() {
    let lists = vec![
        ProgramListInfo { id: ProgramListId::new(3), name: "A".to_string(), program_count: 2 },
        ProgramListInfo { id: ProgramListId::new(8), name: "B".to_string(), program_count: 5 },
    ];
    assert_eq!(get_program_list_by_id(&lists, ProgramListId::new(8)).unwrap().name, "B");
    assert!(get_program_list_by_id(&lists, ProgramListId::new(4)).is_none());
    assert!(get_program_list_by_id(&[], ProgramListId::new(3)).is_none());
}

#[test]
fn factory_flags_and_names() {
    let mut info = AudioProcessorInfo {
        name: "Sine Synth".to_string(),
        version: "v0.1.0".to_string(),
        typ: AudioProcessorType::Synth,
        is_distributable: true,
        simple_mode_supported: false,
    };
    assert_eq!(class_flags(&info), 1);
    info.simple_mode_supported = true;
    assert_eq!(class_flags(&info), 3);
    info.is_distributable = false;
    assert_eq!(class_flags(&info), 2);
    assert_eq!(controller_name(&info), "Sine Synth Controller");
    assert_eq!(info.typ.subcategories(), "Instrument|Synth");
}

#[test]
fn seek_codes() {
    assert_eq!(SeekMode::Start.code(), 0);
    assert_eq!(SeekMode::RelativeCurrent.code(), 1);
    assert_eq!(SeekMode::End.code(), 2);
}

#[test]
fn fixed_width_arrays() {
    let a: [i8; 6] = vst3::utils::string_to_fixed_width("abc");
    assert_eq!(a, [97, 98, 99, 0, 0, 0]);
    let e: [i8; 2] = vst3::utils::string_to_fixed_width("\u{e9}");
    assert_eq!(e, [-23, 0]);
    let w: [i16; 4] = vst3::utils::string_to_fixed_width_i16("abcdef");
    assert_eq!(w, [97, 98, 99, 0]);
    let wide = vst3::utils::char8_to_16(&[65i8, -1, 0]);
    assert_eq!(wide, [65i16, -1, 0]);
}
