use std::collections::HashMap;

use vst3::converter::{Converter, IsoConverter};
use vst3::plugin::{read_parameter_values, write_parameter_values, Parameters, StateError};
use vst3::plugin_parameter::{
    NormalizedParameterValue, ParameterFlags, ParameterInfo, ParameterPoint, ParameterValueContainer,
    ParameterWithValue, PlainParameterValue,
};

struct Linear {
    min: f64,
    max: f64,
}

impl Converter<NormalizedParameterValue, PlainParameterValue> for Linear {
    fn spec_convert(&self, value: NormalizedParameterValue) -> PlainParameterValue {
        self.convert(value)
    }

    fn convert(&self, value: NormalizedParameterValue) -> PlainParameterValue {
        let n = f64::from_bits(*value.get());
        PlainParameterValue::new(((1.0 - n) * self.min + n * self.max).to_bits())
    }
}

impl IsoConverter<NormalizedParameterValue, PlainParameterValue> for Linear {
    fn spec_convert_inverse(&self, value: PlainParameterValue) -> NormalizedParameterValue {
        self.convert_inverse(value)
    }

    fn convert_inverse(&self, value: PlainParameterValue) -> NormalizedParameterValue {
        let p = f64::from_bits(*value.get());
        NormalizedParameterValue::new(((p - self.min) / (self.max - self.min)).to_bits())
    }
}

fn norm(v: f64) -> NormalizedParameterValue {
    NormalizedParameterValue::new(v.to_bits())
}

fn info(id: u32, default_normalized: f64, min: f64, max: f64) -> &'static ParameterInfo {
    Box::leak(Box::new(ParameterInfo {
        id,
        title: format!("P{}", id),
        short_title: format!("P{}", id),
        units: "%".to_string(),
        step_count: 0,
        default_normalized_value: norm(default_normalized),
        unit_id: 0,
        flags: ParameterFlags { can_automate: true, ..Default::default() },
        normalized_to_plain_converter: Box::new(Linear { min, max }),
    }))
}

fn catalog(list: Vec<&'static ParameterInfo>) -> ParameterValueContainer {
    let params: &'static [&'static ParameterInfo] = Box::leak(list.into_boxed_slice());
    ParameterValueContainer::new(params)
}

fn normalized_of(c: &ParameterValueContainer, id: u32) -> f64 {
    f64::from_bits(*c.get_normalized_by_id(id).unwrap().get())
}

#[test]
fn defaults_after_construction() {
    let c = catalog(vec![info(1, 0.5, 0.0, 100.0), info(2, 0.25, 20.0, 2000.0)]);
    for p in c.get_parameters() {
        let v = c.get_value(p.id).unwrap();
        assert_eq!(v.get_normalized().get(), p.default_normalized_value.get());
        let expected = p.normalized_to_plain_converter.convert(p.default_normalized_value);
        assert_eq!(v.get().get(), expected.get());
    }
    assert_eq!(f64::from_bits(*c.get_value(1).unwrap().get().get()), 50.0);
    assert_eq!(f64::from_bits(*c.get_value(2).unwrap().get().get()), 515.0);
}

#[test]
fn update_takes_last_point_in_queue_order() {
    let p = info(7, 0.5, 0.0, 10.0);
    let mut v = ParameterWithValue::new_default(p);
    let mut changes: HashMap<u32, Vec<ParameterPoint>> = HashMap::new();
    changes.insert(
        7,
        vec![
            ParameterPoint { sample_offset: 2, value: norm(0.1) },
            ParameterPoint { sample_offset: 10, value: norm(0.9) },
            ParameterPoint { sample_offset: 5, value: norm(0.4) },
        ],
    );
    let plain = v.update(&changes);
    assert_eq!(f64::from_bits(*v.get_normalized().get()), 0.4);
    assert_eq!(f64::from_bits(*plain.get()), 4.0);
    assert_eq!(plain.get(), v.get().get());
}

#[test]
fn update_without_points_keeps_value() {
    let p = info(7, 0.5, 0.0, 10.0);
    let mut v = ParameterWithValue::new_default(p);
    let mut changes: HashMap<u32, Vec<ParameterPoint>> = HashMap::new();
    changes.insert(8, vec![ParameterPoint { sample_offset: 0, value: norm(0.9) }]);
    changes.insert(7, vec![]);
    let plain = v.update(&changes);
    assert_eq!(f64::from_bits(*v.get_normalized().get()), 0.5);
    assert_eq!(f64::from_bits(*plain.get()), 5.0);
}

#[test]
fn setters_keep_both_domains() {
    let p = info(3, 0.0, 0.0, 200.0);
    let mut v = ParameterWithValue::new(p, PlainParameterValue::new(50.0f64.to_bits()));
    assert_eq!(f64::from_bits(*v.get_normalized().get()), 0.25);
    v.set_normalized(norm(0.5));
    assert_eq!(f64::from_bits(*v.get().get()), 100.0);
    v.set(PlainParameterValue::new(150.0f64.to_bits()));
    assert_eq!(f64::from_bits(*v.get_normalized().get()), 0.75);
    let w = ParameterWithValue::new_normalized(p, norm(1.0));
    assert_eq!(f64::from_bits(*w.get().get()), 200.0);
}

#[test]
fn lookup_by_identity() {
    let c = catalog(vec![info(1, 0.5, 0.0, 1.0), info(2, 0.25, 0.0, 1.0)]);
    assert_eq!(c.get_parameter_by_id(2).unwrap().id, 2);
    assert!(c.get_parameter_by_id(3).is_none());
    assert!(c.get_value(3).is_none());
    assert!(c.get_normalized_by_id(3).is_none());
    assert_eq!(f64::from_bits(*c.clone_value(1).get_normalized().get()), 0.5);
}

#[test]
fn set_by_unknown_identity_changes_nothing() {
    let mut c = catalog(vec![info(1, 0.5, 0.0, 1.0)]);
    assert!(!c.set_normalized_by_id(9, norm(0.9)));
    assert_eq!(normalized_of(&c, 1), 0.5);
    assert!(c.set_normalized_by_id(1, norm(0.9)));
    assert_eq!(normalized_of(&c, 1), 0.9);
    c.reset_to_defaults();
    assert_eq!(normalized_of(&c, 1), 0.5);
}

#[test]
fn state_round_trip() {
    let mut a = catalog(vec![info(1, 0.0, 0.0, 1.0), info(2, 0.0, 0.0, 1.0)]);
    a.set_normalized_by_id(1, norm(0.3));
    a.set_normalized_by_id(2, norm(0.77));
    let bytes = write_parameter_values(&a);
    let mut b = catalog(vec![info(1, 0.5, 0.0, 1.0), info(2, 0.5, 0.0, 1.0)]);
    assert_eq!(read_parameter_values(&mut b, &bytes), Ok(()));
    assert_eq!(normalized_of(&b, 1), 0.3);
    assert_eq!(normalized_of(&b, 2), 0.77);
}

#[test]
fn state_layout_is_little_endian() {
    let mut a = catalog(vec![info(0x0102_0304, 0.0, 0.0, 1.0)]);
    a.set_normalized_by_id(0x0102_0304, norm(0.5));
    let bytes = write_parameter_values(&a);
    let mut expected = vec![1u8, 0, 0, 0, 4, 3, 2, 1];
    expected.extend_from_slice(&0.5f64.to_le_bytes());
    assert_eq!(bytes, expected);
}

#[test]
fn state_unknown_identity_is_skipped() {
    let mut bytes = Vec::new();
    bytes.extend_from_slice(&2u32.to_le_bytes());
    bytes.extend_from_slice(&99u32.to_le_bytes());
    bytes.extend_from_slice(&0.9f64.to_le_bytes());
    bytes.extend_from_slice(&2u32.to_le_bytes());
    bytes.extend_from_slice(&0.6f64.to_le_bytes());
    let mut c = catalog(vec![info(1, 0.5, 0.0, 1.0), info(2, 0.25, 0.0, 1.0)]);
    c.set_normalized_by_id(1, norm(0.1));
    assert_eq!(read_parameter_values(&mut c, &bytes), Ok(()));
    assert_eq!(normalized_of(&c, 1), 0.5);
    assert_eq!(normalized_of(&c, 2), 0.6);
}

#[test]
fn state_truncated_keeps_pairs_read() {
    let mut bytes = Vec::new();
    bytes.extend_from_slice(&2u32.to_le_bytes());
    bytes.extend_from_slice(&1u32.to_le_bytes());
    bytes.extend_from_slice(&0.9f64.to_le_bytes());
    bytes.extend_from_slice(&2u32.to_le_bytes());
    let mut c = catalog(vec![info(1, 0.5, 0.0, 1.0), info(2, 0.25, 0.0, 1.0)]);
    c.set_normalized_by_id(2, norm(0.8));
    assert_eq!(read_parameter_values(&mut c, &bytes), Err(StateError::UnexpectedEnd));
    assert_eq!(normalized_of(&c, 1), 0.9);
    assert_eq!(normalized_of(&c, 2), 0.25);
}

#[test]
fn state_without_count_resets_to_defaults() {
    let mut c = catalog(vec![info(1, 0.5, 0.0, 1.0)]);
    c.set_normalized_by_id(1, norm(0.8));
    assert_eq!(read_parameter_values(&mut c, &[1, 0]), Err(StateError::UnexpectedEnd));
    assert_eq!(normalized_of(&c, 1), 0.5);
}

#[test]
fn state_of_empty_catalog() {
    let c = catalog(vec![]);
    assert_eq!(write_parameter_values(&c), vec![0u8, 0, 0, 0]);
}

#[test]
fn flag_bits() {
    let all = ParameterFlags {
        can_automate: true,
        is_read_only: true,
        is_wrap_around: true,
        is_list: true,
        is_program_change: true,
        is_bypass: true,
    };
    assert_eq!(all.to_bits(), 0x1800f);
    assert_eq!(ParameterFlags::default().to_bits(), 0);
    let bypass = ParameterFlags { can_automate: true, is_bypass: true, ..Default::default() };
    assert_eq!(bypass.to_bits(), 0x10001);
}

#[test]
fn catalog_as_parameters() {
    let first = info(1, 0.5, 0.0, 1.0);
    let stranger = info(9, 0.125, 0.0, 1.0);
    let mut c = catalog(vec![first, info(2, 0.25, 0.0, 1.0)]);
    assert_eq!(c.get_parameters().len(), 2);
    assert_eq!(Parameters::get_parameter_by_id(&c, 2).unwrap().id, 2);
    assert!(Parameters::get_parameter_by_id(&c, 9).is_none());
    c.set_normalized_parameter_value(first, norm(0.75));
    assert_eq!(f64::from_bits(*c.get_normalized_parameter_value(first).get()), 0.75);
    c.set_normalized_parameter_value(stranger, norm(0.9));
    assert_eq!(f64::from_bits(*c.get_normalized_parameter_value(stranger).get()), 0.125);
    assert_eq!(normalized_of(&c, 2), 0.25);
}

#[test]
fn update_plain_follows_last_point() {
    let p = info(1, 0.5, 0.0, 100.0);
    let mut v = ParameterWithValue::new_default(p);
    assert_eq!(f64::from_bits(*v.get().get()), 50.0);
    let mut changes: HashMap<u32, Vec<ParameterPoint>> = HashMap::new();
    changes.insert(
        1,
        vec![
            ParameterPoint { sample_offset: 2, value: norm(0.1) },
            ParameterPoint { sample_offset: 10, value: norm(0.9) },
            ParameterPoint { sample_offset: 5, value: norm(0.4) },
        ],
    );
    let plain = v.update(&changes);
    assert_eq!(f64::from_bits(*plain.get()), 40.0);
    assert_eq!(f64::from_bits(*v.get().get()), 40.0);
}

struct Listed {
    params: &'static [&'static ParameterInfo],
}

impl vst3::plugin::Plugin for Listed {}

impl Parameters for Listed {
    fn parameters_view(&self) -> &[&'static ParameterInfo] {
        self.params
    }

    fn has_parameter(&self, _id: u32) -> bool {
        false
    }

    fn normalized_view(&self, param: &ParameterInfo) -> NormalizedParameterValue {
        param.default_normalized_value
    }

    fn get_parameters(&self) -> &[&'static ParameterInfo] {
        self.params
    }

    fn get_normalized_parameter_value(&self, param: &ParameterInfo) -> NormalizedParameterValue {
        param.default_normalized_value
    }

    fn set_normalized_parameter_value(&mut self, _param: &ParameterInfo, _value: NormalizedParameterValue) {}
}

#[test]
fn lookup_finds_first_descriptor_with_identity() {
    let a = info(4, 0.1, 0.0, 1.0);
    let b = info(5, 0.2, 0.0, 1.0);
    let c = info(4, 0.3, 0.0, 1.0);
    let listed = Listed { params: Box::leak(vec![a, b, c].into_boxed_slice()) };
    let found = listed.get_parameter_by_id(4).unwrap();
    assert!(std::ptr::eq(found, a));
    assert!(std::ptr::eq(listed.get_parameter_by_id(5).unwrap(), b));
    assert!(listed.get_parameter_by_id(6).is_none());
}
