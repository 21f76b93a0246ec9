use vstd::prelude::*;
use std::collections::HashMap;
use crate::converter::IsoConverter;
use crate::plugin::Parameters;
use crate::range::Range;
use crate::type_cell::TypeCell;

verus! {

broadcast use vstd::std_specs::hash::group_hash_axioms;

/// The stable identity of a parameter within one plugin instance.
pub type ParameterId = u32;

/// A parameter value, held as the bit pattern of an IEEE 754 binary64
/// number. The library only moves such values around; arithmetic on them
/// belongs to the converters.
pub type ParameterValue = u64;

/// Marker of the host-facing domain `[0, 1]`.
#[derive(Clone, Copy, Default, Debug, PartialEq, Eq, PartialOrd, Ord, Hash)]
pub struct Normalized;

/// Marker of the plugin-facing domain, in engineering units.
#[derive(Clone, Copy, Default, Debug, PartialEq, Eq, PartialOrd, Ord, Hash)]
pub struct Plain;

pub type NormalizedParameterValue = TypeCell<Normalized, ParameterValue>;

pub type PlainParameterValue = TypeCell<Plain, ParameterValue>;

/// Maps normalized values to plain ones and back.
pub type ParameterValueConverter = Box<dyn IsoConverter<NormalizedParameterValue, PlainParameterValue>>;

pub type ParameterValueRange = Range<PlainParameterValue>;

/// One automation point: a normalized value that takes effect at a sample
/// offset within the block.
#[derive(Clone, Copy, Default, Debug, PartialEq)]
pub struct ParameterPoint {
    pub sample_offset: i32,
    pub value: NormalizedParameterValue,
}

#[derive(Clone, Copy, Default, Debug, PartialEq, Eq, Hash)]
pub struct ParameterFlags {
    pub can_automate: bool,
    pub is_read_only: bool,
    pub is_wrap_around: bool,
    pub is_list: bool,
    pub is_program_change: bool,
    pub is_bypass: bool,
}

/// Host flag bit: the parameter can be automated.
pub const CAN_AUTOMATE: i32 = 1;

/// Host flag bit: the parameter cannot be changed from outside the plugin.
pub const IS_READ_ONLY: i32 = 2;

/// Host flag bit: the parameter wraps around at its ends.
pub const IS_WRAP_AROUND: i32 = 4;

/// Host flag bit: the parameter is shown as a list.
pub const IS_LIST: i32 = 8;

/// Host flag bit: the parameter changes programs.
pub const IS_PROGRAM_CHANGE: i32 = 0x8000;

/// Host flag bit: the parameter is the bypass switch.
pub const IS_BYPASS: i32 = 0x10000;

impl ParameterFlags {
    /// The host's flag word: one bit for each flag that is set.
    pub open spec fn spec_bits(self) -> i32 {
        (if self.can_automate { CAN_AUTOMATE } else { 0 }) | (if self.is_read_only {
            IS_READ_ONLY
        } else {
            0
        }) | (if self.is_wrap_around { IS_WRAP_AROUND } else { 0 }) | (if self.is_list {
            IS_LIST
        } else {
            0
        }) | (if self.is_program_change { IS_PROGRAM_CHANGE } else { 0 }) | (if self.is_bypass {
            IS_BYPASS
        } else {
            0
        })
    }

    pub fn to_bits(&self) -> (r: i32)
        ensures
            r == self.spec_bits(),
    {
        (if self.can_automate { CAN_AUTOMATE } else { 0 }) | (if self.is_read_only {
            IS_READ_ONLY
        } else {
            0
        }) | (if self.is_wrap_around { IS_WRAP_AROUND } else { 0 }) | (if self.is_list {
            IS_LIST
        } else {
            0
        }) | (if self.is_program_change { IS_PROGRAM_CHANGE } else { 0 }) | (if self.is_bypass {
            IS_BYPASS
        } else {
            0
        })
    }
}

/// The immutable description of one parameter.
pub struct ParameterInfo {
    pub id: ParameterId,
    pub title: String,
    pub short_title: String,
    pub units: String,
    /// 0 for a continuous parameter, else the number of discrete steps.
    pub step_count: i32,
    pub default_normalized_value: NormalizedParameterValue,
    pub unit_id: i32,
    pub flags: ParameterFlags,
    pub normalized_to_plain_converter: ParameterValueConverter,
}

/// The plain value that `p`'s converter gives for the normalized value `n`.
pub open spec fn to_plain(p: &ParameterInfo, n: NormalizedParameterValue) -> PlainParameterValue {
    p.normalized_to_plain_converter.spec_convert(n)
}

/// The normalized value that `p`'s converter gives for the plain value `v`.
pub open spec fn to_normalized(p: &ParameterInfo, v: PlainParameterValue) -> NormalizedParameterValue {
    p.normalized_to_plain_converter.spec_convert_inverse(v)
}

/// The automation points of one block, grouped by parameter.
pub type ParameterChanges = HashMap<ParameterId, Vec<ParameterPoint>>;

/// The value of the last point that `changes` holds for `id`, if any.
pub open spec fn last_point_value(changes: Map<ParameterId, Vec<ParameterPoint>>, id: ParameterId) -> Option<
    NormalizedParameterValue,
> {
    if changes.contains_key(id) && changes[id]@.len() > 0 {
        Some(changes[id]@.last().value)
    } else {
        None
    }
}

/// The last automation point that `changes` holds for `id`: the one that
/// came last from the host, whatever its sample offset.
pub fn last_point(changes: &ParameterChanges, id: ParameterId) -> (r: Option<NormalizedParameterValue>)
    ensures
        r == last_point_value(changes@, id),
{
    match changes.get(&id) {
        Some(points) => {
            if points.len() > 0 {
                Some(points[points.len() - 1].value)
            } else {
                None
            }
        },
        None => None,
    }
}

/// The live value of a parameter: its plain value and its normalized value,
/// each written through a setter that derives the other one.
#[derive(Clone, Copy)]
pub struct ParameterWithValue {
    pub parameter: &'static ParameterInfo,
    pub value: PlainParameterValue,
    pub normalized_value: NormalizedParameterValue,
}

impl ParameterWithValue {
    pub fn new(parameter: &'static ParameterInfo, value: PlainParameterValue) -> (r: Self)
        ensures
            r.parameter == parameter,
            r.value == value,
            r.normalized_value == to_normalized(parameter, value),
    {
        let normalized_value = parameter.normalized_to_plain_converter.convert_inverse(value);
        Self { parameter, value, normalized_value }
    }

    pub fn new_normalized(parameter: &'static ParameterInfo, value: NormalizedParameterValue) -> (r:
        Self)
        ensures
            r.parameter == parameter,
            r.normalized_value == value,
            r.value == to_plain(parameter, value),
    {
        let plain = parameter.normalized_to_plain_converter.convert(value);
        Self { parameter, value: plain, normalized_value: value }
    }

    pub fn new_default(parameter: &'static ParameterInfo) -> (r: Self)
        ensures
            r.parameter == parameter,
            r.normalized_value == parameter.default_normalized_value,
            r.value == to_plain(parameter, parameter.default_normalized_value),
    {
        Self::new_normalized(parameter, parameter.default_normalized_value)
    }

    /// Sets the plain value; the normalized one follows through the converter.
    pub fn set(&mut self, value: PlainParameterValue)
        ensures
            final(self).parameter == old(self).parameter,
            final(self).value == value,
            final(self).normalized_value == to_normalized(old(self).parameter, value),
    {
        self.normalized_value = self.parameter.normalized_to_plain_converter.convert_inverse(value);
        self.value = value;
    }

    pub fn get(&self) -> (r: PlainParameterValue)
        ensures
            r == self.value,
    {
        self.value
    }

    /// Sets the normalized value; the plain one follows through the converter.
    pub fn set_normalized(&mut self, value: NormalizedParameterValue)
        ensures
            final(self).parameter == old(self).parameter,
            final(self).normalized_value == value,
            final(self).value == to_plain(old(self).parameter, value),
    {
        self.normalized_value = value;
        self.value = self.parameter.normalized_to_plain_converter.convert(value);
    }

    pub fn get_normalized(&self) -> (r: NormalizedParameterValue)
        ensures
            r == self.normalized_value,
    {
        self.normalized_value
    }

    /// Takes on the last automation point of the block for this parameter,
    /// if there is one, and returns the plain value.
    pub fn update(&mut self, param_changes: &ParameterChanges) -> (r: PlainParameterValue)
        ensures
            final(self).parameter == old(self).parameter,
            r == final(self).value,
            match last_point_value(param_changes@, old(self).parameter.id) {
                Some(v) => final(self).normalized_value == v && final(self).value == to_plain(
                    old(self).parameter,
                    v,
                ),
                None => *final(self) == *old(self),
            },
    {
        if let Some(v) = last_point(param_changes, self.parameter.id) {
            self.set_normalized(v);
        }
        self.value
    }
}

/// The plain value is the converter's image of the normalized value, as a
/// write of the normalized value leaves it.
pub open spec fn plain_follows(v: ParameterWithValue) -> bool {
    v.value == to_plain(v.parameter, v.normalized_value)
}

/// No identity occurs twice.
pub open spec fn ids_unique(ids: Seq<ParameterId>) -> bool {
    forall|i: int, j: int| 0 <= i < j < ids.len() ==> ids[i] != ids[j]
}

/// The identities of a list of descriptors, in order.
pub open spec fn param_ids(params: Seq<&ParameterInfo>) -> Seq<ParameterId> {
    params.map_values(|p: &ParameterInfo| p.id)
}

/// The default normalized values of a list of descriptors, in order.
pub open spec fn param_defaults(params: Seq<&ParameterInfo>) -> Seq<ParameterValue> {
    params.map_values(|p: &ParameterInfo| p.default_normalized_value.val())
}

/// The catalog: the descriptors in their fixed order, each with its live
/// value, and an index from identity to position.
pub struct ParameterValueContainer {
    params: &'static [&'static ParameterInfo],
    values: Vec<ParameterWithValue>,
    id_to_index: HashMap<ParameterId, usize>,
}

impl ParameterValueContainer {
    /// The descriptors, in catalog order.
    pub closed spec fn parameters(&self) -> Seq<&'static ParameterInfo> {
        self.params@
    }

    /// The live values, in catalog order.
    pub closed spec fn live_values(&self) -> Seq<ParameterWithValue> {
        self.values@
    }

    pub open spec fn ids(&self) -> Seq<ParameterId> {
        param_ids(self.parameters())
    }

    pub open spec fn default_values(&self) -> Seq<ParameterValue> {
        param_defaults(self.parameters())
    }

    /// The current normalized values, in catalog order.
    pub open spec fn normalized_values(&self) -> Seq<ParameterValue> {
        self.live_values().map_values(|v: ParameterWithValue| v.normalized_value.val())
    }

    pub closed spec fn wf(&self) -> bool {
        &&& self.values@.len() == self.params@.len()
        &&& forall|k: int|
            0 <= k < self.values@.len() ==> (#[trigger] self.values@[k]).parameter == self.params@[k]
        &&& ids_unique(self.ids())
        &&& forall|id: ParameterId| #[trigger]
            self.id_to_index@.contains_key(id) <==> self.ids().contains(id)
        &&& forall|k: int|
            0 <= k < self.params@.len() ==> self.id_to_index@[#[trigger] self.ids()[k]] == k
    }

    /// What well-formedness gives a caller: one live value per descriptor,
    /// and identities that occur once.
    pub proof fn lemma_wf(&self)
        requires
            self.wf(),
        ensures
            self.live_values().len() == self.parameters().len(),
            ids_unique(self.ids()),
            forall|k: int|
                0 <= k < self.live_values().len() ==> (#[trigger] self.live_values()[k]).parameter
                    == self.parameters()[k],
    {
    }

    /// The descriptors that the catalog hands out as `Parameters` are its
    /// own, in catalog order.
    pub proof fn lemma_parameters_view(&self)
        ensures
            self.parameters_view()@ == self.parameters(),
    {
    }

    /// In a well-formed catalog, a parameter has a live value exactly when its
    /// identity is in the catalog.
    pub proof fn lemma_has_parameter(&self, id: ParameterId)
        requires
            self.wf(),
        ensures
            self.has_parameter(id) <==> self.ids().contains(id),
    {
        if self.has_parameter(id) {
            let k = choose|k: int| 0 <= k < self.values@.len() && (#[trigger] self.values@[k]).parameter.id == id;
            assert(self.ids()[k] == id);
        }
        if self.ids().contains(id) {
            let k = choose|k: int| 0 <= k < self.ids().len() && self.ids()[k] == id;
            assert(self.values@[k].parameter.id == id);
        }
    }

    /// Builds the catalog with every parameter at its default value.
    pub fn new(params: &'static [&'static ParameterInfo]) -> (r: Self)
        requires
            ids_unique(param_ids(params@)),
        ensures
            r.wf(),
            r.parameters() == params@,
            r.normalized_values() == r.default_values(),
            forall|k: int| 0 <= k < params@.len() ==> #[trigger] plain_follows(r.live_values()[k]),
    {
        let mut values: Vec<ParameterWithValue> = Vec::new();
        let mut id_to_index: HashMap<ParameterId, usize> = HashMap::new();
        let ghost ids = param_ids(params@);
        let mut k: usize = 0;
        while k < params.len()
            invariant
                k <= params@.len(),
                ids == param_ids(params@),
                ids_unique(ids),
                values@.len() == k,
                forall|j: int|
                    0 <= j < k ==> (#[trigger] values@[j]).parameter == params@[j]
                        && values@[j].normalized_value == params@[j].default_normalized_value
                        && plain_follows(values@[j]),
                forall|id: ParameterId| #[trigger]
                    id_to_index@.contains_key(id) <==> ids.subrange(0, k as int).contains(id),
                forall|j: int|
                    0 <= j < k ==> id_to_index@.contains_key(#[trigger] ids[j]) && id_to_index@[ids[j]]
                        == j,
            decreases params@.len() - k,
        {
            let p: &'static ParameterInfo = params[k];
            values.push(ParameterWithValue::new_default(p));
            id_to_index.insert(p.id, k);
            proof {
                assert(ids[k as int] == p.id);
                let s0 = ids.subrange(0, k as int);
                let s1 = ids.subrange(0, k + 1);
                assert(s1 =~= s0.push(p.id));
                assert forall|id: ParameterId| #[trigger]
                    id_to_index@.contains_key(id) <== s1.contains(id) by {
                    if s1.contains(id) {
                        let i = choose|i: int| 0 <= i < s1.len() && s1[i] == id;
                        if i < k {
                            assert(s0[i] == id);
                        }
                    }
                }
                assert forall|id: ParameterId| #[trigger]
                    id_to_index@.contains_key(id) ==> s1.contains(id) by {
                    if id_to_index@.contains_key(id) {
                        if id == p.id {
                            assert(s1[k as int] == id);
                        } else {
                            let i = choose|i: int| 0 <= i < s0.len() && s0[i] == id;
                            assert(s1[i] == id);
                        }
                    }
                }
                assert forall|j: int| 0 <= j < k + 1 implies id_to_index@.contains_key(
                    #[trigger] ids[j],
                ) && id_to_index@[ids[j]] == j by {
                    if j < k {
                        assert(ids[j] != ids[k as int]);
                    }
                }
            }
            k = k + 1;
        }
        proof {
            assert(ids.subrange(0, k as int) =~= ids);
        }
        let r = Self { params, values, id_to_index };
        assert(r.normalized_values() =~= r.default_values());
        r
    }

    /// The position of `id` in the catalog.
    fn index_of(&self, id: ParameterId) -> (r: Option<usize>)
        requires
            self.wf(),
        ensures
            match r {
                Some(k) => k < self.ids().len() && self.ids()[k as int] == id,
                None => !self.ids().contains(id),
            },
    {
        match self.id_to_index.get(&id) {
            Some(k) => {
                let ghost j = choose|j: int| 0 <= j < self.ids().len() && self.ids()[j] == id;
                assert(self.id_to_index@[self.ids()[j]] == j);
                Some(*k)
            },
            None => None,
        }
    }

    /// The descriptors, in catalog order.
    pub fn get_parameters(&self) -> (r: &[&'static ParameterInfo])
        ensures
            r@ == self.parameters(),
    {
        self.params
    }

    /// The descriptor with identity `id`, if the catalog has one.
    pub fn get_parameter_by_id(&self, id: ParameterId) -> (r: Option<&'static ParameterInfo>)
        requires
            self.wf(),
        ensures
            match r {
                Some(p) => exists|k: int|
                    0 <= k < self.parameters().len() && self.parameters()[k] == p && p.id == id,
                None => !self.ids().contains(id),
            },
    {
        match self.index_of(id) {
            Some(k) => Some(self.params[k]),
            None => None,
        }
    }

    /// The live value of parameter `id`, if the catalog has one.
    pub fn get_value(&self, id: ParameterId) -> (r: Option<&ParameterWithValue>)
        requires
            self.wf(),
        ensures
            match r {
                Some(v) => exists|k: int|
                    0 <= k < self.ids().len() && self.ids()[k] == id && self.live_values()[k] == *v,
                None => !self.ids().contains(id),
            },
    {
        match self.index_of(id) {
            Some(k) => Some(&self.values[k]),
            None => None,
        }
    }

    /// A copy of the live value of parameter `id`, which must be in the catalog.
    pub fn clone_value(&self, id: ParameterId) -> (r: ParameterWithValue)
        requires
            self.wf(),
            self.ids().contains(id),
        ensures
            exists|k: int|
                0 <= k < self.ids().len() && self.ids()[k] == id && self.live_values()[k] == r,
    {
        let k = self.index_of(id).unwrap();
        self.values[k]
    }

    /// The current normalized value of parameter `id`, if the catalog has one.
    pub fn get_normalized_by_id(&self, id: ParameterId) -> (r: Option<NormalizedParameterValue>)
        requires
            self.wf(),
        ensures
            match r {
                Some(v) => exists|k: int|
                    0 <= k < self.ids().len() && self.ids()[k] == id
                        && self.live_values()[k].normalized_value == v,
                None => !self.ids().contains(id),
            },
    {
        match self.index_of(id) {
            Some(k) => Some(self.values[k].get_normalized()),
            None => None,
        }
    }

    /// Sets the normalized value of parameter `id` where the catalog has it,
    /// and says whether it did; an unknown identity changes nothing.
    pub fn set_normalized_by_id(&mut self, id: ParameterId, value: NormalizedParameterValue) -> (r:
        bool)
        requires
            old(self).wf(),
        ensures
            final(self).wf(),
            final(self).parameters() == old(self).parameters(),
            r == old(self).ids().contains(id),
            final(self).normalized_values() == set_where(
                old(self).normalized_values(),
                old(self).ids(),
                id,
                value.val(),
            ),
            forall|k: int|
                0 <= k < old(self).ids().len() && old(self).ids()[k] != id
                    ==> final(self).live_values()[k] == old(self).live_values()[k],
            forall|k: int|
                0 <= k < old(self).ids().len() && old(self).ids()[k] == id ==> #[trigger] plain_follows(
                    final(self).live_values()[k],
                ),
    {
        match self.index_of(id) {
            Some(k) => {
                let mut v = self.values[k];
                v.set_normalized(value);
                self.values.set(k, v);
                proof {
                    assert forall|j: int| 0 <= j < self.ids().len() && j != k implies self.ids()[j]
                        != id by {
                        assert(ids_unique(self.ids()));
                    }
                }
                assert(self.normalized_values() =~= set_where(
                    old(self).normalized_values(),
                    old(self).ids(),
                    id,
                    value.val(),
                ));
                true
            },
            None => {
                assert(self.normalized_values() =~= set_where(
                    old(self).normalized_values(),
                    old(self).ids(),
                    id,
                    value.val(),
                ));
                false
            },
        }
    }

    /// The live value at position `k` of the catalog.
    pub fn value_at(&self, k: usize) -> (r: &ParameterWithValue)
        requires
            self.wf(),
            k < self.ids().len(),
        ensures
            *r == self.live_values()[k as int],
    {
        &self.values[k]
    }

    /// The normalized value of the first live value for `id`, searched in
    /// catalog order.
    pub fn find_normalized(&self, id: ParameterId) -> (r: Option<NormalizedParameterValue>)
        ensures
            r == first_normalized(self.live_values(), id),
            match r {
                Some(v) => exists|k: int|
                    0 <= k < self.live_values().len() && self.live_values()[k].parameter.id == id
                        && self.live_values()[k].normalized_value == v,
                None => forall|k: int|
                    0 <= k < self.live_values().len() ==> (#[trigger] self.live_values()[k]).parameter.id != id,
            },
    {
        let mut k: usize = 0;
        while k < self.values.len()
            invariant
                k <= self.values@.len(),
                forall|j: int| 0 <= j < k ==> (#[trigger] self.values@[j]).parameter.id != id,
            decreases self.values@.len() - k,
        {
            if self.values[k].parameter.id == id {
                assert(self.live_values()[k as int] == self.values@[k as int]);
                proof {
                    lemma_first_at(self.values@, id, k as int);
                }
                return Some(self.values[k].normalized_value);
            }
            k = k + 1;
        }
        proof {
            lemma_first_none(self.values@, id);
        }
        None
    }

    /// Sets the normalized value of every live value for `id`, searched in
    /// catalog order; the others stay as they are.
    pub fn store_normalized(&mut self, id: ParameterId, value: NormalizedParameterValue)
        ensures
            final(self).parameters() == old(self).parameters(),
            final(self).live_values().len() == old(self).live_values().len(),
            forall|k: int|
                0 <= k < old(self).live_values().len() ==> {
                    let before = old(self).live_values()[k];
                    let after = #[trigger] final(self).live_values()[k];
                    &&& after.parameter == before.parameter
                    &&& before.parameter.id == id ==> after.normalized_value == value && plain_follows(after)
                    &&& before.parameter.id != id ==> after == before
                },
    {
        let n = self.values.len();
        let mut k: usize = 0;
        while k < n
            invariant
                n == self.values@.len(),
                n == old(self).values@.len(),
                k <= n,
                self.params == old(self).params,
                forall|j: int|
                    0 <= j < n ==> {
                        let before = old(self).values@[j];
                        let after = #[trigger] self.values@[j];
                        &&& after.parameter == before.parameter
                        &&& (j < k && before.parameter.id == id) ==> after.normalized_value == value
                            && plain_follows(after)
                        &&& (j >= k || before.parameter.id != id) ==> after == before
                    },
            decreases n - k,
        {
            if self.values[k].parameter.id == id {
                let mut v = self.values[k];
                v.set_normalized(value);
                self.values.set(k, v);
            }
            k = k + 1;
        }
    }

    /// Puts every parameter back to its descriptor's default value.
    pub fn reset_to_defaults(&mut self)
        requires
            old(self).wf(),
        ensures
            final(self).wf(),
            final(self).parameters() == old(self).parameters(),
            final(self).normalized_values() == final(self).default_values(),
            forall|k: int|
                0 <= k < final(self).ids().len() ==> #[trigger] plain_follows(final(self).live_values()[k]),
    {
        let n = self.values.len();
        let mut k: usize = 0;
        while k < n
            invariant
                self.wf(),
                self.parameters() == old(self).parameters(),
                n == self.values@.len(),
                k <= n,
                forall|j: int|
                    0 <= j < k ==> #[trigger] self.values@[j].normalized_value
                        == self.params@[j].default_normalized_value && plain_follows(self.values@[j]),
            decreases n - k,
        {
            let mut v = self.values[k];
            let d = v.parameter.default_normalized_value;
            v.set_normalized(d);
            self.values.set(k, v);
            k = k + 1;
        }
        assert(self.normalized_values() =~= self.default_values());
    }
}

impl Parameters for ParameterValueContainer {
    closed spec fn parameters_view(&self) -> &[&'static ParameterInfo] {
        self.params
    }

    closed spec fn has_parameter(&self, id: ParameterId) -> bool {
        exists|k: int| 0 <= k < self.values@.len() && (#[trigger] self.values@[k]).parameter.id == id
    }

    closed spec fn normalized_view(&self, param: &ParameterInfo) -> NormalizedParameterValue {
        match first_normalized(self.values@, param.id) {
            Some(v) => v,
            None => param.default_normalized_value,
        }
    }

    fn get_parameters(&self) -> (r: &[&'static ParameterInfo]) {
        self.params
    }

    /// The current value of the parameter with `param`'s identity, or
    /// `param`'s default where the catalog has no such parameter.
    fn get_normalized_parameter_value(&self, param: &ParameterInfo) -> (r: NormalizedParameterValue) {
        match self.find_normalized(param.id) {
            Some(v) => v,
            None => param.default_normalized_value,
        }
    }

    /// Sets the parameter with `param`'s identity; nothing happens where the
    /// catalog has no such parameter.
    fn set_normalized_parameter_value(&mut self, param: &ParameterInfo, value: NormalizedParameterValue) {
        let ghost before = self.values@;
        self.store_normalized(param.id, value);
        proof {
            let after = self.values@;
            assert forall|id: ParameterId| #[trigger] self.has_parameter(id) == old(self).has_parameter(id) by {
                if old(self).has_parameter(id) {
                    let k = choose|k: int| 0 <= k < before.len() && (#[trigger] before[k]).parameter.id == id;
                    assert(after[k].parameter.id == id);
                }
                if self.has_parameter(id) {
                    let k = choose|k: int| 0 <= k < after.len() && (#[trigger] after[k]).parameter.id == id;
                    assert(before[k].parameter.id == id);
                }
            }
            if old(self).has_parameter(param.id) {
                let k = choose|k: int| 0 <= k < before.len() && (#[trigger] before[k]).parameter.id == param.id;
                assert(after[k].parameter.id == param.id);
                lemma_first_all_set(after, param.id, value);
            } else {
                assert(after =~= before);
            }
            assert forall|q: &ParameterInfo| (q.id != param.id || !old(self).has_parameter(param.id))
                implies #[trigger] self.normalized_view(q) == old(self).normalized_view(q) by {
                if q.id != param.id {
                    lemma_first_untouched(before, after, q.id, param.id);
                } else {
                    assert(after =~= before);
                }
            }
        }
    }
}

/// The normalized value of the first live value whose parameter has identity
/// `id`, if any.
pub open spec fn first_normalized(values: Seq<ParameterWithValue>, id: ParameterId) -> Option<
    NormalizedParameterValue,
>
    decreases values.len(),
{
    if values.len() == 0 {
        None
    } else if values[0].parameter.id == id {
        Some(values[0].normalized_value)
    } else {
        first_normalized(values.drop_first(), id)
    }
}

/// The first match is the one at the first position that carries `id`.
proof fn lemma_first_at(values: Seq<ParameterWithValue>, id: ParameterId, k: int)
    requires
        0 <= k < values.len(),
        values[k].parameter.id == id,
        forall|j: int| 0 <= j < k ==> (#[trigger] values[j]).parameter.id != id,
    ensures
        first_normalized(values, id) == Some(values[k].normalized_value),
    decreases k,
{
    if k > 0 {
        let rest = values.drop_first();
        assert forall|j: int| 0 <= j < k - 1 implies (#[trigger] rest[j]).parameter.id != id by {
            assert(rest[j] == values[j + 1]);
        }
        assert(values[0].parameter.id != id);
        lemma_first_at(rest, id, k - 1);
    }
}

/// Where no position carries `id`, there is no match.
proof fn lemma_first_none(values: Seq<ParameterWithValue>, id: ParameterId)
    requires
        forall|j: int| 0 <= j < values.len() ==> (#[trigger] values[j]).parameter.id != id,
    ensures
        first_normalized(values, id) is None,
    decreases values.len(),
{
    if values.len() > 0 {
        let rest = values.drop_first();
        assert forall|j: int| 0 <= j < rest.len() implies (#[trigger] rest[j]).parameter.id != id by {
            assert(rest[j] == values[j + 1]);
        }
        assert(values[0].parameter.id != id);
        lemma_first_none(rest, id);
    }
}

/// Where some position carries `id` and every such position holds `v`, the
/// match is `v`.
proof fn lemma_first_all_set(values: Seq<ParameterWithValue>, id: ParameterId, v: NormalizedParameterValue)
    requires
        exists|k: int| 0 <= k < values.len() && (#[trigger] values[k]).parameter.id == id,
        forall|k: int|
            0 <= k < values.len() && (#[trigger] values[k]).parameter.id == id ==> values[k].normalized_value
                == v,
    ensures
        first_normalized(values, id) == Some(v),
    decreases values.len(),
{
    if values[0].parameter.id != id {
        let rest = values.drop_first();
        let k = choose|k: int| 0 <= k < values.len() && (#[trigger] values[k]).parameter.id == id;
        assert(rest[k - 1] == values[k]);
        assert forall|j: int| 0 <= j < rest.len() && (#[trigger] rest[j]).parameter.id == id implies rest[j].normalized_value
            == v by {
            assert(rest[j] == values[j + 1]);
        }
        lemma_first_all_set(rest, id, v);
    }
}

/// Changing only positions that carry `other` leaves the match for `id` as
/// it was.
proof fn lemma_first_untouched(
    before: Seq<ParameterWithValue>,
    after: Seq<ParameterWithValue>,
    id: ParameterId,
    other: ParameterId,
)
    requires
        id != other,
        before.len() == after.len(),
        forall|k: int|
            0 <= k < before.len() ==> (#[trigger] after[k]).parameter == before[k].parameter && (
            before[k].parameter.id != other ==> after[k] == before[k]),
    ensures
        first_normalized(after, id) == first_normalized(before, id),
    decreases before.len(),
{
    if before.len() > 0 {
        assert(after[0].parameter == before[0].parameter);
        let b = before.drop_first();
        let a = after.drop_first();
        assert forall|k: int| 0 <= k < b.len() implies (#[trigger] a[k]).parameter == b[k].parameter && (
        b[k].parameter.id != other ==> a[k] == b[k]) by {
            assert(a[k] == after[k + 1]);
            assert(b[k] == before[k + 1]);
        }
        lemma_first_untouched(b, a, id, other);
    }
}

/// `vals` with every position whose identity is `id` set to `v`.
pub open spec fn set_where(vals: Seq<ParameterValue>, ids: Seq<ParameterId>, id: ParameterId, v: ParameterValue) -> Seq<ParameterValue> {
    Seq::new(vals.len(), |k: int| if ids[k] == id { v } else { vals[k] })
}

} // verus!
