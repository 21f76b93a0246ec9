use vstd::prelude::*;
use crate::type_cell::TypeCell;

verus! {

#[derive(Clone, Copy, Default, Debug, PartialEq, Eq, PartialOrd, Ord, Hash)]
pub struct UnitIdTag;

pub type UnitId = TypeCell<UnitIdTag, i32>;

/// A group of parameters, as shown to the host.
pub struct UnitInfo {
    pub id: UnitId,
    pub parent_unit_id: UnitId,
    pub name: String,
    pub program_list_id: ProgramListId,
}

#[derive(Clone, Copy, Default, Debug, PartialEq, Eq, PartialOrd, Ord, Hash)]
pub struct ProgramListIdTag;

pub type ProgramListId = TypeCell<ProgramListIdTag, i32>;

pub struct ProgramListInfo {
    pub id: ProgramListId,
    pub name: String,
    pub program_count: i32,
}

#[derive(Clone, Copy, Debug, PartialEq, Eq, Structural)]
pub enum KnobMode {
    Circular,
    RelativeCircular,
    Linear,
}

#[derive(Clone, Copy, Debug, PartialEq, Eq, Structural)]
pub enum BusDirection {
    Input,
    Output,
}

#[derive(Clone, Copy, Debug, PartialEq, Eq, Structural)]
pub enum MediaType {
    Audio,
    Event,
}

/// The knob mode that a host tag names.
pub open spec fn knob_mode_of(tag: i32) -> Option<KnobMode> {
    if tag == 0 {
        Some(KnobMode::Circular)
    } else if tag == 1 {
        Some(KnobMode::RelativeCircular)
    } else if tag == 2 {
        Some(KnobMode::Linear)
    } else {
        None
    }
}

pub fn decode_knob_mode(tag: i32) -> (r: Option<KnobMode>)
    ensures
        r == knob_mode_of(tag),
{
    match tag {
        0 => Some(KnobMode::Circular),
        1 => Some(KnobMode::RelativeCircular),
        2 => Some(KnobMode::Linear),
        _ => None,
    }
}

/// The media type that a host tag names.
pub open spec fn media_type_of(tag: i32) -> Option<MediaType> {
    if tag == 0 {
        Some(MediaType::Audio)
    } else if tag == 1 {
        Some(MediaType::Event)
    } else {
        None
    }
}

pub fn decode_media_type(tag: i32) -> (r: Option<MediaType>)
    ensures
        r == media_type_of(tag),
{
    match tag {
        0 => Some(MediaType::Audio),
        1 => Some(MediaType::Event),
        _ => None,
    }
}

/// The bus direction that a host tag names.
pub open spec fn bus_direction_of(tag: i32) -> Option<BusDirection> {
    if tag == 0 {
        Some(BusDirection::Input)
    } else if tag == 1 {
        Some(BusDirection::Output)
    } else {
        None
    }
}

pub fn decode_bus_direction(tag: i32) -> (r: Option<BusDirection>)
    ensures
        r == bus_direction_of(tag),
{
    match tag {
        0 => Some(BusDirection::Input),
        1 => Some(BusDirection::Output),
        _ => None,
    }
}

/// The first program list whose identity is `id`, if any.
pub fn get_program_list_by_id<'a>(lists: &'a [ProgramListInfo], id: ProgramListId) -> (r: Option<
    &'a ProgramListInfo,
>)
    ensures
        match r {
            Some(p) => exists|k: int|
                0 <= k < lists@.len() && lists@[k] == *p && p.id.val() == id.val() && forall|j: int|
                    0 <= j < k ==> (#[trigger] lists@[j]).id.val() != id.val(),
            None => forall|k: int| 0 <= k < lists@.len() ==> (#[trigger] lists@[k]).id.val() != id.val(),
        },
{
    let mut i: usize = 0;
    while i < lists.len()
        invariant
            i <= lists@.len(),
            forall|j: int| 0 <= j < i ==> (#[trigger] lists@[j]).id.val() != id.val(),
        decreases lists@.len() - i,
    {
        if *lists[i].id.get() == *id.get() {
            return Some(&lists[i]);
        }
        i = i + 1;
    }
    None
}

} // verus!
