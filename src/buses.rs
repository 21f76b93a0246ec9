use vstd::prelude::*;
use crate::marshal::{bits_in, get_channel_count};

verus! {

/// An audio bus that the processor offers to the host.
pub struct AudioBus {
    pub name: String,
    pub bus_type: i32,
    pub flags: i32,
    pub active: bool,
    /// One bit per speaker.
    pub speaker_arr: u64,
}

/// Why a bus request cannot be served.
#[derive(Clone, Copy, Debug, PartialEq, Eq, Structural)]
pub enum BusError {
    /// The request is for a media type that has no buses here.
    NotAudio,
    /// No bus has that direction and index.
    NoSuchBus,
}

/// What the host learns of one bus.
pub struct BusDescription<'a> {
    pub name: &'a String,
    pub channel_count: i32,
    pub bus_type: i32,
    pub flags: u32,
}

/// The processor's audio buses, inputs and outputs, in the order added.
pub struct AudioBuses {
    inputs: Vec<AudioBus>,
    outputs: Vec<AudioBus>,
}

/// The list that a direction tag selects: 0 the inputs, any other the
/// outputs.
pub open spec fn is_input_tag(dir: i32) -> bool {
    dir == 0
}

impl AudioBuses {
    pub closed spec fn input_list(&self) -> Seq<AudioBus> {
        self.inputs@
    }

    pub closed spec fn output_list(&self) -> Seq<AudioBus> {
        self.outputs@
    }

    /// The list for a direction tag.
    pub open spec fn list(&self, dir: i32) -> Seq<AudioBus> {
        if is_input_tag(dir) {
            self.input_list()
        } else {
            self.output_list()
        }
    }

    pub fn new() -> (r: Self)
        ensures
            r.input_list().len() == 0,
            r.output_list().len() == 0,
    {
        Self { inputs: Vec::new(), outputs: Vec::new() }
    }

    fn new_bus(name: &str, arr: u64) -> (r: AudioBus)
        ensures
            r.name@ == name@,
            r.bus_type == 0,
            r.flags == 1,
            !r.active,
            r.speaker_arr == arr,
    {
        AudioBus { name: name.to_owned(), bus_type: 0, flags: 1, active: false, speaker_arr: arr }
    }

    /// Adds an inactive main audio bus at the end of the inputs.
    pub fn add_audio_input(&mut self, name: &str, arr: u64)
        ensures
            final(self).output_list() == old(self).output_list(),
            final(self).input_list().len() == old(self).input_list().len() + 1,
            final(self).input_list().drop_last() == old(self).input_list(),
            final(self).input_list().last().name@ == name@,
            final(self).input_list().last().speaker_arr == arr,
            !final(self).input_list().last().active,
    {
        self.inputs.push(Self::new_bus(name, arr));
        assert(self.inputs@.drop_last() =~= old(self).inputs@);
    }

    /// Adds an inactive main audio bus at the end of the outputs.
    pub fn add_audio_output(&mut self, name: &str, arr: u64)
        ensures
            final(self).input_list() == old(self).input_list(),
            final(self).output_list().len() == old(self).output_list().len() + 1,
            final(self).output_list().drop_last() == old(self).output_list(),
            final(self).output_list().last().name@ == name@,
            final(self).output_list().last().speaker_arr == arr,
            !final(self).output_list().last().active,
    {
        self.outputs.push(Self::new_bus(name, arr));
        assert(self.outputs@.drop_last() =~= old(self).outputs@);
    }

    /// Removes every bus.
    pub fn clear(&mut self)
        ensures
            final(self).input_list().len() == 0,
            final(self).output_list().len() == 0,
    {
        self.inputs.clear();
        self.outputs.clear();
    }

    /// The number of buses of a media type and direction: audio buses only.
    pub fn get_bus_count(&self, media_type: i32, dir: i32) -> (r: i32)
        ensures
            media_type != 0 ==> r == 0,
            media_type == 0 && self.list(dir).len() <= i32::MAX ==> r == self.list(dir).len(),
            media_type == 0 && self.list(dir).len() > i32::MAX ==> r == i32::MAX,
    {
        if media_type != 0 {
            return 0;
        }
        let n = if dir == 0 {
            self.inputs.len()
        } else {
            self.outputs.len()
        };
        if n > i32::MAX as usize {
            i32::MAX
        } else {
            n as i32
        }
    }

    fn bus_at(&self, dir: i32, index: i32) -> (r: Option<&AudioBus>)
        ensures
            match r {
                Some(b) => 0 <= index < self.list(dir).len() && *b == self.list(dir)[index as int],
                None => !(0 <= index < self.list(dir).len()),
            },
    {
        if index < 0 {
            return None;
        }
        let k = index as usize;
        if dir == 0 {
            if k < self.inputs.len() {
                Some(&self.inputs[k])
            } else {
                None
            }
        } else {
            if k < self.outputs.len() {
                Some(&self.outputs[k])
            } else {
                None
            }
        }
    }

    /// What the host learns of a bus: its name, channel count (one per bit
    /// of its speaker arrangement), type and flags.
    pub fn get_bus_info(&self, media_type: i32, dir: i32, index: i32) -> (r: Result<BusDescription<'_>, BusError>)
        ensures
            media_type != 0 ==> r is Err && r->Err_0 == BusError::NotAudio,
            media_type == 0 && !(0 <= index < self.list(dir).len()) ==> r is Err && r->Err_0
                == BusError::NoSuchBus,
            media_type == 0 && 0 <= index < self.list(dir).len() ==> r is Ok && {
                let b = self.list(dir)[index as int];
                let d = r->Ok_0;
                &&& *d.name == b.name
                &&& d.channel_count as nat == bits_in(b.speaker_arr, 64)
                &&& d.bus_type == b.bus_type
                &&& d.flags == b.flags as u32
            },
    {
        if media_type != 0 {
            return Err(BusError::NotAudio);
        }
        match self.bus_at(dir, index) {
            Some(b) => Ok(
                BusDescription {
                    name: &b.name,
                    channel_count: get_channel_count(b.speaker_arr),
                    bus_type: b.bus_type,
                    flags: b.flags as u32,
                },
            ),
            None => Err(BusError::NoSuchBus),
        }
    }

    /// Switches a bus on or off.
    pub fn activate_bus(&mut self, media_type: i32, dir: i32, index: i32, state: bool) -> (r: Result<(), BusError>)
        ensures
            media_type != 0 ==> r == Err::<(), BusError>(BusError::NotAudio) && *final(self) == *old(self),
            media_type == 0 && !(0 <= index < old(self).list(dir).len()) ==> r == Err::<(), BusError>(
                BusError::NoSuchBus,
            ) && *final(self) == *old(self),
            media_type == 0 && 0 <= index < old(self).list(dir).len() ==> {
                let b = old(self).list(dir)[index as int];
                &&& r is Ok
                &&& is_input_tag(dir) ==> final(self).output_list() == old(self).output_list()
                &&& !is_input_tag(dir) ==> final(self).input_list() == old(self).input_list()
                &&& final(self).list(dir).len() == old(self).list(dir).len()
                &&& forall|k: int|
                    0 <= k < old(self).list(dir).len() && k != index ==> #[trigger] final(self).list(dir)[k]
                        == old(self).list(dir)[k]
                &&& final(self).list(dir)[index as int].active == state
                &&& final(self).list(dir)[index as int].name == b.name
                &&& final(self).list(dir)[index as int].speaker_arr == b.speaker_arr
            },
    {
        if media_type != 0 {
            return Err(BusError::NotAudio);
        }
        if index < 0 {
            return Err(BusError::NoSuchBus);
        }
        let k = index as usize;
        if dir == 0 {
            if k >= self.inputs.len() {
                return Err(BusError::NoSuchBus);
            }
            let mut bus = self.inputs.remove(k);
            bus.active = state;
            self.inputs.insert(k, bus);
        } else {
            if k >= self.outputs.len() {
                return Err(BusError::NoSuchBus);
            }
            let mut bus = self.outputs.remove(k);
            bus.active = state;
            self.outputs.insert(k, bus);
        }
        Ok(())
    }

    /// The speaker arrangement of a bus, if there is one with that direction
    /// and index.
    pub fn get_bus_arrangement(&self, dir: i32, index: i32) -> (r: Option<u64>)
        ensures
            match r {
                Some(a) => 0 <= index < self.list(dir).len() && a == self.list(dir)[index as int].speaker_arr,
                None => !(0 <= index < self.list(dir).len()),
            },
    {
        match self.bus_at(dir, index) {
            Some(b) => Some(b.speaker_arr),
            None => None,
        }
    }
}

} // verus!
