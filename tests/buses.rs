use vst3::buses::{AudioBuses, BusError};

#[test]
fn bus_counts_by_media_and_direction() {
    let mut b = AudioBuses::new();
    assert_eq!(b.get_bus_count(0, 0), 0);
    b.add_audio_input("Stereo In", 3);
    b.add_audio_output("Stereo Out", 3);
    b.add_audio_output("Side Out", 0b111);
    assert_eq!(b.get_bus_count(0, 0), 1);
    assert_eq!(b.get_bus_count(0, 1), 2);
    assert_eq!(b.get_bus_count(1, 0), 0);
    b.clear();
    assert_eq!(b.get_bus_count(0, 1), 0);
}

#[test]
fn bus_info_and_errors() {
    let mut b = AudioBuses::new();
    b.add_audio_output("Stereo Out", 3);
    b.add_audio_output("Surround", 0b11_1111);
    let d = b.get_bus_info(0, 1, 1).ok().unwrap();
    assert_eq!(d.name, "Surround");
    assert_eq!(d.channel_count, 6);
    assert_eq!(d.flags, 1);
    assert_eq!(d.bus_type, 0);
    assert_eq!(b.get_bus_info(0, 1, 2).err(), Some(BusError::NoSuchBus));
    assert_eq!(b.get_bus_info(0, 1, -1).err(), Some(BusError::NoSuchBus));
    assert_eq!(b.get_bus_info(0, 0, 0).err(), Some(BusError::NoSuchBus));
    assert_eq!(b.get_bus_info(1, 1, 0).err(), Some(BusError::NotAudio));
}

#[test]
fn bus_activation_and_arrangement() {
    let mut b = AudioBuses::new();
    b.add_audio_input("In", 1);
    b.add_audio_input("Side", 3);
    assert_eq!(b.activate_bus(0, 0, 1, true), Ok(()));
    assert_eq!(b.activate_bus(0, 0, 2, true), Err(BusError::NoSuchBus));
    assert_eq!(b.activate_bus(1, 0, 0, true), Err(BusError::NotAudio));
    assert_eq!(b.get_bus_arrangement(0, 1), Some(3));
    assert_eq!(b.get_bus_arrangement(0, 0), Some(1));
    assert_eq!(b.get_bus_arrangement(1, 0), None);
    assert_eq!(b.get_bus_arrangement(0, -3), None);
}
