use web_controller::packet::{is_newer, read_packet, Packet, PacketFault};

fn sample() -> Vec<u8> {
    vec![2, 0x12, 0x34, 1, 0x80, 0x01, 10, 20, 127, 0x81, 0, 0xff]
}

#[test]
fn reads_every_field() {
    assert_eq!(
        read_packet(&sample(), 2),
        Ok(Packet {
            sequence: 0x1234,
            msg_type: 1,
            buttons: 0x8001,
            left_trigger: 10,
            right_trigger: 20,
            lx: 127,
            ly: -127,
            rx: 0,
            ry: -1,
        })
    );
}

#[test]
fn refuses_bad_lengths() {
    let bin = sample();
    assert_eq!(read_packet(&bin[..11], 2), Err(PacketFault::BadLength));
    assert_eq!(read_packet(&[], 2), Err(PacketFault::BadLength));
    let mut long = sample();
    long.resize(64, 7);
    assert!(read_packet(&long, 2).is_ok());
    long.push(7);
    assert_eq!(read_packet(&long, 2), Err(PacketFault::BadLength));
}

#[test]
fn refuses_another_slot() {
    assert_eq!(read_packet(&sample(), 3), Err(PacketFault::WrongPlayer));
    assert_eq!(read_packet(&sample(), 258), Err(PacketFault::WrongPlayer));
}

#[test]
fn what_follows_the_fixed_part_is_ignored() {
    let mut bin = sample();
    let plain = read_packet(&bin, 2);
    bin.extend([9, 9, 9]);
    assert_eq!(read_packet(&bin, 2), plain);
}

#[test]
fn packet_survives_the_wire() {
    for axis in i8::MIN..=i8::MAX {
        let bin = [1, 0, 9, 1, 0, 0, 0, 0, axis as u8, 0, 0, axis as u8];
        let packet = read_packet(&bin, 1).unwrap();
        assert_eq!((packet.lx, packet.ry), (axis, axis));
    }
}

#[test]
fn sequence_numbers() {
    assert!(is_newer(0, 1));
    assert!(!is_newer(1, 1));
    assert!(!is_newer(2, 1));
    assert!(is_newer(0xffff, 0));
    assert!(!is_newer(0, 0xffff));
    assert!(is_newer(0, 0x8000));
    assert!(!is_newer(0, 0x8001));
    // Exactly half of the number space apart, each of two numbers is newer.
    assert!(is_newer(0x8000, 0));
}

#[test]
fn an_older_packet_is_not_newer() {
    for step in 1..0x8000u16 {
        assert!(is_newer(40000, 40000u16.wrapping_add(step)));
        assert!(!is_newer(40000u16.wrapping_add(step), 40000));
    }
}
