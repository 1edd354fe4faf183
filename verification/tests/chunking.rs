use cherryrgb::Brightness;
use cherryrgb::Command;
use cherryrgb::CustomKeyLeds;
use cherryrgb::LightingMode;
use cherryrgb::OwnRGB8;
use cherryrgb::Speed;
use cherryrgb::UnknownByte;
use cherryrgb::fetch_device_state_packets;
use cherryrgb::reset_custom_colors_packets;
use cherryrgb::set_custom_colors_packets;
use cherryrgb::set_led_animation_packets;

#[test]
fn chunking_a_full_state() {
    let leds = CustomKeyLeds::new();
    let chunks = leds.get_payloads().unwrap();

    // 126 keys * 3 bytes = 378 data bytes, split into ceil(378 / 56) == 7 chunks
    assert_eq!(chunks.len(), 7);
    let wires: Vec<Vec<u8>> = chunks.iter().map(|c| c.to_vec()).collect();
    let total: usize = wires.iter().map(|w| w[0] as usize).sum();
    assert_eq!(total, 378);

    // data_len | data_offset | secondary_keys | padding
    assert_eq!(&wires[0][..4], &[56, 0, 0, 0]);
    assert_eq!(&wires[1][..4], &[56, 56, 0, 0]);
    assert_eq!(&wires[2][..4], &[56, 112, 0, 0]);
    assert_eq!(&wires[3][..4], &[56, 168, 0, 0]);
    assert_eq!(&wires[4][..4], &[56, 224, 0, 0]);
    // chunk 5 starts at byte 280 > 255: offset wraps, the secondary flag is set
    assert_eq!(&wires[5][..4], &[56, 24, 1, 0]);
    // last chunk carries the remaining 378 - 6 * 56 = 42 bytes, start 336
    assert_eq!(&wires[6][..4], &[42, 80, 1, 0]);
    assert_eq!(wires[6].len(), 4 + 42);

    // a blank state is all zeroes
    for w in &wires {
        assert!(w[4..].iter().all(|&b| b == 0));
    }
}

#[test]
fn chunking_keeps_colors_in_key_order() {
    let mut leds = CustomKeyLeds::new();
    leds.set_led(0, OwnRGB8::new(1, 2, 3)).unwrap();
    leds.set_led(19, OwnRGB8::new(4, 5, 6)).unwrap();
    leds.set_led(125, OwnRGB8::new(7, 8, 9)).unwrap();
    let chunks = leds.get_payloads().unwrap();
    let mut data: Vec<u8> = Vec::new();
    for c in &chunks {
        data.extend_from_slice(&c.to_vec()[4..]);
    }
    assert_eq!(data.len(), 378);
    assert_eq!(&data[0..3], &[1, 2, 3]);
    assert_eq!(&data[57..60], &[4, 5, 6]);
    assert_eq!(&data[375..378], &[7, 8, 9]);
}

#[test]
fn animation_packet_sequence_matches_captures() {
    // captured: 04 69 01 06 09 00 00 55 00 00 03 02 00 01 FF ...
    let packets =
        set_led_animation_packets(LightingMode::Wave, Brightness::High, Speed::Medium, OwnRGB8::new(0xFF, 0, 0), true);
    assert_eq!(packets.len(), 4);

    let start = packets[0].to_vec();
    assert_eq!(&start[..4], &[0x04, 0x01, 0x00, 0x01]);
    assert_eq!(start.len(), 64);

    let main = packets[1].to_vec();
    assert_eq!(
        &main[..15],
        &[0x04, 0x69, 0x01, 0x06, 0x09, 0x00, 0x00, 0x55, 0x00, 0x00, 0x03, 0x02, 0x00, 0x01, 0xFF]
    );

    // the fixed trailer payload 01 18 00 55 01: checksum 0x6F + command 0x06
    let trailer = packets[2].to_vec();
    assert_eq!(&trailer[..9], &[0x04, 0x75, 0x00, 0x06, 0x01, 0x18, 0x00, 0x55, 0x01]);

    let end = packets[3].to_vec();
    assert_eq!(&end[..4], &[0x04, 0x02, 0x00, 0x02]);
}

#[test]
fn custom_colors_packet_sequence() {
    let leds = CustomKeyLeds::new();
    let packets = set_custom_colors_packets(leds).unwrap();
    // four packets selecting custom mode, then a second transaction
    // bracketing one packet per chunk
    assert_eq!(packets.len(), 13);
    assert_eq!(packets[0].command(), Command::TransactionStart);
    assert_eq!(packets[1].command(), Command::SetAnimation);
    assert_eq!(packets[1].unknown(), UnknownByte::One);
    assert_eq!(packets[2].command(), Command::SetAnimation);
    assert_eq!(packets[3].command(), Command::TransactionEnd);
    assert_eq!(packets[4].command(), Command::TransactionStart);
    for p in &packets[5..12] {
        assert_eq!(p.command(), Command::SetCustomLED);
        assert_eq!(p.unknown(), UnknownByte::Zero);
        assert!(p.verify_checksum().is_ok());
    }
    assert_eq!(packets[12].command(), Command::TransactionEnd);
    // chunk packets carry the chunk sub-header at the head of the payload
    assert_eq!(&packets[5].payload()[..4], &[56, 0, 0, 0]);
    assert_eq!(&packets[11].payload()[..4], &[42, 80, 1, 0]);
}

#[test]
fn reset_packet_sequence() {
    let packets = reset_custom_colors_packets();
    assert_eq!(packets.len(), 15);
    for p in &packets {
        assert!(p.verify_checksum().is_ok());
    }
    // the chunk packets sit inside their own transaction bracket
    assert_eq!(packets[4].command(), Command::TransactionStart);
    assert_eq!(packets[12].command(), Command::TransactionEnd);
    let tail1 = packets[13].to_vec();
    assert_eq!(&tail1[..5], &[0x04, 0x06, 0x00, 0x05, 0x01]);
    let tail2 = packets[14].to_vec();
    assert_eq!(&tail2[..5], &[0x04, 0x1E, 0x00, 0x05, 0x19]);
}

#[test]
fn fetch_device_state_sequence_matches_captures() {
    let packets = fetch_device_state_packets();
    assert_eq!(packets.len(), 13);
    for p in &packets {
        assert!(p.verify_checksum().is_ok());
    }
    let expected_heads: Vec<Vec<u8>> = vec![
        vec![0x04, 0x01, 0x00, 0x01],
        vec![0x04, 0x25, 0x00, 0x03, 0x22, 0x00, 0x00],
        vec![0x04, 0x3f, 0x00, 0x07, 0x38, 0x00, 0x00],
        vec![0x04, 0x77, 0x00, 0x07, 0x38, 0x38, 0x00],
        vec![0x04, 0xaf, 0x00, 0x07, 0x38, 0x70, 0x00],
        vec![0x04, 0xe7, 0x00, 0x07, 0x38, 0xa8, 0x00],
        vec![0x04, 0x1f, 0x01, 0x07, 0x38, 0xe0, 0x00],
        vec![0x04, 0x58, 0x00, 0x07, 0x38, 0x18, 0x01],
        vec![0x04, 0x82, 0x00, 0x07, 0x2a, 0x50, 0x01],
        vec![0x04, 0x53, 0x00, 0x1b, 0x38, 0x00, 0x00],
        vec![0x04, 0x8b, 0x00, 0x1b, 0x38, 0x38, 0x00],
        vec![0x04, 0x99, 0x00, 0x1b, 0x0e, 0x70, 0x00],
        vec![0x04, 0x02, 0x00, 0x02],
    ];
    for (p, head) in packets.iter().zip(expected_heads.iter()) {
        let wire = p.to_vec();
        assert_eq!(wire.len(), 64);
        assert_eq!(&wire[..head.len()], &head[..]);
    }
}
