use claude_deck::device::{
    discovered_devices, first_supported, process_input, supported_ids, test_pattern_message,
    to_bools, ImageMirroring, ImageMode, ImageRotation, InputError, Kind, KEY_COUNT,
    SCREEN_KEY_COUNT,
};

const ALL: [Kind; 9] = [
    Kind::Akp03,
    Kind::Akp03E,
    Kind::Akp03R,
    Kind::Akp03ERev2,
    Kind::Akp03RRev2,
    Kind::MiraboxN36602_1000,
    Kind::MiraboxN36602_1002,
    Kind::MiraboxN36603_1002,
    Kind::MiraboxN36603_1003,
];

#[test]
fn recognises_every_known_pair() {
    assert_eq!(Kind::from_vid_pid(0x0300, 0x1001), Some(Kind::Akp03));
    assert_eq!(Kind::from_vid_pid(0x0300, 0x1002), Some(Kind::Akp03E));
    assert_eq!(Kind::from_vid_pid(0x0300, 0x1003), Some(Kind::Akp03R));
    assert_eq!(Kind::from_vid_pid(0x0300, 0x3002), Some(Kind::Akp03ERev2));
    assert_eq!(Kind::from_vid_pid(0x0300, 0x3003), Some(Kind::Akp03RRev2));
    assert_eq!(Kind::from_vid_pid(0x6602, 0x1000), Some(Kind::MiraboxN36602_1000));
    assert_eq!(Kind::from_vid_pid(0x6602, 0x1002), Some(Kind::MiraboxN36602_1002));
    assert_eq!(Kind::from_vid_pid(0x6603, 0x1002), Some(Kind::MiraboxN36603_1002));
    assert_eq!(Kind::from_vid_pid(0x6603, 0x1003), Some(Kind::MiraboxN36603_1003));
}

#[test]
fn rejects_unknown_pairs() {
    assert_eq!(Kind::from_vid_pid(0x0300, 0x1000), None);
    assert_eq!(Kind::from_vid_pid(0x6602, 0x1001), None);
    assert_eq!(Kind::from_vid_pid(0x6603, 0x1000), None);
    assert_eq!(Kind::from_vid_pid(0x1234, 0x1002), None);
    assert_eq!(Kind::from_vid_pid(0, 0), None);
}

#[test]
fn query_table_matches_recognition() {
    let ids = supported_ids();
    assert_eq!(ids.len(), 9);
    for (i, (vid, pid)) in ids.iter().enumerate() {
        assert_eq!(Kind::from_vid_pid(*vid, *pid), Some(ALL[i]));
    }
}

#[test]
fn human_names() {
    assert_eq!(Kind::Akp03.human_name(), "Ajazz AKP03");
    assert_eq!(Kind::Akp03E.human_name(), "Ajazz AKP03E");
    assert_eq!(Kind::Akp03ERev2.human_name(), "Ajazz AKP03E (rev. 2)");
    assert_eq!(Kind::Akp03RRev2.human_name(), "Ajazz AKP03R (rev. 2)");
    assert_eq!(Kind::MiraboxN36603_1003.human_name(), "Mirabox N3 (6603:1003)");
}

#[test]
fn protocol_versions() {
    let v3 = [
        Kind::Akp03ERev2,
        Kind::Akp03RRev2,
        Kind::MiraboxN36603_1002,
        Kind::MiraboxN36603_1003,
    ];
    for kind in ALL {
        let expected = if v3.contains(&kind) { 3 } else { 2 };
        assert_eq!(kind.protocol_version(), expected);
    }
}

#[test]
fn image_formats_follow_protocol() {
    let v2 = Kind::Akp03E.image_format();
    assert_eq!(v2.mode, ImageMode::JPEG);
    assert_eq!(v2.size, (60, 60));
    assert_eq!(v2.rotation, ImageRotation::Rot0);
    assert_eq!(v2.mirror, ImageMirroring::Unmirrored);
    let v3 = Kind::MiraboxN36603_1002.image_format();
    assert_eq!(v3.mode, ImageMode::JPEG);
    assert_eq!(v3.size, (64, 64));
    assert_eq!(v3.rotation, ImageRotation::Rot90);
    assert_eq!(v3.mirror, ImageMirroring::Unmirrored);
}

#[test]
fn discovery_skips_unknown_devices() {
    let found = vec![(0x1111, 0x2222), (0x0300, 0x1002), (0x0300, 0x9999), (0x6603, 0x1003)];
    let devices = discovered_devices(&found);
    assert_eq!(devices.len(), 2);
    assert_eq!(devices[0].name, "Ajazz AKP03E");
    assert_eq!((devices[0].vid, devices[0].pid), (0x0300, 0x1002));
    assert_eq!(devices[1].name, "Mirabox N3 (6603:1003)");
    assert_eq!((devices[1].vid, devices[1].pid), (0x6603, 0x1003));
    assert!(discovered_devices(&vec![]).is_empty());
}

#[test]
fn first_supported_device() {
    assert_eq!(first_supported(&vec![(1, 2), (0x6602, 0x1000), (0x0300, 0x1001)]), Some(1));
    assert_eq!(first_supported(&vec![(1, 2), (3, 4)]), None);
    assert_eq!(first_supported(&vec![]), None);
}

#[test]
fn screen_button_press_decodes() {
    let states = process_input(3, 1).unwrap();
    assert_eq!(states.len(), KEY_COUNT);
    for (i, pressed) in states.iter().enumerate() {
        assert_eq!(*pressed, i == 2);
    }
    let released = process_input(3, 0).unwrap();
    assert!(released.iter().all(|p| !p));
}

#[test]
fn plain_buttons_decode() {
    assert_eq!(process_input(0x25, 1).unwrap()[6], true);
    assert_eq!(process_input(0x30, 1).unwrap()[7], true);
    assert_eq!(process_input(0x31, 1).unwrap()[8], true);
    assert_eq!(process_input(0x31, 1).unwrap().iter().filter(|p| **p).count(), 1);
    assert_eq!(process_input(6, 7).unwrap()[5], true);
}

#[test]
fn zero_input_releases_everything() {
    let states = process_input(0, 1).unwrap();
    assert_eq!(states, vec![false; KEY_COUNT]);
}

#[test]
fn unknown_input_is_bad_data() {
    assert_eq!(process_input(7, 1), Err(InputError::BadData));
    assert_eq!(process_input(0x24, 1), Err(InputError::BadData));
    assert_eq!(process_input(0xff, 0), Err(InputError::BadData));
}

#[test]
fn to_bools_skips_slot_zero() {
    let states = [1u8, 0, 2, 0, 0, 0, 0, 0, 0, 9];
    assert_eq!(
        to_bools(&states),
        vec![false, true, false, false, false, false, false, false, true]
    );
}

#[test]
fn test_pattern_report() {
    assert_eq!(
        test_pattern_message(Kind::Akp03E),
        "Pushed test image to button 0 on Ajazz AKP03E"
    );
    assert!(SCREEN_KEY_COUNT < KEY_COUNT);
}
