//! Device tables for the AKP03 family (and rebranded Mirabox hardware that
//! shares its firmware): which VID/PID pairs are supported, what each one is
//! called, which protocol it speaks, and how its raw button input decodes.

use vstd::prelude::*;

verus! {

/// Total physical buttons (6 with an LCD screen + 3 plain push-buttons).
pub const KEY_COUNT: usize = 9;

/// Of those, only the first 6 (indices 0-5) have a screen and can show an image.
pub const SCREEN_KEY_COUNT: usize = 6;

/// Rotary encoders on the device.
pub const ENCODER_COUNT: usize = 3;

pub const AJAZZ_VID: u16 = 0x0300;
pub const MIRABOX_6602_VID: u16 = 0x6602;
pub const MIRABOX_6603_VID: u16 = 0x6603;

pub const C_1001_PID: u16 = 0x1001;
pub const C_1002_PID: u16 = 0x1002;
pub const C_1003_PID: u16 = 0x1003;
pub const C_1000_PID: u16 = 0x1000;
pub const C_3002_PID: u16 = 0x3002;
pub const C_3003_PID: u16 = 0x3003;

/// Known device variants sharing this protocol family.
#[derive(Debug, Clone, Copy, PartialEq, Eq, Structural)]
pub enum Kind {
    Akp03,
    Akp03E,
    Akp03R,
    Akp03ERev2,
    Akp03RRev2,
    MiraboxN36602_1000,
    MiraboxN36602_1002,
    MiraboxN36603_1002,
    MiraboxN36603_1003,
}

/// The (VID, PID) pair a kind of device enumerates with.
pub open spec fn kind_ids(kind: Kind) -> (u16, u16) {
    match kind {
        Kind::Akp03 => (AJAZZ_VID, C_1001_PID),
        Kind::Akp03E => (AJAZZ_VID, C_1002_PID),
        Kind::Akp03R => (AJAZZ_VID, C_1003_PID),
        Kind::Akp03ERev2 => (AJAZZ_VID, C_3002_PID),
        Kind::Akp03RRev2 => (AJAZZ_VID, C_3003_PID),
        Kind::MiraboxN36602_1000 => (MIRABOX_6602_VID, C_1000_PID),
        Kind::MiraboxN36602_1002 => (MIRABOX_6602_VID, C_1002_PID),
        Kind::MiraboxN36603_1002 => (MIRABOX_6603_VID, C_1002_PID),
        Kind::MiraboxN36603_1003 => (MIRABOX_6603_VID, C_1003_PID),
    }
}

/// Every supported kind, in the order the device queries list them.
pub open spec fn all_kinds() -> Seq<Kind> {
    seq![
        Kind::Akp03,
        Kind::Akp03E,
        Kind::Akp03R,
        Kind::Akp03ERev2,
        Kind::Akp03RRev2,
        Kind::MiraboxN36602_1000,
        Kind::MiraboxN36602_1002,
        Kind::MiraboxN36603_1002,
        Kind::MiraboxN36603_1003,
    ]
}

/// The kind recognised for a (VID, PID) pair: the one that enumerates with it.
pub open spec fn kind_of_ids(vid: u16, pid: u16) -> Option<Kind> {
    if exists|k: Kind| kind_ids(k) == (vid, pid) {
        Some(choose|k: Kind| kind_ids(k) == (vid, pid))
    } else {
        None
    }
}

/// Product name shown to the user.
pub open spec fn kind_name(kind: Kind) -> Seq<char> {
    match kind {
        Kind::Akp03 => "Ajazz AKP03"@,
        Kind::Akp03E => "Ajazz AKP03E"@,
        Kind::Akp03R => "Ajazz AKP03R"@,
        Kind::Akp03ERev2 => "Ajazz AKP03E (rev. 2)"@,
        Kind::Akp03RRev2 => "Ajazz AKP03R (rev. 2)"@,
        Kind::MiraboxN36602_1000 => "Mirabox N3 (6602:1000)"@,
        Kind::MiraboxN36602_1002 => "Mirabox N3 (6602:1002)"@,
        Kind::MiraboxN36603_1002 => "Mirabox N3 (6603:1002)"@,
        Kind::MiraboxN36603_1003 => "Mirabox N3 (6603:1003)"@,
    }
}

/// The rev. 2 AKP03 variants and the 6603 Mirabox units speak protocol 3;
/// everything else speaks protocol 2.
pub open spec fn kind_protocol(kind: Kind) -> usize {
    match kind {
        Kind::MiraboxN36603_1002 | Kind::MiraboxN36603_1003 => 3,
        Kind::Akp03ERev2 | Kind::Akp03RRev2 => 3,
        _ => 2,
    }
}

/// No two kinds share a (VID, PID) pair.
pub proof fn lemma_kind_ids_injective(a: Kind, b: Kind)
    ensures
        kind_ids(a) == kind_ids(b) ==> a == b,
{
}

impl Kind {
    /// The supported kind for a (VID, PID) pair, or `None` for an
    /// unrecognised device.
    pub fn from_vid_pid(vid: u16, pid: u16) -> (kind: Option<Self>)
        ensures
            kind == kind_of_ids(vid, pid),
    {
        let r = if vid == AJAZZ_VID && pid == C_1001_PID {
            Some(Kind::Akp03)
        } else if vid == AJAZZ_VID && pid == C_1002_PID {
            Some(Kind::Akp03E)
        } else if vid == AJAZZ_VID && pid == C_1003_PID {
            Some(Kind::Akp03R)
        } else if vid == AJAZZ_VID && pid == C_3002_PID {
            Some(Kind::Akp03ERev2)
        } else if vid == AJAZZ_VID && pid == C_3003_PID {
            Some(Kind::Akp03RRev2)
        } else if vid == MIRABOX_6602_VID && pid == C_1000_PID {
            Some(Kind::MiraboxN36602_1000)
        } else if vid == MIRABOX_6602_VID && pid == C_1002_PID {
            Some(Kind::MiraboxN36602_1002)
        } else if vid == MIRABOX_6603_VID && pid == C_1002_PID {
            Some(Kind::MiraboxN36603_1002)
        } else if vid == MIRABOX_6603_VID && pid == C_1003_PID {
            Some(Kind::MiraboxN36603_1003)
        } else {
            None
        };
        proof {
            match r {
                Some(k) => {
                    assert(kind_ids(k) == (vid, pid));
                    let c = choose|c: Kind| kind_ids(c) == (vid, pid);
                    lemma_kind_ids_injective(c, k);
                },
                None => {
                    assert forall|k: Kind| kind_ids(k) != (vid, pid) by {
                        match k {
                            Kind::Akp03 => {},
                            Kind::Akp03E => {},
                            Kind::Akp03R => {},
                            Kind::Akp03ERev2 => {},
                            Kind::Akp03RRev2 => {},
                            Kind::MiraboxN36602_1000 => {},
                            Kind::MiraboxN36602_1002 => {},
                            Kind::MiraboxN36603_1002 => {},
                            Kind::MiraboxN36603_1003 => {},
                        }
                    }
                },
            }
        }
        r
    }

    pub fn human_name(&self) -> (name: &'static str)
        ensures
            name@ == kind_name(*self),
    {
        match self {
            Kind::Akp03 => "Ajazz AKP03",
            Kind::Akp03E => "Ajazz AKP03E",
            Kind::Akp03R => "Ajazz AKP03R",
            Kind::Akp03ERev2 => "Ajazz AKP03E (rev. 2)",
            Kind::Akp03RRev2 => "Ajazz AKP03R (rev. 2)",
            Kind::MiraboxN36602_1000 => "Mirabox N3 (6602:1000)",
            Kind::MiraboxN36602_1002 => "Mirabox N3 (6602:1002)",
            Kind::MiraboxN36603_1002 => "Mirabox N3 (6603:1002)",
            Kind::MiraboxN36603_1003 => "Mirabox N3 (6603:1003)",
        }
    }

    pub fn protocol_version(&self) -> (version: usize)
        ensures
            version == kind_protocol(*self),
    {
        match self {
            Kind::MiraboxN36603_1002 | Kind::MiraboxN36603_1003 => 3,
            Kind::Akp03ERev2 | Kind::Akp03RRev2 => 3,
            _ => 2,
        }
    }
}

/// Image encoding a device expects for its button screens.
#[derive(Debug, Clone, Copy, PartialEq, Eq, Structural)]
pub enum ImageMode {
    NoImage,
    BMP,
    JPEG,
}

/// Rotation applied to a button image before it is sent.
#[derive(Debug, Clone, Copy, PartialEq, Eq, Structural)]
pub enum ImageRotation {
    Rot0,
    Rot90,
    Rot180,
    Rot270,
}

/// Mirroring applied to a button image before it is sent.
#[derive(Debug, Clone, Copy, PartialEq, Eq, Structural)]
pub enum ImageMirroring {
    Unmirrored,
    X,
    Y,
    Both,
}

/// How a device wants its button images: encoding, pixel size (width,
/// height), rotation and mirroring.
#[derive(Debug, Clone, Copy)]
pub struct ImageFormat {
    pub mode: ImageMode,
    pub size: (usize, usize),
    pub rotation: ImageRotation,
    pub mirror: ImageMirroring,
}

/// Protocol 3 devices take 64x64 JPEGs rotated by 90 degrees; the others
/// take unrotated 60x60 JPEGs.
pub open spec fn kind_image_format(kind: Kind) -> ImageFormat {
    if kind_protocol(kind) == 3 {
        ImageFormat {
            mode: ImageMode::JPEG,
            size: (64, 64),
            rotation: ImageRotation::Rot90,
            mirror: ImageMirroring::Unmirrored,
        }
    } else {
        ImageFormat {
            mode: ImageMode::JPEG,
            size: (60, 60),
            rotation: ImageRotation::Rot0,
            mirror: ImageMirroring::Unmirrored,
        }
    }
}

impl Kind {
    pub fn image_format(&self) -> (format: ImageFormat)
        ensures
            format == kind_image_format(*self),
    {
        if self.protocol_version() == 3 {
            ImageFormat {
                mode: ImageMode::JPEG,
                size: (64, 64),
                rotation: ImageRotation::Rot90,
                mirror: ImageMirroring::Unmirrored,
            }
        } else {
            ImageFormat {
                mode: ImageMode::JPEG,
                size: (60, 60),
                rotation: ImageRotation::Rot0,
                mirror: ImageMirroring::Unmirrored,
            }
        }
    }
}

/// HID usage page the devices are queried by.
pub const HID_USAGE_PAGE: u16 = 65440;

/// HID usage id the devices are queried by.
pub const HID_USAGE_ID: u16 = 1;

/// The (VID, PID) pairs to query for, one per supported kind, in the order
/// of `all_kinds`.
pub fn supported_ids() -> (ids: Vec<(u16, u16)>)
    ensures
        ids@ == all_kinds().map_values(|k: Kind| kind_ids(k)),
{
    let ids = vec![
        (AJAZZ_VID, C_1001_PID),
        (AJAZZ_VID, C_1002_PID),
        (AJAZZ_VID, C_1003_PID),
        (AJAZZ_VID, C_3002_PID),
        (AJAZZ_VID, C_3003_PID),
        (MIRABOX_6602_VID, C_1000_PID),
        (MIRABOX_6602_VID, C_1002_PID),
        (MIRABOX_6603_VID, C_1002_PID),
        (MIRABOX_6603_VID, C_1003_PID),
    ];
    assert(ids@ =~= all_kinds().map_values(|k: Kind| kind_ids(k)));
    ids
}

/// The devices the query table asks for are exactly the devices
/// `from_vid_pid` recognises.
pub proof fn lemma_queries_match_recognition(vid: u16, pid: u16)
    ensures
        kind_of_ids(vid, pid) is Some <==> all_kinds().map_values(|k: Kind| kind_ids(k)).contains(
            (vid, pid),
        ),
        kind_of_ids(vid, pid) matches Some(k) ==> all_kinds().contains(k) && kind_ids(k) == (
        vid,
        pid,
        ),
{
    let table = all_kinds().map_values(|k: Kind| kind_ids(k));
    if kind_of_ids(vid, pid) is Some {
        let k = choose|k: Kind| kind_ids(k) == (vid, pid);
        let i: int = match k {
            Kind::Akp03 => 0,
            Kind::Akp03E => 1,
            Kind::Akp03R => 2,
            Kind::Akp03ERev2 => 3,
            Kind::Akp03RRev2 => 4,
            Kind::MiraboxN36602_1000 => 5,
            Kind::MiraboxN36602_1002 => 6,
            Kind::MiraboxN36603_1002 => 7,
            Kind::MiraboxN36603_1003 => 8,
        };
        assert(all_kinds()[i] == k);
        assert(table[i] == (vid, pid));
    } else {
        if table.contains((vid, pid)) {
            let i = choose|i: int| 0 <= i < table.len() && table[i] == (vid, pid);
            assert(kind_ids(all_kinds()[i]) == (vid, pid));
        }
    }
}

/// A connected device that matched a known kind.
#[derive(Debug, Clone)]
pub struct DiscoveredDevice {
    pub name: String,
    pub vid: u16,
    pub pid: u16,
}

/// The enumerated (VID, PID) pairs that belong to a supported kind, in
/// enumeration order.
pub open spec fn recognized(found: Seq<(u16, u16)>) -> Seq<(u16, u16)>
    decreases found.len(),
{
    if found.len() == 0 {
        Seq::empty()
    } else {
        let rest = recognized(found.drop_last());
        let last = found.last();
        if kind_of_ids(last.0, last.1) is Some {
            rest.push(last)
        } else {
            rest
        }
    }
}

/// `device` describes the supported device that enumerated as `ids`.
pub open spec fn describes(device: DiscoveredDevice, ids: (u16, u16)) -> bool {
    &&& kind_of_ids(ids.0, ids.1) is Some
    &&& device.vid == ids.0
    &&& device.pid == ids.1
    &&& device.name@ == kind_name(kind_of_ids(ids.0, ids.1)->0)
}

/// Lists the enumerated devices that match a known kind, named by their
/// kind; devices with unrecognised VID/PID pairs are skipped.
pub fn discovered_devices(found: &Vec<(u16, u16)>) -> (devices: Vec<DiscoveredDevice>)
    ensures
        devices.len() == recognized(found@).len(),
        forall|i: int|
            0 <= i < devices.len() ==> describes(#[trigger] devices@[i], recognized(found@)[i]),
{
    let mut devices: Vec<DiscoveredDevice> = Vec::new();
    let mut i: usize = 0;
    while i < found.len()
        invariant
            i <= found.len(),
            devices.len() == recognized(found@.take(i as int)).len(),
            forall|j: int|
                0 <= j < devices.len() ==> describes(
                    #[trigger] devices@[j],
                    recognized(found@.take(i as int))[j],
                ),
        decreases found.len() - i,
    {
        let (vid, pid) = found[i];
        assert(found@.take(i + 1).drop_last() =~= found@.take(i as int));
        match Kind::from_vid_pid(vid, pid) {
            Some(kind) => {
                let name = String::from_str(kind.human_name());
                devices.push(DiscoveredDevice { name, vid, pid });
            },
            None => {},
        }
        i = i + 1;
    }
    assert(found@.take(found.len() as int) =~= found@);
    devices
}

/// Index of the first enumerated device that matches a known kind.
pub fn first_supported(found: &Vec<(u16, u16)>) -> (index: Option<usize>)
    ensures
        index is None ==> forall|j: int|
            0 <= j < found.len() ==> kind_of_ids(#[trigger] found@[j].0, found@[j].1) is None,
        index matches Some(i) ==> {
            &&& i < found.len()
            &&& kind_of_ids(found@[i as int].0, found@[i as int].1) is Some
            &&& forall|j: int|
                0 <= j < i ==> kind_of_ids(#[trigger] found@[j].0, found@[j].1) is None
        },
{
    let mut i: usize = 0;
    while i < found.len()
        invariant
            i <= found.len(),
            forall|j: int| 0 <= j < i ==> kind_of_ids(#[trigger] found@[j].0, found@[j].1) is None,
        decreases found.len() - i,
    {
        let (vid, pid) = found[i];
        if Kind::from_vid_pid(vid, pid).is_some() {
            return Some(i);
        }
        i = i + 1;
    }
    None
}

/// A single button press or release reported by the device.
#[derive(Debug, Clone, Copy, PartialEq, Eq, Structural)]
pub enum ButtonEvent {
    Down(u8),
    Up(u8),
}

/// The device sent an input byte that does not belong to any button.
#[derive(Debug, Clone, Copy, PartialEq, Eq, Structural)]
pub enum InputError {
    BadData,
}

/// Which slot of the raw button-state table an input byte addresses: the six
/// screen buttons report 1..=6, the three plain buttons 0x25, 0x30 and 0x31
/// (slots 7, 8, 9), and 0 reports "all released" (slot 0, which no button
/// owns).
pub open spec fn button_slot(input: u8) -> Option<int> {
    if input <= 6 {
        Some(input as int)
    } else if input == 0x25 {
        Some(7)
    } else if input == 0x30 {
        Some(8)
    } else if input == 0x31 {
        Some(9)
    } else {
        None
    }
}

/// The button states that input `input` with state byte `state` reports:
/// the addressed button is pressed iff `state` is non-zero, every other
/// button is released.
pub open spec fn decoded_states(input: u8, state: u8) -> Result<Seq<bool>, InputError> {
    match button_slot(input) {
        Some(slot) => Ok(
            Seq::new(KEY_COUNT as nat, |i: int| i + 1 == slot && state != 0),
        ),
        None => Err(InputError::BadData),
    }
}

/// Maps raw (input, state) bytes to the state of each of the `KEY_COUNT`
/// buttons. Shared across the whole AKP03 family.
pub fn process_input(input: u8, state: u8) -> (states: Result<Vec<bool>, InputError>)
    ensures
        match (states, decoded_states(input, state)) {
            (Ok(v), Ok(s)) => v@ == s,
            (Err(e), Err(f)) => e == f,
            _ => false,
        },
{
    if input <= 6 || input == 0x25 || input == 0x30 || input == 0x31 {
        read_button_press(input, state)
    } else {
        Err(InputError::BadData)
    }
}

fn read_button_press(input: u8, state: u8) -> (states: Result<Vec<bool>, InputError>)
    ensures
        match (states, decoded_states(input, state)) {
            (Ok(v), Ok(s)) => v@ == s,
            (Err(e), Err(f)) => e == f,
            _ => false,
        },
{
    let mut button_states: Vec<u8> = vec![0u8; KEY_COUNT + 1];
    assert forall|i: int| 0 <= i < button_states.len() implies button_states@[i] == 0u8 by {
        assert(cloned(0u8, button_states@[i]));
    }

    if input == 0 {
        let states = to_bools(&button_states);
        assert(states@ =~= Seq::new(KEY_COUNT as nat, |i: int| i + 1 == 0 && state != 0));
        return Ok(states);
    }

    let pressed_index: usize = if 1 <= input && input <= 6 {
        input as usize
    } else if input == 0x25 {
        7
    } else if input == 0x30 {
        8
    } else if input == 0x31 {
        9
    } else {
        return Err(InputError::BadData);
    };

    button_states.set(pressed_index, state);

    let states = to_bools(&button_states);
    assert(states@ =~= Seq::new(
        KEY_COUNT as nat,
        |i: int| i + 1 == pressed_index as int && state != 0,
    ));
    Ok(states)
}

/// Reads the `KEY_COUNT` button states that follow slot 0 of a raw state
/// table: a button is pressed iff its byte is non-zero.
pub fn to_bools(states: &[u8]) -> (pressed: Vec<bool>)
    requires
        states.len() >= KEY_COUNT + 1,
    ensures
        pressed.len() == KEY_COUNT,
        forall|i: int| 0 <= i < KEY_COUNT ==> pressed@[i] == (states@[i + 1] != 0),
{
    let mut pressed: Vec<bool> = Vec::new();
    let mut i: usize = 0;
    while i < KEY_COUNT
        invariant
            i <= KEY_COUNT,
            states.len() >= KEY_COUNT + 1,
            pressed.len() == i,
            forall|j: int| 0 <= j < i ==> pressed@[j] == (states@[j + 1] != 0),
        decreases KEY_COUNT - i,
    {
        pressed.push(states[i + 1] != 0);
        i = i + 1;
    }
    pressed
}

/// The device that a connection goes to (the first enumerated one of a
/// supported kind) is the first device that discovery lists, and discovery
/// lists nothing exactly when there is no such device.
pub proof fn lemma_first_supported_is_first_discovered(found: Seq<(u16, u16)>, i: int)
    requires
        0 <= i < found.len(),
        kind_of_ids(found[i].0, found[i].1) is Some,
        forall|j: int| 0 <= j < i ==> kind_of_ids(#[trigger] found[j].0, found[j].1) is None,
    ensures
        recognized(found).len() > 0,
        recognized(found)[0] == found[i],
    decreases found.len(),
{
    if i < found.len() - 1 {
        lemma_first_supported_is_first_discovered(found.drop_last(), i);
        assert(found.drop_last()[i] == found[i]);
    } else {
        lemma_none_recognized(found.drop_last());
    }
}

/// A list of devices none of which is supported has nothing to discover.
pub proof fn lemma_none_recognized(found: Seq<(u16, u16)>)
    requires
        forall|j: int| 0 <= j < found.len() ==> kind_of_ids(#[trigger] found[j].0, found[j].1) is None,
    ensures
        recognized(found).len() == 0,
    decreases found.len(),
{
    if found.len() > 0 {
        assert forall|j: int| 0 <= j < found.drop_last().len() implies kind_of_ids(
            #[trigger] found.drop_last()[j].0,
            found.drop_last()[j].1,
        ) is None by {
            assert(found.drop_last()[j] == found[j]);
        }
        lemma_none_recognized(found.drop_last());
    }
}

/// Decoding never reports more than one pressed button, and the
/// "all released" input reports none.
pub proof fn lemma_at_most_one_pressed(input: u8, state: u8)
    ensures
        decoded_states(input, state) matches Ok(states) ==> {
            &&& states.len() == KEY_COUNT
            &&& forall|i: int, j: int|
                0 <= i < j < states.len() ==> !(#[trigger] states[i] && #[trigger] states[j])
            &&& input == 0 ==> forall|i: int| 0 <= i < states.len() ==> !#[trigger] states[i]
        },
{
}

/// Decoding by input byte: bytes 1..=6 press screen button `input - 1`,
/// bytes 0x25, 0x30 and 0x31 press the plain buttons 6, 7 and 8 (pressed
/// exactly when the state byte is non-zero, every other button released),
/// byte 0 releases all nine buttons, and every other byte is bad data.
pub proof fn lemma_decoding_by_input(input: u8, state: u8)
    ensures
        1 <= input <= 6 ==> decoded_states(input, state) == Ok::<Seq<bool>, InputError>(
            Seq::new(9, |i: int| i == input - 1 && state != 0),
        ),
        input == 0x25 ==> decoded_states(input, state) == Ok::<Seq<bool>, InputError>(
            Seq::new(9, |i: int| i == 6 && state != 0),
        ),
        input == 0x30 ==> decoded_states(input, state) == Ok::<Seq<bool>, InputError>(
            Seq::new(9, |i: int| i == 7 && state != 0),
        ),
        input == 0x31 ==> decoded_states(input, state) == Ok::<Seq<bool>, InputError>(
            Seq::new(9, |i: int| i == 8 && state != 0),
        ),
        input == 0 ==> decoded_states(input, state) == Ok::<Seq<bool>, InputError>(
            Seq::new(9, |i: int| false),
        ),
        !(input <= 6 || input == 0x25 || input == 0x30 || input == 0x31) ==> decoded_states(
            input,
            state,
        ) == Err::<Seq<bool>, InputError>(InputError::BadData),
{
    if 1 <= input <= 6 {
        assert(Seq::new(KEY_COUNT as nat, |i: int| i + 1 == input as int && state != 0) =~= Seq::new(
            9,
            |i: int| i == input - 1 && state != 0,
        ));
    }
    if input == 0x25 {
        assert(Seq::new(KEY_COUNT as nat, |i: int| i + 1 == 7 && state != 0) =~= Seq::new(
            9,
            |i: int| i == 6 && state != 0,
        ));
    }
    if input == 0x30 {
        assert(Seq::new(KEY_COUNT as nat, |i: int| i + 1 == 8 && state != 0) =~= Seq::new(
            9,
            |i: int| i == 7 && state != 0,
        ));
    }
    if input == 0x31 {
        assert(Seq::new(KEY_COUNT as nat, |i: int| i + 1 == 9 && state != 0) =~= Seq::new(
            9,
            |i: int| i == 8 && state != 0,
        ));
    }
    if input == 0 {
        assert(Seq::new(KEY_COUNT as nat, |i: int| i + 1 == 0 && state != 0) =~= Seq::new(
            9,
            |i: int| false,
        ));
    }
}

/// Reads the kind back from its product name.
spec fn kind_of_name(name: Seq<char>) -> Kind {
    if name.len() == 11 {
        Kind::Akp03
    } else if name.len() == 12 || name.len() == 21 {
        if name[11] == 'E' {
            if name.len() == 12 { Kind::Akp03E } else { Kind::Akp03ERev2 }
        } else {
            if name.len() == 12 { Kind::Akp03R } else { Kind::Akp03RRev2 }
        }
    } else if name[15] == '2' {
        if name[20] == '0' { Kind::MiraboxN36602_1000 } else { Kind::MiraboxN36602_1002 }
    } else {
        if name[20] == '2' { Kind::MiraboxN36603_1002 } else { Kind::MiraboxN36603_1003 }
    }
}

proof fn lemma_name_identifies_kind(k: Kind)
    ensures
        kind_of_name(kind_name(k)) == k,
{
    match k {
        Kind::Akp03 => { reveal_strlit("Ajazz AKP03"); },
        Kind::Akp03E => { reveal_strlit("Ajazz AKP03E"); },
        Kind::Akp03R => { reveal_strlit("Ajazz AKP03R"); },
        Kind::Akp03ERev2 => { reveal_strlit("Ajazz AKP03E (rev. 2)"); },
        Kind::Akp03RRev2 => { reveal_strlit("Ajazz AKP03R (rev. 2)"); },
        Kind::MiraboxN36602_1000 => { reveal_strlit("Mirabox N3 (6602:1000)"); },
        Kind::MiraboxN36602_1002 => { reveal_strlit("Mirabox N3 (6602:1002)"); },
        Kind::MiraboxN36603_1002 => { reveal_strlit("Mirabox N3 (6603:1002)"); },
        Kind::MiraboxN36603_1003 => { reveal_strlit("Mirabox N3 (6603:1003)"); },
    }
}

/// Every kind has its own product name, so a listed device is never shown
/// under the name of a different model; the AKP03 family names carry the
/// Ajazz brand and the model, the N3 names the VID:PID pair.
pub proof fn lemma_kind_names_distinct(a: Kind, b: Kind)
    ensures
        kind_name(a) == kind_name(b) ==> a == b,
        kind_name(Kind::Akp03) == "Ajazz AKP03"@,
        kind_name(Kind::Akp03E) == "Ajazz AKP03E"@,
        kind_name(Kind::Akp03R) == "Ajazz AKP03R"@,
        kind_name(Kind::Akp03ERev2) == "Ajazz AKP03E (rev. 2)"@,
        kind_name(Kind::Akp03RRev2) == "Ajazz AKP03R (rev. 2)"@,
        kind_name(Kind::MiraboxN36602_1000) == "Mirabox N3 (6602:1000)"@,
        kind_name(Kind::MiraboxN36602_1002) == "Mirabox N3 (6602:1002)"@,
        kind_name(Kind::MiraboxN36603_1002) == "Mirabox N3 (6603:1002)"@,
        kind_name(Kind::MiraboxN36603_1003) == "Mirabox N3 (6603:1003)"@,
{
    lemma_name_identifies_kind(a);
    lemma_name_identifies_kind(b);
}

/// Button the hardware test image is pushed to.
pub const TEST_PATTERN_BUTTON: u8 = 0;

/// Report after pushing the hardware test image to a device of kind `kind`.
pub fn test_pattern_message(kind: Kind) -> (message: String)
    ensures
        message@ == "Pushed test image to button 0 on "@ + kind_name(kind),
{
    String::from_str("Pushed test image to button 0 on ").concat(kind.human_name())
}

} // verus!
