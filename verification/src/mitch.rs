//! The Mitch sensor: its Bluetooth identifiers, its commands and its data.

use vstd::prelude::*;

verus! {

/// The characteristic that takes commands, as the number its UUID spells.
pub const COMMAND_CHAR: u128 = 0xd5913036_2d8a_41ee_85b9_4e361aa5c8a7;

/// The characteristic that notifies of data, as the number its UUID spells.
pub const DATA_CHAR: u128 = 0x09bf2c52_d1d9_c0b7_4145_475964544307;

/// The service that holds both characteristics, as the number its UUID spells.
pub const SERVICE: u128 = 0xc8c0a708_e361_4b5e_a365_98fa6b0a836f;

/// The commands that are written to a device.
#[derive(Debug, Clone, Copy, PartialEq, Eq, Structural)]
pub enum Commands {
    StartPressureStream,
    GetPower,
}

/// The bytes of each command.
#[derive(Debug, PartialEq, Eq)]
pub struct CommandFrames {
    pub start_pressure_stream: Vec<u8>,
    pub get_power: Vec<u8>,
}

impl CommandFrames {
    /// The bytes to write for `command`.
    pub fn frame(&self, command: Commands) -> (bytes: &Vec<u8>)
        ensures
            *bytes == (match command {
                Commands::StartPressureStream => self.start_pressure_stream,
                Commands::GetPower => self.get_power,
            }),
    {
        match command {
            Commands::StartPressureStream => &self.start_pressure_stream,
            Commands::GetPower => &self.get_power,
        }
    }
}

/// A stream that is opened for the data of a device.
#[derive(Debug, PartialEq, Eq)]
pub struct StreamSpec {
    pub name: String,
    pub stream_type: String,
    pub channel_count: u32,
    /// Samples of 16 bit integers in a second.
    pub rate_hz: u32,
    pub source_id: String,
    pub chunk_size: i32,
    pub max_buffered: i32,
}

/// The stream of a device with this name.
pub open spec fn is_stream_of(stream: StreamSpec, name: String) -> bool {
    &&& stream.name == name
    &&& stream.stream_type@ == "Pressure"@
    &&& stream.channel_count == 16
    &&& stream.rate_hz == 50
    &&& stream.source_id == name
    &&& stream.chunk_size == 1
    &&& stream.max_buffered == 360
}

/// The stream of a device with this name.
pub fn stream_of(name: &String) -> (stream: StreamSpec)
    ensures
        is_stream_of(stream, *name),
{
    StreamSpec {
        name: name.clone(),
        stream_type: "Pressure".to_string(),
        channel_count: 16,
        rate_hz: 50,
        source_id: name.clone(),
        chunk_size: 1,
        max_buffered: 360,
    }
}

/// Whether a reply to `GetPower` is long enough to hold what it announces: an
/// error code in the fourth byte and, where that is zero, the charge after it.
pub open spec fn power_reply_complete(reply: Seq<u8>) -> bool {
    reply.len() > 3 && (reply[3] == 0 ==> reply.len() > 4)
}

/// The charge that a reply to `GetPower` holds.
pub open spec fn charge_in(reply: Seq<u8>) -> Option<u8> {
    if reply[3] == 0 {
        Some(reply[4])
    } else {
        None
    }
}

/// Whether a reply to `GetPower` is complete.
pub fn is_power_reply(reply: &Vec<u8>) -> (complete: bool)
    ensures
        complete == power_reply_complete(reply@),
{
    reply.len() > 3 && (reply[3] != 0 || reply.len() > 4)
}

/// The charge that a reply to `GetPower` holds, or `None` where the device
/// reported an error.
pub fn battery_charge(reply: &Vec<u8>) -> (charge: Option<u8>)
    requires
        power_reply_complete(reply@),
    ensures
        charge == charge_in(reply@),
{
    if reply[3] == 0 {
        Some(reply[4])
    } else {
        None
    }
}

/// The number of bytes that stand before the values in a data packet.
pub const PACKET_HEADER: usize = 4;

/// The values in a data packet, one for each byte after the header.
pub open spec fn byte_values(data: Seq<u8>) -> Seq<i16> {
    data.skip(PACKET_HEADER as int).map_values(|b: u8| b as i16)
}

/// The values in a data packet, one for each byte after the header. A packet
/// that is shorter than the header holds none.
pub fn byte_sample(data: &Vec<u8>) -> (sample: Option<Vec<i16>>)
    ensures
        match sample {
            Some(values) => data@.len() >= PACKET_HEADER && values@ == byte_values(data@),
            None => data@.len() < PACKET_HEADER,
        },
{
    if data.len() < PACKET_HEADER {
        return None;
    }
    let mut values: Vec<i16> = Vec::new();
    let mut i: usize = PACKET_HEADER;
    while i < data.len()
        invariant
            PACKET_HEADER <= i <= data@.len(),
            values@.len() == i - PACKET_HEADER,
            forall|j: int| 0 <= j < values@.len() ==> values@[j] == data@[PACKET_HEADER + j] as i16,
        decreases data@.len() - i,
    {
        values.push(data[i] as i16);
        i = i + 1;
    }
    assert(values@ =~= byte_values(data@));
    Some(values)
}

/// The number that two bytes spell, the low byte first, in two's complement.
pub open spec fn le_value(low: u8, high: u8) -> int {
    let unsigned = low + 256 * high;
    if high < 128 {
        unsigned
    } else {
        unsigned - 65536
    }
}

/// The number that two bytes spell, the low byte first, in two's complement.
pub fn le_i16(low: u8, high: u8) -> (value: i16)
    ensures
        value == le_value(low, high),
{
    let unsigned: i32 = low as i32 + 256 * (high as i32);
    if high < 128 {
        unsigned as i16
    } else {
        (unsigned - 65536) as i16
    }
}

/// The number of bytes that a data packet of three words has at least.
pub const WORD_PACKET: usize = 10;

/// The three words of a data packet, as they follow the header.
pub open spec fn word_values(data: Seq<u8>) -> Seq<i16> {
    seq![
        le_value(data[4], data[5]) as i16,
        le_value(data[6], data[7]) as i16,
        le_value(data[8], data[9]) as i16,
    ]
}

/// The three words of a data packet, as they follow the header.
pub fn word_sample(data: &Vec<u8>) -> (sample: Vec<i16>)
    requires
        data@.len() >= WORD_PACKET,
    ensures
        sample@ == word_values(data@),
{
    let mut sample: Vec<i16> = Vec::new();
    sample.push(le_i16(data[4], data[5]));
    sample.push(le_i16(data[6], data[7]));
    sample.push(le_i16(data[8], data[9]));
    sample
}

/// Whether `index` is the first position at which `wanted` stands.
pub open spec fn is_first_uuid(listed: Seq<u128>, wanted: u128, index: int) -> bool {
    &&& 0 <= index < listed.len()
    &&& listed[index] == wanted
    &&& forall|i: int| 0 <= i < index ==> listed[i] != wanted
}

/// The first position at which `wanted` stands.
pub fn find_uuid(listed: &Vec<u128>, wanted: u128) -> (found: Option<usize>)
    ensures
        match found {
            Some(index) => is_first_uuid(listed@, wanted, index as int),
            None => !listed@.contains(wanted),
        },
{
    let mut i: usize = 0;
    while i < listed.len()
        invariant
            i <= listed@.len(),
            forall|j: int| 0 <= j < i ==> listed@[j] != wanted,
        decreases listed@.len() - i,
    {
        if listed[i] == wanted {
            return Some(i);
        }
        i = i + 1;
    }
    None
}

/// Each command has bytes of its own.
pub proof fn lemma_frames(frames: &CommandFrames, command: Commands, bytes: &Vec<u8>)
    requires
        call_ensures(CommandFrames::frame, (frames, command), bytes),
    ensures
        call_requires(CommandFrames::frame, (frames, command)),
        command is StartPressureStream ==> *bytes == frames.start_pressure_stream,
        command is GetPower ==> *bytes == frames.get_power,
{
}

/// A device's stream goes by the device's name, as its own name and as its
/// source. It carries pressures on sixteen channels, fifty times in a second.
pub proof fn lemma_stream(name: &String, stream: StreamSpec)
    requires
        call_ensures(stream_of, (name,), stream),
    ensures
        call_requires(stream_of, (name,)),
        stream.name@ == name@,
        stream.source_id@ == name@,
        stream.stream_type@ == "Pressure"@,
        stream.channel_count == 16,
        stream.rate_hz == 50,
        stream.chunk_size == 1,
        stream.max_buffered == 360,
{
}

/// A reply to `GetPower` is complete where it has five bytes, or has four of
/// which the last is an error code. The charge can be read out of every one that
/// is complete.
pub proof fn lemma_complete_power_reply(reply: &Vec<u8>, complete: bool)
    requires
        call_ensures(is_power_reply, (reply,), complete),
    ensures
        call_requires(is_power_reply, (reply,)),
        reply@.len() >= 5 ==> complete,
        reply@.len() == 4 ==> complete == (reply@[3] != 0),
        reply@.len() <= 3 ==> !complete,
        complete ==> call_requires(battery_charge, (reply,)),
{
}

/// The charge is the fifth byte of the reply, whatever it is, where the fourth is
/// zero, and there is none where the fourth is anything else. No other byte
/// matters.
pub proof fn lemma_charge_is_the_fifth_byte(reply: &Vec<u8>, charge: Option<u8>)
    requires
        call_ensures(battery_charge, (reply,), charge),
    ensures
        reply@[3] == 0 ==> charge == Some(reply@[4]),
        reply@[3] != 0 ==> charge is None,
{
}

/// A packet of at least four bytes is a sample with one value for each byte after
/// the fourth, and the value is the byte as a number from 0 to 255. A shorter one
/// is no sample.
pub proof fn lemma_byte_sample(data: &Vec<u8>, sample: Option<Vec<i16>>)
    requires
        call_ensures(byte_sample, (data,), sample),
    ensures
        call_requires(byte_sample, (data,)),
        sample is Some <==> data@.len() >= 4,
        sample matches Some(values) ==> {
            &&& values@.len() == data@.len() - 4
            &&& forall|i: int| 4 <= i < data@.len() ==> values@[i - 4] as int == #[trigger] data@[i]
        },
{
}

/// Two bytes are a number that leaves the bytes' own number, the low one first,
/// when it is taken modulo 65536.
pub proof fn lemma_le_i16(low: u8, high: u8, value: i16)
    requires
        call_ensures(le_i16, (low, high), value),
    ensures
        call_requires(le_i16, (low, high)),
        value as int % 65536 == low + 256 * high,
        value < 0 <==> high >= 128,
{
}

/// A packet of at least ten bytes is three values, each of two bytes after the
/// fourth, the low one first, in two's complement. Neither the first four bytes
/// nor those from the eleventh on matter, nor how many there are.
pub proof fn lemma_word_sample(data: &Vec<u8>, sample: Vec<i16>)
    requires
        data@.len() >= 10,
        call_ensures(word_sample, (data,), sample),
    ensures
        call_requires(word_sample, (data,)),
        sample@.len() == 3,
        forall|k: int|
            0 <= k < 3 ==> (#[trigger] sample@[k]) as int == data@[4 + 2 * k] + 256 * data@[5 + 2
                * k] - if data@[5 + 2 * k] >= 128 {
                65536int
            } else {
                0
            },
{
}

/// A UUID is found exactly where it is listed, at the first place where it is.
pub proof fn lemma_find_uuid(listed: &Vec<u128>, wanted: u128, found: Option<usize>)
    requires
        call_ensures(find_uuid, (listed, wanted), found),
    ensures
        call_requires(find_uuid, (listed, wanted)),
        found is Some <==> listed@.contains(wanted),
        found matches Some(i) ==> i < listed@.len() && listed@[i as int] == wanted
            && !listed@.take(i as int).contains(wanted),
{
    if let Some(i) = found {
        assert(listed@[i as int] == wanted);
        assert forall|j: int| 0 <= j < i implies listed@.take(i as int)[j] != wanted by {
            assert(listed@[j] != wanted);
        }
    }
}

} // verus!
