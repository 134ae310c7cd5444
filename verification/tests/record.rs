use framer::{decode, encode, Error, CAPACITY};
use serde::de::{Deserialize, Deserializer, MapAccess, Visitor};
use serde::ser::{Serialize, SerializeStruct, Serializer};

#[derive(Debug, PartialEq)]
struct TestStruct {
    x: i32,
    y: i32,
}

impl Serialize for TestStruct {
    fn serialize<S: Serializer>(&self, serializer: S) -> Result<S::Ok, S::Error> {
        let mut record = serializer.serialize_struct("TestStruct", 2)?;
        record.serialize_field("x", &self.x)?;
        record.serialize_field("y", &self.y)?;
        record.end()
    }
}

struct TestStructVisitor;

impl<'de> Visitor<'de> for TestStructVisitor {
    type Value = TestStruct;

    fn expecting(&self, formatter: &mut std::fmt::Formatter) -> std::fmt::Result {
        formatter.write_str("a record with the fields x and y")
    }

    fn visit_map<A: MapAccess<'de>>(self, mut map: A) -> Result<TestStruct, A::Error> {
        let mut x: Option<i32> = None;
        let mut y: Option<i32> = None;
        while let Some(key) = map.next_key::<&str>()? {
            match key {
                "x" => x = Some(map.next_value()?),
                "y" => y = Some(map.next_value()?),
                _ => return Err(serde::de::Error::unknown_field(key, &["x", "y"])),
            }
        }
        let x = x.ok_or_else(|| serde::de::Error::missing_field("x"))?;
        let y = y.ok_or_else(|| serde::de::Error::missing_field("y"))?;
        Ok(TestStruct { x, y })
    }
}

impl<'de> Deserialize<'de> for TestStruct {
    fn deserialize<D: Deserializer<'de>>(deserializer: D) -> Result<TestStruct, D::Error> {
        deserializer.deserialize_struct("TestStruct", &["x", "y"], TestStructVisitor)
    }
}

/// Serializes the record as JSON and frames it.
fn encode_record(record: &TestStruct, output: &mut [u8]) -> usize {
    let mut buf: [u8; CAPACITY] = [0; CAPACITY];
    let n = serde_json_core::to_slice(record, &mut buf).unwrap();
    encode(&buf[..n], output).unwrap()
}

fn parse_record(bytes: &[u8]) -> Option<TestStruct> {
    serde_json_core::from_slice::<TestStruct>(bytes).ok().map(|(record, _)| record)
}

/// Opens a frame and reads its payload as a JSON record.
fn decode_record(source: &[u8]) -> Result<TestStruct, Error> {
    decode(source, parse_record)
}

/// The frame of `{"x":10,"y":10}`.
const RECORD_FRAME: [u8; 21] = [
    20, 123, 34, 120, 34, 58, 49, 48, 44, 34, 121, 34, 58, 49, 48, 125, 211, 192, 83, 126, 0,
];

#[test]
fn test_encode() {
    let test_struct = TestStruct { x: 10, y: 10 };
    let mut cobs_data: [u8; 1024] = [0; 1024];
    let n = encode_record(&test_struct, &mut cobs_data);
    assert!(n > 0);
    assert_eq!(cobs_data[n - 1], 0);
    assert!(cobs_data[..n - 1].iter().all(|byte| *byte != 0));
}

#[test]
fn test_roundtrip() {
    let test_struct = TestStruct { x: 10, y: 10 };
    let mut cobs_data: [u8; 1024] = [0; 1024];
    let n = encode_record(&test_struct, &mut cobs_data);
    assert!(n > 0);
    let res = decode_record(&cobs_data);
    assert_eq!(res.unwrap(), TestStruct { x: 10, y: 10 });
}

#[test]
fn record_frame_has_the_documented_layout() {
    let mut output: [u8; 1024] = [0xAA; 1024];
    let n = encode_record(&TestStruct { x: 10, y: 10 }, &mut output);
    assert_eq!(n, 21);
    assert_eq!(&output[..n], &RECORD_FRAME[..]);
}

#[test]
fn record_round_trips_from_the_exact_frame() {
    let mut output: [u8; 64] = [0xAA; 64];
    let n = encode_record(&TestStruct { x: -7, y: 2_000_000 }, &mut output);
    assert_eq!(decode_record(&output[..n]), Ok(TestStruct { x: -7, y: 2_000_000 }));
}

#[test]
fn known_record_frame_decodes() {
    assert_eq!(decode_record(&RECORD_FRAME), Ok(TestStruct { x: 10, y: 10 }));
}

#[test]
fn encoding_a_record_twice_gives_the_same_bytes() {
    let mut first: [u8; 1024] = [0; 1024];
    let mut second: [u8; 1024] = [0xFF; 1024];
    let n = encode_record(&TestStruct { x: 10, y: 10 }, &mut first);
    let m = encode_record(&TestStruct { x: 10, y: 10 }, &mut second);
    assert_eq!(n, m);
    assert_eq!(&first[..n], &second[..m]);
}

#[test]
fn flipped_checksum_bit_is_crc_invalid() {
    // The checksum stands in the four bytes in front of the terminator.
    for position in 16..20 {
        for bit in 0..8 {
            let mut frame = RECORD_FRAME;
            frame[position] ^= 1 << bit;
            assert_ne!(frame[position], 0);
            assert_eq!(decode_record(&frame), Err(Error::CrcInvalid));
        }
    }
}

#[test]
fn mutated_payload_byte_never_decodes() {
    for position in 1..16 {
        for bit in 0..8 {
            let mut frame = RECORD_FRAME;
            frame[position] ^= 1 << bit;
            assert_ne!(frame[position], 0);
            let res = decode_record(&frame);
            assert!(matches!(res, Err(Error::CrcInvalid) | Err(Error::JsonDecode)));
        }
    }
}

#[test]
fn payload_that_is_not_json_is_json_decode() {
    let mut output: [u8; 64] = [0; 64];
    let n = encode(b"not json at all", &mut output).unwrap();
    assert_eq!(decode_record(&output[..n]), Err(Error::JsonDecode));
}

#[test]
fn payload_of_another_shape_is_json_decode() {
    let mut output: [u8; 64] = [0; 64];
    let n = encode(b"{\"x\":10}", &mut output).unwrap();
    assert_eq!(decode_record(&output[..n]), Err(Error::JsonDecode));
    let n = encode(b"[10,10]", &mut output).unwrap();
    assert_eq!(decode_record(&output[..n]), Err(Error::JsonDecode));
}

#[test]
fn unparsable_payload_is_reported_before_a_bad_checksum() {
    let mut output: [u8; 64] = [0; 64];
    let n = encode(b"not json at all", &mut output).unwrap();
    output[n - 2] ^= 0x40;
    assert_eq!(decode_record(&output[..n]), Err(Error::JsonDecode));
}

#[test]
fn invalid_stuffing_is_cobs_decode_for_a_record() {
    // The first byte announces more bytes than stand in front of the zero.
    assert_eq!(decode_record(&[20, 123, 34, 0, 34, 58]), Err(Error::CobsDecode));
    assert_eq!(decode_record(&[]), Err(Error::CobsDecode));
}
