use sensor_node::payload::{
    bytes_to_word, order_of_layout, word_to_bytes, ByteOrder, TelemetryPayload, PAYLOAD_LEN,
    PROBE_WORD,
};
use sensor_node::reading::SensorReading;

fn reading_of(temperature: f32, humidity: f32) -> SensorReading {
    SensorReading::new(temperature.to_bits(), humidity.to_bits())
}

fn machine_is_little_endian() -> bool {
    u16::from_ne_bytes([1, 0]) == 1
}

#[test]
fn payload_holds_temperature_then_humidity_little_endian() {
    let reading = reading_of(23.4, 55.2);
    let payload = TelemetryPayload::encode(&reading, ByteOrder::Little);
    let mut expected = Vec::new();
    expected.extend_from_slice(&23.4f32.to_le_bytes());
    expected.extend_from_slice(&55.2f32.to_le_bytes());
    assert_eq!(payload.as_bytes().to_vec(), expected);
    assert_eq!(payload.as_bytes().len(), PAYLOAD_LEN);
}

#[test]
fn payload_holds_temperature_then_humidity_big_endian() {
    let reading = reading_of(-12.75, 99.9);
    let payload = TelemetryPayload::encode(&reading, ByteOrder::Big);
    let mut expected = Vec::new();
    expected.extend_from_slice(&(-12.75f32).to_be_bytes());
    expected.extend_from_slice(&99.9f32.to_be_bytes());
    assert_eq!(payload.as_bytes().to_vec(), expected);
}

#[test]
fn payload_bytes_of_a_known_reading() {
    // 1.0 is 0x3F800000, 2.0 is 0x40000000
    let reading = reading_of(1.0, 2.0);
    assert_eq!(
        TelemetryPayload::encode(&reading, ByteOrder::Little).bytes,
        [0x00, 0x00, 0x80, 0x3F, 0x00, 0x00, 0x00, 0x40]
    );
    assert_eq!(
        TelemetryPayload::encode(&reading, ByteOrder::Big).bytes,
        [0x3F, 0x80, 0x00, 0x00, 0x40, 0x00, 0x00, 0x00]
    );
}

#[test]
fn native_payload_is_the_concatenated_native_bytes() {
    let temperature = 23.4f32;
    let humidity = 55.2f32;
    let expected = [&temperature.to_ne_bytes()[..], &humidity.to_ne_bytes()[..]].concat();
    let payload = TelemetryPayload::encode(&reading_of(temperature, humidity), ByteOrder::native());
    assert_eq!(payload.as_bytes().to_vec(), expected);
}

#[test]
fn native_order_is_the_order_of_this_machine() {
    let expected = if machine_is_little_endian() { ByteOrder::Little } else { ByteOrder::Big };
    assert_eq!(ByteOrder::native(), expected);
}

#[test]
fn layout_of_the_probe_word_names_its_order() {
    assert_eq!(order_of_layout(&PROBE_WORD.to_le_bytes()), Some(ByteOrder::Little));
    assert_eq!(order_of_layout(&PROBE_WORD.to_be_bytes()), Some(ByteOrder::Big));
    assert_eq!(order_of_layout(&[1, 2, 3, 5]), None);
    assert_eq!(order_of_layout(&[2, 1, 4, 3]), None);
}

#[test]
fn round_trip_restores_finite_pairs_exactly() {
    let samples = [
        0.0f32,
        -0.0,
        1.0,
        -1.0,
        23.4,
        55.2,
        19.9,
        12.0,
        30.0,
        -40.0,
        f32::MIN_POSITIVE,
        f32::MAX,
        f32::MIN,
        f32::EPSILON,
        1.0e-45,
        3.1415927,
    ];
    for order in [ByteOrder::Little, ByteOrder::Big] {
        for &temperature in &samples {
            for &humidity in &samples {
                let payload = TelemetryPayload::encode(&reading_of(temperature, humidity), order);
                let bytes = *payload.as_bytes();
                let decoded = TelemetryPayload::from_bytes(bytes).decode(order);
                assert_eq!(decoded.temperature_bits, temperature.to_bits());
                assert_eq!(decoded.humidity_bits, humidity.to_bits());
                assert_eq!(f32::from_bits(decoded.temperature_bits).to_bits(), temperature.to_bits());
            }
        }
    }
}

#[test]
fn round_trip_of_the_native_bytes_restores_the_floats() {
    let payload = TelemetryPayload::encode(&reading_of(23.4, 55.2), ByteOrder::native());
    let bytes = payload.as_bytes();
    let temperature = f32::from_ne_bytes([bytes[0], bytes[1], bytes[2], bytes[3]]);
    let humidity = f32::from_ne_bytes([bytes[4], bytes[5], bytes[6], bytes[7]]);
    assert_eq!(temperature, 23.4);
    assert_eq!(humidity, 55.2);
}

#[test]
fn decoding_in_the_other_order_reverses_each_word() {
    let reading = SensorReading::new(0x0102_0304, 0xA0B0_C0D0);
    let payload = TelemetryPayload::encode(&reading, ByteOrder::Little);
    let swapped = payload.decode(ByteOrder::Big);
    assert_eq!(swapped.temperature_bits, 0x0403_0201);
    assert_eq!(swapped.humidity_bits, 0xD0C0_B0A0);
}

#[test]
fn words_and_bytes_convert_both_ways() {
    assert_eq!(word_to_bytes(0x1234_5678, ByteOrder::Little), 0x1234_5678u32.to_le_bytes());
    assert_eq!(word_to_bytes(0x1234_5678, ByteOrder::Big), 0x1234_5678u32.to_be_bytes());
    assert_eq!(bytes_to_word(&[0x78, 0x56, 0x34, 0x12], ByteOrder::Little), 0x1234_5678);
    assert_eq!(bytes_to_word(&[0x78, 0x56, 0x34, 0x12], ByteOrder::Big), 0x7856_3412);
    assert_eq!(bytes_to_word(&[0xFF; 4], ByteOrder::Big), u32::MAX);
}
