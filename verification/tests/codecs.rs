use obd::{CoolantTemperature, Decode, Encode, EngineFuelRate, ObdError, VehicleSpeed};

#[test]
fn test_coolant_temperature() {
    let r1: i16 = CoolantTemperature::decode(&vec![0x7B]).unwrap().to_degrees();
    assert_eq!(r1, 83);

    let r2: Vec<u8> = CoolantTemperature::from_degrees(83).encode();
    assert_eq!(r2, vec![0x7B]);

    // Test round-trip
    let temperature: i16 = 91;
    let a1 = CoolantTemperature::from_degrees(temperature); // Make the custom object
    let b1 = a1.encode(); // Encode it as a byte-stream
    let c1 = CoolantTemperature::decode(&b1).unwrap(); // Decode the byte-stream
    let d1: i16 = c1.to_degrees(); // Convert it back to an integer
    assert_eq!(d1, temperature);

    // And round-trip the other way
    let encoded_temperature = vec![0xA4];
    let a2 = CoolantTemperature::decode(&encoded_temperature).unwrap(); // Decode the byte-stream
    let b2: i16 = a2.to_degrees(); // Convert it to an integer
    let c2 = CoolantTemperature::from_degrees(b2); // Make the custom object
    let d2 = c2.encode(); // Encode it as a byte-stream
    assert_eq!(d2, encoded_temperature);

    let r3: Vec<u8> = CoolantTemperature::from_degrees(300).encode();
    assert_eq!(r3, vec![0xFF]);

    let r4: Vec<u8> = CoolantTemperature::from_degrees(-300).encode();
    assert_eq!(r4, vec![0x00]);
}

#[test]
fn test_vehicle_speed() {
    let r1: u8 = VehicleSpeed::decode(&vec![0x7B]).unwrap().to_kmh();
    assert_eq!(r1, 123);

    let r2: Vec<u8> = VehicleSpeed::from_kmh(123).encode();
    assert_eq!(r2, vec![0x7B]);

    // Test round-trip
    let speed: u8 = 91;
    let a1 = VehicleSpeed::from_kmh(speed); // Make the custom object
    let b1 = a1.encode(); // Encode it as a byte-stream
    let c1 = VehicleSpeed::decode(&b1).unwrap(); // Decode the byte-stream
    let d1: u8 = c1.to_kmh(); // Convert it back to an integer
    assert_eq!(d1, speed);

    // And round-trip the other way
    let encoded_speed = vec![0xA4];
    let a2 = VehicleSpeed::decode(&encoded_speed).unwrap();
    let b2: u8 = a2.to_kmh();
    let c2 = VehicleSpeed::from_kmh(b2);
    let d2 = c2.encode();
    assert_eq!(d2, encoded_speed);
}

#[test]
fn test_engine_fuel_rate() {
    let r1: i64 = EngineFuelRate::decode(&vec![0x7B, 0x28]).unwrap().to_hundredths();
    assert_eq!(r1 as f32 / 100.0, 1576.4);

    let r2: Vec<u8> =
        EngineFuelRate::from_hundredths((1576.4_f32 * 100.0).round() as i64).encode();
    assert_eq!(r2, vec![0x7B, 0x28]);

    // Test round-trip
    let rate: f32 = 493.7;
    let a1 = EngineFuelRate::from_hundredths((rate * 100.0).round() as i64); // Make the custom object
    let b1 = a1.encode(); // Encode it as a byte-stream
    let c1 = EngineFuelRate::decode(&b1).unwrap(); // Decode the byte-stream
    let d1: f32 = c1.to_hundredths() as f32 / 100.0; // Convert it back to litres per hour
    assert_eq!(d1, rate);

    // And round-trip the other way
    let encoded_rate = vec![0xA4, 0x01];
    let a2 = EngineFuelRate::decode(&encoded_rate).unwrap(); // Decode the byte-stream
    let b2: f32 = a2.to_hundredths() as f32 / 100.0; // Convert it to litres per hour
    let c2 = EngineFuelRate::from_hundredths((b2 * 100.0).round() as i64); // Make the custom object
    let d2 = c2.encode(); // Encode it as a byte-stream
    assert_eq!(d2, encoded_rate);

    let r3: Vec<u8> =
        EngineFuelRate::from_hundredths((70000.0_f32 * 100.0).round() as i64).encode();
    assert_eq!(r3, vec![0xFF, 0xFF]);

    let r4: Vec<u8> =
        EngineFuelRate::from_hundredths((-10.0_f32 * 100.0).round() as i64).encode();
    assert_eq!(r4, vec![0x00, 0x00]);
}

#[test]
fn engine_fuel_rate_exact_scenario() {
    // 1576.4 L/h is 157640 hundredths; one raw unit is 5 hundredths.
    let encoded = EngineFuelRate::from_hundredths(157640).encode();
    assert_eq!(encoded, vec![0x7B, 0x28]);
    let decoded: i64 = EngineFuelRate::decode(&vec![0x7B, 0x28]).unwrap().to_hundredths();
    assert_eq!(decoded, 157640);
}

#[test]
fn coolant_clamps_at_both_bounds() {
    assert_eq!(
        CoolantTemperature::from_degrees(-41).encode(),
        CoolantTemperature::from_degrees(-40).encode()
    );
    assert_eq!(
        CoolantTemperature::from_degrees(216).encode(),
        CoolantTemperature::from_degrees(215).encode()
    );
    assert_eq!(CoolantTemperature::from_degrees(-40).encode(), vec![0x00]);
    assert_eq!(CoolantTemperature::from_degrees(215).encode(), vec![0xFF]);
}

#[test]
fn fuel_rate_clamps_at_both_bounds() {
    assert_eq!(
        EngineFuelRate::from_hundredths(-1).encode(),
        EngineFuelRate::from_hundredths(0).encode()
    );
    assert_eq!(
        EngineFuelRate::from_hundredths(327676).encode(),
        EngineFuelRate::from_hundredths(327675).encode()
    );
    assert_eq!(EngineFuelRate::from_hundredths(0).encode(), vec![0x00, 0x00]);
    assert_eq!(EngineFuelRate::from_hundredths(327675).encode(), vec![0xFF, 0xFF]);
}

#[test]
fn fuel_rate_rounds_to_nearest_raw_unit() {
    // 7 hundredths is nearer one raw unit (5) than two (10).
    assert_eq!(EngineFuelRate::from_hundredths(7).encode(), vec![0x00, 0x01]);
    // 8 hundredths is nearer two raw units.
    assert_eq!(EngineFuelRate::from_hundredths(8).encode(), vec![0x00, 0x02]);
    // The round trip deviates by at most two hundredths.
    let back: i64 = EngineFuelRate::decode(&EngineFuelRate::from_hundredths(7).encode())
        .unwrap()
        .to_hundredths();
    assert_eq!(back, 5);
}

#[test]
fn decode_rejects_wrong_widths() {
    assert_eq!(
        CoolantTemperature::decode(&vec![]).unwrap_err(),
        ObdError::InvalidLength
    );
    assert_eq!(
        CoolantTemperature::decode(&vec![0x01, 0x02]).unwrap_err(),
        ObdError::InvalidLength
    );
    assert_eq!(
        VehicleSpeed::decode(&vec![0x01, 0x02]).unwrap_err(),
        ObdError::InvalidLength
    );
    assert_eq!(
        EngineFuelRate::decode(&vec![0x01]).unwrap_err(),
        ObdError::InvalidLength
    );
    assert_eq!(
        EngineFuelRate::decode(&vec![0x01, 0x02, 0x03]).unwrap_err(),
        ObdError::InvalidLength
    );
}
