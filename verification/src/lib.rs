use vstd::prelude::*;

pub mod util;

verus! {

/// A byte-stream encoded value
pub type ObdValue = Vec<u8>;

/// A byte-stream encoded query message
pub type ObdQuery = Vec<u8>;

/// A byte-stream encoded response message
pub type ObdResponse = Vec<u8>;

/// Every way an operation of this layer can fail.
#[derive(Clone, Copy, Debug, PartialEq, Eq, Structural)]
pub enum ObdError {
    /// The mode byte is not in the table of known parameters.
    UnknownMode,
    /// The mode is known, but the parameter id is not known under it.
    UnknownParameter,
    /// The supplied value does not carry the kind of quantity the matched
    /// parameter's codec expects.
    TypeMismatch,
    /// A decode or parse call received a byte sequence of the wrong width.
    InvalidLength,
}

/// Convert internal representation into a byte-stream
pub trait Encode {
    /// The wire bytes this value encodes to.
    spec fn wire(&self) -> Seq<u8>;

    fn encode(&self) -> (r: ObdValue)
        ensures
            r@ == self.wire(),
    ;
}

/// Convert byte-stream into internal representation
pub trait Decode: Sized {
    /// The fixed number of wire bytes a value of this parameter occupies.
    spec fn wire_width() -> nat;

    /// The value carried by a byte sequence of the declared width.
    spec fn decoded(b: Seq<u8>) -> Self
        recommends
            b.len() == Self::wire_width(),
    ;

    fn decode(value: &ObdValue) -> (r: Result<Self, ObdError>)
        ensures
            value@.len() == Self::wire_width() ==> r == Ok::<Self, ObdError>(
                Self::decoded(value@),
            ),
            value@.len() != Self::wire_width() ==> r == Err::<Self, ObdError>(
                ObdError::InvalidLength,
            ),
    ;
}

/// Coolant temperature in degrees Celsius: one wire byte, the temperature
/// offset by 40 so that the range -40..215 fits an unsigned byte.
#[derive(Debug)]
pub struct CoolantTemperature {
    pub value: u8,
}

impl CoolantTemperature {
    /// The raw wire byte this value holds.
    pub open spec fn raw(self) -> u8 {
        self.value
    }

    /// The temperature in degrees Celsius that the raw byte stands for.
    pub open spec fn degrees(self) -> int {
        self.value - 40
    }

    /// The value that encodes a temperature of `v` degrees Celsius, after
    /// saturation into -40..215.
    pub open spec fn of_degrees(v: int) -> CoolantTemperature {
        CoolantTemperature { value: (util::clamp(-40, 215, v) + 40) as u8 }
    }

    /// Builds the value for a temperature in degrees Celsius, saturating
    /// into the representable range -40..215.
    pub fn from_degrees(value: i16) -> (r: CoolantTemperature)
        ensures
            r == Self::of_degrees(value as int),
    {
        let capped = util::bound(-40, 215, value as i64);
        CoolantTemperature { value: (capped + 40) as u8 }
    }

    /// Reads the value back as degrees Celsius.
    pub fn to_degrees(&self) -> (r: i16)
        ensures
            r == self.degrees(),
    {
        self.value as i16 - 40
    }
}

impl Encode for CoolantTemperature {
    open spec fn wire(&self) -> Seq<u8> {
        seq![self.value]
    }

    fn encode(&self) -> (r: ObdValue) {
        let r = vec![self.value];
        proof {
            assert(r@ =~= self.wire());
        }
        r
    }
}

impl Decode for CoolantTemperature {
    open spec fn wire_width() -> nat {
        1
    }

    open spec fn decoded(b: Seq<u8>) -> CoolantTemperature {
        CoolantTemperature { value: b[0] }
    }

    fn decode(value: &ObdValue) -> (r: Result<CoolantTemperature, ObdError>) {
        if value.len() == 1 {
            Ok(CoolantTemperature { value: value[0] })
        } else {
            Err(ObdError::InvalidLength)
        }
    }
}

/// Vehicle speed in km/h: one wire byte holding the speed itself.
#[derive(Debug)]
pub struct VehicleSpeed {
    pub value: u8,
}

impl VehicleSpeed {
    /// The raw wire byte this value holds.
    pub open spec fn raw(self) -> u8 {
        self.value
    }

    /// The value that encodes a speed of `v` km/h.
    pub open spec fn of_kmh(v: u8) -> VehicleSpeed {
        VehicleSpeed { value: v }
    }

    /// Builds the value for a speed in km/h; every unsigned byte is in range.
    pub fn from_kmh(value: u8) -> (r: VehicleSpeed)
        ensures
            r == Self::of_kmh(value),
    {
        VehicleSpeed { value }
    }

    /// Reads the value back as km/h.
    pub fn to_kmh(&self) -> (r: u8)
        ensures
            r == self.raw(),
    {
        self.value
    }
}

impl Encode for VehicleSpeed {
    open spec fn wire(&self) -> Seq<u8> {
        seq![self.value]
    }

    fn encode(&self) -> (r: ObdValue) {
        let r = vec![self.value];
        proof {
            assert(r@ =~= self.wire());
        }
        r
    }
}

impl Decode for VehicleSpeed {
    open spec fn wire_width() -> nat {
        1
    }

    open spec fn decoded(b: Seq<u8>) -> VehicleSpeed {
        VehicleSpeed { value: b[0] }
    }

    fn decode(value: &ObdValue) -> (r: Result<VehicleSpeed, ObdError>) {
        if value.len() == 1 {
            Ok(VehicleSpeed { value: value[0] })
        } else {
            Err(ObdError::InvalidLength)
        }
    }
}

/// Greatest representable fuel rate, in hundredths of a litre per hour:
/// 3276.75 L/h, the top of the two-byte raw range at a scale of 20 per unit.
pub const FUEL_RATE_MAX_HUNDREDTHS: i64 = 327675;

/// Engine fuel rate in litres per hour: two big-endian wire bytes holding
/// the rate scaled by 20, so one raw unit is 1/20 L/h. Engineering values
/// are carried as whole hundredths of a litre per hour.
#[derive(Debug)]
pub struct EngineFuelRate {
    pub value: u16,
}

impl EngineFuelRate {
    /// The raw two-byte quantity this value holds: the rate in twentieths
    /// of a litre per hour.
    pub open spec fn raw(self) -> u16 {
        self.value
    }

    /// The rate in hundredths of a litre per hour that the raw quantity
    /// stands for: exact, since one raw unit is five hundredths.
    pub open spec fn hundredths(self) -> int {
        self.value * 5
    }

    /// The raw quantity that encodes a rate of `v` hundredths of a litre per
    /// hour: saturated into the representable range, then rounded to the
    /// nearest multiple of five hundredths.
    pub open spec fn raw_of_hundredths(v: int) -> u16 {
        ((util::clamp(0, FUEL_RATE_MAX_HUNDREDTHS as int, v) + 2) / 5) as u16
    }

    /// The value that encodes a rate of `v` hundredths of a litre per hour.
    pub open spec fn of_hundredths(v: int) -> EngineFuelRate {
        EngineFuelRate { value: Self::raw_of_hundredths(v) }
    }

    /// Builds the value for a rate in hundredths of a litre per hour,
    /// saturating into 0..=327675 and rounding to the nearest raw unit.
    pub fn from_hundredths(value: i64) -> (r: EngineFuelRate)
        ensures
            r == Self::of_hundredths(value as int),
    {
        let capped = util::bound(0, FUEL_RATE_MAX_HUNDREDTHS, value);
        let scaled: u32 = ((capped as u32) + 2) / 5;
        EngineFuelRate { value: scaled as u16 }
    }

    /// Reads the value back as hundredths of a litre per hour.
    pub fn to_hundredths(&self) -> (r: i64)
        ensures
            r == self.hundredths(),
    {
        self.value as i64 * 5
    }
}

impl Encode for EngineFuelRate {
    open spec fn wire(&self) -> Seq<u8> {
        util::be_bytes_of_u16(self.value)
    }

    fn encode(&self) -> (r: ObdValue) {
        let bytes = util::transform_u16_to_array_of_u8(self.value);
        let r = vec![bytes[0], bytes[1]];
        proof {
            assert(r@ =~= self.wire());
        }
        r
    }
}

impl Decode for EngineFuelRate {
    open spec fn wire_width() -> nat {
        2
    }

    open spec fn decoded(b: Seq<u8>) -> EngineFuelRate {
        EngineFuelRate { value: util::u16_of_be_bytes(b) }
    }

    fn decode(value: &ObdValue) -> (r: Result<EngineFuelRate, ObdError>) {
        if value.len() == 2 {
            let raw = util::transform_array_of_u8_to_u16([value[0], value[1]]);
            proof {
                assert(value@ =~= seq![value@[0], value@[1]]);
            }
            Ok(EngineFuelRate { value: raw })
        } else {
            Err(ObdError::InvalidLength)
        }
    }
}

/// An engineering value tagged with the kind of quantity it carries, as a
/// transport collaborator would hand it in. The dispatcher checks the tag
/// against what the matched parameter's codec expects.
#[derive(Clone, Copy, Debug, PartialEq, Eq, Structural)]
pub enum ObdInput {
    /// A temperature in degrees Celsius, for CoolantTemperature.
    Temperature(i16),
    /// A speed in km/h, for VehicleSpeed.
    Speed(u8),
    /// A fuel rate in hundredths of a litre per hour, for EngineFuelRate.
    FuelRate(i64),
}

/// The mode every parameter of the static table lives under: "show current
/// data".
pub const MODE_CURRENT_DATA: u8 = 0x01;

/// Parameter id of coolant temperature under `MODE_CURRENT_DATA`.
pub const PID_COOLANT_TEMPERATURE: u8 = 0x05;

/// Parameter id of vehicle speed under `MODE_CURRENT_DATA`.
pub const PID_VEHICLE_SPEED: u8 = 0x0D;

/// Parameter id of engine fuel rate under `MODE_CURRENT_DATA`.
pub const PID_ENGINE_FUEL_RATE: u8 = 0x5E;

/// Whether the static table knows this parameter id under the known mode.
pub open spec fn known_pid(pid: u8) -> bool {
    pid == PID_COOLANT_TEMPERATURE || pid == PID_VEHICLE_SPEED || pid == PID_ENGINE_FUEL_RATE
}

/// Encode the value for a given mode and PID: the bytes of the matched
/// parameter's codec, or the error that says why no codec matched.
pub fn encode_pid(mode: u8, pid: u8, value: &ObdInput) -> (r: Result<ObdValue, ObdError>)
    ensures
        mode != MODE_CURRENT_DATA ==> r == Err::<ObdValue, ObdError>(ObdError::UnknownMode),
        mode == MODE_CURRENT_DATA && !known_pid(pid) ==> r == Err::<ObdValue, ObdError>(
            ObdError::UnknownParameter,
        ),
        mode == MODE_CURRENT_DATA && pid == PID_COOLANT_TEMPERATURE ==> (match *value {
            ObdInput::Temperature(v) => r matches Ok(b) && b@ == CoolantTemperature::of_degrees(
                v as int,
            ).wire(),
            _ => r == Err::<ObdValue, ObdError>(ObdError::TypeMismatch),
        }),
        mode == MODE_CURRENT_DATA && pid == PID_VEHICLE_SPEED ==> (match *value {
            ObdInput::Speed(v) => r matches Ok(b) && b@ == VehicleSpeed::of_kmh(v).wire(),
            _ => r == Err::<ObdValue, ObdError>(ObdError::TypeMismatch),
        }),
        mode == MODE_CURRENT_DATA && pid == PID_ENGINE_FUEL_RATE ==> (match *value {
            ObdInput::FuelRate(v) => r matches Ok(b) && b@ == EngineFuelRate::of_hundredths(
                v as int,
            ).wire(),
            _ => r == Err::<ObdValue, ObdError>(ObdError::TypeMismatch),
        }),
{
    if mode == MODE_CURRENT_DATA {
        if pid == PID_COOLANT_TEMPERATURE {
            match value {
                ObdInput::Temperature(v) => Ok(CoolantTemperature::from_degrees(*v).encode()),
                _ => Err(ObdError::TypeMismatch),
            }
        } else if pid == PID_VEHICLE_SPEED {
            match value {
                ObdInput::Speed(v) => Ok(VehicleSpeed::from_kmh(*v).encode()),
                _ => Err(ObdError::TypeMismatch),
            }
        } else if pid == PID_ENGINE_FUEL_RATE {
            match value {
                ObdInput::FuelRate(v) => Ok(EngineFuelRate::from_hundredths(*v).encode()),
                _ => Err(ObdError::TypeMismatch),
            }
        } else {
            Err(ObdError::UnknownParameter)
        }
    } else {
        Err(ObdError::UnknownMode)
    }
}

/// The offset a response's mode byte carries over the query's, marking
/// "this is an answer".
pub const RESPONSE_MODE_OFFSET: u8 = 0x40;

/// The wire form of a query: the mode byte, then the parameter id.
pub open spec fn query_wire(mode: u8, pid: u8) -> Seq<u8> {
    seq![mode, pid]
}

/// The wire form of a response: the query's mode offset by 0x40, the
/// parameter id, then the payload verbatim.
pub open spec fn response_wire(mode: u8, pid: u8, payload: Seq<u8>) -> Seq<u8>
    recommends
        mode + RESPONSE_MODE_OFFSET <= u8::MAX,
{
    seq![(mode + RESPONSE_MODE_OFFSET) as u8, pid] + payload
}

/// Given a mode and pid, create the byte-stream to send
pub fn encode_query(mode: u8, pid: u8) -> (r: Result<ObdQuery, ObdError>)
    ensures
        r matches Ok(q) && q@ == query_wire(mode, pid),
{
    let q = vec![mode, pid];
    proof {
        assert(q@ =~= query_wire(mode, pid));
    }
    Ok(q)
}

/// Given a byte-stream query, work out what it means
pub fn decode_query(query: &ObdQuery) -> (r: Result<(u8, u8), ObdError>)
    ensures
        query@.len() == 2 ==> r == Ok::<(u8, u8), ObdError>((query@[0], query@[1])),
        query@.len() != 2 ==> r == Err::<(u8, u8), ObdError>(ObdError::InvalidLength),
{
    if query.len() == 2 {
        Ok((query[0], query[1]))
    } else {
        Err(ObdError::InvalidLength)
    }
}

/// Given a query and appropriate data to return, construct the byte-stream
pub fn construct_reponse(query: &ObdQuery, data: &ObdValue) -> (r: Result<ObdResponse, ObdError>)
    requires
        query@.len() >= 2,
        query@[0] + RESPONSE_MODE_OFFSET <= u8::MAX,
    ensures
        r matches Ok(resp) && resp@ == response_wire(query@[0], query@[1], data@),
{
    let mut response = vec![query[0] + RESPONSE_MODE_OFFSET, query[1]];
    let mut i: usize = 0;
    while i < data.len()
        invariant
            i <= data@.len(),
            response@ == seq![
                (query@[0] + RESPONSE_MODE_OFFSET) as u8,
                query@[1],
            ] + data@.subrange(0, i as int),
        decreases data@.len() - i,
    {
        response.push(data[i]);
        i += 1;
        proof {
            assert(data@.subrange(0, i as int) =~= data@.subrange(0, i - 1) + seq![
                data@[i - 1],
            ]);
        }
    }
    proof {
        assert(data@.subrange(0, data@.len() as int) =~= data@);
    }
    Ok(response)
}

/// Given a byte-stream response, extract the header and encoded value
pub fn parse_reponse(response: &ObdResponse) -> (r: Result<(u8, u8, ObdValue), ObdError>)
    requires
        response@.len() >= 2 ==> response@[0] >= RESPONSE_MODE_OFFSET,
    ensures
        response@.len() < 2 ==> r == Err::<(u8, u8, ObdValue), ObdError>(ObdError::InvalidLength),
        response@.len() >= 2 ==> (r matches Ok(t) && t.0 == (response@[0]
            - RESPONSE_MODE_OFFSET) as u8 && t.1 == response@[1] && t.2@ == response@.subrange(
            2,
            response@.len() as int,
        )),
{
    if response.len() < 2 {
        return Err(ObdError::InvalidLength);
    }
    let mode = response[0] - RESPONSE_MODE_OFFSET;
    let pid = response[1];
    let mut value: ObdValue = Vec::new();
    let mut i: usize = 2;
    while i < response.len()
        invariant
            2 <= i <= response@.len(),
            value@ == response@.subrange(2, i as int),
        decreases response@.len() - i,
    {
        value.push(response[i]);
        i += 1;
        proof {
            assert(response@.subrange(2, i as int) =~= response@.subrange(2, i - 1) + seq![
                response@[i - 1],
            ]);
        }
    }
    Ok((mode, pid, value))
}

/// The nearest multiple of five to `x` (for non-negative `x`): what a fuel
/// rate in hundredths becomes once it is squeezed through the raw encoding.
pub open spec fn nearest_five(x: int) -> int {
    ((x + 2) / 5) * 5
}

/// Encoding the value a one-byte wire sequence decodes to yields that
/// sequence again: coolant temperature loses nothing on the wire.
pub proof fn lemma_coolant_wire_round_trip(b: Seq<u8>)
    requires
        b.len() == 1,
    ensures
        CoolantTemperature::decoded(b).wire() == b,
{
    assert(CoolantTemperature::decoded(b).wire() =~= b);
}

/// Encoding the value a one-byte wire sequence decodes to yields that
/// sequence again: vehicle speed loses nothing on the wire.
pub proof fn lemma_speed_wire_round_trip(b: Seq<u8>)
    requires
        b.len() == 1,
    ensures
        VehicleSpeed::decoded(b).wire() == b,
{
    assert(VehicleSpeed::decoded(b).wire() =~= b);
}

/// Encoding the value a two-byte wire sequence decodes to yields that
/// sequence again: engine fuel rate loses nothing on the wire either, since
/// the decoded rate is a whole number of raw units.
pub proof fn lemma_fuel_wire_round_trip(b: Seq<u8>)
    requires
        b.len() == 2,
    ensures
        EngineFuelRate::decoded(b).wire() == b,
{
    util::lemma_u16_round_trip(b);
}

/// Decoding what a coolant temperature encodes to returns the temperature
/// saturated into -40..215, exactly.
pub proof fn lemma_coolant_value_round_trip(v: int)
    ensures
        CoolantTemperature::decoded(CoolantTemperature::of_degrees(v).wire()).degrees()
            == util::clamp(-40, 215, v),
{
}

/// Decoding what a vehicle speed encodes to returns the speed, exactly.
pub proof fn lemma_speed_value_round_trip(v: u8)
    ensures
        VehicleSpeed::decoded(VehicleSpeed::of_kmh(v).wire()).raw() == v,
{
}

/// Decoding what a fuel rate encodes to returns the rate saturated into
/// 0..=327675 hundredths and rounded to the nearest raw unit: off by at most
/// two hundredths, which is under the 1/20 L/h that one raw unit spans.
pub proof fn lemma_fuel_value_round_trip(v: int)
    ensures
        EngineFuelRate::decoded(EngineFuelRate::of_hundredths(v).wire()).hundredths()
            == nearest_five(util::clamp(0, FUEL_RATE_MAX_HUNDREDTHS as int, v)),
        -2 <= EngineFuelRate::decoded(EngineFuelRate::of_hundredths(v).wire()).hundredths()
            - util::clamp(0, FUEL_RATE_MAX_HUNDREDTHS as int, v) <= 2,
{
    let raw = EngineFuelRate::raw_of_hundredths(v);
    util::lemma_be_bytes_round_trip(raw);
}

/// Every temperature at or below the bottom of the range encodes as the
/// bottom does, and every one at or above the top as the top does.
pub proof fn lemma_coolant_encode_saturates(v: int)
    ensures
        v <= -40 ==> CoolantTemperature::of_degrees(v) == CoolantTemperature::of_degrees(-40),
        v >= 215 ==> CoolantTemperature::of_degrees(v) == CoolantTemperature::of_degrees(215),
{
}

/// Every fuel rate at or below zero encodes as zero does, and every one at
/// or above the top of the range as the top does.
pub proof fn lemma_fuel_encode_saturates(v: int)
    ensures
        v <= 0 ==> EngineFuelRate::of_hundredths(v) == EngineFuelRate::of_hundredths(0),
        v >= FUEL_RATE_MAX_HUNDREDTHS ==> EngineFuelRate::of_hundredths(v)
            == EngineFuelRate::of_hundredths(FUEL_RATE_MAX_HUNDREDTHS as int),
{
}

/// A built query parses back to the mode and parameter id it was built
/// from: its wire form is exactly two bytes, the mode first.
pub proof fn lemma_query_round_trip(mode: u8, pid: u8)
    ensures
        query_wire(mode, pid).len() == 2,
        query_wire(mode, pid)[0] == mode,
        query_wire(mode, pid)[1] == pid,
{
}

/// A built response parses back to the mode, parameter id and payload it
/// was built from: its first byte carries the answer mark, and the payload
/// follows the two header bytes verbatim.
pub proof fn lemma_response_round_trip(mode: u8, pid: u8, payload: Seq<u8>)
    requires
        mode + RESPONSE_MODE_OFFSET <= u8::MAX,
    ensures
        response_wire(mode, pid, payload).len() == 2 + payload.len(),
        response_wire(mode, pid, payload)[0] >= RESPONSE_MODE_OFFSET,
        (response_wire(mode, pid, payload)[0] - RESPONSE_MODE_OFFSET) as u8 == mode,
        response_wire(mode, pid, payload)[1] == pid,
        response_wire(mode, pid, payload).subrange(
            2,
            response_wire(mode, pid, payload).len() as int,
        ) == payload,
{
    assert(response_wire(mode, pid, payload).subrange(
        2,
        response_wire(mode, pid, payload).len() as int,
    ) =~= payload);
}

} // verus!


