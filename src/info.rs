use vstd::prelude::*;

verus! {

/// Length in bytes of an advertisement payload that can be decoded.
pub const BEACON_LEN: usize = 27;

/// Why a payload could not be decoded.
#[derive(Debug, Clone, Copy, PartialEq, Eq, Structural)]
pub enum DecodeError {
    /// The payload is not exactly `BEACON_LEN` bytes long.
    InvalidLength,
    /// A battery nibble is neither a level in `0..=10` nor the marker `15`.
    InvalidBatteryLevel(u8),
}

/// The accessory that sent a payload; `Unknown` keeps an unlisted code as it came.
#[derive(Debug, Clone, Copy, PartialEq, Eq, Structural)]
pub enum AirpodsModel {
    Airpods1G,
    Airpods2G,
    AirpodsPro,
    AirpodsMax,
    PowerbeatsPro,
    BeatsX,
    BeatsFlex,
    BeatsSolo3,
    BeatsStudio3,
    Powerbeats3,
    Unknown(u8),
}

/// Battery levels in percent; `None` where the device has no reading.
#[derive(Debug, Clone, Copy, PartialEq, Eq, Structural)]
pub enum AirpodsBattery {
    Single { charge: Option<u8> },
    Pods { left: Option<u8>, right: Option<u8>, case: Option<u8> },
}

/// Which parts are charging.
#[derive(Debug, Clone, Copy, PartialEq, Eq, Structural)]
pub enum AirpodsCharging {
    Single(bool),
    Pods { left: bool, right: bool, case: bool },
}

/// Whether each earbud sits in an ear.
#[derive(Debug, Clone, Copy, PartialEq, Eq, Structural)]
pub struct AirpodsInEar {
    pub left: bool,
    pub right: bool,
}

/// One decoded advertisement.
#[derive(Debug, Clone, Copy, PartialEq, Eq, Structural)]
pub struct AirpodsInfo {
    pub battery: AirpodsBattery,
    pub charging: AirpodsCharging,
    pub ears: Option<AirpodsInEar>,
    pub model: AirpodsModel,
}

/// The model that a 4-bit model code names.
pub open spec fn model_of(c: u8) -> AirpodsModel {
    if c == 0x2 {
        AirpodsModel::Airpods1G
    } else if c == 0xF {
        AirpodsModel::Airpods2G
    } else if c == 0xE {
        AirpodsModel::AirpodsPro
    } else if c == 0xA {
        AirpodsModel::AirpodsMax
    } else if c == 0xB {
        AirpodsModel::PowerbeatsPro
    } else if c == 0x5 {
        AirpodsModel::BeatsX
    } else if c == 0x0 {
        AirpodsModel::BeatsFlex
    } else if c == 0x6 {
        AirpodsModel::BeatsSolo3
    } else if c == 0x9 {
        AirpodsModel::BeatsStudio3
    } else if c == 0x3 {
        AirpodsModel::Powerbeats3
    } else {
        AirpodsModel::Unknown(c)
    }
}

impl AirpodsModel {
    /// A single wearable unit, with no case and no left/right pair.
    pub open spec fn single(self) -> bool {
        match self {
            AirpodsModel::AirpodsMax
            | AirpodsModel::PowerbeatsPro
            | AirpodsModel::BeatsX
            | AirpodsModel::BeatsFlex
            | AirpodsModel::BeatsSolo3
            | AirpodsModel::BeatsStudio3
            | AirpodsModel::Powerbeats3 => true,
            _ => false,
        }
    }

    pub fn is_single(&self) -> (r: bool)
        ensures
            r == self.single(),
    {
        match self {
            AirpodsModel::AirpodsMax
            | AirpodsModel::PowerbeatsPro
            | AirpodsModel::BeatsX
            | AirpodsModel::BeatsFlex
            | AirpodsModel::BeatsSolo3
            | AirpodsModel::BeatsStudio3
            | AirpodsModel::Powerbeats3 => true,
            _ => false,
        }
    }
}

impl From<u8> for AirpodsModel {
    fn from(c: u8) -> (r: AirpodsModel)
        ensures
            r == model_of(c),
    {
        match c {
            0x2 => AirpodsModel::Airpods1G,
            0xF => AirpodsModel::Airpods2G,
            0xE => AirpodsModel::AirpodsPro,
            0xA => AirpodsModel::AirpodsMax,
            0xB => AirpodsModel::PowerbeatsPro,
            0x5 => AirpodsModel::BeatsX,
            0x0 => AirpodsModel::BeatsFlex,
            0x6 => AirpodsModel::BeatsSolo3,
            0x9 => AirpodsModel::BeatsStudio3,
            0x3 => AirpodsModel::Powerbeats3,
            _ => AirpodsModel::Unknown(c),
        }
    }
}

impl vstd::std_specs::convert::FromSpecImpl<u8> for AirpodsModel {
    open spec fn obeys_from_spec() -> bool {
        true
    }

    open spec fn from_spec(c: u8) -> AirpodsModel {
        model_of(c)
    }
}

/// The 4-bit point `point` of a payload: the high nibble of byte `point / 2`
/// for an even point, the low nibble for an odd one.
pub open spec fn point_of(data: Seq<u8>, point: int) -> u8 {
    if point % 2 == 0 {
        data[point / 2] >> 4u8
    } else {
        data[point / 2] & 0x0Fu8
    }
}

/// Whether bit `bit` of a nibble is set.
pub open spec fn bit_set(nibble: u8, bit: u8) -> bool {
    nibble & (1u8 << bit) != 0
}

/// What a battery nibble reads as: a level in tens of percent, or no reading.
pub open spec fn battery_level(n: u8) -> Result<Option<u8>, DecodeError> {
    if n <= 10 {
        Ok(Some((n * 10) as u8))
    } else if n == 15 {
        Ok(None)
    } else {
        Err(DecodeError::InvalidBatteryLevel(n))
    }
}

/// The payload reports left and right the wrong way round.
pub open spec fn flipped_of(data: Seq<u8>) -> bool {
    point_of(data, 10) & 0x02u8 == 0
}

/// The model named at point 7.
pub open spec fn model_at(data: Seq<u8>) -> AirpodsModel {
    model_of(point_of(data, 7))
}

/// Battery readings; left is read before right, and right before the case,
/// so the first bad nibble in that order is the one reported.
pub open spec fn battery_of(data: Seq<u8>, model: AirpodsModel) -> Result<AirpodsBattery, DecodeError> {
    if model.single() {
        match battery_level(point_of(data, 15)) {
            Ok(charge) => Ok(AirpodsBattery::Single { charge }),
            Err(e) => Err(e),
        }
    } else {
        match battery_level(point_of(data, 12)) {
            Err(e) => Err(e),
            Ok(l) => match battery_level(point_of(data, 13)) {
                Err(e) => Err(e),
                Ok(r) => match battery_level(point_of(data, 15)) {
                    Err(e) => Err(e),
                    Ok(case) => if flipped_of(data) {
                        Ok(AirpodsBattery::Pods { left: r, right: l, case })
                    } else {
                        Ok(AirpodsBattery::Pods { left: l, right: r, case })
                    },
                },
            },
        }
    }
}

/// Charging flags from point 14.
pub open spec fn charging_of(data: Seq<u8>, model: AirpodsModel) -> AirpodsCharging {
    let n = point_of(data, 14);
    if model.single() {
        AirpodsCharging::Single(bit_set(n, 0))
    } else if flipped_of(data) {
        AirpodsCharging::Pods { left: bit_set(n, 1), right: bit_set(n, 0), case: bit_set(n, 2) }
    } else {
        AirpodsCharging::Pods { left: bit_set(n, 0), right: bit_set(n, 1), case: bit_set(n, 2) }
    }
}

/// In-ear flags from point 11; none for a single unit.
pub open spec fn ears_of(data: Seq<u8>, model: AirpodsModel) -> Option<AirpodsInEar> {
    let n = point_of(data, 11);
    if model.single() {
        None
    } else if flipped_of(data) {
        Some(AirpodsInEar { left: bit_set(n, 3), right: bit_set(n, 1) })
    } else {
        Some(AirpodsInEar { left: bit_set(n, 1), right: bit_set(n, 3) })
    }
}

/// The meaning of a whole payload.
pub open spec fn decode(data: Seq<u8>) -> Result<AirpodsInfo, DecodeError> {
    if data.len() != BEACON_LEN {
        Err(DecodeError::InvalidLength)
    } else {
        let model = model_at(data);
        match battery_of(data, model) {
            Err(e) => Err(e),
            Ok(battery) => Ok(AirpodsInfo {
                battery,
                charging: charging_of(data, model),
                ears: ears_of(data, model),
                model,
            }),
        }
    }
}

impl AirpodsInfo {
    /// The layout of battery, charging and ears agrees with the model.
    pub open spec fn shape_matches_model(self) -> bool {
        if self.model.single() {
            self.battery is Single && self.charging is Single && self.ears is None
        } else {
            self.battery is Pods && self.charging is Pods && self.ears is Some
        }
    }

    /// Decodes a manufacturer-data payload.
    pub fn parse_from_beacon(data: &[u8]) -> (r: Result<AirpodsInfo, DecodeError>)
        ensures
            r == decode(data@),
            data@.len() != BEACON_LEN ==> r == Err::<AirpodsInfo, DecodeError>(DecodeError::InvalidLength),
            r matches Ok(info) ==> info.shape_matches_model(),
    {
        if data.len() != BEACON_LEN {
            return Err(DecodeError::InvalidLength);
        }
        let model = Self::model(data);
        let battery = match Self::battery(data, model) {
            Ok(b) => b,
            Err(e) => return Err(e),
        };
        let charging = Self::charging(data, model);
        let ears = Self::ears(data, model);
        Ok(AirpodsInfo { battery, charging, ears, model })
    }

    pub fn flipped(data: &[u8]) -> (r: bool)
        requires
            data@.len() == BEACON_LEN,
        ensures
            r == flipped_of(data@),
    {
        Self::get_point(data, 10) & 0x02 == 0
    }

    pub fn model(data: &[u8]) -> (r: AirpodsModel)
        requires
            data@.len() == BEACON_LEN,
        ensures
            r == model_at(data@),
    {
        AirpodsModel::from(Self::get_point(data, 7))
    }

    pub fn battery(data: &[u8], model: AirpodsModel) -> (r: Result<AirpodsBattery, DecodeError>)
        requires
            data@.len() == BEACON_LEN,
        ensures
            r == battery_of(data@, model),
    {
        if model.is_single() {
            let charge = match Self::get_battery(Self::get_point(data, 15)) {
                Ok(c) => c,
                Err(e) => return Err(e),
            };
            Ok(AirpodsBattery::Single { charge })
        } else {
            let mut left = match Self::get_battery(Self::get_point(data, 12)) {
                Ok(c) => c,
                Err(e) => return Err(e),
            };
            let mut right = match Self::get_battery(Self::get_point(data, 13)) {
                Ok(c) => c,
                Err(e) => return Err(e),
            };
            let case = match Self::get_battery(Self::get_point(data, 15)) {
                Ok(c) => c,
                Err(e) => return Err(e),
            };
            if Self::flipped(data) {
                let t = left;
                left = right;
                right = t;
            }
            Ok(AirpodsBattery::Pods { left, right, case })
        }
    }

    pub fn charging(data: &[u8], model: AirpodsModel) -> (r: AirpodsCharging)
        requires
            data@.len() == BEACON_LEN,
        ensures
            r == charging_of(data@, model),
    {
        let byte = Self::get_point(data, 14);
        if model.is_single() {
            let charging = byte & (1 << 0) != 0;
            AirpodsCharging::Single(charging)
        } else {
            let mut left = byte & (1 << 0) != 0;
            let mut right = byte & (1 << 1) != 0;
            let case = byte & (1 << 2) != 0;
            if Self::flipped(data) {
                let t = left;
                left = right;
                right = t;
            }
            AirpodsCharging::Pods { left, right, case }
        }
    }

    pub fn ears(data: &[u8], model: AirpodsModel) -> (r: Option<AirpodsInEar>)
        requires
            data@.len() == BEACON_LEN,
        ensures
            r == ears_of(data@, model),
    {
        if model.is_single() {
            None
        } else {
            let byte = Self::get_point(data, 11);
            let mut left = byte & (1 << 1) != 0;
            let mut right = byte & (1 << 3) != 0;
            if Self::flipped(data) {
                let t = left;
                left = right;
                right = t;
            }
            Some(AirpodsInEar { left, right })
        }
    }

    /// Reads point `point`: see `point_of`.
    pub fn get_point(data: &[u8], point: usize) -> (r: u8)
        requires
            point / 2 < data@.len(),
        ensures
            r == point_of(data@, point as int),
            r < 16,
    {
        let offset = point / 2;
        let byte = data[offset];
        if point % 2 != 0 {
            assert(byte & 0x0Fu8 < 16) by (bit_vector);
            byte & 0x0F
        } else {
            assert(byte >> 4u8 < 16) by (bit_vector);
            byte >> 4
        }
    }

    /// Reads a battery nibble: `0..=10` are tens of percent, `15` is no reading.
    pub fn get_battery(batt: u8) -> (r: Result<Option<u8>, DecodeError>)
        ensures
            r == battery_level(batt),
            batt <= 10 ==> r == Ok::<Option<u8>, DecodeError>(Some((batt * 10) as u8)),
            batt == 15 ==> r == Ok::<Option<u8>, DecodeError>(None),
            11 <= batt <= 14 ==> r == Err::<Option<u8>, DecodeError>(DecodeError::InvalidBatteryLevel(batt)),
    {
        if batt <= 10 {
            Ok(Some(batt * 10))
        } else if batt == 15 {
            Ok(None)
        } else {
            Err(DecodeError::InvalidBatteryLevel(batt))
        }
    }
}

/// Decoding depends on the bytes alone: equal payloads decode to equal results.
pub proof fn lemma_decode_deterministic(a: Seq<u8>, b: Seq<u8>)
    requires
        a == b,
    ensures
        decode(a) == decode(b),
{
}

/// A payload of any length other than `BEACON_LEN` is refused as such.
pub proof fn lemma_wrong_length_refused(data: Seq<u8>)
    requires
        data.len() != BEACON_LEN,
    ensures
        decode(data) == Err::<AirpodsInfo, DecodeError>(DecodeError::InvalidLength),
{
}

/// A decoded single unit has one battery, one charging flag and no ears; any
/// other model has a left/right/case layout and ear flags.
pub proof fn lemma_layout_follows_model(data: Seq<u8>)
    requires
        decode(data) is Ok,
    ensures
        decode(data)->Ok_0.model.single() ==> (decode(data)->Ok_0.battery is Single
            && decode(data)->Ok_0.charging is Single && decode(data)->Ok_0.ears is None),
        !decode(data)->Ok_0.model.single() ==> (decode(data)->Ok_0.battery is Pods
            && decode(data)->Ok_0.charging is Pods && decode(data)->Ok_0.ears is Some),
{
}

/// Each battery nibble has one meaning: `n` in `0..=10` is `n * 10` percent,
/// `15` is no reading, and `11..=14` are refused.
pub proof fn lemma_battery_nibbles(n: u8)
    ensures
        n <= 10 ==> battery_level(n) == Ok::<Option<u8>, DecodeError>(Some((n * 10) as u8)),
        n == 15 ==> battery_level(n) == Ok::<Option<u8>, DecodeError>(None),
        11 <= n <= 14 ==> battery_level(n) == Err::<Option<u8>, DecodeError>(
            DecodeError::InvalidBatteryLevel(n),
        ),
{
}

/// Payload `b` is payload `a` with the orientation corrected by hand: the flip
/// bit that is set in `a` is clear in `b`, and for a left/right model the left
/// and right battery nibbles, charging bits and ear bits are exchanged.
pub open spec fn swapped_by_hand(a: Seq<u8>, b: Seq<u8>) -> bool {
    &&& a.len() == BEACON_LEN
    &&& b.len() == BEACON_LEN
    &&& flipped_of(a)
    &&& !flipped_of(b)
    &&& point_of(b, 7) == point_of(a, 7)
    &&& point_of(b, 15) == point_of(a, 15)
    &&& bit_set(point_of(b, 14), 2) == bit_set(point_of(a, 14), 2)
    &&& if model_at(a).single() {
        bit_set(point_of(b, 14), 0) == bit_set(point_of(a, 14), 0)
    } else {
        &&& point_of(b, 12) == point_of(a, 13)
        &&& point_of(b, 13) == point_of(a, 12)
        &&& bit_set(point_of(b, 14), 0) == bit_set(point_of(a, 14), 1)
        &&& bit_set(point_of(b, 14), 1) == bit_set(point_of(a, 14), 0)
        &&& bit_set(point_of(b, 11), 1) == bit_set(point_of(a, 11), 3)
        &&& bit_set(point_of(b, 11), 3) == bit_set(point_of(a, 11), 1)
    }
}

/// Correcting the orientation by hand gives what the flip bit gives: a payload
/// with the flip bit set decodes exactly as the same payload with its left and
/// right fields exchanged and the flip bit cleared.
pub proof fn lemma_flip_self_inverse(a: Seq<u8>, b: Seq<u8>)
    requires
        swapped_by_hand(a, b),
        decode(a) is Ok,
    ensures
        decode(b) == decode(a),
{
}

} // verus!
