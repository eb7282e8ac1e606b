use vstd::prelude::*;
use crate::info::{AirpodsBattery, AirpodsCharging, AirpodsInEar, AirpodsInfo, AirpodsModel};

verus! {

/// A model as published to local readers: an unlisted code becomes `Unknown`
/// without its raw value.
#[derive(Debug, Clone, Copy, PartialEq, Eq, Structural)]
pub enum DbusAirpodsModel {
    Airpods1G,
    Airpods2G,
    AirpodsPro,
    AirpodsMax,
    PowerbeatsPro,
    BeatsX,
    BeatsFlex,
    BeatsSolo3,
    BeatsStudio3,
    Powerbeats3,
    Unknown,
}

/// Battery levels as published: `single` for a single unit, the other three
/// for a left/right model, the rest left empty.
#[derive(Debug, Clone, Copy, PartialEq, Eq, Structural)]
pub struct DbusAirpodsBattery {
    pub single: Option<u8>,
    pub left: Option<u8>,
    pub right: Option<u8>,
    pub case: Option<u8>,
}

/// Charging flags as published, laid out as `DbusAirpodsBattery`.
#[derive(Debug, Clone, Copy, PartialEq, Eq, Structural)]
pub struct DbusAirpodsCharging {
    pub single: Option<bool>,
    pub left: Option<bool>,
    pub right: Option<bool>,
    pub case: Option<bool>,
}

/// A whole snapshot as published.
#[derive(Debug, Clone, Copy, PartialEq, Eq, Structural)]
pub struct DbusAirpodsInfo {
    pub battery: DbusAirpodsBattery,
    pub charging: DbusAirpodsCharging,
    pub ears: Option<AirpodsInEar>,
    pub model: DbusAirpodsModel,
}

pub open spec fn dbus_model(m: AirpodsModel) -> DbusAirpodsModel {
    match m {
        AirpodsModel::Airpods1G => DbusAirpodsModel::Airpods1G,
        AirpodsModel::Airpods2G => DbusAirpodsModel::Airpods2G,
        AirpodsModel::AirpodsPro => DbusAirpodsModel::AirpodsPro,
        AirpodsModel::AirpodsMax => DbusAirpodsModel::AirpodsMax,
        AirpodsModel::PowerbeatsPro => DbusAirpodsModel::PowerbeatsPro,
        AirpodsModel::BeatsX => DbusAirpodsModel::BeatsX,
        AirpodsModel::BeatsFlex => DbusAirpodsModel::BeatsFlex,
        AirpodsModel::BeatsSolo3 => DbusAirpodsModel::BeatsSolo3,
        AirpodsModel::BeatsStudio3 => DbusAirpodsModel::BeatsStudio3,
        AirpodsModel::Powerbeats3 => DbusAirpodsModel::Powerbeats3,
        AirpodsModel::Unknown(_) => DbusAirpodsModel::Unknown,
    }
}

pub open spec fn dbus_battery(b: AirpodsBattery) -> DbusAirpodsBattery {
    match b {
        AirpodsBattery::Single { charge } => DbusAirpodsBattery {
            single: charge,
            left: None,
            right: None,
            case: None,
        },
        AirpodsBattery::Pods { left, right, case } => DbusAirpodsBattery {
            single: None,
            left,
            right,
            case,
        },
    }
}

pub open spec fn dbus_charging(c: AirpodsCharging) -> DbusAirpodsCharging {
    match c {
        AirpodsCharging::Single(single) => DbusAirpodsCharging {
            single: Some(single),
            left: None,
            right: None,
            case: None,
        },
        AirpodsCharging::Pods { left, right, case } => DbusAirpodsCharging {
            single: None,
            left: Some(left),
            right: Some(right),
            case: Some(case),
        },
    }
}

pub open spec fn dbus_info(info: AirpodsInfo) -> DbusAirpodsInfo {
    DbusAirpodsInfo {
        battery: dbus_battery(info.battery),
        charging: dbus_charging(info.charging),
        ears: info.ears,
        model: dbus_model(info.model),
    }
}

impl Default for DbusAirpodsModel {
    fn default() -> (r: DbusAirpodsModel)
        ensures
            r == DbusAirpodsModel::Unknown,
    {
        DbusAirpodsModel::Unknown
    }
}

impl From<AirpodsModel> for DbusAirpodsModel {
    fn from(model: AirpodsModel) -> (r: DbusAirpodsModel)
        ensures
            r == dbus_model(model),
    {
        match model {
            AirpodsModel::Airpods1G => DbusAirpodsModel::Airpods1G,
            AirpodsModel::Airpods2G => DbusAirpodsModel::Airpods2G,
            AirpodsModel::AirpodsPro => DbusAirpodsModel::AirpodsPro,
            AirpodsModel::AirpodsMax => DbusAirpodsModel::AirpodsMax,
            AirpodsModel::PowerbeatsPro => DbusAirpodsModel::PowerbeatsPro,
            AirpodsModel::BeatsX => DbusAirpodsModel::BeatsX,
            AirpodsModel::BeatsFlex => DbusAirpodsModel::BeatsFlex,
            AirpodsModel::BeatsSolo3 => DbusAirpodsModel::BeatsSolo3,
            AirpodsModel::BeatsStudio3 => DbusAirpodsModel::BeatsStudio3,
            AirpodsModel::Powerbeats3 => DbusAirpodsModel::Powerbeats3,
            AirpodsModel::Unknown(_) => DbusAirpodsModel::Unknown,
        }
    }
}

impl vstd::std_specs::convert::FromSpecImpl<AirpodsModel> for DbusAirpodsModel {
    open spec fn obeys_from_spec() -> bool {
        true
    }

    open spec fn from_spec(model: AirpodsModel) -> DbusAirpodsModel {
        dbus_model(model)
    }
}

impl Default for DbusAirpodsBattery {
    fn default() -> (r: DbusAirpodsBattery)
        ensures
            r == (DbusAirpodsBattery { single: None, left: None, right: None, case: None }),
    {
        DbusAirpodsBattery { single: None, left: None, right: None, case: None }
    }
}

impl From<AirpodsBattery> for DbusAirpodsBattery {
    fn from(c: AirpodsBattery) -> (r: DbusAirpodsBattery)
        ensures
            r == dbus_battery(c),
    {
        match c {
            AirpodsBattery::Single { charge } => DbusAirpodsBattery {
                single: charge,
                left: None,
                right: None,
                case: None,
            },
            AirpodsBattery::Pods { left, right, case } => DbusAirpodsBattery {
                single: None,
                left,
                right,
                case,
            },
        }
    }
}

impl vstd::std_specs::convert::FromSpecImpl<AirpodsBattery> for DbusAirpodsBattery {
    open spec fn obeys_from_spec() -> bool {
        true
    }

    open spec fn from_spec(c: AirpodsBattery) -> DbusAirpodsBattery {
        dbus_battery(c)
    }
}

impl Default for DbusAirpodsCharging {
    fn default() -> (r: DbusAirpodsCharging)
        ensures
            r == (DbusAirpodsCharging { single: None, left: None, right: None, case: None }),
    {
        DbusAirpodsCharging { single: None, left: None, right: None, case: None }
    }
}

impl From<AirpodsCharging> for DbusAirpodsCharging {
    fn from(c: AirpodsCharging) -> (r: DbusAirpodsCharging)
        ensures
            r == dbus_charging(c),
    {
        match c {
            AirpodsCharging::Single(single) => DbusAirpodsCharging {
                single: Some(single),
                left: None,
                right: None,
                case: None,
            },
            AirpodsCharging::Pods { left, right, case } => DbusAirpodsCharging {
                single: None,
                left: Some(left),
                right: Some(right),
                case: Some(case),
            },
        }
    }
}

impl vstd::std_specs::convert::FromSpecImpl<AirpodsCharging> for DbusAirpodsCharging {
    open spec fn obeys_from_spec() -> bool {
        true
    }

    open spec fn from_spec(c: AirpodsCharging) -> DbusAirpodsCharging {
        dbus_charging(c)
    }
}

impl Default for DbusAirpodsInfo {
    fn default() -> (r: DbusAirpodsInfo)
        ensures
            r.battery == (DbusAirpodsBattery { single: None, left: None, right: None, case: None }),
            r.charging == (DbusAirpodsCharging { single: None, left: None, right: None, case: None }),
            r.ears is None,
            r.model == DbusAirpodsModel::Unknown,
    {
        DbusAirpodsInfo {
            battery: DbusAirpodsBattery::default(),
            charging: DbusAirpodsCharging::default(),
            ears: None,
            model: DbusAirpodsModel::default(),
        }
    }
}

impl From<AirpodsInfo> for DbusAirpodsInfo {
    fn from(info: AirpodsInfo) -> (r: DbusAirpodsInfo)
        ensures
            r == dbus_info(info),
    {
        DbusAirpodsInfo {
            battery: DbusAirpodsBattery::from(info.battery),
            charging: DbusAirpodsCharging::from(info.charging),
            ears: info.ears,
            model: DbusAirpodsModel::from(info.model),
        }
    }
}

impl vstd::std_specs::convert::FromSpecImpl<AirpodsInfo> for DbusAirpodsInfo {
    open spec fn obeys_from_spec() -> bool {
        true
    }

    open spec fn from_spec(info: AirpodsInfo) -> DbusAirpodsInfo {
        dbus_info(info)
    }
}

} // verus!
