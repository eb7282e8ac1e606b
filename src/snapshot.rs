use vstd::prelude::*;
use crate::dbus::{
    dbus_battery, dbus_charging, dbus_info, dbus_model, DbusAirpodsBattery, DbusAirpodsCharging,
    DbusAirpodsInfo, DbusAirpodsModel,
};
use crate::info::{decode, AirpodsInEar, AirpodsInfo};

verus! {

/// Manufacturer id under which the accessories put their payload.
pub const BEACON_VENDOR_ID: u16 = 76;

/// The snapshot after an unconditional overwrite with `info`.
pub open spec fn after_replace(snapshot: Option<AirpodsInfo>, info: AirpodsInfo) -> Option<AirpodsInfo> {
    Some(info)
}

/// The snapshot after a manufacturer-data entry arrives: a payload of the
/// accessories' vendor that decodes replaces it, anything else leaves it alone.
pub open spec fn after_payload(snapshot: Option<AirpodsInfo>, vendor_id: u16, data: Seq<u8>) -> Option<
    AirpodsInfo,
> {
    if vendor_id == BEACON_VENDOR_ID && decode(data) is Ok {
        Some(decode(data)->Ok_0)
    } else {
        snapshot
    }
}

/// The latest decoded advertisement, if any has been decoded yet.
pub struct SnapshotStore {
    current: Option<AirpodsInfo>,
}

impl View for SnapshotStore {
    type V = Option<AirpodsInfo>;

    closed spec fn view(&self) -> Option<AirpodsInfo> {
        self.current
    }
}

impl SnapshotStore {
    pub fn new() -> (r: SnapshotStore)
        ensures
            r@ is None,
    {
        SnapshotStore { current: None }
    }

    /// Overwrites the snapshot.
    pub fn replace(&mut self, info: AirpodsInfo)
        ensures
            final(self)@ == after_replace(old(self)@, info),
    {
        self.current = Some(info);
    }

    pub fn read(&self) -> (r: Option<AirpodsInfo>)
        ensures
            r == self@,
    {
        self.current
    }

    /// Takes one manufacturer-data entry; returns whether it replaced the snapshot.
    pub fn update_from_manufacturer_data(&mut self, vendor_id: u16, data: &[u8]) -> (r: bool)
        ensures
            final(self)@ == after_payload(old(self)@, vendor_id, data@),
            r == (vendor_id == BEACON_VENDOR_ID && decode(data@) is Ok),
    {
        if vendor_id != BEACON_VENDOR_ID {
            return false;
        }
        match AirpodsInfo::parse_from_beacon(data) {
            Ok(info) => {
                self.replace(info);
                true
            },
            Err(_) => false,
        }
    }

    /// The whole snapshot in published form.
    pub fn info(&self) -> (r: Option<DbusAirpodsInfo>)
        ensures
            r == (match self@ {
                Some(i) => Some(dbus_info(i)),
                None => None::<DbusAirpodsInfo>,
            }),
    {
        match self.current {
            Some(i) => Some(DbusAirpodsInfo::from(i)),
            None => None,
        }
    }

    pub fn battery(&self) -> (r: Option<DbusAirpodsBattery>)
        ensures
            r == (match self@ {
                Some(i) => Some(dbus_battery(i.battery)),
                None => None::<DbusAirpodsBattery>,
            }),
    {
        match self.current {
            Some(i) => Some(DbusAirpodsBattery::from(i.battery)),
            None => None,
        }
    }

    pub fn charging(&self) -> (r: Option<DbusAirpodsCharging>)
        ensures
            r == (match self@ {
                Some(i) => Some(dbus_charging(i.charging)),
                None => None::<DbusAirpodsCharging>,
            }),
    {
        match self.current {
            Some(i) => Some(DbusAirpodsCharging::from(i.charging)),
            None => None,
        }
    }

    /// In-ear flags; none before the first snapshot and for a single unit.
    pub fn in_ears(&self) -> (r: Option<AirpodsInEar>)
        ensures
            r == (match self@ {
                Some(i) => i.ears,
                None => None::<AirpodsInEar>,
            }),
    {
        match self.current {
            Some(i) => i.ears,
            None => None,
        }
    }

    pub fn model(&self) -> (r: Option<DbusAirpodsModel>)
        ensures
            r == (match self@ {
                Some(i) => Some(dbus_model(i.model)),
                None => None::<DbusAirpodsModel>,
            }),
    {
        match self.current {
            Some(i) => Some(DbusAirpodsModel::from(i.model)),
            None => None,
        }
    }
}

/// The last overwrite wins: after `a` and then `b` are stored, the snapshot is
/// `b`, and an entry that fails to decode between the two changes nothing.
pub proof fn lemma_last_replace_wins(
    snapshot: Option<AirpodsInfo>,
    a: AirpodsInfo,
    b: AirpodsInfo,
    vendor_id: u16,
    data: Seq<u8>,
)
    requires
        decode(data) is Err,
    ensures
        after_replace(after_replace(snapshot, a), b) == Some(b),
        after_payload(after_replace(snapshot, a), vendor_id, data) == Some(a),
        after_replace(after_payload(after_replace(snapshot, a), vendor_id, data), b) == Some(b),
{
}

} // verus!
