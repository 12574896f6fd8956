//! One cycle of the background worker: from the transport's scan and the
//! outcome of the send to what is published.

use crate::settings::{tuning_in, SettingsView, WranglerSettings};
use crate::status::{
    with_server, with_status, without_server, Battery, BridgeView, DeviceStatus, JoyconDesign,
    ServerStatus, Status, StatusBridge,
};
use vstd::prelude::*;

verus! {

/// What the transport reports about the quality of a device's signal.
#[derive(Clone, Copy, Debug, PartialEq, Eq, Structural)]
pub struct Signal {
    /// The device still answers at all.
    pub reachable: bool,
    /// Motion samples arrive.
    pub imu_data: bool,
    /// Motion samples arrive below the expected rate.
    pub degraded: bool,
}

/// The raw telemetry of one device from one scan.
#[derive(Debug, PartialEq, Eq)]
pub struct Reading {
    /// Stable identity of the device.
    pub serial_number: String,
    /// Physical shape of the device.
    pub design: JoyconDesign,
    /// Battery level.
    pub battery: Battery,
    /// Quality of the signal.
    pub signal: Signal,
    /// Roll, pitch and yaw in whole degrees.
    pub rotation: (i32, i32, i32),
}

/// Health by signal quality: a device that does not answer is
/// disconnected; one that answers without motion samples has no IMU; one
/// whose samples come too slowly is laggy; any other is healthy.
pub open spec fn health_of(signal: Signal) -> DeviceStatus {
    if !signal.reachable {
        DeviceStatus::Disconnected
    } else if !signal.imu_data {
        DeviceStatus::NoIMU
    } else if signal.degraded {
        DeviceStatus::LaggyIMU
    } else {
        DeviceStatus::Healthy
    }
}

/// The status that is published for a reading: its identity, shape, battery
/// and raw rotation unchanged, its health derived from the signal.
pub open spec fn status_of(reading: Reading) -> Status {
    Status {
        serial_number: reading.serial_number,
        design: reading.design,
        battery: reading.battery,
        status: health_of(reading.signal),
        rotation: reading.rotation,
    }
}

/// The statuses published for a scan, in scan order. An entry whose read
/// failed (`None`) is left out; it does not affect the others.
pub open spec fn statuses_of(scan: Seq<Option<Reading>>) -> Seq<Status>
    decreases scan.len(),
{
    if scan.len() == 0 {
        Seq::empty()
    } else {
        let earlier = statuses_of(scan.drop_last());
        match scan.last() {
            Some(reading) => earlier.push(status_of(reading)),
            None => earlier,
        }
    }
}

/// What is forwarded to the server for one device: the raw rotation
/// together with the tuning that the user stored for the device.
#[derive(Debug, PartialEq, Eq)]
pub struct Frame {
    /// Stable identity of the device.
    pub serial_number: String,
    /// Roll, pitch and yaw as the device reported them, in whole degrees.
    pub rotation: (i32, i32, i32),
    /// The user's mounting rotation in degrees, within `0..360`.
    pub mount_rotation: i32,
    /// The user's scale factor in thousandths.
    pub scale: i32,
}

/// The frame of a reading under a configuration.
pub open spec fn frame_of(reading: Reading, settings: SettingsView) -> Frame {
    Frame {
        serial_number: reading.serial_number,
        rotation: reading.rotation,
        mount_rotation: tuning_in(settings, reading.serial_number@).rotation as i32,
        scale: tuning_in(settings, reading.serial_number@).scale as i32,
    }
}

/// The frames of a scan under one configuration, in scan order, without
/// the entries whose read failed.
pub open spec fn frames_of(scan: Seq<Option<Reading>>, settings: SettingsView) -> Seq<Frame>
    decreases scan.len(),
{
    if scan.len() == 0 {
        Seq::empty()
    } else {
        let earlier = frames_of(scan.drop_last(), settings);
        match scan.last() {
            Some(reading) => earlier.push(frame_of(reading, settings)),
            None => earlier,
        }
    }
}

/// The reading at place `j` of a scan, where that read succeeded.
pub open spec fn reading_at(scan: Seq<Option<Reading>>, j: int) -> Reading {
    scan[j].unwrap()
}

/// Connectivity after a cycle: connected exactly if the send succeeded.
pub open spec fn server_status_of(sent: bool) -> ServerStatus {
    if sent {
        ServerStatus::Connected
    } else {
        ServerStatus::Disconnected
    }
}

/// The slots after a cycle that scanned `scan` and whose send ended as
/// `sent` says.
pub open spec fn after_cycle(
    bridge: BridgeView,
    scan: Seq<Option<Reading>>,
    sent: bool,
) -> BridgeView {
    with_server(with_status(bridge, statuses_of(scan)), server_status_of(sent))
}

/// Derives a device's health from the quality of its signal.
pub fn derive_health(signal: Signal) -> (r: DeviceStatus)
    ensures
        r == health_of(signal),
{
    if !signal.reachable {
        DeviceStatus::Disconnected
    } else if !signal.imu_data {
        DeviceStatus::NoIMU
    } else if signal.degraded {
        DeviceStatus::LaggyIMU
    } else {
        DeviceStatus::Healthy
    }
}

/// The status to publish for one reading.
pub fn derive_status(reading: &Reading) -> (r: Status)
    ensures
        r == status_of(*reading),
{
    Status {
        serial_number: reading.serial_number.clone(),
        design: reading.design,
        battery: reading.battery,
        status: derive_health(reading.signal),
        rotation: reading.rotation,
    }
}

/// The statuses to publish for a scan.
pub fn collect_statuses(scan: &Vec<Option<Reading>>) -> (r: Vec<Status>)
    ensures
        r@ == statuses_of(scan@),
{
    let mut out: Vec<Status> = Vec::new();
    let mut i: usize = 0;
    while i < scan.len()
        invariant
            i <= scan@.len(),
            out@ == statuses_of(scan@.subrange(0, i as int)),
        decreases scan@.len() - i,
    {
        proof {
            assert(scan@.subrange(0, i + 1).drop_last() =~= scan@.subrange(0, i as int));
        }
        match &scan[i] {
            Some(reading) => {
                out.push(derive_status(reading));
            },
            None => {},
        }
        i += 1;
    }
    proof {
        assert(scan@.subrange(0, i as int) =~= scan@);
    }
    out
}

/// The frames to forward for a scan. The configuration is one copy taken
/// for the whole cycle, so every frame of a cycle is tuned by the same
/// configuration.
pub fn collect_frames(scan: &Vec<Option<Reading>>, settings: &WranglerSettings) -> (r: Vec<Frame>)
    requires
        settings.wf(),
    ensures
        r@ == frames_of(scan@, settings@),
{
    let mut out: Vec<Frame> = Vec::new();
    let mut i: usize = 0;
    while i < scan.len()
        invariant
            i <= scan@.len(),
            settings.wf(),
            out@ == frames_of(scan@.subrange(0, i as int), settings@),
        decreases scan@.len() - i,
    {
        proof {
            assert(scan@.subrange(0, i + 1).drop_last() =~= scan@.subrange(0, i as int));
        }
        match &scan[i] {
            Some(reading) => {
                out.push(
                    Frame {
                        serial_number: reading.serial_number.clone(),
                        rotation: reading.rotation,
                        mount_rotation: settings.joycon_rotation_get(&reading.serial_number),
                        scale: settings.joycon_scale_get(&reading.serial_number),
                    },
                );
            },
            None => {},
        }
        i += 1;
    }
    proof {
        assert(scan@.subrange(0, i as int) =~= scan@);
    }
    out
}

/// The connectivity to publish after a send.
pub fn server_status(sent: bool) -> (r: ServerStatus)
    ensures
        r == server_status_of(sent),
{
    if sent {
        ServerStatus::Connected
    } else {
        ServerStatus::Disconnected
    }
}

/// Ends a cycle: publishes the statuses of `scan` and the connectivity that
/// follows from `sent`, each into its own slot. What the slots held before
/// does not matter, so a failed send is forgotten with the next good one.
pub fn run_cycle(bridge: &mut StatusBridge, scan: &Vec<Option<Reading>>, sent: bool)
    ensures
        final(bridge)@ == with_server(
            with_status(old(bridge)@, statuses_of(scan@)),
            server_status_of(sent),
        ),
{
    let statuses = collect_statuses(scan);
    bridge.publish_status(statuses);
    bridge.publish_server(server_status(sent));
}

/// Every published status comes from a reading of the same scan, and every
/// reading of the scan is published: a device that the scan does not hold
/// is not in the list, and no status outlives its scan.
pub proof fn lemma_published_are_scanned(scan: Seq<Option<Reading>>)
    ensures
        forall|i: int|
            0 <= i < statuses_of(scan).len() ==> exists|j: int|
                0 <= j < scan.len() && scan[j] == Some(#[trigger] reading_at(scan, j))
                    && (#[trigger] statuses_of(scan)[i]) == status_of(reading_at(scan, j)),
        forall|j: int|
            0 <= j < scan.len() && (#[trigger] scan[j]).is_some() ==> statuses_of(scan).contains(
                status_of(scan[j].unwrap()),
            ),
        statuses_of(scan).len() <= scan.len(),
    decreases scan.len(),
{
    if scan.len() > 0 {
        let head = scan.drop_last();
        let last = scan.len() - 1;
        lemma_published_are_scanned(head);
        let all = statuses_of(scan);
        let earlier = statuses_of(head);
        assert forall|i: int| 0 <= i < all.len() implies exists|j: int|
            0 <= j < scan.len() && scan[j] == Some(#[trigger] reading_at(scan, j)) && (
            #[trigger] all[i]) == status_of(reading_at(scan, j)) by {
            if i < earlier.len() {
                assert(all[i] == earlier[i]);
                let j = choose|j: int|
                    0 <= j < head.len() && head[j] == Some(#[trigger] reading_at(head, j))
                        && earlier[i] == status_of(reading_at(head, j));
                assert(scan[j] == head[j]);
                assert(reading_at(scan, j) == reading_at(head, j));
            } else {
                assert(scan[last] == Some(reading_at(scan, last)));
            }
        }
        assert forall|j: int| 0 <= j < scan.len() && (#[trigger] scan[j]).is_some() implies all.contains(
            status_of(scan[j].unwrap()),
        ) by {
            if j < last {
                assert(head[j] == scan[j]);
                let k = choose|k: int|
                    0 <= k < earlier.len() && earlier[k] == status_of(scan[j].unwrap());
                assert(all[k] == earlier[k]);
            } else {
                assert(all[all.len() - 1] == status_of(scan[j].unwrap()));
            }
        }
    }
}

/// A serial number that no reading of the scan carries is carried by no
/// published status: a device that dropped out of the scan is gone from
/// the list that this scan publishes.
pub proof fn lemma_absent_stays_absent(scan: Seq<Option<Reading>>, serial: Seq<char>)
    requires
        forall|j: int|
            0 <= j < scan.len() && (#[trigger] scan[j]).is_some()
                ==> scan[j].unwrap().serial_number@ != serial,
    ensures
        forall|i: int|
            0 <= i < statuses_of(scan).len() ==> (#[trigger] statuses_of(
                scan,
            )[i]).serial_number@ != serial,
{
    lemma_published_are_scanned(scan);
    assert forall|i: int| 0 <= i < statuses_of(scan).len() implies (#[trigger] statuses_of(
        scan,
    )[i]).serial_number@ != serial by {
        let j = choose|j: int|
            0 <= j < scan.len() && scan[j] == Some(#[trigger] reading_at(scan, j))
                && statuses_of(scan)[i] == status_of(reading_at(scan, j));
        assert(scan[j].is_some());
    }
}

/// A failed send leaves `Disconnected` in the slot, and the next cycle whose
/// send succeeds leaves `Connected` there, whether or not the consumer
/// polled in between.
pub proof fn lemma_reconnects(
    bridge: BridgeView,
    first: Seq<Option<Reading>>,
    second: Seq<Option<Reading>>,
)
    ensures
        after_cycle(bridge, first, false).server == Some(ServerStatus::Disconnected),
        after_cycle(after_cycle(bridge, first, false), second, true).server == Some(
            ServerStatus::Connected,
        ),
        after_cycle(
            without_server(after_cycle(bridge, first, false)),
            second,
            true,
        ).server == Some(ServerStatus::Connected),
{
}

} // verus!
