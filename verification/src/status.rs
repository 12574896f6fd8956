//! What the worker publishes about devices and the server, and the pair of
//! slots through which the consumer picks it up.

use vstd::prelude::*;

verus! {

/// Battery level of a device.
#[derive(Clone, Copy, Debug, PartialEq, Eq, Structural)]
pub enum Battery {
    Empty,
    Critical,
    Low,
    Medium,
    Full,
}

/// Health of a device, from the quality of its signal.
#[derive(Clone, Copy, Debug, PartialEq, Eq, Structural)]
pub enum DeviceStatus {
    Disconnected,
    NoIMU,
    LaggyIMU,
    Healthy,
}

/// Whether the tracking server is reached.
#[derive(Clone, Copy, Debug, PartialEq, Eq, Structural)]
pub enum ServerStatus {
    Connected,
    Disconnected,
}

/// Physical shape of a device, which picks its icon.
#[derive(Clone, Copy, Debug, PartialEq, Eq, Structural)]
pub enum JoyconDesign {
    Left,
    Right,
}

/// One visible device as the worker last saw it.
#[derive(Debug, PartialEq, Eq)]
pub struct Status {
    /// Stable identity of the device.
    pub serial_number: String,
    /// Physical shape of the device.
    pub design: JoyconDesign,
    /// Battery level.
    pub battery: Battery,
    /// Health.
    pub status: DeviceStatus,
    /// Roll, pitch and yaw as the device reported them, in whole degrees.
    /// Tuning is applied when this is shown, never stored here.
    pub rotation: (i32, i32, i32),
}

impl Clone for Status {
    fn clone(&self) -> (r: Self)
        ensures
            r == *self,
    {
        Status {
            serial_number: self.serial_number.clone(),
            design: self.design,
            battery: self.battery,
            status: self.status,
            rotation: self.rotation,
        }
    }
}

/// The two slots as contracts see them: what was published and not yet
/// picked up.
pub ghost struct BridgeView {
    /// Device statuses waiting for the consumer.
    pub status: Option<Seq<Status>>,
    /// Server connectivity waiting for the consumer.
    pub server: Option<ServerStatus>,
}

/// The slots after the worker published device statuses.
pub open spec fn with_status(view: BridgeView, statuses: Seq<Status>) -> BridgeView {
    BridgeView { status: Some(statuses), ..view }
}

/// The slots after the worker published server connectivity.
pub open spec fn with_server(view: BridgeView, server: ServerStatus) -> BridgeView {
    BridgeView { server: Some(server), ..view }
}

/// The slots after the consumer polled for device statuses.
pub open spec fn without_status(view: BridgeView) -> BridgeView {
    BridgeView { status: None, ..view }
}

/// The slots after the consumer polled for server connectivity.
pub open spec fn without_server(view: BridgeView) -> BridgeView {
    BridgeView { server: None, ..view }
}

/// Two independent slots, each holding the latest value published since the
/// consumer last polled it. A publish overwrites what waits; a poll empties
/// the slot. Neither slot constrains the other.
pub struct StatusBridge {
    status: Option<Vec<Status>>,
    server: Option<ServerStatus>,
}

impl View for StatusBridge {
    type V = BridgeView;

    closed spec fn view(&self) -> BridgeView {
        BridgeView {
            status: match self.status {
                Some(v) => Some(v@),
                None => None,
            },
            server: self.server,
        }
    }
}

impl StatusBridge {
    /// A bridge on which nothing was published yet.
    pub fn new() -> (r: Self)
        ensures
            r@ == (BridgeView { status: None, server: None }),
    {
        StatusBridge { status: None, server: None }
    }

    /// Publishes the device statuses of a completed scan, replacing any
    /// that still wait.
    pub fn publish_status(&mut self, statuses: Vec<Status>)
        ensures
            final(self)@ == with_status(old(self)@, statuses@),
    {
        self.status = Some(statuses);
    }

    /// Publishes the server connectivity, replacing any that still waits.
    pub fn publish_server(&mut self, server: ServerStatus)
        ensures
            final(self)@ == with_server(old(self)@, server),
    {
        self.server = Some(server);
    }

    /// The device statuses published since the last poll, if any; the slot
    /// is empty afterwards.
    pub fn poll_status(&mut self) -> (r: Option<Vec<Status>>)
        ensures
            final(self)@ == without_status(old(self)@),
            match r {
                Some(v) => old(self)@.status == Some(v@),
                None => old(self)@.status.is_none(),
            },
    {
        self.status.take()
    }

    /// The server connectivity published since the last poll, if any; the
    /// slot is empty afterwards.
    pub fn poll_server(&mut self) -> (r: Option<ServerStatus>)
        ensures
            final(self)@ == without_server(old(self)@),
            r == old(self)@.server,
    {
        self.server.take()
    }
}

/// A poll right after a poll finds nothing, whatever was in the slots
/// before, and leaves the other slot alone.
pub proof fn lemma_poll_twice(view: BridgeView)
    ensures
        without_status(view).status.is_none(),
        without_server(view).server.is_none(),
        without_status(view).server == view.server,
        without_server(view).status == view.status,
{
}

/// After a publish, the next poll of that slot finds exactly the published
/// value and the poll after that finds nothing; this holds whatever waited
/// in the slot before.
pub proof fn lemma_publish_then_poll(view: BridgeView, statuses: Seq<Status>, server: ServerStatus)
    ensures
        with_status(view, statuses).status == Some(statuses),
        without_status(with_status(view, statuses)).status.is_none(),
        with_server(view, server).server == Some(server),
        without_server(with_server(view, server)).server.is_none(),
{
}

/// Of two publishes with no poll between them only the later is seen.
pub proof fn lemma_latest_wins(
    view: BridgeView,
    first: Seq<Status>,
    second: Seq<Status>,
    a: ServerStatus,
    b: ServerStatus,
)
    ensures
        with_status(with_status(view, first), second) == with_status(view, second),
        with_server(with_server(view, a), b) == with_server(view, b),
{
}

} // verus!
