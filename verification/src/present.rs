//! What is shown for one device: the raw reading and the user's tuning
//! brought together at the moment of display.

use crate::settings::{
    lemma_rotated, lemma_scaled, normalize_degrees, normalize_rotation, rotated, scaled,
    tuning_in, SettingsView, WranglerSettings,
};
use crate::status::{Battery, DeviceStatus, JoyconDesign, Status};
use vstd::prelude::*;

verus! {

/// How good or bad a value is, which picks the colour of its text.
#[derive(Clone, Copy, Debug, PartialEq, Eq, Structural)]
pub enum Tone {
    Orange,
    Yellow,
    Green,
}

/// The tone of a health: orange without a usable signal, yellow when
/// samples lag, green when healthy.
pub open spec fn health_tone_of(status: DeviceStatus) -> Tone {
    match status {
        DeviceStatus::Disconnected | DeviceStatus::NoIMU => Tone::Orange,
        DeviceStatus::LaggyIMU => Tone::Yellow,
        DeviceStatus::Healthy => Tone::Green,
    }
}

/// The tone of a battery level: orange when empty or critical, yellow when
/// low, green above that.
pub open spec fn battery_tone_of(battery: Battery) -> Tone {
    match battery {
        Battery::Empty | Battery::Critical => Tone::Orange,
        Battery::Low => Tone::Yellow,
        Battery::Medium | Battery::Full => Tone::Green,
    }
}

/// Red, green and blue of the indicator dot of a health.
pub open spec fn indicator_of(status: DeviceStatus) -> (u8, u8, u8) {
    match status {
        DeviceStatus::Disconnected | DeviceStatus::NoIMU => (0xff, 0x38, 0x4a),
        DeviceStatus::LaggyIMU => (0xff, 0xe3, 0x3c),
        DeviceStatus::Healthy => (0x3d, 0xff, 0x81),
    }
}

/// Red, green and blue of the text of a tone.
pub open spec fn tone_rgb_of(tone: Tone) -> (u8, u8, u8) {
    match tone {
        Tone::Orange => (0xff, 0x8c, 0x38),
        Tone::Yellow => (0xff, 0xe3, 0x3c),
        Tone::Green => (0x3d, 0xff, 0x81),
    }
}

/// The tone in which a health is written.
pub fn health_tone(status: DeviceStatus) -> (r: Tone)
    ensures
        r == health_tone_of(status),
{
    match status {
        DeviceStatus::Disconnected | DeviceStatus::NoIMU => Tone::Orange,
        DeviceStatus::LaggyIMU => Tone::Yellow,
        DeviceStatus::Healthy => Tone::Green,
    }
}

/// The tone in which a battery level is written.
pub fn battery_tone(battery: Battery) -> (r: Tone)
    ensures
        r == battery_tone_of(battery),
{
    match battery {
        Battery::Empty | Battery::Critical => Tone::Orange,
        Battery::Low => Tone::Yellow,
        Battery::Medium | Battery::Full => Tone::Green,
    }
}

/// Red, green and blue of the indicator dot of a health.
pub fn indicator_rgb(status: DeviceStatus) -> (r: (u8, u8, u8))
    ensures
        r == indicator_of(status),
{
    match status {
        DeviceStatus::Disconnected | DeviceStatus::NoIMU => (0xff, 0x38, 0x4a),
        DeviceStatus::LaggyIMU => (0xff, 0xe3, 0x3c),
        DeviceStatus::Healthy => (0x3d, 0xff, 0x81),
    }
}

/// Red, green and blue of the text of a tone.
pub fn tone_rgb(tone: Tone) -> (r: (u8, u8, u8))
    ensures
        r == tone_rgb_of(tone),
{
    match tone {
        Tone::Orange => (0xff, 0x8c, 0x38),
        Tone::Yellow => (0xff, 0xe3, 0x3c),
        Tone::Green => (0x3d, 0xff, 0x81),
    }
}

/// The toolkit's colour type, carried through as an opaque value.
#[verifier::external_type_specification]
#[verifier::external_body]
pub struct ExColor(iced::Color);

/// The colour that `iced::Color::from_rgb8` makes of a red, a green and a
/// blue channel value.
pub uninterp spec fn rgb8_color(r: u8, g: u8, b: u8) -> iced::Color;

/// Calls `iced::Color::from_rgb8`, which divides each channel by 255 and
/// sets full opacity. Nothing is proved of it: the contract only gives the
/// result its name, a function of the three channels alone.
#[verifier::external_body]
fn color_from_rgb8(r: u8, g: u8, b: u8) -> (c: iced::Color)
    ensures
        c == rgb8_color(r, g, b),
{
    iced::Color::from_rgb8(r, g, b)
}

/// The colour of the indicator dot of a health.
pub fn indicator_color(status: DeviceStatus) -> (c: iced::Color)
    ensures
        c == rgb8_color(
            indicator_of(status).0,
            indicator_of(status).1,
            indicator_of(status).2,
        ),
{
    let channels = indicator_rgb(status);
    color_from_rgb8(channels.0, channels.1, channels.2)
}

/// The colour of the text of a tone.
pub fn tone_color(tone: Tone) -> (c: iced::Color)
    ensures
        c == rgb8_color(tone_rgb_of(tone).0, tone_rgb_of(tone).1, tone_rgb_of(tone).2),
{
    let channels = tone_rgb(tone);
    color_from_rgb8(channels.0, channels.1, channels.2)
}

/// The place on a dial of 360 needles at which an angle is drawn.
pub fn needle_index(degrees: i32) -> (r: usize)
    ensures
        r == normalize_degrees(degrees as int),
        r < 360,
{
    normalize_rotation(degrees as i64) as usize
}

/// Everything that the box of one device shows.
#[derive(Clone, Copy, Debug, PartialEq, Eq)]
pub struct BoxView {
    /// Physical shape, which picks the icon.
    pub design: JoyconDesign,
    /// The user's mounting rotation, by which the icon is turned.
    pub mount_rotation: i32,
    /// The user's scale factor in thousandths, where the slider stands.
    pub scale: i32,
    /// Dial place of the roll.
    pub roll: usize,
    /// Dial place of the pitch.
    pub pitch: usize,
    /// Dial place of the yaw, which is shown with its sign turned.
    pub yaw: usize,
    /// Colour of the indicator dot.
    pub indicator: (u8, u8, u8),
    /// Tone of the health text.
    pub status_tone: Tone,
    /// Tone of the battery text.
    pub battery_tone: Tone,
}

/// What `box_view` computes.
pub open spec fn box_view_of(status: Status, settings: SettingsView) -> BoxView {
    BoxView {
        design: status.design,
        mount_rotation: tuning_in(settings, status.serial_number@).rotation as i32,
        scale: tuning_in(settings, status.serial_number@).scale as i32,
        roll: normalize_degrees(status.rotation.0 as int) as usize,
        pitch: normalize_degrees(status.rotation.1 as int) as usize,
        yaw: normalize_degrees(-(status.rotation.2 as int)) as usize,
        indicator: indicator_of(status.status),
        status_tone: health_tone_of(status.status),
        battery_tone: battery_tone_of(status.battery),
    }
}

/// Brings a status and the tuning stored for its serial number together for
/// display. Both are only read: the stored raw rotation stays as the device
/// reported it.
pub fn box_view(status: &Status, settings: &WranglerSettings) -> (r: BoxView)
    requires
        settings.wf(),
    ensures
        r == box_view_of(*status, settings@),
        0 <= r.mount_rotation < 360,
        r.roll < 360 && r.pitch < 360 && r.yaw < 360,
{
    BoxView {
        design: status.design,
        mount_rotation: settings.joycon_rotation_get(&status.serial_number),
        scale: settings.joycon_scale_get(&status.serial_number),
        roll: needle_index(status.rotation.0),
        pitch: needle_index(status.rotation.1),
        yaw: normalize_rotation(-(status.rotation.2 as i64)) as usize,
        indicator: indicator_rgb(status.status),
        status_tone: health_tone(status.status),
        battery_tone: battery_tone(status.battery),
    }
}

/// The boxes of all devices of a list, in its order.
pub fn box_views(statuses: &Vec<Status>, settings: &WranglerSettings) -> (r: Vec<BoxView>)
    requires
        settings.wf(),
    ensures
        r@.len() == statuses@.len(),
        forall|i: int|
            0 <= i < statuses@.len() ==> (#[trigger] r@[i]) == box_view_of(
                statuses@[i],
                settings@,
            ),
{
    let mut out: Vec<BoxView> = Vec::new();
    let mut i: usize = 0;
    while i < statuses.len()
        invariant
            i <= statuses@.len(),
            settings.wf(),
            out@.len() == i,
            forall|k: int|
                0 <= k < i ==> (#[trigger] out@[k]) == box_view_of(statuses@[k], settings@),
        decreases statuses@.len() - i,
    {
        out.push(box_view(&statuses[i], settings));
        i += 1;
    }
    out
}

/// A change of tuning shows at once and only where it belongs: after the
/// device's rotation was turned, its box shows the new mounting rotation;
/// after its scale factor was set, its box shows the stored factor. The
/// dial places, the indicator and the tones are made of the status alone,
/// so they stay as they were, and so does the status.
pub proof fn lemma_tuning_shows_at_once(
    status: Status,
    settings: SettingsView,
    degrees: int,
    scale: int,
)
    ensures
        box_view_of(status, rotated(settings, status.serial_number@, degrees)).mount_rotation
            == (tuning_in(settings, status.serial_number@).rotation + degrees) % 360,
        box_view_of(status, rotated(settings, status.serial_number@, degrees)) == (BoxView {
            mount_rotation: box_view_of(
                status,
                rotated(settings, status.serial_number@, degrees),
            ).mount_rotation,
            ..box_view_of(status, settings)
        }),
        box_view_of(status, scaled(settings, status.serial_number@, scale)) == (BoxView {
            scale: if scale < 800 {
                800i32
            } else if scale > 1200 {
                1200i32
            } else {
                scale as i32
            },
            ..box_view_of(status, settings)
        }),
{
    lemma_rotated(settings, status.serial_number@, degrees);
    lemma_scaled(settings, status.serial_number@, scale);
}

} // verus!
