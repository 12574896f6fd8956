//! User-editable configuration: per-device tuning keyed by serial number,
//! and the process-wide flags.

use vstd::prelude::*;

verus! {

/// Smallest scale factor that can be stored, in thousandths.
pub const SCALE_MIN: i32 = 800;

/// Largest scale factor that can be stored, in thousandths.
pub const SCALE_MAX: i32 = 1200;

/// Scale factor of a device that was never tuned, in thousandths.
pub const SCALE_DEFAULT: i32 = 1000;

/// The tuning of one device, as contracts see it.
pub ghost struct Tuning {
    /// Mounting rotation in degrees.
    pub rotation: int,
    /// Scale factor in thousandths.
    pub scale: int,
}

/// The tuning that a device has before anything was stored for it.
pub open spec fn default_tuning() -> Tuning {
    Tuning { rotation: 0, scale: 1000 }
}

/// A whole number of degrees brought into `0..360`.
pub open spec fn normalize_degrees(degrees: int) -> int {
    degrees % 360
}

/// A scale factor brought into the range that can be stored.
pub open spec fn clamp_scale(scale: int) -> int {
    if scale < 800 {
        800
    } else if scale > 1200 {
        1200
    } else {
        scale
    }
}

/// Whether a tuning satisfies the store's rules.
pub open spec fn tuning_valid(t: Tuning) -> bool {
    0 <= t.rotation < 360 && 800 <= t.scale <= 1200
}

/// Brings any whole number of degrees into `0..360`.
pub fn normalize_rotation(degrees: i64) -> (r: i32)
    ensures
        r == normalize_degrees(degrees as int),
        0 <= r < 360,
{
    if degrees >= 0 {
        (degrees % 360) as i32
    } else {
        let flipped: i64 = -(degrees + 1);
        let back: i64 = flipped % 360;
        proof {
            let q = (flipped as int) / 360;
            assert(flipped == 360 * q + back) by {
                vstd::arithmetic::div_mod::lemma_fundamental_div_mod(flipped as int, 360);
            }
            vstd::arithmetic::div_mod::lemma_fundamental_div_mod_converse(
                degrees as int,
                360,
                -q - 1,
                359 - back,
            );
        }
        (359 - back) as i32
    }
}

/// Brings a scale factor in thousandths into `SCALE_MIN..=SCALE_MAX`.
pub fn clamp_scale_factor(scale: i32) -> (r: i32)
    ensures
        r == clamp_scale(scale as int),
        SCALE_MIN <= r <= SCALE_MAX,
{
    if scale < SCALE_MIN {
        SCALE_MIN
    } else if scale > SCALE_MAX {
        SCALE_MAX
    } else {
        scale
    }
}

/// What is stored for one device.
struct JoyconSettings {
    /// The device's serial number, the key of the entry.
    serial_number: String,
    /// Mounting rotation in degrees, within `0..360`.
    mount_rotation: i32,
    /// Scale factor in thousandths, within `SCALE_MIN..=SCALE_MAX`.
    gyro_scale: i32,
}

/// The configuration as contracts see it.
pub ghost struct SettingsView {
    /// Address of the tracking server, as typed by the user.
    pub address: Seq<char>,
    /// Whether a button press sends a reset to the server.
    pub send_reset: bool,
    /// Whether mounting identifiers are kept on the server.
    pub keep_ids: bool,
    /// The tuning of each device that has an entry, by serial number.
    pub joycon: Map<Seq<char>, Tuning>,
}

/// The tuning that `view` assigns to `serial`: its entry, or the default
/// where it has none.
pub open spec fn tuning_in(view: SettingsView, serial: Seq<char>) -> Tuning {
    if view.joycon.contains_key(serial) {
        view.joycon[serial]
    } else {
        default_tuning()
    }
}

/// Whether every stored tuning of `view` satisfies the store's rules.
pub open spec fn view_valid(view: SettingsView) -> bool {
    forall|serial: Seq<char>| #[trigger]
        view.joycon.contains_key(serial) ==> tuning_valid(view.joycon[serial])
}

/// `view` after the rotation of `serial` was turned by `degrees`: the sum
/// is brought into `0..360`, the device's scale factor and every other
/// device stay as they were.
pub open spec fn rotated(view: SettingsView, serial: Seq<char>, degrees: int) -> SettingsView {
    SettingsView {
        joycon: view.joycon.insert(
            serial,
            Tuning {
                rotation: normalize_degrees(tuning_in(view, serial).rotation + degrees),
                scale: tuning_in(view, serial).scale,
            },
        ),
        ..view
    }
}

/// `view` after the scale factor of `serial` was set to `scale`, brought
/// into the range that can be stored: the device's rotation and every other
/// device stay as they were.
pub open spec fn scaled(view: SettingsView, serial: Seq<char>, scale: int) -> SettingsView {
    SettingsView {
        joycon: view.joycon.insert(
            serial,
            Tuning { rotation: tuning_in(view, serial).rotation, scale: clamp_scale(scale) },
        ),
        ..view
    }
}

/// Turning a rotation stores a value in `0..360` for the device, whatever
/// was stored before and however far it is turned; it keeps the device's
/// scale factor, keeps every other device, and keeps a valid configuration
/// valid.
pub proof fn lemma_rotated(view: SettingsView, serial: Seq<char>, degrees: int)
    ensures
        0 <= tuning_in(rotated(view, serial, degrees), serial).rotation < 360,
        tuning_in(rotated(view, serial, degrees), serial).rotation == (tuning_in(
            view,
            serial,
        ).rotation + degrees) % 360,
        tuning_in(rotated(view, serial, degrees), serial).scale == tuning_in(view, serial).scale,
        forall|other: Seq<char>|
            other != serial ==> #[trigger] tuning_in(rotated(view, serial, degrees), other)
                == tuning_in(view, other),
        view_valid(view) ==> view_valid(rotated(view, serial, degrees)),
{
    let after = rotated(view, serial, degrees);
    assert(after.joycon.contains_key(serial));
    if view_valid(view) {
        assert forall|other: Seq<char>| #[trigger]
            after.joycon.contains_key(other) implies tuning_valid(after.joycon[other]) by {
            if other != serial {
                assert(view.joycon.contains_key(other));
            } else if view.joycon.contains_key(serial) {
                assert(tuning_valid(view.joycon[serial]));
            }
        }
    }
}

/// Setting a scale factor stores a value in `800..=1200` for the device,
/// whatever is asked for: the value itself inside the range, the nearer
/// bound outside it. It keeps the device's rotation, keeps every other
/// device, and keeps a valid configuration valid.
pub proof fn lemma_scaled(view: SettingsView, serial: Seq<char>, scale: int)
    ensures
        800 <= tuning_in(scaled(view, serial, scale), serial).scale <= 1200,
        800 <= scale <= 1200 ==> tuning_in(scaled(view, serial, scale), serial).scale == scale,
        scale < 800 ==> tuning_in(scaled(view, serial, scale), serial).scale == 800,
        scale > 1200 ==> tuning_in(scaled(view, serial, scale), serial).scale == 1200,
        tuning_in(scaled(view, serial, scale), serial).rotation == tuning_in(
            view,
            serial,
        ).rotation,
        forall|other: Seq<char>|
            other != serial ==> #[trigger] tuning_in(scaled(view, serial, scale), other)
                == tuning_in(view, other),
        view_valid(view) ==> view_valid(scaled(view, serial, scale)),
{
    let after = scaled(view, serial, scale);
    assert(after.joycon.contains_key(serial));
    if view_valid(view) {
        assert forall|other: Seq<char>| #[trigger]
            after.joycon.contains_key(other) implies tuning_valid(after.joycon[other]) by {
            if other != serial {
                assert(view.joycon.contains_key(other));
            } else if view.joycon.contains_key(serial) {
                assert(tuning_valid(view.joycon[serial]));
            }
        }
    }
}

/// The user's configuration. Entries for devices are made on the first
/// write for a serial number; a device without one reads as the default.
pub struct WranglerSettings {
    address: String,
    send_reset: bool,
    keep_ids: bool,
    joycon: Vec<JoyconSettings>,
}

spec fn tuning_at(entry: JoyconSettings) -> Tuning {
    Tuning { rotation: entry.mount_rotation as int, scale: entry.gyro_scale as int }
}

spec fn holds(entries: Seq<JoyconSettings>, serial: Seq<char>) -> bool {
    exists|i: int| 0 <= i < entries.len() && (#[trigger] entries[i]).serial_number@ == serial
}

spec fn slot(entries: Seq<JoyconSettings>, serial: Seq<char>) -> int {
    choose|i: int| 0 <= i < entries.len() && (#[trigger] entries[i]).serial_number@ == serial
}

spec fn table(entries: Seq<JoyconSettings>) -> Map<Seq<char>, Tuning> {
    Map::new(
        |serial: Seq<char>| holds(entries, serial),
        |serial: Seq<char>| tuning_at(entries[slot(entries, serial)]),
    )
}

spec fn entries_wf(entries: Seq<JoyconSettings>) -> bool {
    &&& forall|i: int| 0 <= i < entries.len() ==> tuning_valid(tuning_at(#[trigger] entries[i]))
    &&& forall|i: int, j: int|
        0 <= i < entries.len() && 0 <= j < entries.len() && i != j ==> (#[trigger] entries[i]).serial_number@
            != (#[trigger] entries[j]).serial_number@
}

proof fn lemma_slot(entries: Seq<JoyconSettings>, i: int)
    requires
        entries_wf(entries),
        0 <= i < entries.len(),
    ensures
        holds(entries, entries[i].serial_number@),
        slot(entries, entries[i].serial_number@) == i,
{
    let serial = entries[i].serial_number@;
    assert(holds(entries, serial));
    let j = slot(entries, serial);
    assert(0 <= j < entries.len() && entries[j].serial_number@ == serial);
}

proof fn lemma_table_valid(entries: Seq<JoyconSettings>)
    requires
        entries_wf(entries),
    ensures
        forall|serial: Seq<char>| #[trigger]
            table(entries).contains_key(serial) ==> tuning_valid(table(entries)[serial]),
{
    assert forall|serial: Seq<char>| #[trigger]
        table(entries).contains_key(serial) implies tuning_valid(table(entries)[serial]) by {
        let j = slot(entries, serial);
        assert(0 <= j < entries.len() && entries[j].serial_number@ == serial);
    }
}

proof fn lemma_table_update(entries: Seq<JoyconSettings>, i: int, entry: JoyconSettings)
    requires
        entries_wf(entries),
        0 <= i < entries.len(),
        entry.serial_number@ == entries[i].serial_number@,
        tuning_valid(tuning_at(entry)),
    ensures
        entries_wf(entries.update(i, entry)),
        table(entries.update(i, entry)) == table(entries).insert(
            entry.serial_number@,
            tuning_at(entry),
        ),
{
    let after = entries.update(i, entry);
    assert(entries_wf(after)) by {
        assert forall|a: int, b: int|
            0 <= a < after.len() && 0 <= b < after.len() && a != b implies (#[trigger] after[a]).serial_number@
            != (#[trigger] after[b]).serial_number@ by {
            assert(after[a].serial_number@ == entries[a].serial_number@);
            assert(after[b].serial_number@ == entries[b].serial_number@);
        }
    }
    let want = table(entries).insert(entry.serial_number@, tuning_at(entry));
    assert forall|serial: Seq<char>| table(after).contains_key(serial) == want.contains_key(
        serial,
    ) by {
        if holds(entries, serial) {
            let j = slot(entries, serial);
            assert(after[j].serial_number@ == serial);
        }
        if holds(after, serial) {
            let j = slot(after, serial);
            assert(entries[j].serial_number@ == serial);
        }
    }
    assert forall|serial: Seq<char>| #[trigger] table(after).contains_key(serial) implies table(
        after,
    )[serial] == want[serial] by {
        let j = slot(after, serial);
        assert(0 <= j < after.len() && after[j].serial_number@ == serial);
        lemma_slot(after, j);
        if j != i {
            assert(entries[j].serial_number@ == serial);
            lemma_slot(entries, j);
        }
    }
    assert(table(after) =~= want);
}

proof fn lemma_table_push(entries: Seq<JoyconSettings>, entry: JoyconSettings)
    requires
        entries_wf(entries),
        !holds(entries, entry.serial_number@),
        tuning_valid(tuning_at(entry)),
    ensures
        entries_wf(entries.push(entry)),
        table(entries.push(entry)) == table(entries).insert(entry.serial_number@, tuning_at(entry)),
{
    let after = entries.push(entry);
    let last = entries.len() as int;
    assert(entries_wf(after)) by {
        assert forall|a: int, b: int|
            0 <= a < after.len() && 0 <= b < after.len() && a != b implies (#[trigger] after[a]).serial_number@
            != (#[trigger] after[b]).serial_number@ by {
            if a < last {
                assert(after[a] == entries[a]);
            }
            if b < last {
                assert(after[b] == entries[b]);
            }
        }
    }
    let want = table(entries).insert(entry.serial_number@, tuning_at(entry));
    assert forall|serial: Seq<char>| table(after).contains_key(serial) == want.contains_key(
        serial,
    ) by {
        if holds(entries, serial) {
            let j = slot(entries, serial);
            assert(after[j].serial_number@ == serial);
        }
        if holds(after, serial) {
            let j = slot(after, serial);
            if j < last {
                assert(entries[j].serial_number@ == serial);
            }
        }
        assert(after[last].serial_number@ == entry.serial_number@);
    }
    assert forall|serial: Seq<char>| #[trigger] table(after).contains_key(serial) implies table(
        after,
    )[serial] == want[serial] by {
        let j = slot(after, serial);
        assert(0 <= j < after.len() && after[j].serial_number@ == serial);
        lemma_slot(after, j);
        if j < last {
            assert(entries[j].serial_number@ == serial);
            lemma_slot(entries, j);
        }
    }
    assert(table(after) =~= want);
}

impl View for WranglerSettings {
    type V = SettingsView;

    closed spec fn view(&self) -> SettingsView {
        SettingsView {
            address: self.address@,
            send_reset: self.send_reset,
            keep_ids: self.keep_ids,
            joycon: table(self.joycon@),
        }
    }
}

impl WranglerSettings {
    /// The invariant of the store: no serial number has two entries, every
    /// stored rotation lies in `0..360` and every stored scale factor in
    /// `SCALE_MIN..=SCALE_MAX`.
    pub closed spec fn wf(&self) -> bool {
        entries_wf(self.joycon@)
    }

    /// A well-formed configuration has a valid view: whatever is stored for
    /// a device has its rotation in `0..360` and its scale factor in
    /// `SCALE_MIN..=SCALE_MAX`.
    pub proof fn lemma_stored_valid(&self)
        requires
            self.wf(),
        ensures
            view_valid(self@),
            tuning_valid(default_tuning()),
            forall|serial: Seq<char>| tuning_valid(#[trigger] tuning_in(self@, serial)),
    {
        lemma_table_valid(self.joycon@);
    }

    /// Address of the tracking server, as typed by the user.
    pub fn address(&self) -> (r: &String)
        ensures
            r@ == self@.address,
    {
        &self.address
    }

    /// Whether a button press sends a reset to the server.
    pub fn send_reset(&self) -> (r: bool)
        ensures
            r == self@.send_reset,
    {
        self.send_reset
    }

    /// Whether mounting identifiers are kept on the server.
    pub fn keep_ids(&self) -> (r: bool)
        ensures
            r == self@.keep_ids,
    {
        self.keep_ids
    }

    /// Replaces the server address; nothing else changes.
    pub fn set_address(&mut self, address: String)
        ensures
            final(self).wf() == old(self).wf(),
            final(self)@ == (SettingsView { address: address@, ..old(self)@ }),
    {
        self.address = address;
    }

    /// Sets whether a button press sends a reset; nothing else changes.
    pub fn set_send_reset(&mut self, send_reset: bool)
        ensures
            final(self).wf() == old(self).wf(),
            final(self)@ == (SettingsView { send_reset, ..old(self)@ }),
    {
        self.send_reset = send_reset;
    }

    /// Sets whether mounting identifiers are kept; nothing else changes.
    pub fn set_keep_ids(&mut self, keep_ids: bool)
        ensures
            final(self).wf() == old(self).wf(),
            final(self)@ == (SettingsView { keep_ids, ..old(self)@ }),
    {
        self.keep_ids = keep_ids;
    }

    /// A copy of the whole configuration.
    pub fn snapshot(&self) -> (r: Self)
        ensures
            r@ == self@,
            r.wf() == self.wf(),
    {
        let mut joycon: Vec<JoyconSettings> = Vec::new();
        let mut i: usize = 0;
        while i < self.joycon.len()
            invariant
                i <= self.joycon@.len(),
                joycon@ == self.joycon@.subrange(0, i as int),
            decreases self.joycon@.len() - i,
        {
            let entry = &self.joycon[i];
            joycon.push(
                JoyconSettings {
                    serial_number: entry.serial_number.clone(),
                    mount_rotation: entry.mount_rotation,
                    gyro_scale: entry.gyro_scale,
                },
            );
            assert(joycon@ =~= self.joycon@.subrange(0, i + 1));
            i += 1;
        }
        assert(joycon@ =~= self.joycon@);
        WranglerSettings {
            address: self.address.clone(),
            send_reset: self.send_reset,
            keep_ids: self.keep_ids,
            joycon,
        }
    }

    /// A configuration with the given flags and no device entry.
    pub fn new(address: String, send_reset: bool, keep_ids: bool) -> (r: Self)
        ensures
            r.wf(),
            r@ == (SettingsView {
                address: address@,
                send_reset,
                keep_ids,
                joycon: Map::<Seq<char>, Tuning>::empty(),
            }),
    {
        let r = WranglerSettings { address, send_reset, keep_ids, joycon: Vec::new() };
        assert(table(r.joycon@) =~= Map::<Seq<char>, Tuning>::empty());
        r
    }

    fn find(&self, serial_number: &String) -> (r: Option<usize>)
        requires
            self.wf(),
        ensures
            match r {
                Some(i) => i < self.joycon@.len() && self.joycon@[i as int].serial_number@
                    == serial_number@ && slot(self.joycon@, serial_number@) == i && holds(
                    self.joycon@,
                    serial_number@,
                ),
                None => !holds(self.joycon@, serial_number@),
            },
    {
        let mut i: usize = 0;
        while i < self.joycon.len()
            invariant
                i <= self.joycon@.len(),
                self.wf(),
                forall|j: int| 0 <= j < i ==> (#[trigger] self.joycon@[j]).serial_number@ != serial_number@,
            decreases self.joycon@.len() - i,
        {
            if self.joycon[i].serial_number == *serial_number {
                proof {
                    lemma_slot(self.joycon@, i as int);
                }
                return Some(i);
            }
            i += 1;
        }
        None
    }

    /// The mounting rotation stored for a device, in degrees; 0 where
    /// nothing was stored for it.
    pub fn joycon_rotation_get(&self, serial_number: &String) -> (r: i32)
        requires
            self.wf(),
        ensures
            r == tuning_in(self@, serial_number@).rotation,
            0 <= r < 360,
    {
        match self.find(serial_number) {
            Some(i) => self.joycon[i].mount_rotation,
            None => 0,
        }
    }

    /// The scale factor stored for a device, in thousandths; `SCALE_DEFAULT`
    /// where nothing was stored for it.
    pub fn joycon_scale_get(&self, serial_number: &String) -> (r: i32)
        requires
            self.wf(),
        ensures
            r == tuning_in(self@, serial_number@).scale,
            SCALE_MIN <= r <= SCALE_MAX,
    {
        match self.find(serial_number) {
            Some(i) => self.joycon[i].gyro_scale,
            None => SCALE_DEFAULT,
        }
    }

    fn store(&mut self, found: Option<usize>, entry: JoyconSettings)
        requires
            old(self).wf(),
            tuning_valid(tuning_at(entry)),
            match found {
                Some(i) => i < old(self).joycon@.len() && old(self).joycon@[i as int].serial_number@
                    == entry.serial_number@,
                None => !holds(old(self).joycon@, entry.serial_number@),
            },
        ensures
            final(self).wf(),
            final(self)@ == (SettingsView {
                joycon: old(self)@.joycon.insert(entry.serial_number@, tuning_at(entry)),
                ..old(self)@
            }),
    {
        match found {
            Some(i) => {
                proof {
                    lemma_table_update(self.joycon@, i as int, entry);
                }
                self.joycon.set(i, entry);
            },
            None => {
                proof {
                    lemma_table_push(self.joycon@, entry);
                }
                self.joycon.push(entry);
            },
        }
    }

    /// Turns a device's mounting rotation by `degrees` and stores the sum
    /// brought into `0..360`. The device gets an entry if it had none; its
    /// scale factor and every other device are left as they were.
    pub fn joycon_rotation_add(&mut self, serial_number: String, degrees: i32)
        requires
            old(self).wf(),
        ensures
            final(self).wf(),
            final(self)@ == rotated(old(self)@, serial_number@, degrees as int),
            0 <= tuning_in(final(self)@, serial_number@).rotation < 360,
    {
        let found = self.find(&serial_number);
        let rotation: i32 = self.joycon_rotation_get(&serial_number);
        let gyro_scale: i32 = self.joycon_scale_get(&serial_number);
        let turned: i32 = normalize_rotation(rotation as i64 + degrees as i64);
        self.store(found, JoyconSettings { serial_number, mount_rotation: turned, gyro_scale });
    }

    /// Stores a device's scale factor, in thousandths, brought into
    /// `SCALE_MIN..=SCALE_MAX`. The device gets an entry if it had none; its
    /// rotation and every other device are left as they were.
    pub fn joycon_scale_set(&mut self, serial_number: String, scale: i32)
        requires
            old(self).wf(),
        ensures
            final(self).wf(),
            final(self)@ == scaled(old(self)@, serial_number@, scale as int),
            800 <= tuning_in(final(self)@, serial_number@).scale <= 1200,
    {
        let found = self.find(&serial_number);
        let mount_rotation: i32 = self.joycon_rotation_get(&serial_number);
        let gyro_scale: i32 = clamp_scale_factor(scale);
        self.store(found, JoyconSettings { serial_number, mount_rotation, gyro_scale });
    }
}

/// The one owner of the live configuration. Readers take whole copies;
/// every write replaces the whole configuration in one step, so a copy is
/// either the configuration before a write or the one after it.
pub struct Handler {
    current: WranglerSettings,
}

impl View for Handler {
    type V = SettingsView;

    closed spec fn view(&self) -> SettingsView {
        self.current@
    }
}

impl Handler {
    /// The live configuration satisfies the store's invariant.
    pub closed spec fn wf(&self) -> bool {
        self.current.wf()
    }

    /// A store that starts from `initial`.
    pub fn new(initial: WranglerSettings) -> (r: Self)
        requires
            initial.wf(),
        ensures
            r.wf(),
            r@ == initial@,
    {
        Handler { current: initial }
    }

    /// A copy of the live configuration as it is now.
    pub fn load(&self) -> (r: WranglerSettings)
        ensures
            r@ == self@,
            r.wf() == self.wf(),
    {
        self.current.snapshot()
    }

    /// Replaces the live configuration by what `update` makes of a copy of
    /// it. `update` is responsible for handing back a well-formed
    /// configuration, which the methods of `WranglerSettings` always do.
    pub fn change<F: FnOnce(WranglerSettings) -> WranglerSettings>(&mut self, update: F)
        requires
            old(self).wf(),
            forall|before: WranglerSettings|
                before.wf() && before@ == old(self)@ ==> #[trigger] update.requires((before,)),
            forall|before: WranglerSettings, after: WranglerSettings|
                before.wf() && #[trigger] update.ensures((before,), after) ==> after.wf(),
        ensures
            final(self).wf(),
            exists|before: WranglerSettings, after: WranglerSettings|
                before.wf() && before@ == old(self)@ && #[trigger] update.ensures((before,), after)
                    && final(self)@ == after@,
    {
        let before = self.current.snapshot();
        let ghost seen = before;
        let after = update(before);
        self.current = after;
        assert(seen.wf() && seen@ == old(self)@ && update.ensures((seen,), self.current)
            && self@ == self.current@);
    }

    /// The mounting rotation stored for a device, in degrees.
    pub fn joycon_rotation_get(&self, serial_number: &String) -> (r: i32)
        requires
            self.wf(),
        ensures
            r == tuning_in(self@, serial_number@).rotation,
            0 <= r < 360,
    {
        self.current.joycon_rotation_get(serial_number)
    }

    /// The scale factor stored for a device, in thousandths.
    pub fn joycon_scale_get(&self, serial_number: &String) -> (r: i32)
        requires
            self.wf(),
        ensures
            r == tuning_in(self@, serial_number@).scale,
            SCALE_MIN <= r <= SCALE_MAX,
    {
        self.current.joycon_scale_get(serial_number)
    }

    /// Turns a device's mounting rotation by `degrees`, as
    /// `WranglerSettings::joycon_rotation_add` does, on the live
    /// configuration.
    pub fn joycon_rotation_add(&mut self, serial_number: String, degrees: i32)
        requires
            old(self).wf(),
        ensures
            final(self).wf(),
            final(self)@ == rotated(old(self)@, serial_number@, degrees as int),
    {
        self.current.joycon_rotation_add(serial_number, degrees);
    }

    /// Stores a device's scale factor, as
    /// `WranglerSettings::joycon_scale_set` does, on the live configuration.
    pub fn joycon_scale_set(&mut self, serial_number: String, scale: i32)
        requires
            old(self).wf(),
        ensures
            final(self).wf(),
            final(self)@ == scaled(old(self)@, serial_number@, scale as int),
    {
        self.current.joycon_scale_set(serial_number, scale);
    }

    /// Replaces the server address; nothing else changes.
    pub fn set_address(&mut self, address: String)
        requires
            old(self).wf(),
        ensures
            final(self).wf(),
            final(self)@ == (SettingsView { address: address@, ..old(self)@ }),
    {
        self.current.set_address(address);
    }

    /// Sets whether a button press sends a reset; nothing else changes.
    pub fn set_send_reset(&mut self, send_reset: bool)
        requires
            old(self).wf(),
        ensures
            final(self).wf(),
            final(self)@ == (SettingsView { send_reset, ..old(self)@ }),
    {
        self.current.set_send_reset(send_reset);
    }

    /// Sets whether mounting identifiers are kept; nothing else changes.
    pub fn set_keep_ids(&mut self, keep_ids: bool)
        requires
            old(self).wf(),
        ensures
            final(self).wf(),
            final(self)@ == (SettingsView { keep_ids, ..old(self)@ }),
    {
        self.current.set_keep_ids(keep_ids);
    }
}

} // verus!
