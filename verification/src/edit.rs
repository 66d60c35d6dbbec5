//! What the processor and fan cards remember between frames: the values
//! being edited, the fans whose change is being applied, renames in progress,
//! and the rules that decide when an edit is committed.
use vstd::prelude::*;
use crate::config::default_fan_spec;
use crate::config::FanConfig;
use crate::curve::{
    clamp_point_spec, clamp_rampup_point, derive_prefix, derive_rampdown, CURVE_TEMP_MAX,
};

verus! {

/// How long an error stays on screen, in milliseconds.
pub const ERROR_SHOW_MS: u64 = 5000;

/// Top of the temperature chart, in °C.
pub const TEMP_CHART_MAX: i32 = 100;

/// Top of a fan's speed chart: the system fan (index 2) turns slower.
pub fn fan_chart_max_rpm(index: usize) -> (r: i32)
    ensures
        r == (if index == 2 { 2500i32 } else { 5000i32 }),
{
    if index == 2 {
        2500
    } else {
        5000
    }
}

/// An error shown at `error_at_ms` is cleared once more than
/// `ERROR_SHOW_MS` have passed (a clock that went back counts as no time).
pub fn error_expired(error_at_ms: u64, now_ms: u64) -> (r: bool)
    ensures
        r == (now_ms > error_at_ms && now_ms - error_at_ms > ERROR_SHOW_MS),
{
    now_ms > error_at_ms && now_ms - error_at_ms > ERROR_SHOW_MS
}

/// What a rename box does this frame.
#[derive(Clone, Copy, Debug, PartialEq, Eq, Structural)]
pub enum RenameAction {
    /// Store no custom name and close the box.
    RestoreDefault,
    /// Close the box and keep the old name.
    Cancel,
    /// Store what was typed and close the box.
    Commit,
    /// Keep editing.
    Continue,
}

/// The restore button wins over Escape, which wins over Enter or leaving the
/// box.
pub fn rename_action(restore_clicked: bool, escape: bool, enter_or_left: bool) -> (r: RenameAction)
    ensures
        r == (if restore_clicked {
            RenameAction::RestoreDefault
        } else if escape {
            RenameAction::Cancel
        } else if enter_or_left {
            RenameAction::Commit
        } else {
            RenameAction::Continue
        }),
{
    if restore_clicked {
        RenameAction::RestoreDefault
    } else if escape {
        RenameAction::Cancel
    } else if enter_or_left {
        RenameAction::Commit
    } else {
        RenameAction::Continue
    }
}

/// Equality of two curves.
pub fn same_curve(a: &[u8; 5], b: &[u8; 5]) -> (r: bool)
    ensures
        r == (a@ == b@),
{
    let r = a[0] == b[0] && a[1] == b[1] && a[2] == b[2] && a[3] == b[3] && a[4] == b[4];
    if r {
        assert(a@ =~= b@);
    }
    r
}

/// The range the editor offers for ramp-up point `point`: above the point
/// before it, below the point after it (at most 100 for the top one); the
/// current value alone when the neighbours leave no room.
pub open spec fn point_range_spec(curve: Seq<u8>, point: int, value: i32) -> (i32, i32) {
    let lo: int = if point == 0 { 0 } else { curve[point - 1] + 1 };
    let hi: int = if point + 1 >= 5 { CURVE_TEMP_MAX as int } else { curve[point + 1] - 1 };
    if lo > hi {
        (value, value)
    } else {
        (lo as i32, hi as i32)
    }
}

pub fn curve_point_range(curve: &[u8; 5], point: usize, value: i32) -> (r: (i32, i32))
    requires
        point < 5,
    ensures
        r == point_range_spec(curve@, point as int, value),
{
    let lo: i32 = if point == 0 { 0 } else { curve[point - 1] as i32 + 1 };
    let hi: i32 = if point + 1 >= 5 { CURVE_TEMP_MAX as i32 } else { curve[point + 1] as i32 - 1 };
    if lo > hi {
        (value, value)
    } else {
        (lo, hi)
    }
}

/// A typed temperature as a byte: clamped to 0..=100.
pub open spec fn typed_temp(value: i32) -> u8 {
    if value < 0 {
        0
    } else if value > CURVE_TEMP_MAX as i32 {
        CURVE_TEMP_MAX
    } else {
        value as u8
    }
}

/// The edit state of the processor card and the three fan cards.
pub struct EditState {
    pub apu_applying: bool,
    pub fan_applying: [bool; 3],
    pub temp_fan_level: [i32; 3],
    pub dragging_level: [bool; 3],
    pub temp_fan_rampup: [[u8; 5]; 3],
    pub temp_fan_rampdown: [[u8; 5]; 3],
    pub dragging_curve: [bool; 3],
    pub curve_dirty: [bool; 3],
    pub renaming_fan: [bool; 3],
    pub temp_fan_name: [String; 3],
    pub renaming_processor: bool,
    pub temp_processor_name: String,
}

/// The curves shown in card `index` are the factory curves of fan
/// `index + 1`.
pub open spec fn shows_default_curves(e: EditState, index: int) -> bool {
    &&& e.temp_fan_rampup@[index]@ == default_fan_spec((index + 1) as u8).rampup
    &&& e.temp_fan_rampdown@[index]@ == default_fan_spec((index + 1) as u8).rampdown
}

/// Two edit states that differ at most in the card fields written by a
/// per-fan step (fan `index`), everything else being equal.
pub open spec fn same_outside_fan(a: EditState, b: EditState, index: int) -> bool {
    &&& a.apu_applying == b.apu_applying
    &&& a.renaming_processor == b.renaming_processor
    &&& a.temp_processor_name@ == b.temp_processor_name@
    &&& forall|j: int| 0 <= j < 3 && j != index ==> {
        &&& #[trigger] a.fan_applying@[j] == b.fan_applying@[j]
        &&& a.temp_fan_level@[j] == b.temp_fan_level@[j]
        &&& a.dragging_level@[j] == b.dragging_level@[j]
        &&& a.temp_fan_rampup@[j] == b.temp_fan_rampup@[j]
        &&& a.temp_fan_rampdown@[j] == b.temp_fan_rampdown@[j]
        &&& a.dragging_curve@[j] == b.dragging_curve@[j]
        &&& a.curve_dirty@[j] == b.curve_dirty@[j]
        &&& a.renaming_fan@[j] == b.renaming_fan@[j]
        &&& a.temp_fan_name@[j]@ == b.temp_fan_name@[j]@
    }
    &&& a.renaming_fan@[index] == b.renaming_fan@[index]
    &&& a.temp_fan_name@[index]@ == b.temp_fan_name@[index]@
}

impl Default for EditState {
    /// Nothing being applied or edited; each fan shows its factory curves.
    fn default() -> (r: EditState)
        ensures
            !r.apu_applying,
            !r.renaming_processor,
            r.temp_processor_name@ == Seq::<char>::empty(),
            r.fan_applying@ == seq![false, false, false],
            r.temp_fan_level@ == seq![0i32, 0i32, 0i32],
            r.dragging_level@ == seq![false, false, false],
            r.dragging_curve@ == seq![false, false, false],
            r.curve_dirty@ == seq![false, false, false],
            r.renaming_fan@ == seq![false, false, false],
            forall|i: int| 0 <= i < 3 ==> (#[trigger] r.temp_fan_name@[i])@ == Seq::<char>::empty(),
            forall|i: int| 0 <= i < 3 ==> #[trigger] shows_default_curves(r, i),
    {
        let f1 = FanConfig::default_for_fan(1);
        let f2 = FanConfig::default_for_fan(2);
        let f3 = FanConfig::default_for_fan(3);
        let r = EditState {
            apu_applying: false,
            fan_applying: [false, false, false],
            temp_fan_level: [0, 0, 0],
            dragging_level: [false, false, false],
            temp_fan_rampup: [f1.rampup_curve, f2.rampup_curve, f3.rampup_curve],
            temp_fan_rampdown: [f1.rampdown_curve, f2.rampdown_curve, f3.rampdown_curve],
            dragging_curve: [false, false, false],
            curve_dirty: [false, false, false],
            renaming_fan: [false, false, false],
            temp_fan_name: [String::new(), String::new(), String::new()],
            renaming_processor: false,
            temp_processor_name: String::new(),
        };
        assert(shows_default_curves(r, 0));
        assert(shows_default_curves(r, 1));
        assert(shows_default_curves(r, 2));
        assert(r.fan_applying@ =~= seq![false, false, false]);
        assert(r.temp_fan_level@ =~= seq![0i32, 0i32, 0i32]);
        assert(r.dragging_level@ =~= seq![false, false, false]);
        assert(r.dragging_curve@ =~= seq![false, false, false]);
        assert(r.curve_dirty@ =~= seq![false, false, false]);
        assert(r.renaming_fan@ =~= seq![false, false, false]);
        r
    }
}

impl EditState {
    /// Takes a fresh reading of fan `index` into the card: the level unless
    /// its slider is being dragged, the curves unless they are being
    /// dragged, applied or have unsaved edits.
    pub fn sync_fan(&mut self, index: usize, level: u8, rampup: [u8; 5], rampdown: [u8; 5])
        requires
            index < 3,
        ensures
            same_outside_fan(*final(self), *old(self), index as int),
            final(self).fan_applying == old(self).fan_applying,
            final(self).dragging_level == old(self).dragging_level,
            final(self).dragging_curve == old(self).dragging_curve,
            final(self).curve_dirty == old(self).curve_dirty,
            final(self).temp_fan_level@[index as int] == (if old(self).dragging_level@[index as int] {
                old(self).temp_fan_level@[index as int]
            } else {
                level as i32
            }),
            ({
                let keep = old(self).dragging_curve@[index as int] || old(self).fan_applying@[index as int]
                    || old(self).curve_dirty@[index as int];
                &&& final(self).temp_fan_rampup@[index as int] == (if keep {
                    old(self).temp_fan_rampup@[index as int]
                } else {
                    rampup
                })
                &&& final(self).temp_fan_rampdown@[index as int] == (if keep {
                    old(self).temp_fan_rampdown@[index as int]
                } else {
                    rampdown
                })
            }),
    {
        if !self.dragging_level[index] {
            self.temp_fan_level[index] = level as i32;
        }
        if !self.dragging_curve[index] && !self.fan_applying[index] && !self.curve_dirty[index] {
            self.temp_fan_rampup[index] = rampup;
            self.temp_fan_rampdown[index] = rampdown;
        }
    }

    /// A change of fan `index` is handed to the controller: the card is
    /// locked and no slider counts as dragged any more.
    pub fn begin_fan_apply(&mut self, index: usize)
        requires
            index < 3,
        ensures
            same_outside_fan(*final(self), *old(self), index as int),
            final(self).fan_applying@ == old(self).fan_applying@.update(index as int, true),
            final(self).dragging_level@ == old(self).dragging_level@.update(index as int, false),
            final(self).dragging_curve@ == old(self).dragging_curve@.update(index as int, false),
            final(self).temp_fan_level == old(self).temp_fan_level,
            final(self).temp_fan_rampup == old(self).temp_fan_rampup,
            final(self).temp_fan_rampdown == old(self).temp_fan_rampdown,
            final(self).curve_dirty == old(self).curve_dirty,
    {
        self.fan_applying[index] = true;
        self.dragging_level[index] = false;
        self.dragging_curve[index] = false;
    }

    /// The change of fan `index` came back: the card is unlocked, and the
    /// edited curve counts as saved when the change succeeded.
    pub fn finish_fan_apply(&mut self, index: usize, succeeded: bool)
        requires
            index < 3,
        ensures
            same_outside_fan(*final(self), *old(self), index as int),
            final(self).fan_applying@ == old(self).fan_applying@.update(index as int, false),
            final(self).curve_dirty@ == (if succeeded {
                old(self).curve_dirty@.update(index as int, false)
            } else {
                old(self).curve_dirty@
            }),
            final(self).dragging_level == old(self).dragging_level,
            final(self).dragging_curve == old(self).dragging_curve,
            final(self).temp_fan_level == old(self).temp_fan_level,
            final(self).temp_fan_rampup == old(self).temp_fan_rampup,
            final(self).temp_fan_rampdown == old(self).temp_fan_rampdown,
    {
        if succeeded {
            self.curve_dirty[index] = false;
        }
        self.fan_applying[index] = false;
    }

    /// Ramp-up point `point` of card `index` was typed or dragged to
    /// `value`: the point moves as far as its neighbours allow; when that
    /// changes the curve, the ramp-down curve is derived again and the edit
    /// is unsaved. Returns whether the curve changed.
    pub fn edit_curve_point(&mut self, index: usize, point: usize, value: i32) -> (changed: bool)
        requires
            index < 3,
            point < 5,
        ensures
            same_outside_fan(*final(self), *old(self), index as int),
            final(self).fan_applying == old(self).fan_applying,
            final(self).dragging_level == old(self).dragging_level,
            final(self).dragging_curve == old(self).dragging_curve,
            final(self).temp_fan_level == old(self).temp_fan_level,
            ({
                let next = clamp_point_spec(
                    old(self).temp_fan_rampup@[index as int]@,
                    point as int,
                    typed_temp(value),
                );
                &&& changed == (next != old(self).temp_fan_rampup@[index as int]@)
                &&& changed ==> {
                    &&& final(self).temp_fan_rampup@[index as int]@ == next
                    &&& final(self).temp_fan_rampdown@[index as int]@ == derive_prefix(next, 4)
                    &&& final(self).curve_dirty@ == old(self).curve_dirty@.update(index as int, true)
                }
                &&& !changed ==> {
                    &&& final(self).temp_fan_rampup == old(self).temp_fan_rampup
                    &&& final(self).temp_fan_rampdown == old(self).temp_fan_rampdown
                    &&& final(self).curve_dirty == old(self).curve_dirty
                }
            }),
    {
        let temp: u8 = if value < 0 {
            0
        } else if value > CURVE_TEMP_MAX as i32 {
            CURVE_TEMP_MAX
        } else {
            value as u8
        };
        let current = self.temp_fan_rampup[index];
        let next = clamp_rampup_point(current, point, temp);
        let changed = !same_curve(&next, &current);
        if changed {
            let down = derive_rampdown(&next);
            self.temp_fan_rampup[index] = next;
            self.temp_fan_rampdown[index] = down;
            self.curve_dirty[index] = true;
        }
        changed
    }

    /// End of a frame of the curve table of card `index`: records whether a
    /// point is being dragged; when an edit was let go of (`released`) while
    /// nothing is dragged and the curve has unsaved edits, the ramp-down
    /// curve is derived again and the curves to apply are returned.
    pub fn curve_commit(&mut self, index: usize, released: bool, any_dragged: bool) -> (r: Option<([u8; 5], [u8; 5])>)
        requires
            index < 3,
        ensures
            same_outside_fan(*final(self), *old(self), index as int),
            final(self).fan_applying == old(self).fan_applying,
            final(self).dragging_level == old(self).dragging_level,
            final(self).dragging_curve@ == old(self).dragging_curve@.update(index as int, any_dragged),
            final(self).temp_fan_level == old(self).temp_fan_level,
            final(self).temp_fan_rampup == old(self).temp_fan_rampup,
            final(self).curve_dirty == old(self).curve_dirty,
            r is Some <==> (released && !any_dragged && old(self).curve_dirty@[index as int]),
            r matches Some(pair) ==> {
                &&& pair.0 == old(self).temp_fan_rampup@[index as int]
                &&& pair.1@ == derive_prefix(pair.0@, 4)
                &&& final(self).temp_fan_rampdown@ == old(self).temp_fan_rampdown@.update(index as int, pair.1)
            },
            r is None ==> final(self).temp_fan_rampdown == old(self).temp_fan_rampdown,
    {
        self.dragging_curve[index] = any_dragged;
        if released && !any_dragged && self.curve_dirty[index] {
            let rampup = self.temp_fan_rampup[index];
            let rampdown = derive_rampdown(&rampup);
            self.temp_fan_rampdown[index] = rampdown;
            Some((rampup, rampdown))
        } else {
            None
        }
    }

    /// Card `index` shows the factory curves of fan `index + 1`.
    pub fn curve_is_default(&self, index: usize) -> (r: bool)
        requires
            index < 3,
        ensures
            r == shows_default_curves(*self, index as int),
    {
        let fan_id: u8 = index as u8 + 1;
        let defaults = FanConfig::default_for_fan(fan_id);
        same_curve(&self.temp_fan_rampup[index], &defaults.rampup_curve)
            && same_curve(&self.temp_fan_rampdown[index], &defaults.rampdown_curve)
    }

    /// "Restore default" on card `index`: the factory curves are shown, marked
    /// unsaved, and returned for applying.
    pub fn restore_default_curve(&mut self, index: usize) -> (r: ([u8; 5], [u8; 5]))
        requires
            index < 3,
        ensures
            same_outside_fan(*final(self), *old(self), index as int),
            shows_default_curves(*final(self), index as int),
            r.0 == final(self).temp_fan_rampup@[index as int],
            r.1 == final(self).temp_fan_rampdown@[index as int],
            final(self).curve_dirty@ == old(self).curve_dirty@.update(index as int, true),
            final(self).fan_applying == old(self).fan_applying,
            final(self).dragging_level == old(self).dragging_level,
            final(self).dragging_curve == old(self).dragging_curve,
            final(self).temp_fan_level == old(self).temp_fan_level,
    {
        let fan_id: u8 = index as u8 + 1;
        let defaults = FanConfig::default_for_fan(fan_id);
        self.temp_fan_rampup[index] = defaults.rampup_curve;
        self.temp_fan_rampdown[index] = defaults.rampdown_curve;
        self.curve_dirty[index] = true;
        (defaults.rampup_curve, defaults.rampdown_curve)
    }
}

} // verus!
