//! Orientation state (yaw, roll, pitch in whole degrees plus an idle tick) and
//! the scene selectors (active bind set, fill or wire pipeline), driven by
//! discrete input events.
use vstd::prelude::*;

verus! {

/// Step applied by one key press to yaw, roll or pitch, in degrees.
pub const ANGLE_STEP: i32 = 6;

/// Angle, in degrees, that a left-button press re-centers all three axes to.
pub const RECENTER_ANGLE: i32 = 60;

/// Angles are kept strictly between minus and plus one full turn.
pub open spec fn angle_ok(a: int) -> bool {
    -360 < a < 360
}

/// `a` brought back into `(-360, 360)` after a step of at most one full turn.
pub open spec fn wrap_angle(a: int) -> int {
    if a >= 360 {
        a - 360
    } else if a <= -360 {
        a + 360
    } else {
        a
    }
}

/// Yaw, roll and pitch offsets in degrees, and an idle / motion tick counter.
#[derive(Clone, Copy, Debug, PartialEq, Eq, Structural)]
pub struct Yrp {
    pub yaw: i32,
    pub roll: i32,
    pub pitch: i32,
    pub tick: u64,
}

impl Yrp {
    pub open spec fn wf(self) -> bool {
        angle_ok(self.yaw as int) && angle_ok(self.roll as int) && angle_ok(self.pitch as int)
    }

    /// The re-centered orientation.
    pub fn recentered() -> (r: Yrp)
        ensures
            r == (Yrp { yaw: 60, roll: 60, pitch: 60, tick: 0 }),
            r.wf(),
    {
        Yrp { yaw: RECENTER_ANGLE, roll: RECENTER_ANGLE, pitch: RECENTER_ANGLE, tick: 0 }
    }

    /// The alternate orientation that the zero key snaps to.
    pub fn snapped() -> (r: Yrp)
        ensures
            r == (Yrp { yaw: -90i32, roll: 0, pitch: 0, tick: 0 }),
            r.wf(),
    {
        Yrp { yaw: -90, roll: 0, pitch: 0, tick: 0 }
    }
}

/// Adds `delta` degrees to an angle, keeping it within one full turn.
pub fn step_angle(a: i32, delta: i32) -> (r: i32)
    requires
        angle_ok(a as int),
        -360 <= delta <= 360,
    ensures
        r == wrap_angle(a + delta),
        angle_ok(r as int),
{
    let s: i32 = a + delta;
    if s >= 360 {
        s - 360
    } else if s <= -360 {
        s + 360
    } else {
        s
    }
}


/// Keys that the scene reacts to; every other key is `Other`.
#[derive(Clone, Copy, Debug, PartialEq, Eq, Structural)]
pub enum Key {
    Left,
    Right,
    LControl,
    RControl,
    Up,
    Down,
    Key0,
    Numpad0,
    W,
    T,
    Other,
}

/// Input events as classified for the scene.
#[derive(Clone, Copy, Debug, PartialEq, Eq, Structural)]
pub enum InputEvent {
    CursorEntered,
    CursorLeft,
    CursorMoved,
    /// A mouse button changed state; `left` tells the left button apart.
    MouseButton { left: bool, pressed: bool },
    KeyDown(Key),
    KeyUp(Key),
    /// A keyboard event without a recognised key code.
    UnknownKey,
    /// Any other window event.
    Other,
}

/// The tick counter after one motion event: it grows by one and stops at the
/// largest value.
pub open spec fn bumped_tick(t: u64) -> u64 {
    if t < u64::MAX {
        (t + 1) as u64
    } else {
        t
    }
}

/// The orientation after one event.
pub open spec fn next_yrp(y: Yrp, ev: InputEvent) -> Yrp {
    match ev {
        InputEvent::CursorMoved => Yrp { tick: bumped_tick(y.tick), ..y },
        InputEvent::MouseButton { left, pressed } => if left && pressed {
            Yrp { yaw: 60, roll: 60, pitch: 60, tick: 0 }
        } else {
            y
        },
        InputEvent::KeyDown(k) => match k {
            Key::Key0 | Key::Numpad0 => Yrp { yaw: -90i32, roll: 0, pitch: 0, tick: 0 },
            Key::Left => Yrp { yaw: wrap_angle(y.yaw - 6) as i32, ..y },
            Key::Right => Yrp { yaw: wrap_angle(y.yaw + 6) as i32, ..y },
            Key::LControl => Yrp { roll: wrap_angle(y.roll - 6) as i32, ..y },
            Key::RControl => Yrp { roll: wrap_angle(y.roll + 6) as i32, ..y },
            Key::Up => Yrp { pitch: wrap_angle(y.pitch - 6) as i32, ..y },
            Key::Down => Yrp { pitch: wrap_angle(y.pitch + 6) as i32, ..y },
            Key::W | Key::T => y,
            Key::Other => Yrp { tick: 0, ..y },
        },
        _ => y,
    }
}

/// Which bind set is active among `count`, and whether the wire pipeline is
/// drawn instead of the filled one.
#[derive(Clone, Copy, Debug, PartialEq, Eq, Structural)]
pub struct SceneSelect {
    pub count: usize,
    pub active: usize,
    pub wire: bool,
    pub wire_supported: bool,
}

/// The selection after one cycle of the bind set.
pub open spec fn cycled(s: SceneSelect) -> SceneSelect {
    SceneSelect { active: ((s.active + 1) % (s.count as int)) as usize, ..s }
}

/// The selection after one toggle of the pipeline.
pub open spec fn toggled(s: SceneSelect) -> SceneSelect {
    if s.wire_supported {
        SceneSelect { wire: !s.wire, ..s }
    } else {
        s
    }
}

/// The selection after `k` cycles of the bind set.
pub open spec fn cycled_times(s: SceneSelect, k: nat) -> SceneSelect
    decreases k,
{
    if k == 0 {
        s
    } else {
        cycled(cycled_times(s, (k - 1) as nat))
    }
}

/// The selection after one event.
pub open spec fn next_select(s: SceneSelect, ev: InputEvent) -> SceneSelect {
    match ev {
        InputEvent::KeyDown(Key::W) => toggled(s),
        InputEvent::KeyDown(Key::T) => cycled(s),
        _ => s,
    }
}

impl SceneSelect {
    pub open spec fn wf(self) -> bool {
        &&& self.count > 0
        &&& self.active < self.count
        &&& self.wire ==> self.wire_supported
    }

    /// Selects the first of `count` bind sets and the filled pipeline.
    pub fn new(count: usize, wire_supported: bool) -> (r: SceneSelect)
        requires
            count > 0,
        ensures
            r == (SceneSelect { count, active: 0, wire: false, wire_supported }),
            r.wf(),
    {
        SceneSelect { count, active: 0, wire: false, wire_supported }
    }

    /// Advances the active bind set, wrapping after the last one.
    pub fn cycle_bind_set(&mut self)
        requires
            old(self).wf(),
        ensures
            *final(self) == cycled(*old(self)),
            final(self).wf(),
    {
        if self.active + 1 < self.count {
            proof {
                vstd::arithmetic::div_mod::lemma_small_mod(
                    (self.active + 1) as nat,
                    self.count as nat,
                );
            }
            self.active = self.active + 1;
        } else {
            proof {
                vstd::arithmetic::div_mod::lemma_mod_self_0(self.count as int);
            }
            self.active = 0;
        }
    }

    /// Flips between the filled and the wire pipeline; does nothing where the
    /// wire pipeline is not supported.
    pub fn toggle_wire(&mut self)
        requires
            old(self).wf(),
        ensures
            *final(self) == toggled(*old(self)),
            final(self).wf(),
    {
        if self.wire_supported {
            self.wire = !self.wire;
        }
    }
}

/// Cycling `count` times returns to the starting bind set, and no number of
/// cycles leaves the range of bind sets.
pub proof fn lemma_cycle_returns(s: SceneSelect, k: nat)
    requires
        s.wf(),
    ensures
        cycled_times(s, k).wf(),
        cycled_times(s, k).active == (s.active + k) % (s.count as int),
        cycled_times(s, s.count as nat) == s,
    decreases k,
{
    lemma_cycled_times_active(s, k);
    lemma_cycled_times_active(s, s.count as nat);
    vstd::arithmetic::div_mod::lemma_mod_add_multiples_vanish(s.active as int, s.count as int);
    vstd::arithmetic::div_mod::lemma_small_mod(s.active as nat, s.count as nat);
}

proof fn lemma_cycled_times_active(s: SceneSelect, k: nat)
    requires
        s.wf(),
    ensures
        cycled_times(s, k).wf(),
        cycled_times(s, k).count == s.count,
        cycled_times(s, k).wire == s.wire,
        cycled_times(s, k).wire_supported == s.wire_supported,
        cycled_times(s, k).active == (s.active + k) % (s.count as int),
    decreases k,
{
    if k == 0 {
        vstd::arithmetic::div_mod::lemma_small_mod(s.active as nat, s.count as nat);
    } else {
        lemma_cycled_times_active(s, (k - 1) as nat);
        vstd::arithmetic::div_mod::lemma_add_mod_noop_right(1, s.active + k - 1, s.count as int);
        vstd::arithmetic::div_mod::lemma_mod_bound(s.active + k, s.count as int);
    }
}

/// The orientation and the scene selection that input events drive.
#[derive(Clone, Copy, Debug, PartialEq, Eq, Structural)]
pub struct Controller {
    pub yrp: Yrp,
    pub select: SceneSelect,
}

impl Controller {
    pub open spec fn wf(self) -> bool {
        self.yrp.wf() && self.select.wf()
    }

    /// Starts re-centered, on the first of `count` bind sets, filled.
    pub fn new(count: usize, wire_supported: bool) -> (r: Controller)
        requires
            count > 0,
        ensures
            r.yrp == (Yrp { yaw: 60, roll: 60, pitch: 60, tick: 0 }),
            r.select == (SceneSelect { count, active: 0, wire: false, wire_supported }),
            r.wf(),
    {
        Controller { yrp: Yrp::recentered(), select: SceneSelect::new(count, wire_supported) }
    }

    /// Applies one input event.
    pub fn update(&mut self, ev: InputEvent)
        requires
            old(self).wf(),
        ensures
            final(self).yrp == next_yrp(old(self).yrp, ev),
            final(self).select == next_select(old(self).select, ev),
            final(self).wf(),
    {
        match ev {
            InputEvent::CursorMoved => {
                if self.yrp.tick < u64::MAX {
                    self.yrp.tick = self.yrp.tick + 1;
                }
            },
            InputEvent::MouseButton { left, pressed } => {
                if left && pressed {
                    self.yrp = Yrp::recentered();
                }
            },
            InputEvent::KeyDown(k) => match k {
                Key::Key0 | Key::Numpad0 => {
                    self.yrp = Yrp::snapped();
                },
                Key::Left => {
                    self.yrp.yaw = step_angle(self.yrp.yaw, -ANGLE_STEP);
                },
                Key::Right => {
                    self.yrp.yaw = step_angle(self.yrp.yaw, ANGLE_STEP);
                },
                Key::LControl => {
                    self.yrp.roll = step_angle(self.yrp.roll, -ANGLE_STEP);
                },
                Key::RControl => {
                    self.yrp.roll = step_angle(self.yrp.roll, ANGLE_STEP);
                },
                Key::Up => {
                    self.yrp.pitch = step_angle(self.yrp.pitch, -ANGLE_STEP);
                },
                Key::Down => {
                    self.yrp.pitch = step_angle(self.yrp.pitch, ANGLE_STEP);
                },
                Key::W => {
                    self.select.toggle_wire();
                },
                Key::T => {
                    self.select.cycle_bind_set();
                },
                Key::Other => {
                    self.yrp.tick = 0;
                },
            },
            _ => {},
        }
    }
}

/// A left-button press re-centers yaw, roll and pitch and clears the tick,
/// whatever the orientation before it; a release leaves it as it was.
pub proof fn lemma_left_press_recenters(y: Yrp)
    ensures
        next_yrp(y, InputEvent::MouseButton { left: true, pressed: true })
            == (Yrp { yaw: 60, roll: 60, pitch: 60, tick: 0 }),
        next_yrp(y, InputEvent::MouseButton { left: true, pressed: false }) == y,
{
}

/// A right-arrow press adds one step to the yaw (modulo a full turn) and
/// changes nothing else; a left-arrow press takes one step off.
pub proof fn lemma_arrow_steps_yaw(y: Yrp)
    requires
        y.wf(),
    ensures
        next_yrp(y, InputEvent::KeyDown(Key::Right)).yaw == wrap_angle(y.yaw + 6),
        next_yrp(y, InputEvent::KeyDown(Key::Left)).yaw == wrap_angle(y.yaw - 6),
        y.yaw + 6 < 360 ==> next_yrp(y, InputEvent::KeyDown(Key::Right)).yaw == y.yaw + 6,
        next_yrp(y, InputEvent::KeyDown(Key::Right)) == (Yrp {
            yaw: next_yrp(y, InputEvent::KeyDown(Key::Right)).yaw,
            ..y
        }),
{
}

} // verus!
