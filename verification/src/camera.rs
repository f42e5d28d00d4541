//! Camera orientation state and the key-hold controller that drives it.
//!
//! All angles are whole degrees. The controller changes the camera by fixed
//! one-degree rotation steps and five-degree field-of-view steps, so the
//! camera state stays on the integer grid; the host converts degrees to the
//! radians its shader expects when it uploads a frame.

use vstd::prelude::*;

verus! {

/// Per-tick rotation step, in degrees.
pub const ROT_STEP_DEG: i64 = 1;
/// Per-tick field-of-view step, in degrees.
pub const FOV_STEP_DEG: i32 = 5;
/// Narrowest field of view at which a further narrowing step is still taken.
pub const FOV_MIN_DEG: i32 = 10;
/// Widest field of view at which a further widening step is still taken.
pub const FOV_MAX_DEG: i32 = 85;
/// Field of view of a fresh or reset camera, in degrees.
pub const FOV_DEFAULT_DEG: i32 = 30;

/// Width and height of the drawable area in pixels; together they stand for
/// the camera frustum's width/height ratio, which must always be positive.
#[derive(Clone, Copy, Debug, PartialEq, Eq, Structural)]
pub struct AspectRatio {
    pub width: u32,
    pub height: u32,
}

impl AspectRatio {
    /// A ratio is meaningful only when neither side of the window is zero.
    pub open spec fn wf(self) -> bool {
        self.width > 0 && self.height > 0
    }

    pub fn new(width: u32, height: u32) -> (r: AspectRatio)
        requires
            width > 0,
            height > 0,
        ensures
            r == (AspectRatio { width, height }),
    {
        AspectRatio { width, height }
    }
}

/// Orientation and frustum of the virtual camera.
#[derive(Clone, Copy, Debug, PartialEq, Eq, Structural)]
pub struct Camera {
    /// Polar angle: rotation around the horizontal axis (look up/down),
    /// in degrees. Accumulates without normalization.
    pub theta_deg: i64,
    /// Azimuthal angle: rotation around the vertical axis (look left/right),
    /// in degrees. Accumulates without normalization.
    pub phi_deg: i64,
    /// Vertical field of view, in degrees.
    pub fovy_deg: i32,
    /// Width/height ratio of the drawable area.
    pub aspect: AspectRatio,
}

impl Camera {
    pub fn new(aspect: AspectRatio) -> (r: Camera)
        requires
            aspect.wf(),
        ensures
            r == (Camera { theta_deg: 0, phi_deg: 0, fovy_deg: FOV_DEFAULT_DEG, aspect }),
    {
        Camera { theta_deg: 0, phi_deg: 0, fovy_deg: FOV_DEFAULT_DEG, aspect }
    }
}

/// One of the recognized camera controls.
#[derive(Clone, Copy, Debug, PartialEq, Eq, Structural)]
pub enum Key {
    /// Rotate up.
    Up,
    /// Rotate down.
    Down,
    /// Rotate left.
    Left,
    /// Rotate right.
    Right,
    /// Narrow the field of view (zoom in).
    Plus,
    /// Widen the field of view (zoom out).
    Minus,
    /// Reset the camera to its default orientation.
    Zero,
}

/// A window event as the controller sees it: a state change of a recognized
/// control key, or anything else.
#[derive(Clone, Copy, Debug, PartialEq, Eq, Structural)]
pub enum InputEvent {
    Keyboard { key: Key, pressed: bool },
    Other,
}

/// Which control keys are currently held down.
#[derive(Clone, Copy, Debug, PartialEq, Eq, Structural)]
pub struct CameraController {
    pub hold_up: bool,
    pub hold_down: bool,
    pub hold_left: bool,
    pub hold_right: bool,
    pub hold_plus: bool,
    pub hold_minus: bool,
    pub hold_zero: bool,
}

/// The flag state after one input event: a recognized key writes its flag,
/// anything else leaves the controller alone.
pub open spec fn controller_after_event(c: CameraController, e: InputEvent) -> CameraController {
    match e {
        InputEvent::Keyboard { key, pressed } => match key {
            Key::Up => CameraController { hold_up: pressed, ..c },
            Key::Down => CameraController { hold_down: pressed, ..c },
            Key::Left => CameraController { hold_left: pressed, ..c },
            Key::Right => CameraController { hold_right: pressed, ..c },
            Key::Plus => CameraController { hold_plus: pressed, ..c },
            Key::Minus => CameraController { hold_minus: pressed, ..c },
            Key::Zero => CameraController { hold_zero: pressed, ..c },
        },
        InputEvent::Other => c,
    }
}

/// An event is consumed exactly when it is a recognized control key.
pub open spec fn event_recognized(e: InputEvent) -> bool {
    e is Keyboard
}

/// The polar angle after one tick: up and down each move one step, and a held
/// reset overrides everything.
pub open spec fn theta_after_tick(c: CameraController, theta: int) -> int {
    let up = if c.hold_up { theta + ROT_STEP_DEG } else { theta };
    let down = if c.hold_down { up - ROT_STEP_DEG } else { up };
    if c.hold_zero { 0 } else { down }
}

/// The azimuthal angle after one tick: left and right each move one step, and
/// a held reset overrides everything.
pub open spec fn phi_after_tick(c: CameraController, phi: int) -> int {
    let left = if c.hold_left { phi - ROT_STEP_DEG } else { phi };
    let right = if c.hold_right { left + ROT_STEP_DEG } else { left };
    if c.hold_zero { 0 } else { right }
}

/// The field of view after one tick: a held widening key steps wider only
/// from at most `FOV_MAX_DEG`, a held narrowing key steps narrower only from
/// at least `FOV_MIN_DEG` (checked after the widening step), and a held reset
/// overrides everything.
pub open spec fn fovy_after_tick(c: CameraController, fovy: int) -> int {
    let widened = if c.hold_minus && fovy <= FOV_MAX_DEG { fovy + FOV_STEP_DEG } else { fovy };
    let narrowed = if c.hold_plus && widened >= FOV_MIN_DEG {
        widened - FOV_STEP_DEG
    } else {
        widened
    };
    if c.hold_zero { FOV_DEFAULT_DEG as int } else { narrowed }
}

impl CameraController {
    pub fn new() -> (r: CameraController)
        ensures
            r == (CameraController {
                hold_up: false,
                hold_down: false,
                hold_left: false,
                hold_right: false,
                hold_plus: false,
                hold_minus: false,
                hold_zero: false,
            }),
    {
        CameraController {
            hold_up: false,
            hold_down: false,
            hold_left: false,
            hold_right: false,
            hold_plus: false,
            hold_minus: false,
            hold_zero: false,
        }
    }

    /// Record a key state change. Returns whether the event was consumed;
    /// an unrecognized event leaves every flag as it was.
    pub fn process_events(&mut self, event: &InputEvent) -> (consumed: bool)
        ensures
            *final(self) == controller_after_event(*old(self), *event),
            consumed == event_recognized(*event),
    {
        match event {
            InputEvent::Keyboard { key, pressed } => {
                let is_pressed = *pressed;
                match key {
                    Key::Up => {
                        self.hold_up = is_pressed;
                        true
                    },
                    Key::Down => {
                        self.hold_down = is_pressed;
                        true
                    },
                    Key::Left => {
                        self.hold_left = is_pressed;
                        true
                    },
                    Key::Right => {
                        self.hold_right = is_pressed;
                        true
                    },
                    Key::Plus => {
                        self.hold_plus = is_pressed;
                        true
                    },
                    Key::Minus => {
                        self.hold_minus = is_pressed;
                        true
                    },
                    Key::Zero => {
                        self.hold_zero = is_pressed;
                        true
                    },
                }
            },
            InputEvent::Other => false,
        }
    }

    /// Apply one fixed-step simulation tick to the camera: each held rotation
    /// key moves its angle by one step, the held field-of-view keys step the
    /// zoom within their guards, and a held reset returns the camera to the
    /// default orientation. The aspect ratio is never touched here.
    pub fn update_camera(&self, camera: &mut Camera)
        requires
            i64::MIN < old(camera).theta_deg < i64::MAX,
            i64::MIN < old(camera).phi_deg < i64::MAX,
        ensures
            final(camera).theta_deg == theta_after_tick(*self, old(camera).theta_deg as int),
            final(camera).phi_deg == phi_after_tick(*self, old(camera).phi_deg as int),
            final(camera).fovy_deg == fovy_after_tick(*self, old(camera).fovy_deg as int),
            final(camera).aspect == old(camera).aspect,
    {
        if self.hold_up {
            camera.theta_deg = camera.theta_deg + ROT_STEP_DEG;
        }
        if self.hold_down {
            camera.theta_deg = camera.theta_deg - ROT_STEP_DEG;
        }
        if self.hold_left {
            camera.phi_deg = camera.phi_deg - ROT_STEP_DEG;
        }
        if self.hold_right {
            camera.phi_deg = camera.phi_deg + ROT_STEP_DEG;
        }
        if self.hold_minus {
            if camera.fovy_deg <= FOV_MAX_DEG {
                camera.fovy_deg = camera.fovy_deg + FOV_STEP_DEG;
            }
        }
        if self.hold_plus {
            if camera.fovy_deg >= FOV_MIN_DEG {
                camera.fovy_deg = camera.fovy_deg - FOV_STEP_DEG;
            }
        }
        if self.hold_zero {
            camera.phi_deg = 0;
            camera.theta_deg = 0;
            camera.fovy_deg = FOV_DEFAULT_DEG;
        }
    }
}

/// The field of view after a run of ticks, each under its own flag state.
pub open spec fn fovy_after_ticks(flags: Seq<CameraController>, fovy: int) -> int
    decreases flags.len(),
{
    if flags.len() == 0 {
        fovy
    } else {
        fovy_after_tick(flags.last(), fovy_after_ticks(flags.drop_last(), fovy))
    }
}

/// The azimuthal angle after a run of ticks under one flag state.
pub open spec fn phi_after_n_ticks(c: CameraController, phi: int, n: nat) -> int
    decreases n,
{
    if n == 0 {
        phi
    } else {
        phi_after_tick(c, phi_after_n_ticks(c, phi, (n - 1) as nat))
    }
}

/// Field-of-view clamping, one step: a tick never moves the field of view
/// below `FOV_MIN_DEG - FOV_STEP_DEG` or above `FOV_MAX_DEG + FOV_STEP_DEG`.
/// The widening guard admits `FOV_MAX_DEG` itself, and the narrowing guard
/// `FOV_MIN_DEG` itself, so one step past either named bound is reachable;
/// at the widened interval's own edges a further step in the same direction
/// is a no-op.
pub proof fn lemma_fovy_tick_bounded(c: CameraController, fovy: int)
    requires
        FOV_MIN_DEG - FOV_STEP_DEG <= fovy <= FOV_MAX_DEG + FOV_STEP_DEG,
    ensures
        FOV_MIN_DEG - FOV_STEP_DEG <= fovy_after_tick(c, fovy) <= FOV_MAX_DEG + FOV_STEP_DEG,
{
}

/// Field-of-view clamping, any run: every tick sequence started within the
/// interval of `lemma_fovy_tick_bounded` — the default of a fresh camera
/// included — stays within it.
pub proof fn lemma_fovy_run_bounded(flags: Seq<CameraController>, fovy: int)
    requires
        FOV_MIN_DEG - FOV_STEP_DEG <= fovy <= FOV_MAX_DEG + FOV_STEP_DEG,
    ensures
        FOV_MIN_DEG - FOV_STEP_DEG <= fovy_after_ticks(flags, fovy) <= FOV_MAX_DEG
            + FOV_STEP_DEG,
    decreases flags.len(),
{
    if flags.len() > 0 {
        lemma_fovy_run_bounded(flags.drop_last(), fovy);
        lemma_fovy_tick_bounded(flags.last(), fovy_after_ticks(flags.drop_last(), fovy));
    }
}

/// At the widened interval's edges the guards bite: from the widest
/// reachable value a widening tick does nothing, and from the narrowest
/// reachable value a narrowing tick does nothing.
pub proof fn lemma_fovy_noop_at_edges(c: CameraController)
    requires
        !c.hold_zero,
    ensures
        !c.hold_plus ==> fovy_after_tick(c, FOV_MAX_DEG + FOV_STEP_DEG as int) == FOV_MAX_DEG
            + FOV_STEP_DEG,
        !c.hold_minus ==> fovy_after_tick(c, FOV_MIN_DEG - FOV_STEP_DEG as int) == FOV_MIN_DEG
            - FOV_STEP_DEG,
{
}

/// Reset precedence: when the reset control is held, a tick lands exactly on
/// the default orientation, whatever the other flags say.
pub proof fn lemma_reset_precedence(c: CameraController, theta: int, phi: int, fovy: int)
    requires
        c.hold_zero,
    ensures
        theta_after_tick(c, theta) == 0,
        phi_after_tick(c, phi) == 0,
        fovy_after_tick(c, fovy) == FOV_DEFAULT_DEG,
{
}

/// Rotation accumulation: holding rotate-right alone for a run of ticks
/// advances the azimuthal angle by exactly one step per tick, without bound
/// or normalization.
pub proof fn lemma_rotation_accumulates(c: CameraController, phi: int, n: nat)
    requires
        c.hold_right,
        !c.hold_up,
        !c.hold_down,
        !c.hold_left,
        !c.hold_plus,
        !c.hold_minus,
        !c.hold_zero,
    ensures
        phi_after_n_ticks(c, phi, n) == phi + n * ROT_STEP_DEG,
    decreases n,
{
    if n > 0 {
        lemma_rotation_accumulates(c, phi, (n - 1) as nat);
        assert(phi + n * ROT_STEP_DEG == phi + (n - 1) * ROT_STEP_DEG + ROT_STEP_DEG)
            by (nonlinear_arith);
    }
}

/// The flat camera snapshot handed to the GPU each frame. The host mirrors
/// these fields, converted to the shader's scalar types, in the uniform
/// buffer it uploads; field-for-field agreement with the camera of the last
/// completed tick is the whole contract.
#[derive(Clone, Copy, Debug, PartialEq, Eq, Structural)]
pub struct CameraUniform {
    pub theta_deg: i64,
    pub phi_deg: i64,
    pub fovy_deg: i32,
    pub aspect: AspectRatio,
}

impl CameraUniform {
    /// The snapshot agrees with the camera on every field.
    pub open spec fn is_snapshot_of(self, camera: Camera) -> bool {
        &&& self.theta_deg == camera.theta_deg
        &&& self.phi_deg == camera.phi_deg
        &&& self.fovy_deg == camera.fovy_deg
        &&& self.aspect == camera.aspect
    }

    pub fn new() -> (r: CameraUniform)
        ensures
            r == (CameraUniform {
                theta_deg: 0,
                phi_deg: 0,
                fovy_deg: 0,
                aspect: AspectRatio { width: 1, height: 1 },
            }),
    {
        CameraUniform { theta_deg: 0, phi_deg: 0, fovy_deg: 0, aspect: AspectRatio {
            width: 1,
            height: 1,
        } }
    }

    /// Overwrite the snapshot with the current camera state, field for field.
    pub fn update(&mut self, camera: &Camera)
        ensures
            final(self).is_snapshot_of(*camera),
    {
        self.theta_deg = camera.theta_deg;
        self.phi_deg = camera.phi_deg;
        self.fovy_deg = camera.fovy_deg;
        self.aspect = camera.aspect;
    }
}

} // verus!
