use vstd::prelude::*;

verus! {

/// Stick deflection (in thousandths) that a stick must exceed to count.
pub const JOYSTICK_THRESHOLD: i64 = 500;

/// Full deflection of a stick axis, in thousandths.
pub const AXIS_MAX: i64 = 1000;

/// Largest contribution of one input source to the movement intent,
/// in nano-units: a full tick at the top speed and full deflection.
pub const SOURCE_BOUND: i128 = 1_000_000_000_000_000;

/// Bound on the magnitude of any movement intent, in nano-units.
pub const MOVEMENT_BOUND: i128 = 100_000_000_000_000_000_000_000_000_000_000_000;

/// State of one digital button during the current frame.
#[derive(Clone, Copy, Debug, Default, PartialEq, Eq, Structural)]
pub struct Button {
    pub pressed: bool,
    pub just_pressed: bool,
    pub just_released: bool,
}

/// The keyboard keys that the controller reads.
#[derive(Clone, Copy, Debug, Default, PartialEq, Eq, Structural)]
pub struct Keyboard {
    pub key_w: Button,
    pub key_a: Button,
    pub key_s: Button,
    pub key_d: Button,
    pub arrow_up: Button,
    pub arrow_down: Button,
    pub arrow_left: Button,
    pub arrow_right: Button,
    pub space: Button,
    pub shift_left: Button,
    pub enter: Button,
}

/// One connected gamepad: its buttons and its left stick, each axis in
/// thousandths of full deflection.
#[derive(Clone, Copy, Debug, Default, PartialEq, Eq, Structural)]
pub struct Gamepad {
    pub south: Button,
    pub west: Button,
    pub dpad_up: Button,
    pub dpad_down: Button,
    pub dpad_left: Button,
    pub dpad_right: Button,
    pub left_stick_x: i64,
    pub left_stick_y: i64,
}

/// Everything the controller polls from the input devices in one frame.
#[derive(Clone, Debug, Default)]
pub struct Controls {
    pub keyboard: Keyboard,
    pub gamepads: Vec<Gamepad>,
}

impl Gamepad {
    /// Both stick axes lie in the full-deflection range.
    pub open spec fn wf(&self) -> bool {
        &&& -AXIS_MAX <= self.left_stick_x <= AXIS_MAX
        &&& -AXIS_MAX <= self.left_stick_y <= AXIS_MAX
    }
}

impl Controls {
    /// Every gamepad's stick lies in the full-deflection range.
    pub open spec fn wf(&self) -> bool {
        forall|i: int| 0 <= i < self.gamepads@.len() ==> (#[trigger] self.gamepads@[i]).wf()
    }
}

/// Magnitude of an integer.
pub open spec fn abs(v: int) -> int {
    if v < 0 { -v } else { v }
}

/// Whether a stick axis value lies outside the deadzone.
pub open spec fn beyond_deadzone(v: i64) -> bool {
    abs(v as int) > JOYSTICK_THRESHOLD
}

/// One step if `b` holds, else none.
pub open spec fn as_step(b: bool) -> int {
    if b { 1 } else { 0 }
}

/// Displacement of one tick at full input, in nano-units.
pub open spec fn full_step(dt: u64, speed: u64) -> int {
    dt * speed * 1000
}

/// A key that steers right or left is held.
pub open spec fn keyboard_steers(k: Keyboard) -> bool {
    k.arrow_right.pressed || k.key_d.pressed || k.arrow_left.pressed || k.key_a.pressed
}

/// `unit` if `b` holds, else nothing.
pub open spec fn when(b: bool, unit: int) -> int {
    if b { unit } else { 0 }
}

/// Keyboard movement: a full step right, left, or none when both or neither are held.
pub open spec fn keyboard_movement(k: Keyboard, dt: u64, speed: u64) -> int {
    when(k.arrow_right.pressed || k.key_d.pressed, full_step(dt, speed)) - when(
        k.arrow_left.pressed || k.key_a.pressed,
        full_step(dt, speed),
    )
}

/// One gamepad's movement: the stick's deflection when outside the deadzone,
/// plus a full step per held d-pad direction.
pub open spec fn gamepad_movement(p: Gamepad, dt: u64, speed: u64) -> int {
    (if beyond_deadzone(p.left_stick_x) {
        dt * speed * p.left_stick_x
    } else {
        0
    }) + when(p.dpad_right.pressed, full_step(dt, speed)) - when(
        p.dpad_left.pressed,
        full_step(dt, speed),
    )
}

/// Sum of the horizontal movement of every gamepad.
pub open spec fn gamepads_movement(pads: Seq<Gamepad>, dt: u64, speed: u64) -> int
    decreases pads.len(),
{
    if pads.len() == 0 {
        0
    } else {
        gamepads_movement(pads.drop_last(), dt, speed) + gamepad_movement(pads.last(), dt, speed)
    }
}

/// Horizontal movement of one tick in nano-units: the keyboard when one of its
/// steering keys is held, else the sum over the gamepads.
pub open spec fn movement_of(c: Controls, dt: u64, speed: u64) -> int {
    if keyboard_steers(c.keyboard) {
        keyboard_movement(c.keyboard, dt, speed)
    } else {
        gamepads_movement(c.gamepads@, dt, speed)
    }
}

/// One step in the direction a stick axis points, when outside the deadzone.
pub open spec fn sign_step(v: i64) -> int {
    if !beyond_deadzone(v) {
        0
    } else if v > 0 {
        1
    } else {
        -1
    }
}

/// Horizontal dash steps of the keyboard: D and the right arrow against A and the left arrow.
pub open spec fn keyboard_dash_x(k: Keyboard) -> int {
    as_step(k.key_d.pressed) + as_step(k.arrow_right.pressed) - as_step(k.key_a.pressed)
        - as_step(k.arrow_left.pressed)
}

/// Vertical dash steps of the keyboard: W and the up arrow against S and the down arrow.
pub open spec fn keyboard_dash_y(k: Keyboard) -> int {
    as_step(k.key_w.pressed) + as_step(k.arrow_up.pressed) - as_step(k.key_s.pressed) - as_step(
        k.arrow_down.pressed,
    )
}

/// Horizontal dash steps of one gamepad: d-pad and stick.
pub open spec fn gamepad_dash_x(p: Gamepad) -> int {
    as_step(p.dpad_right.pressed) - as_step(p.dpad_left.pressed) + sign_step(p.left_stick_x)
}

/// Vertical dash steps of one gamepad: d-pad and stick.
pub open spec fn gamepad_dash_y(p: Gamepad) -> int {
    as_step(p.dpad_up.pressed) - as_step(p.dpad_down.pressed) + sign_step(p.left_stick_y)
}

/// Horizontal dash steps summed over the gamepads.
pub open spec fn gamepads_dash_x(pads: Seq<Gamepad>) -> int
    decreases pads.len(),
{
    if pads.len() == 0 {
        0
    } else {
        gamepads_dash_x(pads.drop_last()) + gamepad_dash_x(pads.last())
    }
}

/// Vertical dash steps summed over the gamepads.
pub open spec fn gamepads_dash_y(pads: Seq<Gamepad>) -> int
    decreases pads.len(),
{
    if pads.len() == 0 {
        0
    } else {
        gamepads_dash_y(pads.drop_last()) + gamepad_dash_y(pads.last())
    }
}

/// The dash intent: one step per held direction key, d-pad direction and
/// stick axis outside the deadzone, summed over every device.
pub open spec fn dash_vector_of(c: Controls) -> (int, int) {
    (
        keyboard_dash_x(c.keyboard) + gamepads_dash_x(c.gamepads@),
        keyboard_dash_y(c.keyboard) + gamepads_dash_y(c.gamepads@),
    )
}

/// W, the up arrow or space went down this frame.
pub open spec fn keyboard_jump_pressed(k: Keyboard) -> bool {
    k.key_w.just_pressed || k.arrow_up.just_pressed || k.space.just_pressed
}

/// W, the up arrow or space came up this frame.
pub open spec fn keyboard_jump_released(k: Keyboard) -> bool {
    k.key_w.just_released || k.arrow_up.just_released || k.space.just_released
}

/// A jump button went down this frame on the keyboard or on some gamepad.
pub open spec fn jump_pressed_of(c: Controls) -> bool {
    keyboard_jump_pressed(c.keyboard) || exists|i: int|
        0 <= i < c.gamepads@.len() && (#[trigger] c.gamepads@[i]).south.just_pressed
}

/// A jump button came up this frame on the keyboard or on some gamepad.
pub open spec fn jump_released_of(c: Controls) -> bool {
    keyboard_jump_released(c.keyboard) || exists|i: int|
        0 <= i < c.gamepads@.len() && (#[trigger] c.gamepads@[i]).south.just_released
}

/// A dash button went down this frame on the keyboard or on some gamepad.
pub open spec fn dash_pressed_of(c: Controls) -> bool {
    c.keyboard.shift_left.just_pressed || c.keyboard.enter.just_pressed || exists|i: int|
        0 <= i < c.gamepads@.len() && (#[trigger] c.gamepads@[i]).west.just_pressed
}

fn when_held(b: bool, unit: i128) -> (r: i128)
    ensures
        r == when(b, unit as int),
{
    if b {
        unit
    } else {
        0
    }
}

proof fn lemma_tick_product(dt: u64, speed: u64)
    requires
        dt <= crate::player::MAX_TICK_MICROS,
        speed <= crate::player::MAX_RATE,
    ensures
        0 <= dt * speed <= 1_000_000_000_000,
        0 <= full_step(dt, speed) <= SOURCE_BOUND,
{
    assert(0 <= dt * speed <= 1_000_000_000_000) by (nonlinear_arith)
        requires
            dt <= 1_000_000,
            speed <= 1_000_000,
    ;
}

proof fn lemma_gamepad_movement_bound(p: Gamepad, dt: u64, speed: u64)
    requires
        p.wf(),
        dt <= 1_000_000,
        speed <= 1_000_000,
    ensures
        abs(gamepad_movement(p, dt, speed)) <= 3 * SOURCE_BOUND,
        abs(dt * speed * p.left_stick_x) <= SOURCE_BOUND,
        full_step(dt, speed) <= SOURCE_BOUND,
{
    lemma_tick_product(dt, speed);
    let ds = dt * speed;
    let x = p.left_stick_x as int;
    assert(abs(ds * x) <= ds * 1000) by (nonlinear_arith)
        requires
            ds >= 0,
            -1000 <= x <= 1000,
    ;
}

/// Horizontal movement of one tick (see `movement_of`).
pub fn movement_intent(controls: &Controls, dt: u64, speed: u64) -> (m: i128)
    requires
        controls.wf(),
        dt <= crate::player::MAX_TICK_MICROS,
        speed <= crate::player::MAX_RATE,
    ensures
        m == movement_of(*controls, dt, speed),
        abs(m as int) <= MOVEMENT_BOUND,
{
    let k = &controls.keyboard;
    proof {
        lemma_tick_product(dt, speed);
    }
    let ds: i128 = (dt as i128) * (speed as i128);
    let unit: i128 = ds * 1000;
    if k.arrow_right.pressed || k.key_d.pressed || k.arrow_left.pressed || k.key_a.pressed {
        return when_held(k.arrow_right.pressed || k.key_d.pressed, unit) - when_held(
            k.arrow_left.pressed || k.key_a.pressed,
            unit,
        );
    }
    let mut sum: i128 = 0;
    let mut i: usize = 0;
    while i < controls.gamepads.len()
        invariant
            controls.wf(),
            dt <= 1_000_000,
            speed <= 1_000_000,
            ds == dt * speed,
            unit == full_step(dt, speed),
            0 <= unit <= SOURCE_BOUND,
            i <= controls.gamepads@.len(),
            sum == gamepads_movement(controls.gamepads@.subrange(0, i as int), dt, speed),
            abs(sum as int) <= i * 3 * SOURCE_BOUND,
        decreases controls.gamepads@.len() - i,
    {
        let p = &controls.gamepads[i];
        proof {
            assert(controls.gamepads@[i as int].wf());
            lemma_gamepad_movement_bound(*p, dt, speed);
            let pre = controls.gamepads@.subrange(0, i as int);
            let next = controls.gamepads@.subrange(0, i + 1);
            assert(next.drop_last() =~= pre);
            assert(next.last() == *p);
        }
        let x = p.left_stick_x;
        let stick: i128 = if x > JOYSTICK_THRESHOLD || x < -JOYSTICK_THRESHOLD {
            ds * (x as i128)
        } else {
            0
        };
        let d: i128 = stick + when_held(p.dpad_right.pressed, unit) - when_held(
            p.dpad_left.pressed,
            unit,
        );
        assert(d == gamepad_movement(*p, dt, speed));
        assert(i * 3 * SOURCE_BOUND <= 55_340_232_221_128_654_845 * SOURCE_BOUND);
        sum = sum + d;
        i = i + 1;
    }
    assert(controls.gamepads@.subrange(0, i as int) =~= controls.gamepads@);
    assert(i * 3 * SOURCE_BOUND <= MOVEMENT_BOUND);
    sum
}

fn one_if(b: bool) -> (r: i128)
    ensures
        r == as_step(b),
        0 <= r <= 1,
{
    if b {
        1
    } else {
        0
    }
}

fn stick_step(v: i64) -> (r: i128)
    ensures
        r == sign_step(v),
        -1 <= r <= 1,
{
    if v > JOYSTICK_THRESHOLD {
        1
    } else if v < -JOYSTICK_THRESHOLD {
        -1
    } else {
        0
    }
}

fn gamepads_dash(pads: &Vec<Gamepad>) -> (r: (i128, i128))
    ensures
        r.0 == gamepads_dash_x(pads@),
        r.1 == gamepads_dash_y(pads@),
        -2 * pads@.len() <= r.0 <= 2 * pads@.len(),
        -2 * pads@.len() <= r.1 <= 2 * pads@.len(),
{
    let mut x: i128 = 0;
    let mut y: i128 = 0;
    let mut i: usize = 0;
    while i < pads.len()
        invariant
            i <= pads@.len(),
            x == gamepads_dash_x(pads@.subrange(0, i as int)),
            y == gamepads_dash_y(pads@.subrange(0, i as int)),
            -2 * i <= x <= 2 * i,
            -2 * i <= y <= 2 * i,
        decreases pads@.len() - i,
    {
        let p = &pads[i];
        let dx: i128 = one_if(p.dpad_right.pressed) - one_if(p.dpad_left.pressed) + stick_step(
            p.left_stick_x,
        );
        let dy: i128 = one_if(p.dpad_up.pressed) - one_if(p.dpad_down.pressed) + stick_step(
            p.left_stick_y,
        );
        proof {
            let next = pads@.subrange(0, i + 1);
            assert(next.drop_last() =~= pads@.subrange(0, i as int));
            assert(next.last() == *p);
        }
        x = x + dx;
        y = y + dy;
        i = i + 1;
    }
    assert(pads@.subrange(0, i as int) =~= pads@);
    (x, y)
}

fn keyboard_dash(k: &Keyboard) -> (r: (i128, i128))
    ensures
        r.0 == keyboard_dash_x(*k),
        r.1 == keyboard_dash_y(*k),
{
    let right = one_if(k.key_d.pressed) + one_if(k.arrow_right.pressed);
    let left = one_if(k.key_a.pressed) + one_if(k.arrow_left.pressed);
    let up = one_if(k.key_w.pressed) + one_if(k.arrow_up.pressed);
    let down = one_if(k.key_s.pressed) + one_if(k.arrow_down.pressed);
    (right - left, up - down)
}

/// The summed dash intent of every device (see `dash_vector_of`).
pub fn dash_vector(controls: &Controls) -> (r: (i128, i128))
    ensures
        r.0 == dash_vector_of(*controls).0,
        r.1 == dash_vector_of(*controls).1,
{
    let (kx, ky) = keyboard_dash(&controls.keyboard);
    let (px, py) = gamepads_dash(&controls.gamepads);
    let n: usize = controls.gamepads.len();
    assert(-2 * n <= px <= 2 * n && -2 * n <= py <= 2 * n);
    (kx + px, ky + py)
}

/// Whether a jump button went down this frame.
pub fn jump_pressed(controls: &Controls) -> (r: bool)
    ensures
        r == jump_pressed_of(*controls),
{
    let k = &controls.keyboard;
    if k.key_w.just_pressed || k.arrow_up.just_pressed || k.space.just_pressed {
        return true;
    }
    let mut i: usize = 0;
    while i < controls.gamepads.len()
        invariant
            i <= controls.gamepads@.len(),
            forall|j: int| 0 <= j < i ==> !(#[trigger] controls.gamepads@[j]).south.just_pressed,
        decreases controls.gamepads@.len() - i,
    {
        if controls.gamepads[i].south.just_pressed {
            return true;
        }
        i = i + 1;
    }
    false
}

/// Whether a jump button came up this frame.
pub fn jump_released(controls: &Controls) -> (r: bool)
    ensures
        r == jump_released_of(*controls),
{
    let k = &controls.keyboard;
    if k.key_w.just_released || k.arrow_up.just_released || k.space.just_released {
        return true;
    }
    let mut i: usize = 0;
    while i < controls.gamepads.len()
        invariant
            i <= controls.gamepads@.len(),
            forall|j: int| 0 <= j < i ==> !(#[trigger] controls.gamepads@[j]).south.just_released,
        decreases controls.gamepads@.len() - i,
    {
        if controls.gamepads[i].south.just_released {
            return true;
        }
        i = i + 1;
    }
    false
}

/// Whether a dash button went down this frame.
pub fn dash_pressed(controls: &Controls) -> (r: bool)
    ensures
        r == dash_pressed_of(*controls),
{
    if controls.keyboard.shift_left.just_pressed || controls.keyboard.enter.just_pressed {
        return true;
    }
    let mut i: usize = 0;
    while i < controls.gamepads.len()
        invariant
            i <= controls.gamepads@.len(),
            forall|j: int| 0 <= j < i ==> !(#[trigger] controls.gamepads@[j]).west.just_pressed,
        decreases controls.gamepads@.len() - i,
    {
        if controls.gamepads[i].west.just_pressed {
            return true;
        }
        i = i + 1;
    }
    false
}

} // verus!
