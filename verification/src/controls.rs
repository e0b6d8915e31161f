//! The player controller's decisions for one frame.
//!
//! Each frame the engine reports which keys and buttons are down, whether the
//! ground probe below the player touched fixed geometry, and whether the game
//! is paused. From that the controller decides the next pause state, which
//! way the player wants to move, whether to jump, how fast to run, whether to
//! fire a shot or a rocket, and whether the cursor is captured for mouse look.
use vstd::prelude::*;

verus! {

/// What the keyboard, the mouse and the ground probe report for one frame.
#[derive(Clone, Copy, Debug, PartialEq, Eq, Structural)]
pub struct FrameInput {
    /// `W` is held.
    pub forward_held: bool,
    /// `S` is held.
    pub back_held: bool,
    /// `A` is held.
    pub left_held: bool,
    /// `D` is held.
    pub right_held: bool,
    /// Space is held.
    pub jump_held: bool,
    /// Left shift is held.
    pub sprint_held: bool,
    /// Escape went down this frame.
    pub pause_pressed: bool,
    /// The left mouse button went down this frame.
    pub fire_pressed: bool,
    /// The right mouse button went down this frame.
    pub blast_pressed: bool,
    /// The short ray cast straight down from below the player hit fixed geometry.
    pub grounded: bool,
}

/// How fast the player moves this frame.
#[derive(Clone, Copy, Debug, PartialEq, Eq, Structural)]
pub enum Gait {
    Walk,
    Sprint,
}

/// What the window does with the mouse cursor this frame.
#[derive(Clone, Copy, Debug, PartialEq, Eq, Structural)]
pub enum CursorMode {
    /// Released and visible; the camera does not follow the mouse.
    Free,
    /// Grabbed and hidden; mouse motion turns the camera.
    Locked,
}

/// The controller's decisions for one frame.
#[derive(Clone, Copy, Debug, PartialEq, Eq, Structural)]
pub struct FrameActions {
    /// Whether the game is paused after this frame.
    pub paused: bool,
    /// `1` to move along the camera's forward direction, `-1` along its back, `0` neither.
    pub forward_axis: i8,
    /// `1` to move along the camera's right direction, `-1` along its left, `0` neither.
    pub strafe_axis: i8,
    /// Set the vertical velocity to the jump speed.
    pub jump: bool,
    /// The speed to move at.
    pub gait: Gait,
    /// Cast the long shot ray along the camera's forward direction.
    pub fire: bool,
    /// Cast the short rocket ray along the camera's forward direction.
    pub blast: bool,
    /// What happens to the cursor, and whether mouse motion turns the camera.
    pub cursor: CursorMode,
}

/// Upward speed, in world units per second, that a jump gives the player.
pub const JUMP_SPEED: u32 = 10;

/// Movement speed, in world units per second, when walking.
pub const WALK_SPEED: u32 = 5;

/// Movement speed, in world units per second, when sprinting.
pub const SPRINT_SPEED: u32 = 30;

/// The value of an axis driven by a key for its positive and one for its
/// negative direction: held keys on both sides cancel.
pub open spec fn axis_value(positive: bool, negative: bool) -> int {
    (if positive { 1int } else { 0int }) - (if negative { 1int } else { 0int })
}

/// Whether the game is paused after a frame: Escape flips the pause state.
pub open spec fn paused_after(paused: bool, input: FrameInput) -> bool {
    if input.pause_pressed { !paused } else { paused }
}

/// The decisions of the frame that starts with `paused` and reads `input`.
pub open spec fn frame_actions(paused: bool, input: FrameInput) -> FrameActions {
    let now_paused = paused_after(paused, input);
    FrameActions {
        paused: now_paused,
        forward_axis: axis_value(input.forward_held, input.back_held) as i8,
        strafe_axis: axis_value(input.right_held, input.left_held) as i8,
        jump: input.jump_held && input.grounded,
        gait: if input.sprint_held { Gait::Sprint } else { Gait::Walk },
        fire: input.fire_pressed && !now_paused,
        blast: input.blast_pressed && !now_paused,
        cursor: if now_paused { CursorMode::Free } else { CursorMode::Locked },
    }
}

impl Gait {
    /// Movement speed, in world units per second, of this gait.
    pub fn speed(&self) -> (speed: u32)
        ensures
            speed == (match *self {
                Gait::Walk => WALK_SPEED,
                Gait::Sprint => SPRINT_SPEED,
            }),
            *self == Gait::Walk ==> speed == 5,
            *self == Gait::Sprint ==> speed == 30,
    {
        match self {
            Gait::Walk => WALK_SPEED,
            Gait::Sprint => SPRINT_SPEED,
        }
    }
}

/// The value of the axis for one pair of opposite keys.
fn axis(positive: bool, negative: bool) -> (value: i8)
    ensures
        value == axis_value(positive, negative),
{
    if positive && !negative {
        1
    } else if negative && !positive {
        -1
    } else {
        0
    }
}

/// Decides one frame of the player controller.
///
/// `paused` is the pause state the frame starts with. Escape flips it; the
/// shot, the rocket and mouse look only happen while the game runs after that
/// flip. A jump needs the ground probe to have hit something, and the opposite
/// movement keys cancel each other.
pub fn player_frame(paused: bool, input: &FrameInput) -> (actions: FrameActions)
    ensures
        actions == frame_actions(paused, *input),
        actions.paused == (paused != input.pause_pressed),
        actions.forward_axis == (if input.forward_held && !input.back_held {
            1i8
        } else if input.back_held && !input.forward_held {
            -1i8
        } else {
            0i8
        }),
        actions.strafe_axis == (if input.right_held && !input.left_held {
            1i8
        } else if input.left_held && !input.right_held {
            -1i8
        } else {
            0i8
        }),
        actions.jump == (input.jump_held && input.grounded),
        (actions.gait == Gait::Sprint) == input.sprint_held,
        (actions.gait == Gait::Walk) == !input.sprint_held,
        actions.fire == (input.fire_pressed && paused == input.pause_pressed),
        actions.blast == (input.blast_pressed && paused == input.pause_pressed),
        (actions.cursor == CursorMode::Free) == (paused != input.pause_pressed),
        (actions.cursor == CursorMode::Locked) == (paused == input.pause_pressed),
{
    let now_paused = if input.pause_pressed { !paused } else { paused };
    let gait = if input.sprint_held { Gait::Sprint } else { Gait::Walk };
    let cursor = if now_paused { CursorMode::Free } else { CursorMode::Locked };
    FrameActions {
        paused: now_paused,
        forward_axis: axis(input.forward_held, input.back_held),
        strafe_axis: axis(input.right_held, input.left_held),
        jump: input.jump_held && input.grounded,
        gait,
        fire: input.fire_pressed && !now_paused,
        blast: input.blast_pressed && !now_paused,
        cursor,
    }
}

/// What each decision of a frame is, key by key: Escape alone flips the
/// pause state; W/S and D/A give the axes, a lone key its direction and a
/// pair nothing; a jump needs Space and ground; Shift alone chooses the gait;
/// the left and right buttons fire and launch exactly when pressed in a frame
/// that ends running; the cursor is free exactly when that frame ends paused.
/// No decision reads any other key.
pub proof fn frame_decisions_by_key(paused: bool, input: FrameInput)
    ensures
        frame_actions(paused, input).paused == (paused != input.pause_pressed),
        frame_actions(paused, input).forward_axis == (if input.forward_held && !input.back_held {
            1i8
        } else if input.back_held && !input.forward_held {
            -1i8
        } else {
            0i8
        }),
        frame_actions(paused, input).strafe_axis == (if input.right_held && !input.left_held {
            1i8
        } else if input.left_held && !input.right_held {
            -1i8
        } else {
            0i8
        }),
        frame_actions(paused, input).jump == (input.jump_held && input.grounded),
        (frame_actions(paused, input).gait == Gait::Sprint) == input.sprint_held,
        (frame_actions(paused, input).gait == Gait::Walk) == !input.sprint_held,
        frame_actions(paused, input).fire == (input.fire_pressed && paused == input.pause_pressed),
        frame_actions(paused, input).blast == (input.blast_pressed && paused
            == input.pause_pressed),
        (frame_actions(paused, input).cursor == CursorMode::Free) == (paused
            != input.pause_pressed),
{
}

/// Pressing Escape in two frames leaves the pause state where it started.
pub proof fn pause_toggle_round_trip(paused: bool, first: FrameInput, second: FrameInput)
    requires
        first.pause_pressed,
        second.pause_pressed,
    ensures
        frame_actions(frame_actions(paused, first).paused, second).paused == paused,
{
}

/// A frame without Escape keeps the pause state.
pub proof fn pause_holds_without_escape(paused: bool, input: FrameInput)
    requires
        !input.pause_pressed,
    ensures
        frame_actions(paused, input).paused == paused,
{
}

/// A frame that ends paused fires nothing and frees the cursor; a frame that
/// ends running captures the cursor for mouse look.
pub proof fn paused_frames_are_inert(paused: bool, input: FrameInput)
    ensures
        frame_actions(paused, input).paused ==> {
            &&& !frame_actions(paused, input).fire
            &&& !frame_actions(paused, input).blast
            &&& frame_actions(paused, input).cursor == CursorMode::Free
        },
        !frame_actions(paused, input).paused ==> frame_actions(paused, input).cursor
            == CursorMode::Locked,
{
}

/// Only a grounded player jumps.
pub proof fn jump_needs_ground(paused: bool, input: FrameInput)
    ensures
        frame_actions(paused, input).jump ==> input.grounded,
        input.jump_held && input.grounded ==> frame_actions(paused, input).jump,
{
}

/// Each movement axis is `-1`, `0` or `1`, and opposite keys held together cancel.
pub proof fn movement_axes_are_unit(paused: bool, input: FrameInput)
    ensures
        -1 <= frame_actions(paused, input).forward_axis <= 1,
        -1 <= frame_actions(paused, input).strafe_axis <= 1,
        input.forward_held == input.back_held ==> frame_actions(paused, input).forward_axis == 0,
        input.left_held == input.right_held ==> frame_actions(paused, input).strafe_axis == 0,
{
}

} // verus!
