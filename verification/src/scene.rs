//! The scene: one player, the interactable consoles, the pulsing screen
//! surfaces, and the static room geometry, together with the four per-tick
//! systems that drive them.

use vstd::prelude::*;

use crate::angle::{
    cosine_milli, cosine_milli_exec, norm_angle, rotate_angle, FULL_TURN_URAD,
};
use crate::color::{
    highlight_color, make_highlight_color, oscillated_color, oscillate_color, Rgb,
};
use crate::cursor::{CursorState, GrabMode};
use crate::geom::{dist_sq_micro, distance_sq_micro, Vec3Milli};
use crate::input::{sum_dx, sum_dy, accumulate_mouse, KeyState, MouseDelta, MOUSE_DELTA_MAX,
    MOUSE_EVENTS_MAX, MOUSE_TOTAL_MAX};
use crate::player::{move_direction, movement_direction, PlayerState, Velocity};

verus! {

/// The longest a frame is allowed to take, in milliseconds.
pub const FRAME_DELTA_MAX_MS: u64 = 100000;

/// Look sensitivity: microradians turned per pixel of mouse delta and per
/// millisecond of frame time (0.1 radian per pixel-second).
pub const LOOK_SENSITIVITY_URAD: i64 = 100;

/// An interaction reaches a console closer than 2 world units, so its squared
/// range is 4 squared units, in micro-units.
pub const INTERACT_RANGE_SQ_MICRO: u64 = 4000000;

/// The most consoles a scene may hold.
pub const CONSOLES_MAX: usize = 1000;

/// How long a screen effect may have run, in milliseconds, so that its phase
/// stays inside 64-bit arithmetic.
pub const EFFECT_TIME_MAX_MS: u64 = 1000000000;

/// An interactable console: where it stands, the color of its screen material,
/// and which entry of the material table that material is.
#[derive(Clone, Copy, Debug, PartialEq, Eq, Structural)]
pub struct Console {
    pub position: Vec3Milli,
    pub screen_color: Rgb,
    pub material_id: u64,
}

impl Console {
    /// In bounds, and holding a material the table has already allocated.
    pub open spec fn wf(self, next_material_id: u64) -> bool {
        &&& self.position.wf()
        &&& self.screen_color.wf()
        &&& self.material_id < next_material_id
    }
}

/// The per-surface state driving a pulsing emissive: the surface's original
/// emissive color and an elapsed-time accumulator.
#[derive(Clone, Copy, Debug, PartialEq, Eq, Structural)]
pub struct ScreenEffect {
    pub initial_emissive: Rgb,
    pub time_elapsed_ms: u64,
}

/// A glowing surface: its effect state and its current emissive color.
#[derive(Clone, Copy, Debug, PartialEq, Eq, Structural)]
pub struct Screen {
    pub effect: ScreenEffect,
    pub emissive: Rgb,
}

impl Screen {
    /// A bounded original emissive and a bounded accumulator.
    pub open spec fn wf(self) -> bool {
        &&& self.effect.initial_emissive.wf()
        &&& self.effect.time_elapsed_ms <= EFFECT_TIME_MAX_MS
    }
}

/// An immovable collider box: its center and its half extents.
#[derive(Clone, Copy, Debug, PartialEq, Eq, Structural)]
pub struct StaticCollider {
    pub position: Vec3Milli,
    pub half_extents: Vec3Milli,
}

/// A point light: where it hangs, how bright it is (in thousandths), and
/// whether it casts shadows.
#[derive(Clone, Copy, Debug, PartialEq, Eq, Structural)]
pub struct PointLight {
    pub position: Vec3Milli,
    pub intensity_milli: u64,
    pub shadows: bool,
}

/// The whole scene. Entities are created once at startup and never destroyed;
/// ticks only mutate components in place.
pub struct Scene {
    pub player: Option<PlayerState>,
    pub cursor: CursorState,
    pub consoles: Vec<Console>,
    pub screens: Vec<Screen>,
    pub statics: Vec<StaticCollider>,
    pub lights: Vec<PointLight>,
    pub next_material_id: u64,
}

impl Scene {
    /// Scene well-formedness, preserved by every tick.
    pub open spec fn wf(self) -> bool {
        &&& (self.player matches Some(p) ==> p.wf())
        &&& self.consoles@.len() <= CONSOLES_MAX
        &&& forall|i: int|
            0 <= i < self.consoles@.len() ==> (#[trigger] self.consoles@[i]).wf(
                self.next_material_id,
            )
        &&& forall|i: int| 0 <= i < self.screens@.len() ==> (#[trigger] self.screens@[i]).wf()
    }

    /// One tick of the cursor-lock state machine; nothing else moves.
    pub fn grab_cursor(&mut self, lock_click: bool, escape: bool)
        ensures
            final(self).cursor.mode == (if escape {
                GrabMode::Unlocked
            } else if lock_click {
                GrabMode::Locked
            } else {
                old(self).cursor.mode
            }),
            final(self).cursor.visible == (if escape {
                true
            } else if lock_click {
                false
            } else {
                old(self).cursor.visible
            }),
            final(self).player == old(self).player,
            final(self).consoles == old(self).consoles,
            final(self).screens == old(self).screens,
            final(self).statics == old(self).statics,
            final(self).lights == old(self).lights,
            final(self).next_material_id == old(self).next_material_id,
            old(self).wf() ==> final(self).wf(),
    {
        self.cursor.grab_cursor(lock_click, escape);
    }
}

/// What one movement tick makes of the scene: a no-op without a player or
/// while the cursor is unlocked; otherwise the velocity command of the held
/// keys, a yaw turn of `-dx * sensitivity * dt` about the world up axis
/// composed before a pitch turn of `-dy * sensitivity * dt` about the local
/// right axis, and an untouched position.
pub open spec fn movement_step(pre: Scene, keys: KeyState, dx: int, dy: int, dt_ms: int) -> Scene {
    match pre.player {
        None => pre,
        Some(p) => {
            if pre.cursor.mode != GrabMode::Locked {
                pre
            } else {
                Scene {
                    player: Some(
                        PlayerState {
                            position: p.position,
                            yaw_urad: norm_angle(
                                p.yaw_urad - LOOK_SENSITIVITY_URAD * dx * dt_ms,
                            ) as u64,
                            pitch_urad: norm_angle(
                                p.pitch_urad - LOOK_SENSITIVITY_URAD * dy * dt_ms,
                            ) as u64,
                            velocity: move_direction(keys, cosine_milli(p.pitch_urad as int)),
                        },
                    ),
                    ..pre
                }
            }
        },
    }
}

impl Scene {
    /// One movement-and-look tick: drains the tick's mouse motion into one
    /// accumulated delta and, if the cursor is locked, commands the walking
    /// velocity from the held keys and turns the facing by the mouse delta.
    pub fn player_movement(
        &mut self,
        keys: &KeyState,
        mouse_events: &Vec<MouseDelta>,
        delta_ms: u64,
    )
        requires
            old(self).wf(),
            delta_ms <= FRAME_DELTA_MAX_MS,
            mouse_events@.len() <= MOUSE_EVENTS_MAX,
            forall|i: int|
                0 <= i < mouse_events@.len() ==> -MOUSE_DELTA_MAX <= (#[trigger] mouse_events@[
                    i
                ]).dx <= MOUSE_DELTA_MAX && -MOUSE_DELTA_MAX <= mouse_events@[i].dy
                    <= MOUSE_DELTA_MAX,
        ensures
            final(self).wf(),
            *final(self) == movement_step(
                *old(self),
                *keys,
                sum_dx(mouse_events@),
                sum_dy(mouse_events@),
                delta_ms as int,
            ),
    {
        let total: MouseDelta = accumulate_mouse(mouse_events);
        match self.player {
            None => {},
            Some(p) => {
                let locked = match self.cursor.mode {
                    GrabMode::Locked => true,
                    GrabMode::Unlocked => false,
                };
                if locked {
                    let cos_pitch: i64 = cosine_milli_exec(p.pitch_urad);
                    let vel: Velocity = movement_direction(keys, cos_pitch);
                    proof {
                        assert(-MOUSE_TOTAL_MAX * LOOK_SENSITIVITY_URAD <= LOOK_SENSITIVITY_URAD
                            * total.dx <= MOUSE_TOTAL_MAX * LOOK_SENSITIVITY_URAD)
                            by (nonlinear_arith)
                            requires
                                -MOUSE_TOTAL_MAX <= total.dx <= MOUSE_TOTAL_MAX,
                        ;
                        assert(-MOUSE_TOTAL_MAX * LOOK_SENSITIVITY_URAD <= LOOK_SENSITIVITY_URAD
                            * total.dy <= MOUSE_TOTAL_MAX * LOOK_SENSITIVITY_URAD)
                            by (nonlinear_arith)
                            requires
                                -MOUSE_TOTAL_MAX <= total.dy <= MOUSE_TOTAL_MAX,
                        ;
                    }
                    let sx: i64 = LOOK_SENSITIVITY_URAD * total.dx;
                    let sy: i64 = LOOK_SENSITIVITY_URAD * total.dy;
                    proof {
                        let bound: int = MOUSE_TOTAL_MAX * LOOK_SENSITIVITY_URAD;
                        assert(-bound * FRAME_DELTA_MAX_MS <= sx * delta_ms <= bound
                            * FRAME_DELTA_MAX_MS) by (nonlinear_arith)
                            requires
                                -bound <= sx <= bound,
                                0 <= delta_ms <= FRAME_DELTA_MAX_MS,
                        ;
                        assert(-bound * FRAME_DELTA_MAX_MS <= sy * delta_ms <= bound
                            * FRAME_DELTA_MAX_MS) by (nonlinear_arith)
                            requires
                                -bound <= sy <= bound,
                                0 <= delta_ms <= FRAME_DELTA_MAX_MS,
                        ;
                    }
                    let yaw_delta: i64 = -(sx * (delta_ms as i64));
                    let pitch_delta: i64 = -(sy * (delta_ms as i64));
                    let yaw: u64 = rotate_angle(p.yaw_urad, yaw_delta);
                    let pitch: u64 = rotate_angle(p.pitch_urad, pitch_delta);
                    self.player = Some(
                        PlayerState {
                            position: p.position,
                            yaw_urad: yaw,
                            pitch_urad: pitch,
                            velocity: vel,
                        },
                    );
                    proof {
                        vstd::arithmetic::div_mod::lemma_mod_division_less_than_divisor(
                            p.yaw_urad - LOOK_SENSITIVITY_URAD * sum_dx(mouse_events@) * delta_ms,
                            FULL_TURN_URAD as int,
                        );
                        vstd::arithmetic::div_mod::lemma_mod_division_less_than_divisor(
                            p.pitch_urad - LOOK_SENSITIVITY_URAD * sum_dy(mouse_events@)
                                * delta_ms,
                            FULL_TURN_URAD as int,
                        );
                        assert(yaw_delta == -(LOOK_SENSITIVITY_URAD * sum_dx(mouse_events@)
                            * delta_ms)) by (nonlinear_arith)
                            requires
                                yaw_delta == -((LOOK_SENSITIVITY_URAD * sum_dx(mouse_events@))
                                    * delta_ms),
                        ;
                        assert(pitch_delta == -(LOOK_SENSITIVITY_URAD * sum_dy(mouse_events@)
                            * delta_ms)) by (nonlinear_arith)
                            requires
                                pitch_delta == -((LOOK_SENSITIVITY_URAD * sum_dy(mouse_events@))
                                    * delta_ms),
                        ;
                    }
                }
            },
        }
    }
}

/// An interaction fires for a console exactly when the interact key has a
/// press-edge this tick and the player stands strictly closer than the
/// interaction range.
pub open spec fn interaction_fires(player_pos: Vec3Milli, console_pos: Vec3Milli, edge: bool) -> bool {
    edge && dist_sq_micro(player_pos, console_pos) < INTERACT_RANGE_SQ_MICRO
}

/// How many of the first `n` consoles an interaction tick fires on.
pub open spec fn fired_count(consoles: Seq<Console>, player_pos: Vec3Milli, edge: bool, n: int) -> int
    decreases n,
{
    if n <= 0 {
        0
    } else {
        fired_count(consoles, player_pos, edge, n - 1) + (if interaction_fires(
            player_pos,
            consoles[n - 1].position,
            edge,
        ) {
            1int
        } else {
            0int
        })
    }
}

/// The fired count over a prefix is between 0 and the prefix length.
pub proof fn lemma_fired_count_bounds(
    consoles: Seq<Console>,
    player_pos: Vec3Milli,
    edge: bool,
    n: int,
)
    requires
        0 <= n,
    ensures
        0 <= fired_count(consoles, player_pos, edge, n) <= n,
    decreases n,
{
    if n > 0 {
        lemma_fired_count_bounds(consoles, player_pos, edge, n - 1);
    }
}

/// The fired count never shrinks as the prefix grows.
pub proof fn lemma_fired_count_monotone(
    consoles: Seq<Console>,
    player_pos: Vec3Milli,
    edge: bool,
    m: int,
    n: int,
)
    requires
        0 <= m <= n,
    ensures
        fired_count(consoles, player_pos, edge, m) <= fired_count(consoles, player_pos, edge, n),
    decreases n - m,
{
    if m < n {
        lemma_fired_count_monotone(consoles, player_pos, edge, m, n - 1);
    }
}

/// What an interaction tick makes of one console: fired consoles are repainted
/// with the fixed highlight color under a freshly allocated material; the rest
/// keep their material untouched.
pub open spec fn console_after(
    c: Console,
    player_pos: Vec3Milli,
    edge: bool,
    fresh_id: int,
) -> Console {
    if interaction_fires(player_pos, c.position, edge) {
        Console { screen_color: highlight_color(), material_id: fresh_id as u64, ..c }
    } else {
        c
    }
}

impl Scene {
    /// One interaction tick: every console strictly within range of the player
    /// on an interact press-edge has its material replaced by a newly allocated
    /// highlight material; every other console is untouched. Without a fresh
    /// press-edge nothing fires, however close the player stands. The scene
    /// must hold a player; a scene without one is a construction error.
    pub fn interact_with_consoles(&mut self, interact_edge: bool)
        requires
            old(self).wf(),
            old(self).player is Some,
            old(self).next_material_id + CONSOLES_MAX <= u64::MAX,
        ensures
            final(self).wf(),
            final(self).consoles@.len() == old(self).consoles@.len(),
            forall|i: int|
                0 <= i < old(self).consoles@.len() ==> final(self).consoles@[i] == console_after(
                    #[trigger] old(self).consoles@[i],
                    old(self).player->Some_0.position,
                    interact_edge,
                    old(self).next_material_id + fired_count(
                        old(self).consoles@,
                        old(self).player->Some_0.position,
                        interact_edge,
                        i,
                    ),
                ),
            final(self).next_material_id == old(self).next_material_id + fired_count(
                old(self).consoles@,
                old(self).player->Some_0.position,
                interact_edge,
                old(self).consoles@.len() as int,
            ),
            final(self).player == old(self).player,
            final(self).cursor == old(self).cursor,
            final(self).screens == old(self).screens,
            final(self).statics == old(self).statics,
            final(self).lights == old(self).lights,
    {
        let player_pos: Vec3Milli = match &self.player {
            Some(p) => p.position,
            None => {
                proof {
                    assert(false);
                }
                Vec3Milli { x: 0, y: 0, z: 0 }
            },
        };
        let ghost pre: Scene = *self;
        let n: usize = self.consoles.len();
        let mut updated: Vec<Console> = Vec::new();
        let mut next: u64 = self.next_material_id;
        let mut i: usize = 0;
        while i < n
            invariant
                pre.wf(),
                player_pos.wf(),
                n == pre.consoles@.len(),
                self.consoles == pre.consoles,
                pre.next_material_id + CONSOLES_MAX <= u64::MAX,
                i <= n,
                updated@.len() == i,
                next == pre.next_material_id + fired_count(
                    pre.consoles@,
                    player_pos,
                    interact_edge,
                    i as int,
                ),
                forall|j: int|
                    0 <= j < i ==> updated@[j] == console_after(
                        #[trigger] pre.consoles@[j],
                        player_pos,
                        interact_edge,
                        pre.next_material_id + fired_count(
                            pre.consoles@,
                            player_pos,
                            interact_edge,
                            j,
                        ),
                    ),
            decreases n - i,
        {
            proof {
                lemma_fired_count_bounds(pre.consoles@, player_pos, interact_edge, i as int);
                lemma_fired_count_bounds(pre.consoles@, player_pos, interact_edge, i + 1);
            }
            let c: Console = self.consoles[i];
            let d: u64 = distance_sq_micro(&player_pos, &c.position);
            if interact_edge && d < INTERACT_RANGE_SQ_MICRO {
                updated.push(
                    Console {
                        position: c.position,
                        screen_color: make_highlight_color(),
                        material_id: next,
                    },
                );
                next = next + 1;
            } else {
                updated.push(c);
            }
            i = i + 1;
        }
        self.consoles = updated;
        self.next_material_id = next;
        proof {
            lemma_fired_count_bounds(pre.consoles@, player_pos, interact_edge, n as int);
            assert forall|j: int| 0 <= j < n implies (#[trigger] self.consoles@[j]).wf(
                self.next_material_id,
            ) by {
                lemma_fired_count_monotone(pre.consoles@, player_pos, interact_edge, j, n as int);
                lemma_fired_count_monotone(
                    pre.consoles@,
                    player_pos,
                    interact_edge,
                    j + 1,
                    n as int,
                );
                lemma_fired_count_bounds(pre.consoles@, player_pos, interact_edge, j);
            }
        }
    }
}

/// What one oscillation tick makes of a screen: the phase is the stored
/// elapsed time plus twice the frame delta (in radian-scaled units), and the
/// emissive becomes the original color scaled by the remapped sine.
pub open spec fn screen_after(s: Screen, dt_ms: int) -> Screen {
    let phase = norm_angle(1000 * s.effect.time_elapsed_ms + 2000 * dt_ms);
    Screen { effect: s.effect, emissive: oscillated_color(s.effect.initial_emissive, crate::angle::sine_milli(phase)) }
}

/// The oscillation attains its upper bound: at a quarter-turn phase the sine
/// is exactly 1 and every emissive channel is exactly twice its original.
pub proof fn lemma_emissive_peak(ch: int)
    requires
        0 <= ch <= crate::color::CHANNEL_MAX_MILLI,
    ensures
        crate::angle::sine_milli(crate::angle::QUARTER_TURN_URAD as int) == 1000,
        crate::color::oscillated_channel(
            ch,
            crate::angle::sine_milli(crate::angle::QUARTER_TURN_URAD as int),
        ) == 2 * ch,
{
    crate::angle::lemma_sine_half_peak();
    crate::color::lemma_oscillation_bounds(ch, 1000);
}

impl Scene {
    /// One emissive-oscillation tick: every screen's emissive color is recomputed
    /// from its stored phase and the frame delta; the stored accumulator is not
    /// advanced, so it never decreases.
    pub fn update_screen_effect(&mut self, delta_ms: u64)
        requires
            old(self).wf(),
            delta_ms <= FRAME_DELTA_MAX_MS,
        ensures
            final(self).wf(),
            final(self).screens@.len() == old(self).screens@.len(),
            forall|i: int|
                0 <= i < old(self).screens@.len() ==> final(self).screens@[i] == screen_after(
                    #[trigger] old(self).screens@[i],
                    delta_ms as int,
                ),
            final(self).player == old(self).player,
            final(self).cursor == old(self).cursor,
            final(self).consoles == old(self).consoles,
            final(self).statics == old(self).statics,
            final(self).lights == old(self).lights,
            final(self).next_material_id == old(self).next_material_id,
    {
        let ghost pre: Scene = *self;
        let n: usize = self.screens.len();
        let mut updated: Vec<Screen> = Vec::new();
        let mut i: usize = 0;
        while i < n
            invariant
                pre.wf(),
                n == pre.screens@.len(),
                self.screens == pre.screens,
                delta_ms <= FRAME_DELTA_MAX_MS,
                i <= n,
                updated@.len() == i,
                forall|j: int|
                    0 <= j < i ==> updated@[j] == screen_after(
                        #[trigger] pre.screens@[j],
                        delta_ms as int,
                    ),
                forall|j: int| 0 <= j < i ==> (#[trigger] updated@[j]).wf(),
            decreases n - i,
        {
            let s: Screen = self.screens[i];
            let raw_phase: u64 = 1000 * s.effect.time_elapsed_ms + 2000 * delta_ms;
            let phase: u64 = raw_phase % FULL_TURN_URAD;
            proof {
                vstd::arithmetic::div_mod::lemma_mod_division_less_than_divisor(
                    raw_phase as int,
                    FULL_TURN_URAD as int,
                );
            }
            let sine: i64 = crate::angle::sine_milli_exec(phase);
            let glow: Rgb = oscillate_color(&s.effect.initial_emissive, sine);
            updated.push(Screen { effect: s.effect, emissive: glow });
            i = i + 1;
        }
        self.screens = updated;
    }
}

/// Where the player starts: at (0, 1.2, 4), in thousandths.
pub open spec fn player_spawn_position() -> Vec3Milli {
    Vec3Milli { x: 0, y: 1200, z: 4000 }
}

/// The player's starting pitch: looking from the spawn point toward the point
/// (0, 1, 0) dips the facing about 0.049958 radian below the horizon, stored
/// normalized as a full turn minus that dip.
pub const PLAYER_SPAWN_PITCH_URAD: u64 = 6233226;

/// The original emissive color of the main wall screen: (0.1, 0.2, 0.3).
pub open spec fn main_screen_emissive() -> Rgb {
    Rgb { red: 100, green: 200, blue: 300 }
}

/// The original emissive color of a console screen: (0.0, 0.8, 0.0).
pub open spec fn console_screen_emissive() -> Rgb {
    Rgb { red: 0, green: 800, blue: 0 }
}

/// The untinted base color of a console's textured material.
pub open spec fn console_base_color() -> Rgb {
    Rgb { red: 1000, green: 1000, blue: 1000 }
}

/// The position of the console numbered `i`: they stand in a row at
/// x = -3 + 3 i, against the room's z = 2 line.
pub open spec fn console_position(i: int) -> Vec3Milli {
    Vec3Milli { x: (-3000 + 3000 * i) as i64, y: 0, z: 2000 }
}

impl Scene {
    /// Builds the startup scene: one player capsule looking over the room, an
    /// unlocked cursor, three interactable consoles in a row, the main wall
    /// screen and the three console screens pulsing from their original
    /// emissive colors, the room's static colliders, and three point lights.
    pub fn startup() -> (s: Scene)
        ensures
            s.wf(),
            s.player == Some(
                PlayerState {
                    position: player_spawn_position(),
                    yaw_urad: 0,
                    pitch_urad: PLAYER_SPAWN_PITCH_URAD,
                    velocity: Velocity::Still,
                },
            ),
            s.cursor == (CursorState { mode: GrabMode::Unlocked, visible: true }),
            s.consoles@.len() == 3,
            forall|i: int|
                0 <= i < 3 ==> #[trigger] s.consoles@[i] == (Console {
                    position: console_position(i),
                    screen_color: console_base_color(),
                    material_id: i as u64,
                }),
            s.next_material_id == 3,
            s.screens@.len() == 4,
            s.screens@[0] == (Screen {
                effect: ScreenEffect { initial_emissive: main_screen_emissive(), time_elapsed_ms: 0 },
                emissive: Rgb { red: 1000, green: 2000, blue: 3000 },
            }),
            forall|i: int|
                1 <= i < 4 ==> #[trigger] s.screens@[i] == (Screen {
                    effect: ScreenEffect {
                        initial_emissive: console_screen_emissive(),
                        time_elapsed_ms: 0,
                    },
                    emissive: Rgb { red: 0, green: 4000, blue: 0 },
                }),
            s.statics@.len() == 7,
            s.lights@.len() == 3,
    {
        let player = PlayerState {
            position: Vec3Milli { x: 0, y: 1200, z: 4000 },
            yaw_urad: 0,
            pitch_urad: PLAYER_SPAWN_PITCH_URAD,
            velocity: Velocity::Still,
        };

        let mut consoles: Vec<Console> = Vec::new();
        consoles.push(
            Console {
                position: Vec3Milli { x: -3000, y: 0, z: 2000 },
                screen_color: Rgb { red: 1000, green: 1000, blue: 1000 },
                material_id: 0,
            },
        );
        consoles.push(
            Console {
                position: Vec3Milli { x: 0, y: 0, z: 2000 },
                screen_color: Rgb { red: 1000, green: 1000, blue: 1000 },
                material_id: 1,
            },
        );
        consoles.push(
            Console {
                position: Vec3Milli { x: 3000, y: 0, z: 2000 },
                screen_color: Rgb { red: 1000, green: 1000, blue: 1000 },
                material_id: 2,
            },
        );

        let mut screens: Vec<Screen> = Vec::new();
        // The main wall screen glows at ten times its stored emissive.
        screens.push(
            Screen {
                effect: ScreenEffect {
                    initial_emissive: Rgb { red: 100, green: 200, blue: 300 },
                    time_elapsed_ms: 0,
                },
                emissive: Rgb { red: 1000, green: 2000, blue: 3000 },
            },
        );
        // Each console screen starts at five times its stored emissive green.
        let mut i: usize = 0;
        while i < 3
            invariant
                i <= 3,
                screens@.len() == 1 + i,
                screens@[0] == (Screen {
                    effect: ScreenEffect {
                        initial_emissive: Rgb { red: 100, green: 200, blue: 300 },
                        time_elapsed_ms: 0,
                    },
                    emissive: Rgb { red: 1000, green: 2000, blue: 3000 },
                }),
                forall|j: int|
                    1 <= j < 1 + i ==> #[trigger] screens@[j] == (Screen {
                        effect: ScreenEffect {
                            initial_emissive: Rgb { red: 0, green: 800, blue: 0 },
                            time_elapsed_ms: 0,
                        },
                        emissive: Rgb { red: 0, green: 4000, blue: 0 },
                    }),
            decreases 3 - i,
        {
            screens.push(
                Screen {
                    effect: ScreenEffect {
                        initial_emissive: Rgb { red: 0, green: 800, blue: 0 },
                        time_elapsed_ms: 0,
                    },
                    emissive: Rgb { red: 0, green: 4000, blue: 0 },
                },
            );
            i = i + 1;
        }

        let mut statics: Vec<StaticCollider> = Vec::new();
        // The floor and the ceiling.
        statics.push(
            StaticCollider {
                position: Vec3Milli { x: 0, y: 0, z: 0 },
                half_extents: Vec3Milli { x: 5000, y: 10, z: 5000 },
            },
        );
        statics.push(
            StaticCollider {
                position: Vec3Milli { x: 0, y: 5000, z: 0 },
                half_extents: Vec3Milli { x: 5000, y: 10, z: 5000 },
            },
        );
        // The back, front, left and right walls.
        statics.push(
            StaticCollider {
                position: Vec3Milli { x: 0, y: 2500, z: -5000 },
                half_extents: Vec3Milli { x: 5000, y: 2500, z: 50 },
            },
        );
        statics.push(
            StaticCollider {
                position: Vec3Milli { x: 0, y: 2500, z: 5000 },
                half_extents: Vec3Milli { x: 5000, y: 2500, z: 50 },
            },
        );
        statics.push(
            StaticCollider {
                position: Vec3Milli { x: -5000, y: 2500, z: 0 },
                half_extents: Vec3Milli { x: 50, y: 2500, z: 5000 },
            },
        );
        statics.push(
            StaticCollider {
                position: Vec3Milli { x: 5000, y: 2500, z: 0 },
                half_extents: Vec3Milli { x: 50, y: 2500, z: 5000 },
            },
        );
        // The main wall screen's panel.
        statics.push(
            StaticCollider {
                position: Vec3Milli { x: 0, y: 2000, z: -4900 },
                half_extents: Vec3Milli { x: 3000, y: 1500, z: 10 },
            },
        );

        let mut lights: Vec<PointLight> = Vec::new();
        lights.push(
            PointLight {
                position: Vec3Milli { x: 4000, y: 8000, z: 4000 },
                intensity_milli: 1500000,
                shadows: true,
            },
        );
        lights.push(
            PointLight {
                position: Vec3Milli { x: -4000, y: 8000, z: -4000 },
                intensity_milli: 800000,
                shadows: true,
            },
        );
        lights.push(
            PointLight {
                position: Vec3Milli { x: 0, y: 2000, z: 0 },
                intensity_milli: 500000,
                shadows: true,
            },
        );

        Scene {
            player: Some(player),
            cursor: CursorState::startup(),
            consoles,
            screens,
            statics,
            lights,
            next_material_id: 3,
        }
    }
}

} // verus!

