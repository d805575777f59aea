//! Properties of the player pipeline that span several stages or ticks.
use crate::combat::{combat_step, strikes, CombatTarget};
use crate::components::{
    AnimationIndices, AnimationTimer, ComboWindow, DamageEvent, Hitbox, JumpPhysics, Keys,
};
use crate::effects::{at_rest, decayed, decayed_velocity, knockback_after};
use crate::components::Knockback;
use crate::geometry::Vec2;
use vstd::arithmetic::power::{lemma_pow_positive, pow};
use crate::config::{aerial_attack, attacking, PlayerStateType};
use crate::state::PlayerState;
use crate::components::Direction;
use crate::config::{update_response, StateTransition};
use crate::systems::{
    input_step, jump_on_entry, physics_step, update_context_of, update_step, GRAVITY_PER_MS,
};
use crate::config::UpdateContext;
use vstd::prelude::*;

verus! {

/// Every player state is exactly one of the variants: its tag names it, the
/// state of a tag carries that tag, and two states are equal exactly when
/// their tags are.
pub proof fn lemma_state_exclusive(s: PlayerState, u: PlayerState, t: PlayerStateType)
    ensures
        PlayerState::of_type(s.state_type()) == s,
        PlayerState::of_type(t).state_type() == t,
        (s == u) == (s.state_type() == u.state_type()),
{
}

/// When an attack's animation finishes with a follow-up queued, the
/// follow-up is entered instead of the attack's own successor, and the
/// queue is emptied.
pub proof fn lemma_combo_override(s: PlayerState, combo: ComboWindow, ctx: UpdateContext, next: PlayerStateType)
    requires
        attacking(s.state_type()),
        ctx.animation_finished,
        combo.queued_combo == Some(next),
    ensures
        update_step(s, combo, ctx).0 == PlayerState::of_type(next),
        update_step(s, combo, ctx).1.queued_combo.is_none(),
        update_step(s, combo, ctx).1.last_attack == Some(next),
        update_step(s, combo, ctx).2,
{
}

/// What the player's stages read on one tick, besides the player itself.
#[derive(Clone, Copy, Debug)]
pub struct TickInput {
    pub keys: Keys,
    pub dt_ms: u32,
    pub game_over: bool,
    pub current_frame: usize,
    pub indices: AnimationIndices,
    pub timer: AnimationTimer,
    /// Height of the player when the stages run.
    pub y: i32,
}

/// The player as its state machine sees it, with the number of aerial
/// attacks entered since the last take-off.
pub struct PlayerMachine {
    pub state: PlayerState,
    pub jump: JumpPhysics,
    pub combo: ComboWindow,
    /// The state was replaced since jump set-up last ran.
    pub state_written: bool,
    pub aerial_attacks: nat,
}

/// One tick of the player's stages, in order: input, jump set-up for a
/// state replaced since it last ran, then automatic transitions.
pub open spec fn player_tick(m: PlayerMachine, t: TickInput) -> PlayerMachine {
    let (s1, c1, w1) = input_step(
        t.keys,
        t.dt_ms,
        t.game_over,
        m.state,
        m.jump,
        m.combo,
        t.current_frame,
        t.indices,
    );
    let count = if w1 && aerial_attack(s1.state_type()) {
        m.aerial_attacks + 1
    } else if w1 && s1.state_type() == PlayerStateType::Jump {
        0
    } else {
        m.aerial_attacks
    };
    let jump1 = if m.state_written || w1 {
        jump_on_entry(s1.state_type(), t.y, m.jump)
    } else {
        m.jump
    };
    let (s2, c2, w2) = update_step(
        s1,
        c1,
        update_context_of(t.timer, t.indices, t.current_frame, jump1, t.y),
    );
    PlayerMachine { state: s2, jump: jump1, combo: c2, state_written: w2, aerial_attacks: count }
}

/// The machine after each tick of `ts`.
pub open spec fn player_run(m: PlayerMachine, ts: Seq<TickInput>) -> PlayerMachine
    decreases ts.len(),
{
    if ts.len() == 0 {
        m
    } else {
        player_tick(player_run(m, ts.drop_last()), ts.last())
    }
}

/// A follow-up attack that a combo may queue.
pub open spec fn combo_follow_up(t: PlayerStateType) -> bool {
    t == PlayerStateType::PunchCombo || t == PlayerStateType::PunchKickCombo
        || t == PlayerStateType::KickCombo
}

/// What holds of the machine between ticks: at most one aerial attack since
/// take-off, the aerial-attack guard is up exactly when that one was used,
/// only combo follow-ups wait in the queue, and a state replaced by the
/// update stage is neither a jump nor an aerial attack.
pub open spec fn machine_ok(m: PlayerMachine) -> bool {
    &&& m.aerial_attacks <= 1
    &&& m.jump.has_used_aerial_attack == (m.aerial_attacks == 1)
    &&& (m.combo.queued_combo matches Some(q) ==> combo_follow_up(q))
    &&& (m.state_written ==> m.state.state_type() != PlayerStateType::Jump && !aerial_attack(
        m.state.state_type(),
    ))
}

/// A player at rest on the ground, as a game starts.
pub open spec fn machine_start(state: PlayerState, jump: JumpPhysics, combo: ComboWindow) -> PlayerMachine {
    PlayerMachine { state, jump, combo, state_written: false, aerial_attacks: 0 }
}

/// The input stage of this tick replaces the state with `Jump`.
pub open spec fn enters_jump(m: PlayerMachine, t: TickInput) -> bool {
    let (s1, _, w1) = input_step(
        t.keys,
        t.dt_ms,
        t.game_over,
        m.state,
        m.jump,
        m.combo,
        t.current_frame,
        t.indices,
    );
    w1 && s1.state_type() == PlayerStateType::Jump
}

/// One tick keeps `machine_ok`, and the aerial-attack guard only comes down
/// on a tick that enters `Jump`.
pub proof fn lemma_aerial_attack_once_step(m: PlayerMachine, t: TickInput)
    requires
        machine_ok(m),
    ensures
        machine_ok(player_tick(m, t)),
        m.jump.has_used_aerial_attack && !player_tick(m, t).jump.has_used_aerial_attack
            ==> enters_jump(m, t),
{
}

/// Aerial-attack-once: from a fresh start with the guard down and nothing
/// queued, after any sequence of ticks at most one aerial attack was
/// entered since the last take-off, and the guard is up exactly when it was.
pub proof fn lemma_aerial_attack_once(
    state: PlayerState,
    jump: JumpPhysics,
    combo: ComboWindow,
    ts: Seq<TickInput>,
)
    requires
        !jump.has_used_aerial_attack,
        combo.queued_combo.is_none(),
    ensures
        machine_ok(player_run(machine_start(state, jump, combo), ts)),
        player_run(machine_start(state, jump, combo), ts).aerial_attacks <= 1,
    decreases ts.len(),
{
    if ts.len() > 0 {
        lemma_aerial_attack_once(state, jump, combo, ts.drop_last());
        lemma_aerial_attack_once_step(
            player_run(machine_start(state, jump, combo), ts.drop_last()),
            ts.last(),
        );
    }
}

/// Defeat absorbs: no tick of input and automatic transitions leaves it.
pub proof fn lemma_defeat_absorbing_step(m: PlayerMachine, t: TickInput)
    requires
        m.state.state_type() == PlayerStateType::Defeat,
    ensures
        player_tick(m, t).state.state_type() == PlayerStateType::Defeat,
{
}

/// Defeat absorbs: once in `Defeat`, any sequence of ticks leaves the player
/// in `Defeat`.
pub proof fn lemma_defeat_absorbing(m: PlayerMachine, ts: Seq<TickInput>)
    requires
        m.state.state_type() == PlayerStateType::Defeat,
    ensures
        player_run(m, ts).state.state_type() == PlayerStateType::Defeat,
    decreases ts.len(),
{
    if ts.len() > 0 {
        lemma_defeat_absorbing(m, ts.drop_last());
        lemma_defeat_absorbing_step(player_run(m, ts.drop_last()), ts.last());
    }
}

/// `events` strike only enemies outside `before`, each at most once, and
/// `after` is `before` with those enemies added.
pub open spec fn fresh_strikes(before: Set<u64>, after: Set<u64>, events: Seq<DamageEvent>) -> bool {
    &&& forall|i: int| 0 <= i < events.len() ==> !before.contains(#[trigger] events[i].target)
    &&& forall|i: int| 0 <= i < events.len() ==> after.contains(#[trigger] events[i].target)
    &&& forall|i: int, j: int|
        0 <= i < j < events.len() ==> #[trigger] events[i].target != #[trigger] events[j].target
    &&& before.subset_of(after)
    &&& forall|x: u64|
        #[trigger] after.contains(x) ==> before.contains(x) || exists|i: int|
            0 <= i < events.len() && #[trigger] events[i].target == x
}

proof fn lemma_strikes_fresh(
    struck: Set<u64>,
    attacker: u64,
    centre: Vec2,
    size: Vec2,
    damage: i32,
    targets: Seq<CombatTarget>,
)
    ensures
        fresh_strikes(
            struck,
            strikes(struck, attacker, centre, size, damage, targets).0,
            strikes(struck, attacker, centre, size, damage, targets).1,
        ),
    decreases targets.len(),
{
    if targets.len() > 0 {
        lemma_strikes_fresh(struck, attacker, centre, size, damage, targets.drop_last());
        let (s1, ev1) = strikes(struck, attacker, centre, size, damage, targets.drop_last());
        let (s2, ev2) = strikes(struck, attacker, centre, size, damage, targets);
        if ev2.len() > ev1.len() {
            let t = targets.last();
            assert(ev2 == ev1.push(DamageEvent { attacker, target: t.id, damage }));
            assert(!s1.contains(t.id));
            assert forall|x: u64| #[trigger] s2.contains(x) implies struck.contains(x) || exists|
                i: int,
            | 0 <= i < ev2.len() && #[trigger] ev2[i].target == x by {
                if x == t.id {
                    assert(ev2[ev2.len() - 1].target == x);
                } else if !struck.contains(x) {
                    let i = choose|i: int| 0 <= i < ev1.len() && #[trigger] ev1[i].target == x;
                    assert(ev2[i].target == x);
                }
            }
            assert forall|i: int, j: int| 0 <= i < j < ev2.len() implies #[trigger] ev2[i].target
                != #[trigger] ev2[j].target by {
                if j == ev2.len() - 1 {
                    assert(s1.contains(ev1[i].target));
                }
            }
        }
    }
}

/// Tick by tick through one swing: the hit check runs with the same
/// tracking throughout, which is never cleared in between.
pub open spec fn swing_strikes(
    struck: Set<u64>,
    attacker: u64,
    s: PlayerStateType,
    ticks: Seq<(Vec2, Hitbox, Seq<CombatTarget>)>,
) -> (Set<u64>, Seq<DamageEvent>)
    decreases ticks.len(),
{
    if ticks.len() == 0 {
        (struck, Seq::empty())
    } else {
        let (s1, ev1) = swing_strikes(struck, attacker, s, ticks.drop_last());
        let (p, h, targets) = ticks.last();
        let (s2, ev2) = combat_step(attacker, p, h, s, s1, targets);
        (s2, ev1 + ev2)
    }
}

/// Hit dedup: over any number of ticks of one swing, started with the
/// tracking cleared, every enemy takes at most one damage event, however
/// long the boxes overlap.
pub proof fn lemma_hit_once_per_swing(
    attacker: u64,
    s: PlayerStateType,
    ticks: Seq<(Vec2, Hitbox, Seq<CombatTarget>)>,
)
    ensures
        forall|i: int, j: int|
            0 <= i < j < swing_strikes(Set::empty(), attacker, s, ticks).1.len() ==> (
            #[trigger] swing_strikes(Set::empty(), attacker, s, ticks).1[i]).target != (
            #[trigger] swing_strikes(Set::empty(), attacker, s, ticks).1[j]).target,
{
    lemma_swing_fresh(Set::empty(), attacker, s, ticks);
}

/// Across the ticks of a swing, strikes stay fresh.
pub proof fn lemma_swing_fresh(
    struck: Set<u64>,
    attacker: u64,
    s: PlayerStateType,
    ticks: Seq<(Vec2, Hitbox, Seq<CombatTarget>)>,
)
    ensures
        fresh_strikes(
            struck,
            swing_strikes(struck, attacker, s, ticks).0,
            swing_strikes(struck, attacker, s, ticks).1,
        ),
    decreases ticks.len(),
{
    if ticks.len() > 0 {
        lemma_swing_fresh(struck, attacker, s, ticks.drop_last());
        let (s1, ev1) = swing_strikes(struck, attacker, s, ticks.drop_last());
        let (p, h, targets) = ticks.last();
        let (s2, ev2) = combat_step(attacker, p, h, s, s1, targets);
        if h.active {
            lemma_strikes_fresh(
                s1,
                attacker,
                crate::combat::hitbox_centre(p, h.offset),
                h.size,
                crate::config::damage_of(s),
                targets,
            );
        }
        let ev = ev1 + ev2;
        assert forall|i: int| 0 <= i < ev.len() implies !struck.contains(#[trigger] ev[i].target)
            && s2.contains(ev[i].target) by {
            if i >= ev1.len() {
                assert(ev[i] == ev2[i - ev1.len()]);
            } else {
                assert(ev[i] == ev1[i]);
            }
        }
        assert forall|i: int, j: int| 0 <= i < j < ev.len() implies #[trigger] ev[i].target
            != #[trigger] ev[j].target by {
            if j >= ev1.len() {
                assert(ev[j] == ev2[j - ev1.len()]);
                if i >= ev1.len() {
                    assert(ev[i] == ev2[i - ev1.len()]);
                } else {
                    assert(ev[i] == ev1[i]);
                    assert(s1.contains(ev1[i].target));
                }
            } else {
                assert(ev[i] == ev1[i]);
                assert(ev[j] == ev1[j]);
            }
        }
        assert forall|x: u64| #[trigger] s2.contains(x) implies struck.contains(x) || exists|i: int|
            0 <= i < ev.len() && #[trigger] ev[i].target == x by {
            if !struck.contains(x) {
                if s1.contains(x) {
                    let i = choose|i: int| 0 <= i < ev1.len() && #[trigger] ev1[i].target == x;
                    assert(ev[i] == ev1[i]);
                } else {
                    let k = choose|k: int| 0 <= k < ev2.len() && #[trigger] ev2[k].target == x;
                    assert(ev[ev1.len() + k] == ev2[k]);
                }
            }
        }
    }
}

/// A knockback speed after `n` ticks of decay.
pub open spec fn decayed_n(v: int, n: nat) -> int
    decreases n,
{
    if n == 0 {
        v
    } else {
        decayed(decayed_n(v, (n - 1) as nat))
    }
}

/// Absolute value.
pub open spec fn abs(v: int) -> int {
    if v < 0 {
        -v
    } else {
        v
    }
}

proof fn lemma_decayed_abs(v: int)
    ensures
        abs(decayed(v)) == (9 * abs(v)) / 10,
        10 * abs(decayed(v)) <= 9 * abs(v),
        10 * abs(decayed(v)) >= 9 * abs(v) - 9,
        abs(decayed(v)) <= abs(v),
{
}

/// Knockback decay: after `n` ticks each component of the knockback speed is
/// 0.9^n times the first, up to the rounding toward zero of each tick:
/// `|v_n| <= 0.9^n |v_0|` and `|v_n| + 9 >= 0.9^n (|v_0| + 9)`, written
/// without fractions.
pub proof fn lemma_knockback_decay_bounds(v: int, n: nat)
    ensures
        pow(10, n) * abs(decayed_n(v, n)) <= pow(9, n) * abs(v),
        pow(10, n) * (abs(decayed_n(v, n)) + 9) >= pow(9, n) * (abs(v) + 9),
    decreases n,
{
    reveal(pow);
    if n > 0 {
        let m = (n - 1) as nat;
        lemma_knockback_decay_bounds(v, m);
        lemma_decayed_abs(decayed_n(v, m));
        lemma_pow_positive(10, m);
        lemma_pow_positive(9, m);
        let a = abs(decayed_n(v, m));
        let b = abs(decayed_n(v, n));
        let p10 = pow(10, m);
        let p9 = pow(9, m);
        assert(pow(10, n) == 10 * p10);
        assert(pow(9, n) == 9 * p9);
        assert(decayed_n(v, n) == decayed(decayed_n(v, m)));
        assert(10 * b <= 9 * a && 10 * b >= 9 * a - 9);
        assert(10 * p10 * b <= 9 * p9 * abs(v)) by (nonlinear_arith)
            requires
                p10 * a <= p9 * abs(v),
                10 * b <= 9 * a,
                p10 > 0,
        ;
        assert(10 * p10 * (b + 9) >= 9 * p9 * (abs(v) + 9)) by (nonlinear_arith)
            requires
                p10 * (a + 9) >= p9 * (abs(v) + 9),
                10 * b >= 9 * a - 9,
                p10 > 0,
        ;
        assert(pow(10, n) * b == 10 * p10 * b && pow(9, n) * abs(v) == 9 * p9 * abs(v)
            && pow(10, n) * (b + 9) == 10 * p10 * (b + 9) && pow(9, n) * (abs(v) + 9) == 9 * p9 * (
        abs(v) + 9)) by (nonlinear_arith)
            requires
                pow(10, n) == 10 * p10,
                pow(9, n) == 9 * p9,
        ;
    }
}

/// A knockback velocity after `n` ticks of decay.
pub open spec fn decayed_velocity_n(v: Vec2, n: nat) -> Vec2
    decreases n,
{
    if n == 0 {
        v
    } else {
        decayed_velocity(decayed_velocity_n(v, (n - 1) as nat))
    }
}

/// The decayed velocity is the decayed speed on each axis.
pub proof fn lemma_decayed_velocity_n(v: Vec2, n: nat)
    ensures
        decayed_velocity_n(v, n).x == decayed_n(v.x as int, n),
        decayed_velocity_n(v, n).y == decayed_n(v.y as int, n),
    decreases n,
{
    if n > 0 {
        lemma_decayed_velocity_n(v, (n - 1) as nat);
        lemma_decayed_abs(decayed_velocity_n(v, (n - 1) as nat).x as int);
        lemma_decayed_abs(decayed_velocity_n(v, (n - 1) as nat).y as int);
    }
}

/// The knockback left after `n` ticks of `apply_knockback`, wherever the
/// actor stands.
pub open spec fn knockback_n(
    k: Option<Knockback>,
    pos: Seq<Vec2>,
    ground_y: Option<i32>,
    dt_ms: Seq<u32>,
    n: nat,
) -> Option<Knockback>
    decreases n,
{
    if n == 0 {
        k
    } else {
        let m = (n - 1) as nat;
        knockback_after(pos[m as int], knockback_n(k, pos, ground_y, dt_ms, m), ground_y, dt_ms[m as int]).1
    }
}

/// Every tick from the first to the `n`-th leaves the knockback moving.
pub open spec fn moving_through(v: Vec2, n: nat) -> bool {
    forall|k: nat| 1 <= k <= n ==> !at_rest(#[trigger] decayed_velocity_n(v, k))
}

/// Knockback removal: a knockback of velocity `v` is still there after `n`
/// ticks, with velocity decayed `n` times, exactly when no tick up to the
/// `n`-th left it at rest; it is removed on the first tick that does.
pub proof fn lemma_knockback_removed_at_rest(
    v: Vec2,
    pos: Seq<Vec2>,
    ground_y: Option<i32>,
    dt_ms: Seq<u32>,
    n: nat,
)
    requires
        pos.len() >= n,
        dt_ms.len() >= n,
    ensures
        knockback_n(Some(Knockback { velocity: v }), pos, ground_y, dt_ms, n) == if moving_through(
            v,
            n,
        ) {
            Some(Knockback { velocity: decayed_velocity_n(v, n) })
        } else {
            None::<Knockback>
        },
    decreases n,
{
    if n > 0 {
        let m = (n - 1) as nat;
        lemma_knockback_removed_at_rest(v, pos, ground_y, dt_ms, m);
        if moving_through(v, m) {
            if !at_rest(decayed_velocity_n(v, n)) {
                assert forall|k: nat| 1 <= k <= n implies !at_rest(
                    #[trigger] decayed_velocity_n(v, k),
                ) by {
                    if k < n {
                        assert(1 <= k <= m);
                    }
                }
            }
        } else {
            let k = choose|k: nat| 1 <= k <= m && at_rest(#[trigger] decayed_velocity_n(v, k));
            assert(!moving_through(v, n)) by {
                assert(1 <= k <= n && at_rest(decayed_velocity_n(v, k)));
            }
        }
    }
}

/// Total of the tick lengths.
pub open spec fn total_ms(dts: Seq<u32>) -> int
    decreases dts.len(),
{
    if dts.len() == 0 {
        0
    } else {
        total_ms(dts.drop_last()) + dts.last()
    }
}

/// Position, jump physics and facing after the movement stage of `Jump`
/// has run once for each tick length in `dts`.
pub open spec fn jump_run(
    pos: Vec2,
    jump: JumpPhysics,
    facing: Direction,
    keys: Keys,
    dts: Seq<u32>,
) -> (Vec2, JumpPhysics, Direction)
    decreases dts.len(),
{
    if dts.len() == 0 {
        (pos, jump, facing)
    } else {
        let (p, j, f) = jump_run(pos, jump, facing, keys, dts.drop_last());
        physics_step(PlayerStateType::Jump, keys, dts.last(), p, j, f)
    }
}

/// After every tick of the run the player is still above the ground line.
pub open spec fn stays_airborne(
    pos: Vec2,
    jump: JumpPhysics,
    facing: Direction,
    keys: Keys,
    dts: Seq<u32>,
) -> bool {
    forall|k: int|
        1 <= k <= dts.len() ==> {
            let r = #[trigger] jump_run(pos, jump, facing, keys, dts.take(k));
            r.0.y > r.1.ground_y
        }
}

proof fn lemma_total_ms_grows(dts: Seq<u32>)
    ensures
        total_ms(dts) >= 0,
        dts.len() > 0 ==> total_ms(dts.drop_last()) <= total_ms(dts),
    decreases dts.len(),
{
    if dts.len() > 0 {
        lemma_total_ms_grows(dts.drop_last());
    }
}

/// Gravity over a jump: while the player stays in the air, each tick takes
/// `GRAVITY_PER_MS` times its length off the vertical speed, so after the
/// ticks `dts` the speed is the take-off speed less gravity times their
/// total; once that is below zero, the rising state answers with `Fall`.
pub proof fn lemma_jump_gravity(
    pos: Vec2,
    jump: JumpPhysics,
    facing: Direction,
    keys: Keys,
    dts: Seq<u32>,
    animation_finished: bool,
    is_at_ground: bool,
)
    requires
        stays_airborne(pos, jump, facing, keys, dts),
        jump.velocity_y - GRAVITY_PER_MS * total_ms(dts) >= i64::MIN,
    ensures
        jump_run(pos, jump, facing, keys, dts).1.velocity_y == jump.velocity_y - GRAVITY_PER_MS
            * total_ms(dts),
        jump_run(pos, jump, facing, keys, dts).1.ground_y == jump.ground_y,
        jump.velocity_y < GRAVITY_PER_MS * total_ms(dts) ==> update_response(
            PlayerStateType::Jump,
            UpdateContext {
                animation_finished,
                is_at_ground,
                velocity_y: jump_run(pos, jump, facing, keys, dts).1.velocity_y,
            },
        ) == StateTransition::To(PlayerStateType::Fall),
    decreases dts.len(),
{
    if dts.len() > 0 {
        let prev = dts.drop_last();
        lemma_total_ms_grows(dts);
        lemma_total_ms_grows(prev);
        assert(stays_airborne(pos, jump, facing, keys, prev)) by {
            assert forall|k: int| 1 <= k <= prev.len() implies {
                let r = #[trigger] jump_run(pos, jump, facing, keys, prev.take(k));
                r.0.y > r.1.ground_y
            } by {
                assert(prev.take(k) =~= dts.take(k));
                assert(jump_run(pos, jump, facing, keys, dts.take(k)) == jump_run(
                    pos,
                    jump,
                    facing,
                    keys,
                    prev.take(k),
                ));
            }
        }
        assert(GRAVITY_PER_MS * total_ms(prev) <= GRAVITY_PER_MS * total_ms(dts)) by (
        nonlinear_arith)
            requires
                total_ms(prev) <= total_ms(dts),
        ;
        lemma_jump_gravity(pos, jump, facing, keys, prev, animation_finished, is_at_ground);
        assert(dts.take(dts.len() as int) =~= dts);
        let r = jump_run(pos, jump, facing, keys, dts.take(dts.len() as int));
        assert(r.0.y > r.1.ground_y);
    }
}

} // verus!
