//! Attack hit-volumes, hit detection with one hit per enemy per swing,
//! contact damage, damage resolution and the decay of hit effects.
use crate::components::{
    AnimationIndices, DamageEvent, Direction, EnemyDefeatedEvent, Health, HitFlash, HitTracking,
    Hitbox, HurtBox, Invulnerable, Knockback, PlayerDefeatedEvent, Stunned,
};
use crate::config::{attacking, damage_of, PlayerStateType};
use crate::geometry::{
    aabb_collision, boxes_overlap, clamp_i32, direction_scaled, distance_squared, isqrt_of,
    saturate_i32, scaled_direction, squared_distance, Vec2,
};
use crate::timer::{Timer, TimerMode};
use crate::state::PlayerState;
use vstd::prelude::*;

verus! {

broadcast use vstd::std_specs::hash::group_hash_axioms;

/// How far in front of the player an attack strikes, in milli-pixels.
pub const HITBOX_REACH: i32 = 80_000;

/// An actor that attacks can strike.
#[derive(Clone, Copy, Debug, PartialEq, Eq, Structural)]
pub struct CombatTarget {
    pub id: u64,
    pub position: Vec2,
    pub hurtbox: HurtBox,
}

/// Size of the area each attack strikes, in milli-pixels.
pub open spec fn attack_size(s: PlayerStateType) -> Vec2 {
    match s {
        PlayerStateType::Punch | PlayerStateType::PunchCombo => Vec2 { x: 60_000, y: 40_000 },
        PlayerStateType::Kick | PlayerStateType::KickCombo
        | PlayerStateType::PunchKickCombo => Vec2 { x: 80_000, y: 50_000 },
        PlayerStateType::JumpPunch => Vec2 { x: 50_000, y: 50_000 },
        PlayerStateType::JumpKick => Vec2 { x: 70_000, y: 60_000 },
        _ => Vec2 { x: 0, y: 0 },
    }
}

/// Offset of the struck area for each facing.
pub open spec fn attack_offset(facing: Direction) -> Vec2 {
    match facing {
        Direction::Right => Vec2 { x: HITBOX_REACH, y: 0 },
        Direction::Left => Vec2 { x: (-HITBOX_REACH) as i32, y: 0 },
        Direction::Neutral => Vec2 { x: 0, y: 0 },
    }
}

/// The frame lies in the middle third of the animation's range.
pub open spec fn in_active_frames(frame: usize, indices: AnimationIndices) -> bool {
    let total = indices.last - indices.first;
    &&& frame >= indices.first + total / 3
    &&& frame <= indices.first + (2 * total) / 3
}

/// The hitbox for this tick: outside an attack it is switched off and left
/// as it was; during one it is live in the middle third of the animation,
/// in front of the player, sized for the attack.
pub open spec fn hitbox_for(
    s: PlayerStateType,
    frame: usize,
    indices: AnimationIndices,
    facing: Direction,
    hitbox: Hitbox,
) -> Hitbox {
    if !attacking(s) {
        Hitbox { active: false, ..hitbox }
    } else {
        Hitbox {
            active: in_active_frames(frame, indices),
            offset: attack_offset(facing),
            size: attack_size(s),
        }
    }
}

/// Places and sizes the player's hitbox for the current attack frame.
pub fn update_attack_hitboxes(
    state: &PlayerState,
    current_frame: usize,
    indices: &AnimationIndices,
    facing: Direction,
    hitbox: &mut Hitbox,
)
    requires
        indices.first <= indices.last,
    ensures
        *final(hitbox) == hitbox_for(
            state.state_type(),
            current_frame,
            *indices,
            facing,
            *old(hitbox),
        ),
{
    if !state.is_attacking() {
        hitbox.active = false;
        return;
    }
    let total_frames: usize = indices.last - indices.first;
    let mid_start: usize = indices.first + total_frames / 3;
    let mid_end: usize = indices.first + ((2 * total_frames as u128) / 3) as usize;
    hitbox.active = current_frame >= mid_start && current_frame <= mid_end;
    hitbox.offset = match facing {
        Direction::Right => Vec2::new(HITBOX_REACH, 0),
        Direction::Left => Vec2::new(-HITBOX_REACH, 0),
        Direction::Neutral => Vec2::zero(),
    };
    hitbox.size = match state {
        PlayerState::Punch(_) | PlayerState::PunchCombo(_) => Vec2::new(60_000, 40_000),
        PlayerState::Kick(_) | PlayerState::KickCombo(_) | PlayerState::PunchKickCombo(_) => {
            Vec2::new(80_000, 50_000)
        },
        PlayerState::JumpPunch(_) => Vec2::new(50_000, 50_000),
        PlayerState::JumpKick(_) => Vec2::new(70_000, 60_000),
        _ => Vec2::zero(),
    };
}

/// Centre of a hitbox placed at `offset` from `pos`.
pub open spec fn hitbox_centre(pos: Vec2, offset: Vec2) -> Vec2 {
    Vec2 { x: clamp_i32(pos.x + offset.x), y: clamp_i32(pos.y + offset.y) }
}

/// Strikes of a live hitbox against `targets`, in order: each target that
/// overlaps it and is not in `struck` yet is added to `struck` and takes `damage`.
pub open spec fn strikes(
    struck: Set<u64>,
    attacker: u64,
    centre: Vec2,
    size: Vec2,
    damage: i32,
    targets: Seq<CombatTarget>,
) -> (Set<u64>, Seq<DamageEvent>)
    decreases targets.len(),
{
    if targets.len() == 0 {
        (struck, Seq::empty())
    } else {
        let (s1, ev1) = strikes(struck, attacker, centre, size, damage, targets.drop_last());
        let t = targets.last();
        if !s1.contains(t.id) && boxes_overlap(centre, size, t.position, t.hurtbox.size) {
            (s1.insert(t.id), ev1.push(DamageEvent { attacker, target: t.id, damage }))
        } else {
            (s1, ev1)
        }
    }
}

/// Strikes the player's live hitbox makes on this tick: no enemy already
/// struck by this swing is struck again.
pub open spec fn combat_step(
    attacker: u64,
    pos: Vec2,
    hitbox: Hitbox,
    s: PlayerStateType,
    struck: Set<u64>,
    targets: Seq<CombatTarget>,
) -> (Set<u64>, Seq<DamageEvent>) {
    if !hitbox.active {
        (struck, Seq::empty())
    } else {
        strikes(struck, attacker, hitbox_centre(pos, hitbox.offset), hitbox.size, damage_of(s), targets)
    }
}

fn centre_of(pos: Vec2, offset: Vec2) -> (r: Vec2)
    ensures
        r == hitbox_centre(pos, offset),
{
    Vec2 {
        x: saturate_i32(pos.x as i128 + offset.x as i128),
        y: saturate_i32(pos.y as i128 + offset.y as i128),
    }
}

/// Tests the player's hitbox against each enemy not yet struck by the current
/// swing; each one it overlaps is recorded and takes the attack's damage.
pub fn detect_combat_collisions(
    player: u64,
    position: Vec2,
    hitbox: &Hitbox,
    state: &PlayerState,
    tracking: &mut HitTracking,
    enemies: &Vec<CombatTarget>,
) -> (events: Vec<DamageEvent>)
    ensures
        (final(tracking).hit_enemies@, events@) == combat_step(
            player,
            position,
            *hitbox,
            state.state_type(),
            old(tracking).hit_enemies@,
            enemies@,
        ),
{
    let mut events: Vec<DamageEvent> = Vec::new();
    if !hitbox.active {
        return events;
    }
    let centre = centre_of(position, hitbox.offset);
    let damage = state.get_damage();
    let mut i: usize = 0;
    while i < enemies.len()
        invariant
            0 <= i <= enemies.len(),
            (tracking.hit_enemies@, events@) == strikes(
                old(tracking).hit_enemies@,
                player,
                centre,
                hitbox.size,
                damage,
                enemies@.subrange(0, i as int),
            ),
        decreases enemies.len() - i,
    {
        let enemy = enemies[i];
        assert(enemies@.subrange(0, i + 1).drop_last() =~= enemies@.subrange(0, i as int));
        if !tracking.hit_enemies.contains(&enemy.id) && aabb_collision(
            centre,
            hitbox.size,
            enemy.position,
            enemy.hurtbox.size,
        ) {
            tracking.hit_enemies.insert(enemy.id);
            events.push(DamageEvent { attacker: player, target: enemy.id, damage });
        }
        i += 1;
    }
    assert(enemies@.subrange(0, enemies.len() as int) =~= enemies@);
    events
}

/// Distance under which an enemy hurts the player by touch, in milli-pixels.
pub const CONTACT_RANGE: u128 = 100_000;

/// Damage of touching an enemy.
pub const CONTACT_DAMAGE: i32 = 1;

/// An enemy as seen by the contact-damage check.
#[derive(Clone, Copy, Debug, PartialEq, Eq, Structural)]
pub struct EnemyContact {
    pub id: u64,
    pub position: Vec2,
    pub stunned: bool,
}

/// Touch damage from the enemies, in order: every enemy that is not stunned
/// and stands closer than the contact range hurts the player.
pub open spec fn contacts(player: u64, pos: Vec2, enemies: Seq<EnemyContact>) -> Seq<DamageEvent>
    decreases enemies.len(),
{
    if enemies.len() == 0 {
        Seq::empty()
    } else {
        let ev = contacts(player, pos, enemies.drop_last());
        let e = enemies.last();
        if !e.stunned && distance_squared(pos, e.position) < CONTACT_RANGE * CONTACT_RANGE {
            ev.push(DamageEvent { attacker: e.id, target: player, damage: CONTACT_DAMAGE })
        } else {
            ev
        }
    }
}

/// Damage the player takes from touching enemies; none while invulnerable.
pub fn detect_player_enemy_collisions(
    player: u64,
    position: Vec2,
    invulnerable: bool,
    enemies: &Vec<EnemyContact>,
) -> (events: Vec<DamageEvent>)
    ensures
        events@ == if invulnerable {
            Seq::empty()
        } else {
            contacts(player, position, enemies@)
        },
{
    let mut events: Vec<DamageEvent> = Vec::new();
    if invulnerable {
        return events;
    }
    let mut i: usize = 0;
    while i < enemies.len()
        invariant
            0 <= i <= enemies.len(),
            events@ == contacts(player, position, enemies@.subrange(0, i as int)),
        decreases enemies.len() - i,
    {
        let enemy = enemies[i];
        assert(enemies@.subrange(0, i + 1).drop_last() =~= enemies@.subrange(0, i as int));
        if !enemy.stunned && squared_distance(position, enemy.position) < CONTACT_RANGE
            * CONTACT_RANGE {
            events.push(DamageEvent { attacker: enemy.id, target: player, damage: CONTACT_DAMAGE });
        }
        i += 1;
    }
    assert(enemies@.subrange(0, enemies.len() as int) =~= enemies@);
    events
}

/// Whether an actor is the player or an enemy.
#[derive(Clone, Copy, Debug, PartialEq, Eq, Structural)]
pub enum ActorKind {
    Player,
    Enemy,
}

/// What damage resolution reads and writes of an actor.
#[derive(Clone, Copy, Debug, PartialEq, Eq, Structural)]
pub struct CombatActor {
    pub id: u64,
    pub kind: ActorKind,
    pub position: Vec2,
    pub health: Health,
    pub stunned: Option<Stunned>,
    pub invulnerable: Option<Invulnerable>,
    pub knockback: Option<Knockback>,
    pub hit_flash: Option<HitFlash>,
}

/// Defeats raised while resolving damage.
#[derive(Debug)]
pub struct DamageOutcome {
    pub enemies_defeated: Vec<EnemyDefeatedEvent>,
    pub player_defeated: Vec<PlayerDefeatedEvent>,
}

/// How long a hit enemy stays stunned, in milliseconds.
pub const STUN_MS: u32 = 500;

/// How long a hit player stays invulnerable, in milliseconds.
pub const INVULNERABLE_MS: u32 = 1000;

/// How long a hit actor flashes, in milliseconds.
pub const HIT_FLASH_MS: u32 = 300;

/// Knockback speed of a hit enemy, in milli-pixels per second.
pub const ENEMY_KNOCKBACK: i32 = 300_000;

/// Knockback speed of a hit player, in milli-pixels per second.
pub const PLAYER_KNOCKBACK: i32 = 500_000;

/// Index of the first actor with the given id.
pub open spec fn find_actor(actors: Seq<CombatActor>, id: u64) -> Option<int>
    decreases actors.len(),
{
    if actors.len() == 0 {
        None
    } else {
        match find_actor(actors.drop_last(), id) {
            Some(i) => Some(i),
            None => if actors.last().id == id {
                Some(actors.len() - 1)
            } else {
                None
            },
        }
    }
}

/// Knockback speed for a hit actor of this kind.
pub open spec fn knockback_speed(kind: ActorKind) -> i32 {
    match kind {
        ActorKind::Enemy => ENEMY_KNOCKBACK,
        ActorKind::Player => PLAYER_KNOCKBACK,
    }
}

/// Knockback of a hit on `target`: away from the attacker at the speed for
/// the target's kind; none when the attacker is gone.
pub open spec fn knockback_of(actors: Seq<CombatActor>, attacker: u64, target: CombatActor) -> Vec2 {
    match find_actor(actors, attacker) {
        None => Vec2 { x: 0, y: 0 },
        Some(a) => scaled_direction(
            actors[a].position,
            target.position,
            knockback_speed(target.kind) as int,
            isqrt_of(distance_squared(actors[a].position, target.position)),
        ),
    }
}

/// Effects a surviving actor gets from a hit: an enemy is stunned, the
/// player turns invulnerable; both are knocked back and flash.
pub open spec fn hit_effects(t: CombatActor, push: Vec2) -> CombatActor {
    let flash = Some(
        HitFlash {
            timer: Timer::new_spec(HIT_FLASH_MS, TimerMode::Once),
            flash_duration_ms: HIT_FLASH_MS,
        },
    );
    match t.kind {
        ActorKind::Enemy => CombatActor {
            stunned: Some(Stunned { timer: Timer::new_spec(STUN_MS, TimerMode::Once) }),
            knockback: Some(Knockback { velocity: push }),
            hit_flash: flash,
            ..t
        },
        ActorKind::Player => CombatActor {
            invulnerable: Some(
                Invulnerable { timer: Timer::new_spec(INVULNERABLE_MS, TimerMode::Once) },
            ),
            knockback: Some(Knockback { velocity: push }),
            hit_flash: flash,
            ..t
        },
    }
}

/// One damage event: the target loses health; at zero or below it is
/// defeated and gets no effects, otherwise it gets the hit effects. An event
/// whose target is gone changes nothing.
pub open spec fn resolve_one(actors: Seq<CombatActor>, e: DamageEvent) -> (
    Seq<CombatActor>,
    Seq<EnemyDefeatedEvent>,
    Seq<PlayerDefeatedEvent>,
) {
    match find_actor(actors, e.target) {
        None => (actors, Seq::empty(), Seq::empty()),
        Some(ti) => {
            let t = actors[ti];
            let hurt = CombatActor {
                health: Health { current: clamp_i32(t.health.current - e.damage), ..t.health },
                ..t
            };
            if hurt.health.current <= 0 {
                match t.kind {
                    ActorKind::Enemy => (
                        actors.update(ti, hurt),
                        seq![EnemyDefeatedEvent { enemy: t.id }],
                        Seq::empty(),
                    ),
                    ActorKind::Player => (
                        actors.update(ti, hurt),
                        Seq::empty(),
                        seq![PlayerDefeatedEvent],
                    ),
                }
            } else {
                (
                    actors.update(ti, hit_effects(hurt, knockback_of(actors, e.attacker, t))),
                    Seq::empty(),
                    Seq::empty(),
                )
            }
        },
    }
}

/// All damage events in order.
pub open spec fn resolve_all(actors: Seq<CombatActor>, events: Seq<DamageEvent>) -> (
    Seq<CombatActor>,
    Seq<EnemyDefeatedEvent>,
    Seq<PlayerDefeatedEvent>,
)
    decreases events.len(),
{
    if events.len() == 0 {
        (actors, Seq::empty(), Seq::empty())
    } else {
        let (a1, d1, p1) = resolve_all(actors, events.drop_last());
        let (a2, d2, p2) = resolve_one(a1, events.last());
        (a2, d1 + d2, p1 + p2)
    }
}

fn find_actor_index(actors: &Vec<CombatActor>, id: u64) -> (r: Option<usize>)
    ensures
        r matches Some(i) ==> i < actors.len() && find_actor(actors@, id) == Some(i as int),
        r is None ==> find_actor(actors@, id) is None,
{
    let mut i: usize = 0;
    while i < actors.len()
        invariant
            0 <= i <= actors.len(),
            find_actor(actors@.subrange(0, i as int), id) is None,
        decreases actors.len() - i,
    {
        assert(actors@.subrange(0, i + 1).drop_last() =~= actors@.subrange(0, i as int));
        if actors[i].id == id {
            proof {
                lemma_find_in_prefix(actors@, id, i as int + 1, i as int);
            }
            return Some(i);
        }
        i += 1;
    }
    assert(actors@.subrange(0, actors.len() as int) =~= actors@);
    None
}

proof fn lemma_find_in_prefix(actors: Seq<CombatActor>, id: u64, n: int, i: int)
    requires
        0 <= n <= actors.len(),
        find_actor(actors.subrange(0, n), id) == Some(i),
    ensures
        find_actor(actors, id) == Some(i),
    decreases actors.len() - n,
{
    if n < actors.len() {
        assert(actors.subrange(0, n + 1).drop_last() =~= actors.subrange(0, n));
        assert(find_actor(actors.subrange(0, n + 1), id) == Some(i));
        lemma_find_in_prefix(actors, id, n + 1, i);
    } else {
        assert(actors.subrange(0, n) =~= actors);
    }
}

fn resolve_event(
    actors: &mut Vec<CombatActor>,
    e: &DamageEvent,
    outcome: &mut DamageOutcome,
)
    ensures
        ({
            let (a, d, p) = resolve_one(old(actors)@, *e);
            &&& final(actors)@ == a
            &&& final(outcome).enemies_defeated@ == old(outcome).enemies_defeated@ + d
            &&& final(outcome).player_defeated@ == old(outcome).player_defeated@ + p
        }),
{
    let ti = match find_actor_index(actors, e.target) {
        Some(ti) => ti,
        None => {
            assert(old(outcome).enemies_defeated@ + Seq::empty() =~= old(outcome).enemies_defeated@);
            assert(old(outcome).player_defeated@ + Seq::empty() =~= old(outcome).player_defeated@);
            return;
        },
    };
    let mut target = actors[ti];
    let push = match find_actor_index(actors, e.attacker) {
        None => Vec2::zero(),
        Some(ai) => {
            let speed = match target.kind {
                ActorKind::Enemy => ENEMY_KNOCKBACK,
                ActorKind::Player => PLAYER_KNOCKBACK,
            };
            direction_scaled(actors[ai].position, target.position, speed)
        },
    };
    target.health.current = saturate_i32(target.health.current as i128 - e.damage as i128);
    if target.health.current <= 0 {
        match target.kind {
            ActorKind::Enemy => {
                outcome.enemies_defeated.push(EnemyDefeatedEvent { enemy: target.id });
                assert(outcome.player_defeated@ =~= old(outcome).player_defeated@ + Seq::empty());
            },
            ActorKind::Player => {
                outcome.player_defeated.push(PlayerDefeatedEvent);
                assert(outcome.enemies_defeated@ =~= old(outcome).enemies_defeated@ + Seq::empty());
            },
        }
    } else {
        let flash = HitFlash {
            timer: Timer::new(HIT_FLASH_MS, TimerMode::Once),
            flash_duration_ms: HIT_FLASH_MS,
        };
        match target.kind {
            ActorKind::Enemy => {
                target.stunned = Some(Stunned { timer: Timer::new(STUN_MS, TimerMode::Once) });
            },
            ActorKind::Player => {
                target.invulnerable = Some(
                    Invulnerable { timer: Timer::new(INVULNERABLE_MS, TimerMode::Once) },
                );
            },
        }
        target.knockback = Some(Knockback { velocity: push });
        target.hit_flash = Some(flash);
        assert(outcome.player_defeated@ =~= old(outcome).player_defeated@ + Seq::empty());
        assert(outcome.enemies_defeated@ =~= old(outcome).enemies_defeated@ + Seq::empty());
    }
    actors.set(ti, target);
}

/// Resolves the damage events of this tick in order; returns the defeats
/// they caused.
pub fn handle_damage_events(actors: &mut Vec<CombatActor>, events: &Vec<DamageEvent>) -> (r:
    DamageOutcome)
    ensures
        ({
            let (a, d, p) = resolve_all(old(actors)@, events@);
            &&& final(actors)@ == a
            &&& r.enemies_defeated@ == d
            &&& r.player_defeated@ == p
        }),
{
    let mut outcome = DamageOutcome { enemies_defeated: Vec::new(), player_defeated: Vec::new() };
    let mut i: usize = 0;
    while i < events.len()
        invariant
            0 <= i <= events.len(),
            ({
                let (a, d, p) = resolve_all(old(actors)@, events@.subrange(0, i as int));
                &&& actors@ == a
                &&& outcome.enemies_defeated@ == d
                &&& outcome.player_defeated@ == p
            }),
        decreases events.len() - i,
    {
        assert(events@.subrange(0, i + 1).drop_last() =~= events@.subrange(0, i as int));
        resolve_event(actors, &events[i], &mut outcome);
        i += 1;
    }
    assert(events@.subrange(0, events.len() as int) =~= events@);
    outcome
}

} // verus!
