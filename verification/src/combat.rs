//! Contacts between hit-zones and actors, and what becomes of the dead.

use crate::actions::{Damage, Dying, Health, SoundCue};
use crate::enemies::{Ai, EnemyForm};
use crate::player::Player;
use crate::timer::{Timer, TimerMode, NANOS_PER_MILLI};
use vstd::prelude::*;

verus! {

/// Strength of the impulse that pushes a hit actor away from the zone.
pub const KNOCKBACK: u32 = 1000;

/// Milliseconds a fallen actor stays before it is removed.
pub const DEATH_MILLIS: u32 = 1000;

/// What one party to a contact bears of all that matters to a hit.
#[derive(Clone, Copy, Debug, PartialEq, Eq)]
pub struct Body {
    /// The power to hurt: a hit-zone has it until it lands a hit.
    pub damage: Option<Damage>,
    /// The power to be hurt: an actor has it while it lives.
    pub health: Option<Health>,
    /// Its own mind, if it is an enemy that lives.
    pub ai: Option<Ai>,
    /// Its way out, once it has begun.
    pub dying: Option<Dying>,
}

impl Body {
    /// What the body bears is valid: its damage is meant for the side
    /// opposite to its maker's, and its health is within its maximum.
    pub open spec fn wf(self) -> bool {
        &&& self.damage matches Some(damage) ==> damage.wf()
        &&& self.health matches Some(health) ==> health.wf()
        &&& self.dying matches Some(dying) ==> dying.0.wf()
    }
}

/// One of the two parties to a contact, by the place it was reported in.
#[derive(Clone, Copy, Debug, PartialEq, Eq, Structural)]
pub enum Side {
    First,
    Second,
}

/// A hit that landed.
#[derive(Clone, Copy, Debug, PartialEq, Eq)]
pub struct Hit {
    /// Which party took it.
    pub target: Side,
    /// Strength of the impulse on the target, away from the zone.
    pub knockback: u32,
    /// Whether it brought the target down.
    pub killed: bool,
    /// Whether it counts for the player's score.
    pub scored: bool,
    /// What to play: the player's side lost an actor.
    pub sfx: Option<SoundCue>,
    /// The enemy whose fall is to be shown.
    pub fallen: Option<EnemyForm>,
}

/// A contact once it is resolved.
pub struct Resolved {
    pub first: Body,
    pub second: Body,
    pub player: Option<Player>,
    pub hit: Option<Hit>,
}

/// The timer of a fallen actor.
pub open spec fn death_timer() -> Dying {
    Dying(Timer::fresh((DEATH_MILLIS * NANOS_PER_MILLI) as u64, TimerMode::Once))
}

/// Whether `source` hurts `target`: it bears damage meant for the side of
/// the target, and the target has health left.
pub open spec fn lands(source: Body, target: Body) -> bool {
    &&& source.damage matches Some(damage)
    &&& target.health matches Some(health)
    &&& damage.target_owner == health.owner
    &&& health.health > 0
}

/// Whether a hit on `target` brings it down.
pub open spec fn fatal(target: Body) -> bool {
    target.health matches Some(health) && health.health == 1
}

/// The zone after it landed a hit: it cannot hurt again.
pub open spec fn spent(source: Body) -> Body {
    Body { damage: None, ..source }
}

/// The target after a hit: one health less, or, with none left, neither
/// health nor mind and a death timer instead.
pub open spec fn struck(target: Body) -> Body {
    let health = target.health->0;
    if health.health == 1 {
        Body { health: None, ai: None, dying: Some(death_timer()), ..target }
    } else {
        Body { health: Some(Health { health: (health.health - 1) as u32, ..health }), ..target }
    }
}

/// What a hit of `source` on `target` reports.
pub open spec fn report(source: Body, target: Body, target_side: Side) -> Hit {
    let damage = source.damage->0;
    Hit {
        target: target_side,
        knockback: KNOCKBACK,
        killed: fatal(target),
        scored: fatal(target) && damage.source_owner == 0,
        sfx: if fatal(target) && damage.target_owner == 0 {
            Some(SoundCue::PlayerDamaged)
        } else {
            None
        },
        fallen: if fatal(target) && target.ai is Some {
            Some(target.ai->0.form)
        } else {
            None
        },
    }
}

/// The player after a hit that `scored` or did not.
pub open spec fn credited(player: Option<Player>, scored: bool) -> Option<Player> {
    match player {
        Some(p) => if scored {
            Some(Player { score: (p.score + 1) as u32, ..p })
        } else {
            player
        },
        None => None,
    }
}

/// The outcome of a contact between `first` and `second`.
///
/// The party that bears health is the target, whichever place it was
/// reported in; with health on both sides it is the first. A contact in which
/// the source does not hurt the target changes nothing.
pub open spec fn resolved(first: Body, second: Body, player: Option<Player>) -> Resolved {
    if first.health is Some {
        if lands(second, first) {
            let hit = report(second, first, Side::First);
            Resolved {
                first: struck(first),
                second: spent(second),
                player: credited(player, hit.scored),
                hit: Some(hit),
            }
        } else {
            Resolved { first, second, player, hit: None }
        }
    } else {
        if lands(first, second) {
            let hit = report(first, second, Side::Second);
            Resolved {
                first: spent(first),
                second: struck(second),
                player: credited(player, hit.scored),
                hit: Some(hit),
            }
        } else {
            Resolved { first, second, player, hit: None }
        }
    }
}

/// Lets `source` hit `target`, which it is known to hurt.
fn strike(source: &mut Body, target: &mut Body, target_side: Side, player: &mut Option<Player>) -> (hit:
    Hit)
    requires
        lands(*old(source), *old(target)),
        report(*old(source), *old(target), target_side).scored ==> (*old(player) matches Some(p)
            ==> p.score < u32::MAX),
    ensures
        *final(source) == spent(*old(source)),
        *final(target) == struck(*old(target)),
        hit == report(*old(source), *old(target), target_side),
        *final(player) == credited(*old(player), hit.scored),
{
    let damage = source.damage.unwrap();
    let health = target.health.unwrap();
    let remaining: u32 = health.health - 1;
    let killed = remaining == 0;
    let scored = killed && damage.source_owner == 0;
    let sfx = if killed && damage.target_owner == 0 {
        Some(SoundCue::PlayerDamaged)
    } else {
        None
    };
    let fallen = match target.ai {
        Some(ai) => if killed {
            Some(ai.form)
        } else {
            None
        },
        None => None,
    };
    if killed {
        target.health = None;
        target.ai = None;
        target.dying = Some(Dying(Timer::from_millis(DEATH_MILLIS, TimerMode::Once)));
    } else {
        target.health = Some(Health { health: remaining, ..health });
    }
    source.damage = None;
    if scored {
        match *player {
            Some(p) => {
                *player = Some(Player { score: p.score + 1, ..p });
            },
            None => {},
        }
    }
    Hit { target: target_side, knockback: KNOCKBACK, killed, scored, sfx, fallen }
}

/// Whether the contact between `first` and `second` counts for the score.
pub open spec fn scores(first: Body, second: Body) -> bool {
    resolved(first, second, None).hit matches Some(hit) && hit.scored
}

/// Tells whether the contact between `first` and `second` counts for the
/// score, so that a caller can see to it that the score has room.
pub fn would_score(first: &Body, second: &Body) -> (counts: bool)
    ensures
        counts == scores(*first, *second),
{
    let (source, target) = if first.health.is_some() {
        (second, first)
    } else {
        (first, second)
    };
    match (source.damage, target.health) {
        (Some(damage), Some(health)) => damage.target_owner == health.owner && health.health == 1
            && damage.source_owner == 0,
        _ => false,
    }
}

/// Resolves one contact between two parties, reported in either order.
///
/// A hit takes one health from the target and spends the zone. A hit that
/// takes the last health removes health and mind from the target, starts its
/// death timer and, if the zone came from the player's side, adds one to the
/// score of the player, if there is one. The score must have room for it.
pub fn resolve_contact(first: &mut Body, second: &mut Body, player: &mut Option<Player>) -> (hit:
    Option<Hit>)
    requires
        scores(*old(first), *old(second)) ==> (*old(player) matches Some(p) ==> p.score
            < u32::MAX),
    ensures
        (Resolved { first: *final(first), second: *final(second), player: *final(player), hit })
            == resolved(*old(first), *old(second), *old(player)),
        old(first).wf() ==> final(first).wf(),
        old(second).wf() ==> final(second).wf(),
{
    if first.health.is_some() {
        match (second.damage, first.health) {
            (Some(damage), Some(health)) => {
                if damage.target_owner == health.owner && health.health > 0 {
                    Some(strike(second, first, Side::First, player))
                } else {
                    None
                }
            },
            _ => None,
        }
    } else {
        match (first.damage, second.health) {
            (Some(damage), Some(health)) => {
                if damage.target_owner == health.owner && health.health > 0 {
                    Some(strike(first, second, Side::Second, player))
                } else {
                    None
                }
            },
            _ => None,
        }
    }
}

/// A contact between two of the bodies of a tick, by their places among them.
#[derive(Clone, Copy, Debug, PartialEq, Eq, Structural)]
pub struct Contact {
    pub first: usize,
    pub second: usize,
}

/// The contacts of a tick once they are resolved.
pub struct Swept {
    /// The bodies after the last contact.
    pub bodies: Seq<Body>,
    /// The player after the last contact.
    pub player: Option<Player>,
    /// What each contact came to, in the order of the contacts.
    pub hits: Seq<Option<Hit>>,
}

/// Whether `contact` is between two different bodies among `bodies`.
pub open spec fn meets(bodies: Seq<Body>, contact: Contact) -> bool {
    contact.first < bodies.len() && contact.second < bodies.len() && contact.first
        != contact.second
}

/// A tick's contacts before any of them is resolved.
pub open spec fn unswept(bodies: Seq<Body>, player: Option<Player>) -> Swept {
    Swept { bodies, player, hits: Seq::empty() }
}

/// What `contact` makes of the outcome `before` of the contacts before it.
/// A contact that does not lie between two different bodies is passed over.
pub open spec fn touched(before: Swept, contact: Contact) -> Swept {
    if meets(before.bodies, contact) {
        let now = resolved(
            before.bodies[contact.first as int],
            before.bodies[contact.second as int],
            before.player,
        );
        Swept {
            bodies: before.bodies.update(contact.first as int, now.first).update(
                contact.second as int,
                now.second,
            ),
            player: now.player,
            hits: before.hits.push(now.hit),
        }
    } else {
        Swept { hits: before.hits.push(None), ..before }
    }
}

/// The outcome of the contacts of one tick, resolved one after the other in
/// the order they are given in. What a contact takes from a body, the later
/// contacts no longer find there.
pub open spec fn swept(bodies: Seq<Body>, player: Option<Player>, contacts: Seq<Contact>) -> Swept
    decreases contacts.len(),
{
    if contacts.len() == 0 {
        unswept(bodies, player)
    } else if contacts.len() == 1 {
        touched(unswept(bodies, player), contacts[0])
    } else {
        touched(swept(bodies, player, contacts.drop_last()), contacts.last())
    }
}

/// What `hit` adds to the score.
pub open spec fn point(hit: Option<Hit>) -> nat {
    if hit matches Some(landed) && landed.scored {
        1
    } else {
        0
    }
}

/// How many of `hits` count for the score.
pub open spec fn points(hits: Seq<Option<Hit>>) -> nat
    decreases hits.len(),
{
    if hits.len() == 0 {
        0
    } else if hits.len() == 1 {
        point(hits[0])
    } else {
        points(hits.drop_last()) + point(hits.last())
    }
}

/// The points that the contacts of a tick among `bodies` add to the score
/// of a player: one for every contact that brings an actor down by a zone of
/// the player's side.
pub open spec fn at_stake(bodies: Seq<Body>, contacts: Seq<Contact>) -> nat {
    points(swept(bodies, None, contacts).hits)
}

/// The health that a body has left; none where it bears none.
pub open spec fn vigour(body: Body) -> nat {
    match body.health {
        Some(health) => health.health as nat,
        None => 0,
    }
}

/// Resolves the contacts of one tick among `bodies`, in the order they are
/// given in, and tells for each what it came to.
///
/// The score must have room for the points at stake; a tick in which
/// nothing scores asks nothing of it. Valid bodies stay valid, and no body
/// has more health after the tick than before.
pub fn hit_detection(bodies: &mut Vec<Body>, contacts: &Vec<Contact>, player: &mut Option<Player>) -> (hits:
    Vec<Option<Hit>>)
    requires
        *old(player) matches Some(p) ==> p.score + at_stake(old(bodies)@, contacts@) <= u32::MAX,
    ensures
        (Swept { bodies: final(bodies)@, player: *final(player), hits: hits@ }) == swept(
            old(bodies)@,
            *old(player),
            contacts@,
        ),
        hits.len() == contacts.len(),
        final(bodies).len() == old(bodies).len(),
        *old(player) is Some <==> *final(player) is Some,
        *old(player) matches Some(p) ==> final(player)->0 == (Player {
            score: (p.score + at_stake(old(bodies)@, contacts@)) as u32,
            ..p
        }),
        forall|i: int|
            0 <= i < old(bodies).len() && (#[trigger] old(bodies)@[i]).wf()
                ==> final(bodies)@[i].wf(),
        forall|i: int|
            0 <= i < old(bodies).len() ==> vigour(#[trigger] final(bodies)@[i]) <= vigour(
                old(bodies)@[i],
            ),
{
    let mut hits: Vec<Option<Hit>> = Vec::new();
    let mut i: usize = 0;
    proof {
        assert(contacts@.take(0) == Seq::<Contact>::empty());
        lemma_points_of_prefixes(old(bodies)@, *old(player), contacts@);
    }
    while i < contacts.len()
        invariant
            i <= contacts.len(),
            bodies.len() == old(bodies).len(),
            hits.len() == i,
            (Swept { bodies: bodies@, player: *player, hits: hits@ }) == swept(
                old(bodies)@,
                *old(player),
                contacts@.take(i as int),
            ),
            *old(player) matches Some(p) ==> p.score + at_stake(old(bodies)@, contacts@)
                <= u32::MAX,
            *old(player) is Some <==> *player is Some,
            *old(player) matches Some(p) ==> player->0 == (Player {
                score: (p.score + points(hits@)) as u32,
                ..p
            }),
            forall|k: int|
                0 <= k <= contacts.len() ==> points(
                    #[trigger] swept(old(bodies)@, *old(player), contacts@.take(k)).hits,
                ) <= at_stake(old(bodies)@, contacts@),
        decreases contacts.len() - i,
    {
        let contact = contacts[i];
        proof {
            let upto = contacts@.take(i + 1);
            assert(upto.drop_last() == contacts@.take(i as int));
            assert(upto.last() == contact);
            let next = swept(old(bodies)@, *old(player), upto);
            assert(next.hits.drop_last() == hits@);
            assert(points(next.hits) <= at_stake(old(bodies)@, contacts@));
        }
        if contact.first < bodies.len() && contact.second < bodies.len() && contact.first
            != contact.second {
            let mut first = bodies[contact.first];
            let mut second = bodies[contact.second];
            let hit = resolve_contact(&mut first, &mut second, player);
            bodies[contact.first] = first;
            bodies[contact.second] = second;
            hits.push(hit);
        } else {
            hits.push(None);
        }
        i = i + 1;
    }
    proof {
        assert(contacts@.take(contacts.len() as int) == contacts@);
        lemma_hits_ignore_player(old(bodies)@, *old(player), None, contacts@);
        lemma_swept_keeps_valid(old(bodies)@, *old(player), contacts@);
    }
    hits
}

/// Counts the points that the contacts of a tick among `bodies` add to the
/// score, so that a caller can see to it that the score has room.
pub fn points_at_stake(bodies: &Vec<Body>, contacts: &Vec<Contact>) -> (stake: usize)
    ensures
        stake == at_stake(bodies@, contacts@),
{
    let mut trial: Vec<Body> = Vec::new();
    let mut i: usize = 0;
    while i < bodies.len()
        invariant
            i <= bodies.len(),
            trial@ == bodies@.take(i as int),
        decreases bodies.len() - i,
    {
        trial.push(bodies[i]);
        i = i + 1;
    }
    assert(trial@ == bodies@);
    let mut nobody: Option<Player> = None;
    let hits = hit_detection(&mut trial, contacts, &mut nobody);
    let mut stake: usize = 0;
    let mut j: usize = 0;
    assert(hits@.take(0) == Seq::<Option<Hit>>::empty());
    while j < hits.len()
        invariant
            j <= hits.len(),
            stake <= j,
            stake == points(hits@.take(j as int)),
        decreases hits.len() - j,
    {
        proof {
            let upto = hits@.take(j + 1);
            assert(upto.drop_last() == hits@.take(j as int));
            assert(upto.last() == hits@[j as int]);
        }
        match hits[j] {
            Some(hit) => {
                if hit.scored {
                    stake = stake + 1;
                }
            },
            None => {},
        }
        j = j + 1;
    }
    assert(hits@.take(hits.len() as int) == hits@);
    stake
}

/// Runs the death timer down by `delta` nanoseconds and tells whether the
/// bearer is to be removed now.
pub fn despawn_dead(dying: &mut Dying, delta: u64) -> (gone: bool)
    ensures
        *final(dying) == Dying(old(dying).0.after_tick(delta)),
        gone == final(dying).0.finished,
        old(dying).0.wf() ==> final(dying).0.wf(),
{
    let mut timer = dying.0;
    timer.tick(delta);
    *dying = Dying(timer);
    timer.finished
}

/// It does not matter in which order the two parties to a contact are
/// reported: the same party is hit, and the same becomes of both and of the
/// score.
pub proof fn lemma_order_is_free(zone: Body, target: Body, player: Option<Player>)
    requires
        zone.health is None,
    ensures
        ({
            let forth = resolved(zone, target, player);
            let back = resolved(target, zone, player);
            &&& forth.first == back.second
            &&& forth.second == back.first
            &&& forth.player == back.player
            &&& forth.hit is Some <==> back.hit is Some
            &&& forth.hit matches Some(hit) ==> hit.target == Side::Second && back.hit == Some(
                Hit { target: Side::First, ..hit },
            )
        }),
{
}

/// A zone never hurts the side that made it.
pub proof fn lemma_no_self_damage(zone: Body, target: Body, player: Option<Player>)
    requires
        zone.health is None,
        zone.damage matches Some(damage) && damage.wf() && (target.health matches Some(health)
            && health.owner == damage.source_owner),
    ensures
        !lands(zone, target),
        resolved(zone, target, player) == (Resolved {
            first: zone,
            second: target,
            player,
            hit: None,
        }),
        resolved(target, zone, player) == (Resolved {
            first: target,
            second: zone,
            player,
            hit: None,
        }),
{
}

/// A zone that has landed a hit hurts nobody after that, whoever it
/// touches and in whichever order the contact is reported.
pub proof fn lemma_single_hit(zone: Body, target: Body, other: Body, player: Option<Player>)
    requires
        zone.health is None,
        lands(zone, target),
    ensures
        resolved(zone, target, player).first == spent(zone),
        resolved(target, zone, player).second == spent(zone),
        !lands(spent(zone), other),
        resolved(spent(zone), other, player) == (Resolved {
            first: spent(zone),
            second: other,
            player,
            hit: None,
        }),
        resolved(other, spent(zone), player) == (Resolved {
            first: other,
            second: spent(zone),
            player,
            hit: None,
        }),
{
}

/// A hit on an actor with one health left brings it down: health and mind
/// go, the death timer starts, and the player's score grows by one exactly
/// when the zone came from the player's side.
pub proof fn lemma_death(zone: Body, target: Body, player: Option<Player>)
    requires
        zone.health is None,
        lands(zone, target),
        target.health->0.health == 1,
    ensures
        ({
            let after = resolved(zone, target, player);
            &&& after.second.health is None
            &&& after.second.ai is None
            &&& after.second.dying == Some(death_timer())
            &&& after.first == spent(zone)
            &&& after.hit matches Some(hit)
            &&& hit.killed
            &&& hit.scored == (zone.damage->0.source_owner == 0)
            &&& after.player == credited(player, zone.damage->0.source_owner == 0)
        }),
{
}

/// Nothing hurts an actor that has fallen: a further contact takes no
/// health, adds no score and spends no zone.
pub proof fn lemma_fallen_is_spared(zone: Body, target: Body, later: Body, player: Option<Player>)
    requires
        zone.health is None,
        later.health is None,
        lands(zone, target),
        target.health->0.health == 1,
    ensures
        ({
            let after = resolved(zone, target, player);
            &&& resolved(later, after.second, after.player) == (Resolved {
                first: later,
                second: after.second,
                player: after.player,
                hit: None,
            })
            &&& resolved(after.second, later, after.player) == (Resolved {
                first: after.second,
                second: later,
                player: after.player,
                hit: None,
            })
        }),
{
}

/// When two zones of one kind touch an actor with one health left in the
/// same tick, the order of the two contacts does not matter to the actor
/// or to the score: it falls once and is counted once.
pub proof fn lemma_death_order_independent(
    zone_a: Body,
    zone_b: Body,
    target: Body,
    player: Option<Player>,
)
    requires
        zone_a.health is None,
        zone_b.health is None,
        zone_a.damage == zone_b.damage,
        lands(zone_a, target),
        target.health->0.health == 1,
    ensures
        ({
            let a_first = resolved(zone_a, target, player);
            let a_then_b = resolved(zone_b, a_first.second, a_first.player);
            let b_first = resolved(zone_b, target, player);
            let b_then_a = resolved(zone_a, b_first.second, b_first.player);
            &&& a_then_b.second == b_then_a.second
            &&& a_then_b.player == b_then_a.player
            &&& a_then_b.player == credited(player, zone_a.damage->0.source_owner == 0)
        }),
{
}

/// The place among the bodies of the party that dealt `hit` in `contact`.
pub open spec fn source_index(contact: Contact, hit: Hit) -> usize {
    match hit.target {
        Side::First => contact.second,
        Side::Second => contact.first,
    }
}

/// The place among the bodies of the party that took `hit` in `contact`.
pub open spec fn target_index(contact: Contact, hit: Hit) -> usize {
    match hit.target {
        Side::First => contact.first,
        Side::Second => contact.second,
    }
}

/// A sweep keeps the number of bodies, tells of every contact, and neither
/// makes nor loses a player.
pub proof fn lemma_swept_shape(bodies: Seq<Body>, player: Option<Player>, contacts: Seq<Contact>)
    ensures
        swept(bodies, player, contacts).bodies.len() == bodies.len(),
        swept(bodies, player, contacts).hits.len() == contacts.len(),
        swept(bodies, player, contacts).player is Some <==> player is Some,
    decreases contacts.len(),
{
    if contacts.len() > 0 {
        lemma_swept_shape(bodies, player, contacts.drop_last());
    }
}

/// Resolving the contacts of a tick comes to the same as resolving the
/// first `k` of them and then the rest.
pub proof fn lemma_swept_split(
    bodies: Seq<Body>,
    player: Option<Player>,
    contacts: Seq<Contact>,
    k: int,
)
    requires
        0 <= k <= contacts.len(),
    ensures
        ({
            let head = swept(bodies, player, contacts.take(k));
            let tail = swept(head.bodies, head.player, contacts.skip(k));
            let all = swept(bodies, player, contacts);
            &&& all.bodies == tail.bodies
            &&& all.player == tail.player
            &&& all.hits == head.hits + tail.hits
        }),
    decreases contacts.len(),
{
    let head = swept(bodies, player, contacts.take(k));
    if k == contacts.len() {
        assert(contacts.take(k) == contacts);
        assert(contacts.skip(k) == Seq::<Contact>::empty());
        assert(head.hits + Seq::<Option<Hit>>::empty() == head.hits);
    } else {
        let shorter = contacts.drop_last();
        lemma_swept_split(bodies, player, shorter, k);
        assert(shorter.take(k) == contacts.take(k));
        assert(contacts.skip(k).drop_last() == shorter.skip(k));
        assert(contacts.skip(k).last() == contacts.last());
        let tail_before = swept(head.bodies, head.player, shorter.skip(k));
        let all_before = swept(bodies, player, shorter);
        let tail = swept(head.bodies, head.player, contacts.skip(k));
        let all = swept(bodies, player, contacts);
        assert(all.hits == all_before.hits.push(all.hits.last()));
        assert(tail.hits == tail_before.hits.push(tail.hits.last()));
        assert(all.hits.last() == tail.hits.last());
        assert(all.hits == head.hits + tail.hits);
    }
}

/// A body without the power to hurt gains none in a sweep and deals no hit
/// in it.
pub proof fn lemma_spent_stays_spent(
    bodies: Seq<Body>,
    player: Option<Player>,
    contacts: Seq<Contact>,
    zone: int,
)
    requires
        0 <= zone < bodies.len(),
        bodies[zone].damage is None,
    ensures
        ({
            let after = swept(bodies, player, contacts);
            &&& after.bodies[zone].damage is None
            &&& forall|k: int|
                0 <= k < contacts.len() ==> ((#[trigger] after.hits[k]) matches Some(hit)
                    ==> source_index(contacts[k], hit) != zone)
        }),
    decreases contacts.len(),
{
    lemma_swept_shape(bodies, player, contacts);
    if contacts.len() > 0 {
        let shorter = contacts.drop_last();
        lemma_spent_stays_spent(bodies, player, shorter, zone);
        lemma_swept_shape(bodies, player, shorter);
        let before = swept(bodies, player, shorter);
        let after = swept(bodies, player, contacts);
        assert forall|k: int| 0 <= k < contacts.len() implies ((#[trigger] after.hits[k]) matches Some(
            hit,
        ) ==> source_index(contacts[k], hit) != zone) by {
            if k < contacts.len() - 1 {
                assert(after.hits[k] == before.hits[k]);
                assert(contacts[k] == shorter[k]);
            }
        }
    }
}

/// A body without health gains none in a sweep and takes no hit in it.
pub proof fn lemma_fallen_stays_fallen(
    bodies: Seq<Body>,
    player: Option<Player>,
    contacts: Seq<Contact>,
    fallen: int,
)
    requires
        0 <= fallen < bodies.len(),
        bodies[fallen].health is None,
    ensures
        ({
            let after = swept(bodies, player, contacts);
            &&& after.bodies[fallen].health is None
            &&& forall|k: int|
                0 <= k < contacts.len() ==> ((#[trigger] after.hits[k]) matches Some(hit)
                    ==> target_index(contacts[k], hit) != fallen)
        }),
    decreases contacts.len(),
{
    lemma_swept_shape(bodies, player, contacts);
    if contacts.len() > 0 {
        let shorter = contacts.drop_last();
        lemma_fallen_stays_fallen(bodies, player, shorter, fallen);
        lemma_swept_shape(bodies, player, shorter);
        let before = swept(bodies, player, shorter);
        let after = swept(bodies, player, contacts);
        assert forall|k: int| 0 <= k < contacts.len() implies ((#[trigger] after.hits[k]) matches Some(
            hit,
        ) ==> target_index(contacts[k], hit) != fallen) by {
            if k < contacts.len() - 1 {
                assert(after.hits[k] == before.hits[k]);
                assert(contacts[k] == shorter[k]);
            }
        }
    }
}

/// What the contact at place `k` of a sweep came to, and what it left of
/// the two bodies it lay between.
pub proof fn lemma_swept_at(bodies: Seq<Body>, player: Option<Player>, contacts: Seq<Contact>, k: int)
    requires
        0 <= k < contacts.len(),
    ensures
        ({
            let before = swept(bodies, player, contacts.take(k));
            let after = swept(bodies, player, contacts.take(k + 1));
            let contact = contacts[k];
            &&& swept(bodies, player, contacts).hits[k] == after.hits[k]
            &&& after.hits[k] is Some ==> meets(before.bodies, contact)
            &&& after.hits[k] matches Some(hit) ==> after.bodies[source_index(contact, hit) as int]
                == spent(before.bodies[source_index(contact, hit) as int])
                && after.bodies[target_index(contact, hit) as int]
                == struck(before.bodies[target_index(contact, hit) as int])
                && lands(
                before.bodies[source_index(contact, hit) as int],
                before.bodies[target_index(contact, hit) as int],
            )
        }),
{
    let upto = contacts.take(k + 1);
    assert(upto.drop_last() == contacts.take(k));
    assert(upto.last() == contacts[k]);
    lemma_swept_shape(bodies, player, contacts.take(k));
    lemma_swept_shape(bodies, player, upto);
    lemma_swept_split(bodies, player, contacts, k + 1);
}

/// A zone lands at most one hit in a tick: after the contact in which it
/// hurt a body, no later contact of the tick has it hurt another.
pub proof fn lemma_zone_hits_once(
    bodies: Seq<Body>,
    player: Option<Player>,
    contacts: Seq<Contact>,
    k: int,
    j: int,
)
    requires
        0 <= k < j < contacts.len(),
        swept(bodies, player, contacts).hits[k] is Some,
        swept(bodies, player, contacts).hits[j] is Some,
    ensures
        source_index(contacts[j], swept(bodies, player, contacts).hits[j]->0) != source_index(
            contacts[k],
            swept(bodies, player, contacts).hits[k]->0,
        ),
{
    let all = swept(bodies, player, contacts);
    let head = swept(bodies, player, contacts.take(k + 1));
    let rest = contacts.skip(k + 1);
    let zone = source_index(contacts[k], all.hits[k]->0) as int;
    lemma_swept_at(bodies, player, contacts, k);
    lemma_swept_shape(bodies, player, contacts.take(k));
    lemma_swept_shape(bodies, player, contacts.take(k + 1));
    lemma_swept_split(bodies, player, contacts, k + 1);
    lemma_spent_stays_spent(head.bodies, head.player, rest, zone);
    let tail = swept(head.bodies, head.player, rest);
    lemma_swept_shape(head.bodies, head.player, rest);
    assert(all.hits[j] == tail.hits[j - (k + 1)]);
    assert(rest[j - (k + 1)] == contacts[j]);
}

/// An actor falls at most once in a tick, and nothing hurts it after that:
/// after the contact that brought a body down, no later contact of the tick
/// hits it, so it is neither hurt below zero nor counted twice.
pub proof fn lemma_falls_once(
    bodies: Seq<Body>,
    player: Option<Player>,
    contacts: Seq<Contact>,
    k: int,
    j: int,
)
    requires
        0 <= k < j < contacts.len(),
        swept(bodies, player, contacts).hits[k] matches Some(hit) && hit.killed,
        swept(bodies, player, contacts).hits[j] is Some,
    ensures
        target_index(contacts[j], swept(bodies, player, contacts).hits[j]->0) != target_index(
            contacts[k],
            swept(bodies, player, contacts).hits[k]->0,
        ),
{
    let all = swept(bodies, player, contacts);
    let head = swept(bodies, player, contacts.take(k + 1));
    let rest = contacts.skip(k + 1);
    let fallen = target_index(contacts[k], all.hits[k]->0) as int;
    lemma_swept_at(bodies, player, contacts, k);
    lemma_swept_shape(bodies, player, contacts.take(k));
    lemma_swept_shape(bodies, player, contacts.take(k + 1));
    lemma_swept_split(bodies, player, contacts, k + 1);
    lemma_fallen_stays_fallen(head.bodies, head.player, rest, fallen);
    let tail = swept(head.bodies, head.player, rest);
    lemma_swept_shape(head.bodies, head.player, rest);
    assert(all.hits[j] == tail.hits[j - (k + 1)]);
    assert(rest[j - (k + 1)] == contacts[j]);
}

/// The points of two runs of hits add up.
pub proof fn lemma_points_add(first: Seq<Option<Hit>>, second: Seq<Option<Hit>>)
    ensures
        points(first + second) == points(first) + points(second),
    decreases second.len(),
{
    if second.len() == 0 {
        assert(first + second == first);
    } else {
        lemma_points_add(first, second.drop_last());
        assert((first + second).drop_last() == first + second.drop_last());
        assert((first + second).last() == second.last());
    }
}

/// What becomes of the bodies in a sweep, and which hits land, does not
/// depend on the player or the score.
pub proof fn lemma_hits_ignore_player(
    bodies: Seq<Body>,
    player: Option<Player>,
    other: Option<Player>,
    contacts: Seq<Contact>,
)
    ensures
        swept(bodies, player, contacts).bodies == swept(bodies, other, contacts).bodies,
        swept(bodies, player, contacts).hits == swept(bodies, other, contacts).hits,
        points(swept(bodies, player, contacts).hits) == at_stake(bodies, contacts),
    decreases contacts.len(),
{
    if contacts.len() > 0 {
        lemma_hits_ignore_player(bodies, player, other, contacts.drop_last());
    }
    if contacts.len() > 0 {
        lemma_hits_ignore_player(bodies, player, None, contacts.drop_last());
    }
}

/// No first part of a tick's contacts adds more points than the whole tick.
pub proof fn lemma_points_of_prefixes(
    bodies: Seq<Body>,
    player: Option<Player>,
    contacts: Seq<Contact>,
)
    ensures
        forall|k: int|
            0 <= k <= contacts.len() ==> points(
                #[trigger] swept(bodies, player, contacts.take(k)).hits,
            ) <= at_stake(bodies, contacts),
{
    assert forall|k: int| 0 <= k <= contacts.len() implies points(
        #[trigger] swept(bodies, player, contacts.take(k)).hits,
    ) <= at_stake(bodies, contacts) by {
        let head = swept(bodies, player, contacts.take(k));
        let tail = swept(head.bodies, head.player, contacts.skip(k));
        lemma_swept_split(bodies, player, contacts, k);
        lemma_points_add(head.hits, tail.hits);
        lemma_hits_ignore_player(bodies, player, None, contacts);
    }
}

/// The score after a sweep is the score before it and the points at stake.
pub proof fn lemma_swept_score(bodies: Seq<Body>, player: Player, contacts: Seq<Contact>)
    requires
        player.score + at_stake(bodies, contacts) <= u32::MAX,
    ensures
        swept(bodies, Some(player), contacts).player == Some(
            Player { score: (player.score + at_stake(bodies, contacts)) as u32, ..player },
        ),
    decreases contacts.len(),
{
    lemma_hits_ignore_player(bodies, Some(player), None, contacts);
    if contacts.len() > 0 {
        let shorter = contacts.drop_last();
        lemma_hits_ignore_player(bodies, Some(player), None, shorter);
        assert(swept(bodies, Some(player), contacts).hits.drop_last() == swept(
            bodies,
            Some(player),
            shorter,
        ).hits);
        lemma_swept_score(bodies, player, shorter);
    }
}

/// A sweep leaves valid bodies valid and gives no body more health than it
/// had.
pub proof fn lemma_swept_keeps_valid(
    bodies: Seq<Body>,
    player: Option<Player>,
    contacts: Seq<Contact>,
)
    ensures
        swept(bodies, player, contacts).bodies.len() == bodies.len(),
        forall|i: int|
            0 <= i < bodies.len() ==> ((#[trigger] bodies[i]).wf() ==> swept(
                bodies,
                player,
                contacts,
            ).bodies[i].wf()),
        forall|i: int|
            0 <= i < bodies.len() ==> vigour(
                #[trigger] swept(bodies, player, contacts).bodies[i],
            ) <= vigour(bodies[i]),
    decreases contacts.len(),
{
    if contacts.len() > 0 {
        lemma_swept_keeps_valid(bodies, player, contacts.drop_last());
        let before = swept(bodies, player, contacts.drop_last());
        let after = swept(bodies, player, contacts);
        assert forall|i: int| 0 <= i < bodies.len() implies ((#[trigger] bodies[i]).wf()
            ==> after.bodies[i].wf()) by {
            if bodies[i].wf() {
                assert(before.bodies[i].wf());
            }
        }
        assert forall|i: int| 0 <= i < bodies.len() implies vigour(#[trigger] after.bodies[i])
            <= vigour(bodies[i]) by {
            assert(vigour(before.bodies[i]) <= vigour(bodies[i]));
        }
    }
}

/// Whether `contact` lies between the bodies at `zone` and `target`, in
/// either order of report.
pub open spec fn between(bodies: Seq<Body>, contact: Contact, zone: int, target: int) -> bool {
    &&& 0 <= zone < bodies.len()
    &&& 0 <= target < bodies.len()
    &&& zone != target
    &&& (contact.first == zone && contact.second == target) || (contact.first == target
        && contact.second == zone)
}

/// A tick of one contact comes to what that contact comes to.
pub proof fn lemma_sweep_of_one(bodies: Seq<Body>, player: Option<Player>, contact: Contact)
    ensures
        meets(bodies, contact) ==> swept(bodies, player, seq![contact]) == ({
            let now = resolved(
                bodies[contact.first as int],
                bodies[contact.second as int],
                player,
            );
            Swept {
                bodies: bodies.update(contact.first as int, now.first).update(
                    contact.second as int,
                    now.second,
                ),
                player: now.player,
                hits: seq![now.hit],
            }
        }),
        !meets(bodies, contact) ==> swept(bodies, player, seq![contact]) == (Swept {
            bodies,
            player,
            hits: seq![None],
        }),
        at_stake(bodies, seq![contact]) == if meets(bodies, contact) && scores(
            bodies[contact.first as int],
            bodies[contact.second as int],
        ) {
            1nat
        } else {
            0nat
        },
{
    let one = seq![contact];
    assert(one.drop_last() == Seq::<Contact>::empty());
    assert(one.last() == contact);
    assert(swept(bodies, player, one.drop_last()) == (Swept {
        bodies,
        player,
        hits: Seq::empty(),
    }));
    assert(swept(bodies, None, one.drop_last()) == (Swept {
        bodies,
        player: None,
        hits: Seq::empty(),
    }));
    let hits = swept(bodies, None, one).hits;
    assert(Seq::<Option<Hit>>::empty().push(hits.last()) == seq![hits.last()]);
    assert(hits.drop_last() == Seq::<Option<Hit>>::empty());
    assert(points(hits.drop_last()) == 0);
    let told = swept(bodies, player, one).hits;
    assert(told == seq![told.last()]);
}

/// A contact with a zone meant for the other side changes nothing in a
/// tick, in whichever order it is reported: health, mind, zone and score are
/// as before, and no point is at stake.
pub proof fn lemma_friendly_fire_is_ignored(
    bodies: Seq<Body>,
    player: Option<Player>,
    contact: Contact,
    zone: int,
    target: int,
)
    requires
        between(bodies, contact, zone, target),
        bodies[zone].health is None,
        bodies[zone].damage is Some,
        bodies[target].health is Some,
        bodies[zone].damage->0.target_owner != bodies[target].health->0.owner,
    ensures
        swept(bodies, player, seq![contact]) == (Swept { bodies, player, hits: seq![None] }),
        at_stake(bodies, seq![contact]) == 0,
{
    lemma_sweep_of_one(bodies, player, contact);
    assert(bodies.update(contact.first as int, bodies[contact.first as int]).update(
        contact.second as int,
        bodies[contact.second as int],
    ) == bodies);
}

/// A zone that has landed its hit changes nothing in a later tick, whoever
/// it touches there and in whichever order the contact is reported.
pub proof fn lemma_spent_zone_is_ignored(
    bodies: Seq<Body>,
    player: Option<Player>,
    contact: Contact,
    zone: int,
    target: int,
)
    requires
        between(bodies, contact, zone, target),
        bodies[zone].health is None,
        bodies[zone].damage is None,
    ensures
        swept(bodies, player, seq![contact]) == (Swept { bodies, player, hits: seq![None] }),
        at_stake(bodies, seq![contact]) == 0,
{
    lemma_sweep_of_one(bodies, player, contact);
    assert(bodies.update(contact.first as int, bodies[contact.first as int]).update(
        contact.second as int,
        bodies[contact.second as int],
    ) == bodies);
}

/// A hit on the last health in a tick: the body stays among the bodies
/// without health and mind and with a fresh death timer, the zone is spent,
/// every other body is as before, the score grows by one exactly for a zone
/// of the player's side, and the cue of the player's fall goes with a target
/// of the player's side.
pub proof fn lemma_last_health_in_sweep(
    bodies: Seq<Body>,
    player: Option<Player>,
    contact: Contact,
    zone: int,
    target: int,
)
    requires
        between(bodies, contact, zone, target),
        bodies[zone].health is None,
        bodies[zone].damage is Some,
        bodies[target].health is Some,
        bodies[target].health->0.health == 1,
        bodies[zone].damage->0.target_owner == bodies[target].health->0.owner,
    ensures
        ({
            let after = swept(bodies, player, seq![contact]);
            let damage = bodies[zone].damage->0;
            &&& after.bodies.len() == bodies.len()
            &&& after.bodies[target] == (Body {
                health: None,
                ai: None,
                dying: Some(death_timer()),
                ..bodies[target]
            })
            &&& after.bodies[zone] == (Body { damage: None, ..bodies[zone] })
            &&& forall|i: int|
                0 <= i < bodies.len() && i != zone && i != target ==> #[trigger] after.bodies[i]
                    == bodies[i]
            &&& after.hits == seq![
                Some(
                    Hit {
                        target: if contact.first == target {
                            Side::First
                        } else {
                            Side::Second
                        },
                        knockback: KNOCKBACK,
                        killed: true,
                        scored: damage.source_owner == 0,
                        sfx: if damage.target_owner == 0 {
                            Some(SoundCue::PlayerDamaged)
                        } else {
                            None
                        },
                        fallen: match bodies[target].ai {
                            Some(ai) => Some(ai.form),
                            None => None,
                        },
                    },
                ),
            ]
            &&& after.player == credited(player, damage.source_owner == 0)
            &&& at_stake(bodies, seq![contact]) == if damage.source_owner == 0 {
                1nat
            } else {
                0nat
            }
        }),
{
    lemma_sweep_of_one(bodies, player, contact);
}

} // verus!
