use std::collections::HashMap;

use vstd::prelude::*;
use vstd::string::StringSliceAdditionalSpecFns;

use crate::ecs::entities::EntityKind;

verus! {

/// Collision group of the boundaries of the field (bit of group 1).
pub const BOUNDARY: u32 = 1;
/// Collision group of the wall that keeps Space players in their half.
pub const SPACE_WALL: u32 = 2;
/// Collision group of the wall that keeps Time players in their half.
pub const TIME_WALL: u32 = 4;
/// Collision group of Space players.
pub const SPACE_PLAYER: u32 = 8;
/// Collision group of Time players.
pub const TIME_PLAYER: u32 = 16;
/// Collision group of balls.
pub const BALL: u32 = 32;

/// Whom a ball may touch.
#[derive(PartialEq, Eq, Structural, Clone, Copy, Debug)]
pub enum BallCollisionGroup {
    /// Everything: a free ball.
    Full,
    /// The field, balls and Space players: a ball thrown by the Time team.
    OnlySpace,
    /// The field, balls and Time players: a ball thrown by the Space team.
    OnlyTime,
    /// Only the field: a ball held by a player.
    Empty,
}

/// What one side of a contact reported by the simulation is.
#[derive(PartialEq, Eq, Structural, Clone, Copy, Debug)]
pub enum ContactParty {
    Player,
    Ball,
    Wall,
    Floor,
}

/// What a contact means to the game; `first` tells which side of the
/// contact is the player (or, for a ball against the field, the ball).
#[derive(PartialEq, Eq, Structural, Clone, Copy, Debug)]
pub enum CollisionType {
    PlayerBall { first: bool },
    PlayerWall { first: bool },
    BallWall { first: bool },
    Ignore,
}

/// Two collision filters of the simulation touch when each one's
/// memberships meet the other's filter.
pub open spec fn interacts(memberships1: u32, filter1: u32, memberships2: u32, filter2: u32) -> bool {
    (memberships1 & filter2) != 0 && (memberships2 & filter1) != 0
}

pub open spec fn spec_ball_filter(group: BallCollisionGroup) -> u32 {
    match group {
        BallCollisionGroup::Full => BOUNDARY | BALL | SPACE_PLAYER | TIME_PLAYER,
        BallCollisionGroup::OnlySpace => BOUNDARY | BALL | SPACE_PLAYER,
        BallCollisionGroup::OnlyTime => BOUNDARY | BALL | TIME_PLAYER,
        BallCollisionGroup::Empty => BOUNDARY,
    }
}

pub open spec fn spec_player_groups(kind: EntityKind) -> Option<(u32, u32)> {
    match kind {
        EntityKind::SpacePlayer => Some(
            (SPACE_PLAYER, BOUNDARY | BALL | SPACE_WALL | SPACE_PLAYER | TIME_PLAYER),
        ),
        EntityKind::TimePlayer => Some(
            (TIME_PLAYER, BOUNDARY | BALL | TIME_WALL | SPACE_PLAYER | TIME_PLAYER),
        ),
        EntityKind::Ball => None,
    }
}

pub open spec fn spec_throw_group(kind: EntityKind) -> BallCollisionGroup {
    if kind is SpacePlayer {
        BallCollisionGroup::OnlyTime
    } else {
        BallCollisionGroup::OnlySpace
    }
}

pub open spec fn spec_collision_type(a: ContactParty, b: ContactParty) -> CollisionType {
    match (a, b) {
        (ContactParty::Player, ContactParty::Wall) => CollisionType::PlayerWall { first: true },
        (ContactParty::Wall, ContactParty::Player) => CollisionType::PlayerWall { first: false },
        (ContactParty::Player, ContactParty::Ball) => CollisionType::PlayerBall { first: true },
        (ContactParty::Ball, ContactParty::Player) => CollisionType::PlayerBall { first: false },
        (ContactParty::Ball, ContactParty::Wall) => CollisionType::BallWall { first: true },
        (ContactParty::Ball, ContactParty::Floor) => CollisionType::BallWall { first: true },
        (ContactParty::Wall, ContactParty::Ball) => CollisionType::BallWall { first: false },
        (ContactParty::Floor, ContactParty::Ball) => CollisionType::BallWall { first: false },
        _ => CollisionType::Ignore,
    }
}

/// The number made of `bytes` read as digits in base 256, first byte first.
pub open spec fn bytes_value(bytes: Seq<u8>) -> nat
    decreases bytes.len(),
{
    if bytes.len() == 0 {
        0
    } else {
        bytes_value(bytes.drop_last()) * 256 + bytes.last() as nat
    }
}

pub open spec fn pow256(n: nat) -> nat
    decreases n,
{
    if n == 0 {
        1
    } else {
        256 * pow256((n - 1) as nat)
    }
}

/// The key of a name in the simulation: its bytes read as a number, or 0
/// for a name longer than 16 bytes.
pub open spec fn spec_identifier(bytes: Seq<u8>) -> u128 {
    if bytes.len() > 16 {
        0
    } else {
        bytes_value(bytes) as u128
    }
}

/// A name of `n` bytes reads as a number below `256^n`.
pub proof fn lemma_bytes_value_bound(bytes: Seq<u8>)
    ensures
        bytes_value(bytes) < pow256(bytes.len()),
    decreases bytes.len(),
{
    if bytes.len() > 0 {
        lemma_bytes_value_bound(bytes.drop_last());
        let x = bytes_value(bytes.drop_last());
        let p = pow256((bytes.len() - 1) as nat);
        assert(x * 256 + bytes.last() < p * 256) by (nonlinear_arith)
            requires
                x < p,
                bytes.last() < 256,
        ;
    }
}

proof fn lemma_pow256_16()
    ensures
        pow256(16) == 0x1_0000_0000_0000_0000_0000_0000_0000_0000,
        pow256(15) == 0x100_0000_0000_0000_0000_0000_0000_0000,
{
    reveal_with_fuel(pow256, 17);
}

proof fn lemma_pow256_monotone(m: nat, n: nat)
    requires
        m <= n,
    ensures
        pow256(m) <= pow256(n),
    decreases n,
{
    if m < n {
        lemma_pow256_monotone(m, (n - 1) as nat);
    }
}

/// The key of a movable's name in the simulation.
pub fn get_identifier(name: &str) -> (identifier: u128)
    ensures
        identifier == spec_identifier(name.spec_bytes()),
{
    let bytes = name.as_bytes();
    if bytes.len() > 16 {
        0
    } else {
        let mut result: u128 = 0;
        let mut i: usize = 0;
        while i < bytes.len()
            invariant
                0 <= i <= bytes@.len() <= 16,
                bytes@ == name.spec_bytes(),
                result == bytes_value(bytes@.take(i as int)),
            decreases bytes@.len() - i,
        {
            let b = bytes[i];
            proof {
                let prefix = bytes@.take(i as int);
                lemma_bytes_value_bound(prefix);
                lemma_pow256_monotone(i as nat, 15);
                lemma_pow256_16();
                assert(bytes@.take(i + 1).drop_last() =~= prefix);
                assert(result < 0x100_0000_0000_0000_0000_0000_0000_0000);
                assert((result << 8u128) | (b as u128) == result * 256 + b) by (bit_vector)
                    requires
                        result < 0x100_0000_0000_0000_0000_0000_0000_0000,
                ;
            }
            result = (result << 8u128) | (b as u128);
            i += 1;
        }
        assert(bytes@.take(i as int) =~= bytes@);
        result
    }
}

/// The collision filter of a ball in `group`.
pub fn ball_collision_filter(group: BallCollisionGroup) -> (filter: u32)
    ensures
        filter == spec_ball_filter(group),
{
    match group {
        BallCollisionGroup::Full => BOUNDARY | BALL | SPACE_PLAYER | TIME_PLAYER,
        BallCollisionGroup::OnlySpace => BOUNDARY | BALL | SPACE_PLAYER,
        BallCollisionGroup::OnlyTime => BOUNDARY | BALL | TIME_PLAYER,
        BallCollisionGroup::Empty => BOUNDARY,
    }
}

/// Whether a ball collider with `filter` is in `group`.
pub fn ball_is_in_collision_group(filter: u32, group: BallCollisionGroup) -> (r: bool)
    ensures
        r == (filter == spec_ball_filter(group)),
{
    filter == ball_collision_filter(group)
}

/// The memberships and filter of a player's collider: players touch the
/// field, balls, players and the wall of their own half. A ball has none.
pub fn player_collision_groups(kind: EntityKind) -> (groups: Option<(u32, u32)>)
    ensures
        groups == spec_player_groups(kind),
{
    match kind {
        EntityKind::SpacePlayer => Some(
            (SPACE_PLAYER, BOUNDARY | BALL | SPACE_WALL | SPACE_PLAYER | TIME_PLAYER),
        ),
        EntityKind::TimePlayer => Some(
            (TIME_PLAYER, BOUNDARY | BALL | TIME_WALL | SPACE_PLAYER | TIME_PLAYER),
        ),
        EntityKind::Ball => None,
    }
}

/// A thrown ball touches only the other team.
pub fn throw_collision_group(kind: EntityKind) -> (group: BallCollisionGroup)
    ensures
        group == spec_throw_group(kind),
{
    if kind == EntityKind::SpacePlayer {
        BallCollisionGroup::OnlyTime
    } else {
        BallCollisionGroup::OnlySpace
    }
}

/// What a side of a contact is: a collider under the floor level is the
/// floor; a collider keyed by a known movable is that player or ball;
/// anything else (unknown, unkeyed, gone) is a wall.
pub fn reference_party(
    collider_found: bool,
    below_floor: bool,
    user_data: u128,
    kind: Option<EntityKind>,
) -> (party: ContactParty)
    ensures
        party == (if !collider_found {
            ContactParty::Wall
        } else if below_floor {
            ContactParty::Floor
        } else if user_data != 0 && kind is Some {
            if kind->0 is Ball {
                ContactParty::Ball
            } else {
                ContactParty::Player
            }
        } else {
            ContactParty::Wall
        }),
{
    if collider_found {
        if below_floor {
            return ContactParty::Floor;
        }
        if user_data != 0 {
            match kind {
                Some(k) => {
                    if k == EntityKind::Ball {
                        return ContactParty::Ball;
                    } else {
                        return ContactParty::Player;
                    }
                },
                None => {
                    return ContactParty::Wall;
                },
            }
        }
    }
    ContactParty::Wall
}

/// What a contact between `a` and `b` means to the game: a player at a
/// wall, a ball meeting a player, a ball against the field; the rest is
/// ignored.
pub fn detect_collision_type(a: ContactParty, b: ContactParty) -> (t: CollisionType)
    ensures
        t == spec_collision_type(a, b),
{
    match (a, b) {
        (ContactParty::Player, ContactParty::Wall) => CollisionType::PlayerWall { first: true },
        (ContactParty::Wall, ContactParty::Player) => CollisionType::PlayerWall { first: false },
        (ContactParty::Player, ContactParty::Ball) => CollisionType::PlayerBall { first: true },
        (ContactParty::Ball, ContactParty::Player) => CollisionType::PlayerBall { first: false },
        (ContactParty::Ball, ContactParty::Wall) => CollisionType::BallWall { first: true },
        (ContactParty::Ball, ContactParty::Floor) => CollisionType::BallWall { first: true },
        (ContactParty::Wall, ContactParty::Ball) => CollisionType::BallWall { first: false },
        (ContactParty::Floor, ContactParty::Ball) => CollisionType::BallWall { first: false },
        _ => CollisionType::Ignore,
    }
}

/// Of the two ends of a joint, the one that is not `name`.
pub fn other_joint_end(name: &str, name1: String, name2: String) -> (other: String)
    ensures
        other@ == (if name1@ == name@ { name2@ } else { name1@ }),
{
    if str_eq_string(&name1, name) {
        name2
    } else {
        name1
    }
}

fn str_eq_string(a: &String, b: &str) -> (r: bool)
    ensures
        r == (a@ == b@),
{
    crate::str_eq(a.as_str(), b)
}

proof fn lemma_bytes_value_lower_bound(bytes: Seq<u8>)
    requires
        bytes.len() > 0,
        forall|i: int| 0 <= i < bytes.len() ==> bytes[i] != 0,
    ensures
        bytes_value(bytes) >= pow256((bytes.len() - 1) as nat),
    decreases bytes.len(),
{
    if bytes.len() > 1 {
        let prefix = bytes.drop_last();
        lemma_bytes_value_lower_bound(prefix);
        let x = bytes_value(prefix);
        let p = pow256((prefix.len() - 1) as nat);
        assert(x * 256 >= p * 256) by (nonlinear_arith)
            requires
                x >= p,
        ;
    }
}

/// Names of at most 16 bytes, none of them zero, get keys of their own:
/// two such names with the same key are the same name.
pub proof fn lemma_identifier_injective(a: Seq<u8>, b: Seq<u8>)
    requires
        a.len() <= 16,
        b.len() <= 16,
        forall|i: int| 0 <= i < a.len() ==> a[i] != 0,
        forall|i: int| 0 <= i < b.len() ==> b[i] != 0,
        spec_identifier(a) == spec_identifier(b),
    ensures
        a == b,
    decreases a.len(),
{
    lemma_bytes_value_bound(a);
    lemma_bytes_value_bound(b);
    lemma_pow256_16();
    lemma_pow256_monotone(a.len(), 16);
    lemma_pow256_monotone(b.len(), 16);
    assert(bytes_value(a) == bytes_value(b));
    if a.len() < b.len() {
        lemma_bytes_value_lower_bound(b);
        lemma_pow256_monotone(a.len(), (b.len() - 1) as nat);
        assert(false);
    } else if b.len() < a.len() {
        lemma_bytes_value_lower_bound(a);
        lemma_pow256_monotone(b.len(), (a.len() - 1) as nat);
        assert(false);
    } else if a.len() > 0 {
        let xa = bytes_value(a.drop_last());
        let xb = bytes_value(b.drop_last());
        let la = a.last() as int;
        let lb = b.last() as int;
        assert(xa == xb && la == lb) by (nonlinear_arith)
            requires
                xa * 256 + la == xb * 256 + lb,
                0 <= la < 256,
                0 <= lb < 256,
                xa >= 0,
                xb >= 0,
        ;
        lemma_bytes_value_bound(a.drop_last());
        lemma_bytes_value_bound(b.drop_last());
        lemma_pow256_monotone(a.drop_last().len(), 16);
        lemma_pow256_monotone(b.drop_last().len(), 16);
        lemma_identifier_injective(a.drop_last(), b.drop_last());
        assert(a =~= a.drop_last().push(a.last()));
        assert(b =~= b.drop_last().push(b.last()));
    } else {
        assert(a =~= b);
    }
}

/// A thrown ball touches the players of the other team and never those of
/// the thrower's own team; a ball held in hand touches no player; a free
/// ball touches both teams.
pub proof fn lemma_ball_groups_decide_whom_a_ball_touches()
    ensures
        interacts(BALL, spec_ball_filter(spec_throw_group(EntityKind::SpacePlayer)), TIME_PLAYER,
            spec_player_groups(EntityKind::TimePlayer).unwrap().1),
        !interacts(BALL, spec_ball_filter(spec_throw_group(EntityKind::SpacePlayer)), SPACE_PLAYER,
            spec_player_groups(EntityKind::SpacePlayer).unwrap().1),
        interacts(BALL, spec_ball_filter(spec_throw_group(EntityKind::TimePlayer)), SPACE_PLAYER,
            spec_player_groups(EntityKind::SpacePlayer).unwrap().1),
        !interacts(BALL, spec_ball_filter(spec_throw_group(EntityKind::TimePlayer)), TIME_PLAYER,
            spec_player_groups(EntityKind::TimePlayer).unwrap().1),
        !interacts(BALL, spec_ball_filter(BallCollisionGroup::Empty), SPACE_PLAYER,
            spec_player_groups(EntityKind::SpacePlayer).unwrap().1),
        !interacts(BALL, spec_ball_filter(BallCollisionGroup::Empty), TIME_PLAYER,
            spec_player_groups(EntityKind::TimePlayer).unwrap().1),
        interacts(BALL, spec_ball_filter(BallCollisionGroup::Full), SPACE_PLAYER,
            spec_player_groups(EntityKind::SpacePlayer).unwrap().1),
        interacts(BALL, spec_ball_filter(BallCollisionGroup::Full), TIME_PLAYER,
            spec_player_groups(EntityKind::TimePlayer).unwrap().1),
{
    assert((32u32 & (1u32 | 32u32 | 4u32 | 8u32 | 16u32)) != 0u32) by (bit_vector);
    assert((32u32 & (1u32 | 32u32 | 2u32 | 8u32 | 16u32)) != 0u32) by (bit_vector);
    assert((16u32 & (1u32 | 32u32 | 16u32)) != 0u32) by (bit_vector);
    assert((8u32 & (1u32 | 32u32 | 16u32)) == 0u32) by (bit_vector);
    assert((8u32 & (1u32 | 32u32 | 8u32)) != 0u32) by (bit_vector);
    assert((16u32 & (1u32 | 32u32 | 8u32)) == 0u32) by (bit_vector);
    assert((8u32 & 1u32) == 0u32) by (bit_vector);
    assert((16u32 & 1u32) == 0u32) by (bit_vector);
    assert((8u32 & (1u32 | 32u32 | 8u32 | 16u32)) != 0u32) by (bit_vector);
    assert((16u32 & (1u32 | 32u32 | 8u32 | 16u32)) != 0u32) by (bit_vector);
}

/// A handle into one of the simulation's arenas (rigid bodies, colliders,
/// joints), as its index and generation.
#[derive(PartialEq, Eq, Structural, Clone, Copy, Debug)]
pub struct ArenaHandle {
    pub index: u32,
    pub generation: u32,
}

/// What the simulation knows of a movable: its body, its collider, its
/// name and kind, the player that threw it (for a ball in flight) and the
/// joint that binds a held ball to a player.
pub struct Reference {
    pub rigid_body_handle: ArenaHandle,
    pub collider_handle: ArenaHandle,
    pub name: String,
    pub partner_name: Option<String>,
    pub kind: EntityKind,
    pub joint: Option<ArenaHandle>,
}

/// The references of all movables in the simulation, keyed by the
/// identifier of their names.
pub struct References {
    map: HashMap<u128, Reference>,
}

impl View for References {
    type V = Map<u128, Reference>;

    closed spec fn view(&self) -> Map<u128, Reference> {
        self.map@
    }
}

pub open spec fn not_found_message(name: Seq<char>) -> Seq<char> {
    "Could not find reference for "@ + name
}

pub open spec fn ball_already_held_message(ball: Seq<char>, player: Seq<char>) -> Seq<char> {
    "Ball "@ + ball + " has already a joint when it collided with player "@ + player
}

pub open spec fn player_already_holding_message(player: Seq<char>, ball: Seq<char>) -> Seq<char> {
    "Player "@ + player + " has already a joint when it collided with ball "@ + ball
}

/// The references after the one under `id` is bound to `joint` (or freed,
/// with `None`); nothing else changes.
pub open spec fn with_joint(
    references: Map<u128, Reference>,
    id: u128,
    joint: Option<ArenaHandle>,
) -> Map<u128, Reference> {
    references.insert(id, Reference { joint, ..references[id] })
}

/// Whether the player called `player` may catch the ball called `ball`:
/// both are known and neither is bound to a joint yet.
pub open spec fn may_catch(references: Map<u128, Reference>, player: Seq<u8>, ball: Seq<u8>) -> bool {
    &&& references.contains_key(spec_identifier(ball))
    &&& references.contains_key(spec_identifier(player))
    &&& references[spec_identifier(ball)].joint is None
    &&& references[spec_identifier(player)].joint is None
}

/// A fresh reference: no partner, no joint.
pub fn create_reference(
    rigid_body_handle: ArenaHandle,
    collider_handle: ArenaHandle,
    name: &String,
    kind: EntityKind,
) -> (reference: Reference)
    ensures
        reference.rigid_body_handle == rigid_body_handle,
        reference.collider_handle == collider_handle,
        reference.name@ == name@,
        reference.partner_name is None,
        reference.kind == kind,
        reference.joint is None,
{
    Reference {
        rigid_body_handle,
        collider_handle,
        name: name.clone(),
        partner_name: None,
        kind,
        joint: None,
    }
}

/// The body at the other end of a joint with ends `body1` and `body2`, seen
/// from the body of `reference`.
pub fn joint_partner_body(reference: &Reference, body1: ArenaHandle, body2: ArenaHandle) -> (other:
    ArenaHandle)
    ensures
        other == (if reference.rigid_body_handle == body1 { body2 } else { body1 }),
{
    if reference.rigid_body_handle == body1 {
        body2
    } else {
        body1
    }
}

impl References {
    /// No movable in the simulation yet.
    pub fn new() -> (r: References)
        ensures
            r@ == Map::<u128, Reference>::empty(),
    {
        broadcast use vstd::std_specs::hash::group_hash_axioms;

        References { map: HashMap::new() }
    }

    /// Stores `reference` under `identifier`, replacing what was there.
    pub fn insert(&mut self, identifier: u128, reference: Reference)
        ensures
            final(self)@ == old(self)@.insert(identifier, reference),
    {
        broadcast use vstd::std_specs::hash::group_hash_axioms;

        self.map.insert(identifier, reference);
    }

    /// Takes the reference under `identifier` out, if there is one.
    pub fn remove(&mut self, identifier: u128) -> (removed: Option<Reference>)
        ensures
            final(self)@ == old(self)@.remove(identifier),
            removed == (if old(self)@.contains_key(identifier) {
                Some(old(self)@[identifier])
            } else {
                None
            }),
    {
        broadcast use vstd::std_specs::hash::group_hash_axioms;

        self.map.remove(&identifier)
    }

    /// The reference under `identifier`; `name` is for the error message.
    pub fn find_reference(&self, identifier: u128, name: &str) -> (r: Result<&Reference, String>)
        ensures
            self@.contains_key(identifier) ==> (r matches Ok(found) && *found == self@[identifier]),
            !self@.contains_key(identifier) ==> (r matches Err(message) && message@
                == not_found_message(name@)),
    {
        broadcast use vstd::std_specs::hash::group_hash_axioms;

        match self.map.get(&identifier) {
            Some(reference) => Ok(reference),
            None => Err(String::from_str("Could not find reference for ").concat(name)),
        }
    }

    /// The reference of the movable called `name`.
    pub fn find_reference_by_name(&self, name: &str) -> (r: Result<&Reference, String>)
        ensures
            ({
                let identifier = spec_identifier(name.spec_bytes());
                &&& self@.contains_key(identifier) ==> (r matches Ok(found) && *found
                    == self@[identifier])
                &&& !self@.contains_key(identifier) ==> (r matches Err(message) && message@
                    == not_found_message(name@))
            }),
    {
        let identifier = get_identifier(name);
        self.find_reference(identifier, name)
    }

    /// Binds the movable called `name` to `joint` (or frees it with `None`).
    pub fn set_joint(&mut self, name: &str, joint: Option<ArenaHandle>) -> (r: Result<(), String>)
        ensures
            ({
                let identifier = spec_identifier(name.spec_bytes());
                &&& old(self)@.contains_key(identifier) ==> r is Ok && final(self)@ == with_joint(
                    old(self)@,
                    identifier,
                    joint,
                )
                &&& !old(self)@.contains_key(identifier) ==> (r matches Err(message) && message@
                    == not_found_message(name@) && final(self)@ == old(self)@)
            }),
    {
        broadcast use vstd::std_specs::hash::group_hash_axioms;

        let identifier = get_identifier(name);
        match self.map.remove(&identifier) {
            Some(mut reference) => {
                reference.joint = joint;
                self.map.insert(identifier, reference);
                assert(self.map@ =~= old(self).map@.insert(
                    identifier,
                    Reference { joint, ..old(self).map@[identifier] },
                ));
                Ok(())
            },
            None => {
                assert(self.map@ =~= old(self).map@);
                Err(String::from_str("Could not find reference for ").concat(name))
            },
        }
    }

    /// Checks that the player called `player_name` may catch the ball
    /// called `ball_name`, and gives the player's kind. The ball is looked
    /// up first, then the player; a ball already bound to a joint is
    /// refused before a player already bound to one.
    pub fn check_catch(&self, player_name: &str, ball_name: &str) -> (r: Result<EntityKind, String>)
        ensures
            ({
                let ball = spec_identifier(ball_name.spec_bytes());
                let player = spec_identifier(player_name.spec_bytes());
                &&& !self@.contains_key(ball) ==> (r matches Err(message) && message@
                    == not_found_message(ball_name@))
                &&& self@.contains_key(ball) && !self@.contains_key(player) ==> (r matches Err(
                    message,
                ) && message@ == not_found_message(player_name@))
                &&& self@.contains_key(ball) && self@.contains_key(player) && self@[ball].joint
                    is Some ==> (r matches Err(message) && message@ == ball_already_held_message(
                    ball_name@,
                    player_name@,
                ))
                &&& self@.contains_key(ball) && self@.contains_key(player) && self@[ball].joint
                    is None && self@[player].joint is Some ==> (r matches Err(message) && message@
                    == player_already_holding_message(player_name@, ball_name@))
                &&& may_catch(self@, player_name.spec_bytes(), ball_name.spec_bytes()) ==> r
                    == Ok::<EntityKind, String>(self@[player].kind)
            }),
    {
        let ball_has_joint = match self.find_reference_by_name(ball_name) {
            Ok(reference) => reference.joint.is_some(),
            Err(message) => {
                return Err(message);
            },
        };
        let (player_has_joint, player_kind) = match self.find_reference_by_name(player_name) {
            Ok(reference) => (reference.joint.is_some(), reference.kind),
            Err(message) => {
                return Err(message);
            },
        };
        if ball_has_joint {
            Err(
                String::from_str("Ball ").concat(ball_name).concat(
                    " has already a joint when it collided with player ",
                ).concat(player_name),
            )
        } else if player_has_joint {
            Err(
                String::from_str("Player ").concat(player_name).concat(
                    " has already a joint when it collided with ball ",
                ).concat(ball_name),
            )
        } else {
            Ok(player_kind)
        }
    }

    /// Binds a caught ball and the player that caught it to one joint: the
    /// ball first, then the player.
    pub fn bind(&mut self, player_name: &str, ball_name: &str, joint: ArenaHandle) -> (r: Result<
        (),
        String,
    >)
        ensures
            ({
                let ball = spec_identifier(ball_name.spec_bytes());
                let player = spec_identifier(player_name.spec_bytes());
                let ball_bound = with_joint(old(self)@, ball, Some(joint));
                &&& !old(self)@.contains_key(ball) ==> (r matches Err(message) && message@
                    == not_found_message(ball_name@) && final(self)@ == old(self)@)
                &&& old(self)@.contains_key(ball) && !old(self)@.contains_key(player) ==> (r matches Err(
                    message,
                ) && message@ == not_found_message(player_name@) && final(self)@ == ball_bound)
                &&& old(self)@.contains_key(ball) && old(self)@.contains_key(player) ==> r is Ok
                    && final(self)@ == with_joint(ball_bound, player, Some(joint))
                &&& r is Ok ==> final(self)@[ball].joint == Some(joint) && final(self)@[player].joint
                    == Some(joint)
            }),
    {
        self.set_joint(ball_name, Some(joint))?;
        self.set_joint(player_name, Some(joint))
    }

    /// Records who threw the ball under `identifier` (or forgets it with
    /// `None`); `name` is for the error message.
    pub fn set_partner_name(&mut self, identifier: u128, name: &str, partner_name: Option<String>) -> (r:
        Result<(), String>)
        ensures
            old(self)@.contains_key(identifier) ==> r is Ok && final(self)@ == old(self)@.insert(
                identifier,
                (Reference { partner_name, ..old(self)@[identifier] }),
            ),
            !old(self)@.contains_key(identifier) ==> (r matches Err(message) && message@
                == not_found_message(name@) && final(self)@ == old(self)@),
    {
        broadcast use vstd::std_specs::hash::group_hash_axioms;

        match self.map.remove(&identifier) {
            Some(mut reference) => {
                reference.partner_name = partner_name;
                self.map.insert(identifier, reference);
                assert(self.map@ =~= old(self).map@.insert(
                    identifier,
                    Reference { partner_name, ..old(self).map@[identifier] },
                ));
                Ok(())
            },
            None => {
                assert(self.map@ =~= old(self).map@);
                Err(String::from_str("Could not find reference for ").concat(name))
            },
        }
    }

    /// Frees the movable under `identifier` from its joint; gives its name
    /// and kind. `name` is for the error message.
    pub fn release_joint(&mut self, identifier: u128, name: &str) -> (r: Result<
        (String, EntityKind),
        String,
    >)
        ensures
            old(self)@.contains_key(identifier) ==> {
                &&& r matches Ok((released, kind))
                &&& released@ == old(self)@[identifier].name@
                &&& kind == old(self)@[identifier].kind
                &&& final(self)@ == with_joint(old(self)@, identifier, None)
            },
            !old(self)@.contains_key(identifier) ==> (r matches Err(message) && message@
                == not_found_message(name@) && final(self)@ == old(self)@),
    {
        broadcast use vstd::std_specs::hash::group_hash_axioms;

        match self.map.remove(&identifier) {
            Some(mut reference) => {
                reference.joint = None;
                let released = reference.name.clone();
                let kind = reference.kind;
                self.map.insert(identifier, reference);
                assert(self.map@ =~= old(self).map@.insert(
                    identifier,
                    Reference { joint: None, ..old(self).map@[identifier] },
                ));
                Ok((released, kind))
            },
            None => {
                assert(self.map@ =~= old(self).map@);
                Err(String::from_str("Could not find reference for ").concat(name))
            },
        }
    }
}

/// A read gives back what the last write stored: after a reference is
/// stored under the identifier of `name`, looking `name` up finds it;
/// after it is taken out, looking it up fails; other names are untouched.
pub proof fn lemma_references_read_back(
    before: Map<u128, Reference>,
    name: Seq<u8>,
    other: Seq<u8>,
    reference: Reference,
)
    requires
        spec_identifier(name) != spec_identifier(other),
    ensures
        before.insert(spec_identifier(name), reference).contains_key(spec_identifier(name)),
        before.insert(spec_identifier(name), reference)[spec_identifier(name)] == reference,
        !before.remove(spec_identifier(name)).contains_key(spec_identifier(name)),
        before.insert(spec_identifier(name), reference).contains_key(spec_identifier(other))
            == before.contains_key(spec_identifier(other)),
        before.remove(spec_identifier(name)).contains_key(spec_identifier(other))
            == before.contains_key(spec_identifier(other)),
        before.contains_key(spec_identifier(other)) ==> before.insert(
            spec_identifier(name),
            reference,
        )[spec_identifier(other)] == before[spec_identifier(other)],
{
}

/// A catch is undone by releasing both ends: when the player may catch the
/// ball, binding them to one joint and then releasing the ball and the
/// player gives back the references as they were; in between, both ends
/// hold that joint.
pub proof fn lemma_release_undoes_bind(
    before: Map<u128, Reference>,
    player: Seq<u8>,
    ball: Seq<u8>,
    joint: ArenaHandle,
)
    requires
        may_catch(before, player, ball),
    ensures
        ({
            let p = spec_identifier(player);
            let b = spec_identifier(ball);
            let bound = with_joint(with_joint(before, b, Some(joint)), p, Some(joint));
            &&& bound[b].joint == Some(joint)
            &&& bound[p].joint == Some(joint)
            &&& with_joint(with_joint(bound, b, None), p, None) == before
        }),
{
    let p = spec_identifier(player);
    let b = spec_identifier(ball);
    let bound = with_joint(with_joint(before, b, Some(joint)), p, Some(joint));
    let released = with_joint(with_joint(bound, b, None), p, None);
    assert forall|k: u128| #[trigger] released.contains_key(k) implies released[k] == before[k] by {
        if k == p || k == b {
            assert(released[k] == Reference { joint: None, ..before[k] });
        }
    }
    assert(released =~= before);
}

/// The same contact seen with its two sides the other way round.
pub open spec fn sides_swapped(t: CollisionType) -> CollisionType {
    match t {
        CollisionType::PlayerBall { first } => CollisionType::PlayerBall { first: !first },
        CollisionType::PlayerWall { first } => CollisionType::PlayerWall { first: !first },
        CollisionType::BallWall { first } => CollisionType::BallWall { first: !first },
        CollisionType::Ignore => CollisionType::Ignore,
    }
}

/// How a contact is classified does not depend on the order of its sides:
/// swapping them only flips `first`. A contact is a ball meeting a player
/// exactly when one side is a player and the other a ball; a player at a
/// wall exactly when one side is a player and the other a wall; a ball
/// against the field exactly when one side is a ball and the other a wall
/// or the floor. `first` tells whether the player (or, against the field,
/// the ball) is the first side.
pub proof fn lemma_contact_order_does_not_matter(a: ContactParty, b: ContactParty)
    ensures
        spec_collision_type(b, a) == sides_swapped(spec_collision_type(a, b)),
        spec_collision_type(a, b) is PlayerBall <==> ((a is Player && b is Ball) || (a is Ball
            && b is Player)),
        spec_collision_type(a, b) is PlayerWall <==> ((a is Player && b is Wall) || (a is Wall
            && b is Player)),
        spec_collision_type(a, b) is BallWall <==> ((a is Ball && (b is Wall || b is Floor)) || (b is Ball
            && (a is Wall || a is Floor))),
        spec_collision_type(a, b) matches CollisionType::PlayerBall { first } ==> first == a is Player,
        spec_collision_type(a, b) matches CollisionType::PlayerWall { first } ==> first == a is Player,
        spec_collision_type(a, b) matches CollisionType::BallWall { first } ==> first == a is Ball,
{
}

} // verus!
