//! Game rules of a two-team ball game ("Space" against "Time") played on a
//! server that ticks at a fixed rate.
//!
//! The library holds the decisions of the game: the game clock and its
//! state machine, the lifecycle of players and balls, routing of player
//! orders, scoring, and the validation of player requests. Storage, the
//! physics simulation and everything measured in floating point stay with
//! the caller, which hands plain values in and applies what comes back.
pub mod ecs;
pub mod reducers;
pub mod services;

use vstd::prelude::*;

use crate::ecs::entities::EntityKind;

verus! {

/// The id of the one game (and of its clock).
pub const GAME_ID: u8 = 1;

/// Seconds on the clock, counting up to the next game, after a game ended
/// while games start by themselves.
pub const GAME_AUTO_START_PAUSE_BETWEEN_GAMES: i8 = -9;

/// When the pending clock shows this many seconds, the field is reset.
pub const GAME_RESET_AT: i8 = -3;

/// A clock at this many seconds stays there: no next game starts.
pub const GAME_WONT_RESTART: i8 = -128;

/// A game with this many seconds on its clock does not count down.
pub const INFINITE_DURATION: i8 = 127;

/// Ticks a moving player may stall before its move order is dropped.
pub const PLAYER_STALL_COUNTER: u8 = 20;

/// Ticks a player winds up before the ball leaves its hands.
pub const PLAYER_THROW_COUNTER: u8 = 8;

/// Ticks a hit player stays down.
pub const PLAYER_HIT_COUNTER: u8 = 20;

/// The longest text a player may say, in bytes.
pub const MAX_SAY_LENGTH: usize = 12;

/// How long a player waits between two things said, in microseconds.
pub const PLAYER_SAY_WAIT_MICROS: i64 = 10000000;

/// The names the players of the Space team play under.
pub open spec fn space_user_names() -> Seq<Seq<char>> {
    seq!["WAN"@, "FOX"@, "YUK"@, "ROG"@, "KES"@, "REI"@, "ASH"@, "ONO"@]
}

/// The names the players of the Time team play under.
pub open spec fn time_user_names() -> Seq<Seq<char>> {
    seq!["LIZ"@, "ORI"@, "PRI"@, "LEO"@, "DOC"@, "RAV"@, "UMA"@, "TER"@]
}

/// Whether two strings hold the same characters.
pub fn str_eq(a: &str, b: &str) -> (r: bool)
    ensures
        r == (a@ == b@),
{
    a.to_owned() == b.to_owned()
}

/// The names of the Space team, in the order their places are given.
pub fn space_user_name_list() -> (names: Vec<&'static str>)
    ensures
        names@.map_values(|n: &str| n@) == space_user_names(),
{
    let names = vec!["WAN", "FOX", "YUK", "ROG", "KES", "REI", "ASH", "ONO"];
    assert(names@.map_values(|n: &str| n@) =~= space_user_names());
    names
}

/// The names of the Time team, in the order their places are given.
pub fn time_user_name_list() -> (names: Vec<&'static str>)
    ensures
        names@.map_values(|n: &str| n@) == time_user_names(),
{
    let names = vec!["LIZ", "ORI", "PRI", "LEO", "DOC", "RAV", "UMA", "TER"];
    assert(names@.map_values(|n: &str| n@) =~= time_user_names());
    names
}

fn contains_name(names: &Vec<&'static str>, name: &str) -> (r: bool)
    ensures
        r == names@.map_values(|n: &str| n@).contains(name@),
{
    let ghost views = names@.map_values(|n: &str| n@);
    let mut i: usize = 0;
    while i < names.len()
        invariant
            0 <= i <= names@.len(),
            views == names@.map_values(|n: &str| n@),
            forall|j: int| 0 <= j < i ==> views[j] != name@,
        decreases names@.len() - i,
    {
        if str_eq(names[i], name) {
            assert(views[i as int] == name@);
            return true;
        }
        i += 1;
    }
    false
}

/// Whether `name` is one of the Space team's names.
pub fn is_space_user_name(name: &str) -> (r: bool)
    ensures
        r == space_user_names().contains(name@),
{
    contains_name(&space_user_name_list(), name)
}

/// Whether `name` is one of the Time team's names.
pub fn is_time_user_name(name: &str) -> (r: bool)
    ensures
        r == time_user_names().contains(name@),
{
    contains_name(&time_user_name_list(), name)
}

/// The team a player name plays for.
pub fn get_entity_kind_from_player_name(name: &str) -> (r: Result<EntityKind, String>)
    ensures
        space_user_names().contains(name@) ==> r == Ok::<EntityKind, String>(EntityKind::SpacePlayer),
        !space_user_names().contains(name@) && time_user_names().contains(name@) ==> r == Ok::<
            EntityKind,
            String,
        >(EntityKind::TimePlayer),
        !space_user_names().contains(name@) && !time_user_names().contains(name@) ==> r is Err
            && r->Err_0@ == "Could not find user "@ + name@,
{
    if is_space_user_name(name) {
        Ok(EntityKind::SpacePlayer)
    } else if is_time_user_name(name) {
        Ok(EntityKind::TimePlayer)
    } else {
        Err(String::from_str("Could not find user ").concat(name))
    }
}

/// Hands out the next ball number: one more than the last one.
pub fn get_next_ball_id(ball_id: &mut u32) -> (id: u32)
    requires
        *old(ball_id) < u32::MAX,
    ensures
        id == *old(ball_id) + 1,
        *final(ball_id) == id,
{
    *ball_id += 1;
    *ball_id
}

/// Where the next ball appears: the quadrants are handed out in turn,
/// going round the list.
pub fn get_next_ball_quadrant(ball_quadrants: &Vec<u8>, index: &mut usize) -> (quadrant: u8)
    requires
        ball_quadrants@.len() > 0,
        *old(index) < usize::MAX,
    ensures
        *final(index) == (*old(index) + 1) % (ball_quadrants@.len() as int),
        quadrant == ball_quadrants@[*final(index) as int],
{
    *index = (*index + 1) % ball_quadrants.len();
    ball_quadrants[*index]
}

/// The quadrant index after `calls` requests, starting at `start`.
pub open spec fn quadrant_index_after(start: int, len: int, calls: nat) -> int
    decreases calls,
{
    if calls == 0 {
        start
    } else {
        (quadrant_index_after(start, len, (calls - 1) as nat) + 1) % len
    }
}

/// Ball quadrants are handed out round the list: after `calls` requests the
/// index has moved `calls` places, and after `len` requests it is back
/// where it started.
pub proof fn lemma_quadrants_go_round(start: int, len: int, calls: nat)
    requires
        0 <= start < len,
    ensures
        quadrant_index_after(start, len, calls) == (start + calls) % len,
        quadrant_index_after(start, len, len as nat) == start,
{
    lemma_quadrants_go_round_formula(start, len, calls);
    lemma_quadrants_go_round_formula(start, len, len as nat);
    vstd::arithmetic::div_mod::lemma_mod_add_multiples_vanish(start, len);
    vstd::arithmetic::div_mod::lemma_small_mod(start as nat, len as nat);
}

proof fn lemma_quadrants_go_round_formula(start: int, len: int, calls: nat)
    requires
        0 <= start < len,
    ensures
        quadrant_index_after(start, len, calls) == (start + calls) % len,
    decreases calls,
{
    if calls > 0 {
        lemma_quadrants_go_round_formula(start, len, (calls - 1) as nat);
        let a = start + calls - 1;
        vstd::arithmetic::div_mod::lemma_add_mod_noop(a, 1, len);
        vstd::arithmetic::div_mod::lemma_mod_twice(a, len);
        if len > 1 {
            vstd::arithmetic::div_mod::lemma_small_mod(1, len as nat);
            assert(1int % len == 1);
        } else {
            assert(((a % len) + 1) % len == 0 && (a + 1) % len == 0) by (nonlinear_arith)
                requires
                    len == 1,
            ;
        }
        assert(quadrant_index_after(start, len, (calls - 1) as nat) == a % len);
        assert(quadrant_index_after(start, len, calls) == ((a % len) + 1) % len);
        assert(((a % len) + 1) % len == (a + 1) % len);
        assert(a + 1 == start + calls);
    } else {
        vstd::arithmetic::div_mod::lemma_small_mod(start as nat, len as nat);
    }
}

/// The quadrants that `n` requests in a row hand out, the index starting at
/// `start`: request `k` (counted from 0) gives the quadrant at the index
/// reached after `k + 1` steps.
pub open spec fn quadrants_handed_out(quadrants: Seq<u8>, start: int, n: nat) -> Seq<u8> {
    Seq::new(
        n,
        |k: int| quadrants[quadrant_index_after(start, quadrants.len() as int, (k + 1) as nat)],
    )
}

proof fn lemma_mod_window(x: int, len: int)
    requires
        0 < len,
        0 <= x < 2 * len,
    ensures
        x % len == (if x < len { x } else { x - len }),
{
    if x < len {
        vstd::arithmetic::div_mod::lemma_small_mod(x as nat, len as nat);
    } else {
        vstd::arithmetic::div_mod::lemma_mod_add_multiples_vanish(x - len, len);
        vstd::arithmetic::div_mod::lemma_small_mod((x - len) as nat, len as nat);
    }
}

/// Any `len` requests in a row over a list without repeats hand out every
/// quadrant of the list exactly once, and nothing else.
pub proof fn lemma_quadrants_each_once_per_round(quadrants: Seq<u8>, start: int)
    requires
        quadrants.len() > 0,
        0 <= start < quadrants.len(),
        quadrants.no_duplicates(),
    ensures
        ({
            let handed = quadrants_handed_out(quadrants, start, quadrants.len());
            &&& handed.len() == quadrants.len()
            &&& handed.no_duplicates()
            &&& forall|q: u8| handed.contains(q) <==> quadrants.contains(q)
        }),
{
    let len = quadrants.len() as int;
    let handed = quadrants_handed_out(quadrants, start, quadrants.len());
    assert forall|c: nat| 1 <= c <= len implies #[trigger] quadrant_index_after(start, len, c) == if start
        + c < len {
        start + c
    } else {
        start + c - len
    } by {
        lemma_quadrants_go_round_formula(start, len, c);
        lemma_mod_window(start + c, len);
    }
    assert forall|k1: int, k2: int|
        0 <= k1 < handed.len() && 0 <= k2 < handed.len() && k1 != k2 implies handed[k1]
        != handed[k2] by {
        let i1 = quadrant_index_after(start, len, (k1 + 1) as nat);
        let i2 = quadrant_index_after(start, len, (k2 + 1) as nat);
        assert(i1 != i2);
        assert(handed[k1] == quadrants[i1]);
        assert(handed[k2] == quadrants[i2]);
    }
    assert forall|q: u8| handed.contains(q) <==> quadrants.contains(q) by {
        if handed.contains(q) {
            let k = choose|k: int| 0 <= k < handed.len() && handed[k] == q;
            let i = quadrant_index_after(start, len, (k + 1) as nat);
            assert(quadrants[i] == q);
        }
        if quadrants.contains(q) {
            let j = choose|j: int| 0 <= j < len && quadrants[j] == q;
            let k = if j > start { j - start - 1 } else { j + len - start - 1 };
            assert(quadrant_index_after(start, len, (k + 1) as nat) == j);
            assert(handed[k] == q);
        }
    }
}

/// Over the spawn grid's quadrants (a shuffle of 0 to 29, as set up), any
/// 30 requests in a row hand out quadrants below 30, each of 0 to 29
/// exactly once.
pub proof fn lemma_ball_quadrants_cover_the_grid(quadrants: Seq<u8>, start: int)
    requires
        quadrants.len() == 30,
        quadrants.no_duplicates(),
        forall|i: int| 0 <= i < 30 ==> quadrants[i] < 30,
        forall|q: u8| q < 30 ==> quadrants.contains(q),
        0 <= start < 30,
    ensures
        ({
            let handed = quadrants_handed_out(quadrants, start, 30);
            &&& handed.len() == 30
            &&& handed.no_duplicates()
            &&& forall|k: int| 0 <= k < 30 ==> handed[k] < 30
            &&& forall|q: u8| q < 30 ==> handed.contains(q)
        }),
{
    lemma_quadrants_each_once_per_round(quadrants, start);
    let handed = quadrants_handed_out(quadrants, start, 30);
    assert forall|k: int| 0 <= k < 30 implies handed[k] < 30 by {
        assert(handed.contains(handed[k]));
        let j = choose|j: int| 0 <= j < 30 && quadrants[j] == handed[k];
    }
}

} // verus!
