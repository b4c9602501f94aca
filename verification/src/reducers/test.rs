use vstd::prelude::*;

use crate::str_eq;

verus! {

/// The field set-ups that the test request can lay out.
#[derive(PartialEq, Eq, Structural, Clone, Copy, Debug)]
pub enum TestScenario {
    Stage0,
    Stage1,
    Stage2,
    BallHit1,
    BallHit2,
    BallHit3,
    BallHit4,
    BallHit5,
    BallHit6,
    BallHit7,
    BallRebound1,
    BallRebound2,
}

pub open spec fn spec_test_scenario(name: Seq<char>) -> Option<TestScenario> {
    if name == "0"@ {
        Some(TestScenario::Stage0)
    } else if name == "1"@ {
        Some(TestScenario::Stage1)
    } else if name == "2"@ {
        Some(TestScenario::Stage2)
    } else if name == "ball_hit_1"@ {
        Some(TestScenario::BallHit1)
    } else if name == "ball_hit_2"@ {
        Some(TestScenario::BallHit2)
    } else if name == "ball_hit_3"@ {
        Some(TestScenario::BallHit3)
    } else if name == "ball_hit_4"@ {
        Some(TestScenario::BallHit4)
    } else if name == "ball_hit_5"@ {
        Some(TestScenario::BallHit5)
    } else if name == "ball_hit_6"@ {
        Some(TestScenario::BallHit6)
    } else if name == "ball_hit_7"@ {
        Some(TestScenario::BallHit7)
    } else if name == "ball_rebound_1"@ {
        Some(TestScenario::BallRebound1)
    } else if name == "ball_rebound_2"@ {
        Some(TestScenario::BallRebound2)
    } else {
        None
    }
}

/// The set-up a test name stands for, if any.
pub fn test_scenario(name: &str) -> (scenario: Option<TestScenario>)
    ensures
        scenario == spec_test_scenario(name@),
{
    if str_eq(name, "0") {
        Some(TestScenario::Stage0)
    } else if str_eq(name, "1") {
        Some(TestScenario::Stage1)
    } else if str_eq(name, "2") {
        Some(TestScenario::Stage2)
    } else if str_eq(name, "ball_hit_1") {
        Some(TestScenario::BallHit1)
    } else if str_eq(name, "ball_hit_2") {
        Some(TestScenario::BallHit2)
    } else if str_eq(name, "ball_hit_3") {
        Some(TestScenario::BallHit3)
    } else if str_eq(name, "ball_hit_4") {
        Some(TestScenario::BallHit4)
    } else if str_eq(name, "ball_hit_5") {
        Some(TestScenario::BallHit5)
    } else if str_eq(name, "ball_hit_6") {
        Some(TestScenario::BallHit6)
    } else if str_eq(name, "ball_hit_7") {
        Some(TestScenario::BallHit7)
    } else if str_eq(name, "ball_rebound_1") {
        Some(TestScenario::BallRebound1)
    } else if str_eq(name, "ball_rebound_2") {
        Some(TestScenario::BallRebound2)
    } else {
        None
    }
}

/// Whether players of a stage start with a ball in hand (`None` for the
/// set-ups that place players themselves).
pub fn stage_spawns_with_ball(scenario: TestScenario) -> (r: Option<bool>)
    ensures
        r == (match scenario {
            TestScenario::Stage0 => Some(false),
            TestScenario::Stage1 => Some(true),
            TestScenario::Stage2 => Some(false),
            _ => None::<bool>,
        }),
{
    match scenario {
        TestScenario::Stage0 => Some(false),
        TestScenario::Stage1 => Some(true),
        TestScenario::Stage2 => Some(false),
        _ => None,
    }
}

} // verus!
