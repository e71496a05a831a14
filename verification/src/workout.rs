//! The workout of the day, decided from the user's intensity and the
//! trainer app's random number.

use vstd::prelude::*;

verus! {

/// What the trainer prescribes: so many pushups and situps, a rest day,
/// or a run of so many minutes.
#[derive(Debug, PartialEq, Eq, Structural, Clone, Copy)]
pub enum WorkoutPlan {
    Exercises(u32),
    Rest,
    Run(u32),
}

/// The plan for the day: below intensity 25, pushups and situps at that
/// intensity; otherwise a rest when the random number happens to be 3,
/// else a run of that many minutes.
pub open spec fn spec_workout_plan(intensity: u32, random_number: u32) -> WorkoutPlan {
    if intensity < 25 {
        WorkoutPlan::Exercises(intensity)
    } else if random_number == 3 {
        WorkoutPlan::Rest
    } else {
        WorkoutPlan::Run(intensity)
    }
}

/// Decide the workout of the day.
pub fn workout_plan(intensity: u32, random_number: u32) -> (plan: WorkoutPlan)
    ensures
        plan == spec_workout_plan(intensity, random_number),
{
    if intensity < 25 {
        WorkoutPlan::Exercises(intensity)
    } else if random_number == 3 {
        WorkoutPlan::Rest
    } else {
        WorkoutPlan::Run(intensity)
    }
}

} // verus!
