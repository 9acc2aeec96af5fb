use learning_steps::{LearningSteps, DEFAULT_SECS_IF_MISSING};

#[test]
fn default_again_delay_constant() {
    assert_eq!(DEFAULT_SECS_IF_MISSING, 60);
}

#[test]
fn hard_delay_interpolates_at_first_step() {
    // Two steps: the mean of the current and the next step.
    let steps = LearningSteps::new(&[60, 600]);
    assert_eq!(steps.hard_delay_secs(2), Some((60 + 600) / 2));
    // One step: a synthetic next of twice the current delay.
    let steps = LearningSteps::new(&[600]);
    assert_eq!(steps.hard_delay_secs(1), Some((600 + 1200) / 2));
    // Odd sums round down.
    let steps = LearningSteps::new(&[3, 4]);
    assert_eq!(steps.hard_delay_secs(2), Some(3));
}

#[test]
fn hard_delay_away_from_first_step_is_the_current_step() {
    let steps = LearningSteps::new(&[60, 600, 6000]);
    assert_eq!(steps.hard_delay_secs(2), Some(600));
    assert_eq!(steps.hard_delay_secs(1), Some(6000));
}

#[test]
fn hard_delay_saturates_instead_of_overflowing() {
    // A single enormous step: doubling and summing both clamp at
    // u32::MAX, so the interpolated delay is u32::MAX / 2.
    let steps = LearningSteps::new(&[u32::MAX]);
    assert_eq!(steps.hard_delay_secs(1), Some(u32::MAX / 2));
    // Two enormous steps: the sum clamps at u32::MAX before halving.
    let steps = LearningSteps::new(&[u32::MAX, u32::MAX]);
    assert_eq!(steps.hard_delay_secs(2), Some(u32::MAX / 2));
}

#[test]
fn good_delay_signals_graduation_only_at_the_last_step() {
    let steps = LearningSteps::new(&[60, 600, 6000]);
    assert_eq!(steps.good_delay_secs(3), Some(600));
    assert_eq!(steps.good_delay_secs(2), Some(6000));
    assert_eq!(steps.good_delay_secs(1), None);
}

#[test]
fn current_delay_reads_the_derived_index() {
    let steps = LearningSteps::new(&[60, 600, 6000]);
    assert_eq!(steps.current_delay_secs(3), 60);
    assert_eq!(steps.current_delay_secs(2), 600);
    assert_eq!(steps.current_delay_secs(1), 6000);
}

#[test]
fn counter_updates_after_ratings() {
    let steps = LearningSteps::new(&[60, 600, 6000]);
    // Good moves one step forward: the steps past the new position.
    assert_eq!(steps.remaining_for_good(3), 2);
    assert_eq!(steps.remaining_for_good(2), 1);
    assert_eq!(steps.remaining_for_good(1), 0);
    // A counter of zero clamps to the last step; nothing is left.
    assert_eq!(steps.remaining_for_good(0), 0);
    // Failing resets to the full step count.
    assert_eq!(steps.remaining_for_failed(), 3);
}

#[test]
fn queries_are_pure() {
    let steps = LearningSteps::new(&[60, 600]);
    assert_eq!(steps.again_delay_secs_learn(), steps.again_delay_secs_learn());
    assert_eq!(
        steps.again_delay_secs_relearn(),
        steps.again_delay_secs_relearn()
    );
    assert_eq!(steps.hard_delay_secs(2), steps.hard_delay_secs(2));
    assert_eq!(steps.good_delay_secs(2), steps.good_delay_secs(2));
    assert_eq!(steps.current_delay_secs(2), steps.current_delay_secs(2));
    assert_eq!(steps.remaining_for_good(2), steps.remaining_for_good(2));
    assert_eq!(steps.remaining_for_failed(), steps.remaining_for_failed());
}

#[test]
fn index_derivation_clamps_in_bounds() {
    let steps = LearningSteps::new(&[60, 600, 6000]);
    assert_eq!(steps.get_index(3), 0);
    assert_eq!(steps.get_index(2), 1);
    assert_eq!(steps.get_index(1), 2);
    // Zero remaining, or more remaining than steps, still lands in
    // [0, len - 1].
    assert_eq!(steps.get_index(0), 2);
    assert_eq!(steps.get_index(999), 0);
    // Only the low three decimal digits are read.
    assert_eq!(steps.get_index(5002), 1);
}

#[test]
fn secs_at_index_is_plain_lookup() {
    let steps = LearningSteps::new(&[60, 600]);
    assert_eq!(steps.secs_at_index(0), Some(60));
    assert_eq!(steps.secs_at_index(1), Some(600));
    assert_eq!(steps.secs_at_index(2), None);
}
