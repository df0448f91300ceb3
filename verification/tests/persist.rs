use tumblr_sync::persist::{first_step, next_step, result_of, PersistError, PersistStep};

fn persist_run(reports: &[bool]) -> Vec<PersistStep> {
    let mut steps = vec![first_step()];
    for report in reports {
        let last = *steps.last().unwrap();
        steps.push(next_step(last, *report));
    }
    steps
}

#[test]
fn good_run_serializes_writes_and_replaces() {
    assert_eq!(
        persist_run(&[true, true, true]),
        vec![
            PersistStep::Serialize,
            PersistStep::WriteScratch,
            PersistStep::Replace,
            PersistStep::Succeeded,
        ]
    );
    assert_eq!(result_of(PersistStep::Succeeded), Some(Ok(())));
}

#[test]
fn failed_serialization_never_reaches_the_artifact() {
    let steps = persist_run(&[false, true, true, true]);
    assert_eq!(steps[1], PersistStep::Failed(PersistError::Serialize));
    assert!(steps.iter().all(|step| *step != PersistStep::Replace));
    assert_eq!(steps[4], PersistStep::Failed(PersistError::Serialize));
    assert_eq!(result_of(steps[4]), Some(Err(PersistError::Serialize)));
}

#[test]
fn failed_scratch_write_never_reaches_the_artifact() {
    let steps = persist_run(&[true, false, true]);
    assert_eq!(steps[2], PersistStep::Failed(PersistError::WriteScratch));
    assert!(steps.iter().all(|step| *step != PersistStep::Replace));
}

#[test]
fn failed_replace_is_reported() {
    let steps = persist_run(&[true, true, false]);
    assert_eq!(steps[3], PersistStep::Failed(PersistError::Replace));
    assert_eq!(result_of(steps[3]), Some(Err(PersistError::Replace)));
}

#[test]
fn ended_run_stays_ended() {
    assert_eq!(next_step(PersistStep::Succeeded, false), PersistStep::Succeeded);
    assert_eq!(next_step(PersistStep::Succeeded, true), PersistStep::Succeeded);
    let failed = PersistStep::Failed(PersistError::WriteScratch);
    assert_eq!(next_step(failed, true), failed);
}

#[test]
fn unfinished_run_has_no_result() {
    assert_eq!(result_of(PersistStep::Serialize), None);
    assert_eq!(result_of(PersistStep::WriteScratch), None);
    assert_eq!(result_of(PersistStep::Replace), None);
}
