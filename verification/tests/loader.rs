use resource_loader::failure::{FailureKind, FailureReason};
use resource_loader::loader::{CreateOutcome, LoadStep, OpenOutcome, ReadOutcome};
use resource_loader::loader::{finish_create, finish_read, recovering_open_step, strict_open_step};

#[test]
fn strict_step_propagates_every_open_failure() {
    assert!(matches!(strict_open_step(OpenOutcome::Opened), Ok(())));

    let absent = strict_open_step(OpenOutcome::Absent("gone".to_string()));
    match absent {
        Err(FailureReason::NotFound(d)) => assert_eq!(d, "gone".to_string()),
        _ => panic!("absence must be classified as NotFound"),
    }

    let refused = strict_open_step(OpenOutcome::Refused("no permission".to_string()));
    match refused {
        Err(FailureReason::Other(d)) => assert_eq!(d, "no permission".to_string()),
        _ => panic!("a non-absence refusal must be classified as Other"),
    }
}

#[test]
fn recovering_step_creates_on_absence_only() {
    assert!(matches!(recovering_open_step(OpenOutcome::Opened), LoadStep::ReadAll));
    assert!(matches!(
        recovering_open_step(OpenOutcome::Absent("gone".to_string())),
        LoadStep::CreateEmpty
    ));
    let refused = recovering_open_step(OpenOutcome::Refused("no permission".to_string()));
    match refused {
        LoadStep::Fail(FailureReason::Other(d)) => assert_eq!(d, "no permission".to_string()),
        _ => panic!("a non-absence refusal must not be recovered"),
    }
}

#[test]
fn finish_read_returns_content_or_read_failed() {
    let ok = finish_read(ReadOutcome::Content("text".to_string()));
    assert_eq!(ok.unwrap(), "text".to_string());

    let err = finish_read(ReadOutcome::Refused("disk error".to_string()));
    match err {
        Err(FailureReason::ReadFailed(d)) => assert_eq!(d, "disk error".to_string()),
        _ => panic!("a refused read must be classified as ReadFailed"),
    }
}

#[test]
fn finish_create_returns_empty_or_create_failed() {
    let ok = finish_create(CreateOutcome::Created);
    assert_eq!(ok.unwrap(), "".to_string());

    let err = finish_create(CreateOutcome::Refused("read-only".to_string()));
    match err {
        Err(FailureReason::CreateFailed(d)) => assert_eq!(d, "read-only".to_string()),
        _ => panic!("a refused creation must be classified as CreateFailed"),
    }
}

#[test]
fn kinds_and_diagnostics_are_inspectable() {
    let f = FailureReason::NotFound("missing".to_string());
    assert_eq!(f.kind(), FailureKind::NotFound);
    assert_eq!(f.diagnostic(), &"missing".to_string());

    let f = FailureReason::CreateFailed("denied".to_string());
    assert_eq!(f.kind(), FailureKind::CreateFailed);
    assert_eq!(f.diagnostic(), &"denied".to_string());

    let f = FailureReason::ReadFailed("truncated".to_string());
    assert_eq!(f.kind(), FailureKind::ReadFailed);
    assert_eq!(f.diagnostic(), &"truncated".to_string());

    let f = FailureReason::Other("interrupted".to_string());
    assert_eq!(f.kind(), FailureKind::Other);
    assert_eq!(f.diagnostic(), &"interrupted".to_string());
}
