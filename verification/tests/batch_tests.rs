use slidevoice::ErrorKind;
use slidevoice::GenerationError;
use slidevoice::Outcome;
use slidevoice::batch::BatchAction;
use slidevoice::batch::batch_next;
use slidevoice::batch::batch_record;
use slidevoice::batch::batch_start;

fn err(kind: ErrorKind) -> Result<Outcome, GenerationError> {
    Err(GenerationError { kind, message: "boom".to_string() })
}

#[test]
fn failure_on_second_slide_aborts_before_third() {
    // three slides; the second slide's synthesis fails
    let b = batch_start(3);
    match batch_next(&b) {
        BatchAction::RunSlide { idx } => assert_eq!(idx, 0),
        _ => panic!("the batch must start with the first slide"),
    }
    let b = batch_record(b, &Ok(Outcome::Generated));
    match batch_next(&b) {
        BatchAction::RunSlide { idx } => assert_eq!(idx, 1),
        _ => panic!("after a success the batch must advance to the next slide"),
    }
    let b = batch_record(b, &err(ErrorKind::Synthesis));
    // the third slide is never attempted: the next action is an abort
    match batch_next(&b) {
        BatchAction::Abort { kind } => assert_eq!(kind, ErrorKind::Synthesis),
        _ => panic!("after a failure the batch must abort"),
    }
}

#[test]
fn all_slides_succeed() {
    let mut b = batch_start(2);
    for expected in 0..2usize {
        match batch_next(&b) {
            BatchAction::RunSlide { idx } => assert_eq!(idx, expected),
            _ => panic!("slides must be attempted in order"),
        }
        b = batch_record(b, &Ok(Outcome::Generated));
    }
    assert!(matches!(batch_next(&b), BatchAction::Finished));
}

#[test]
fn empty_batch_finishes_at_once() {
    let b = batch_start(0);
    assert!(matches!(batch_next(&b), BatchAction::Finished));
}
