use dw3000::select::{SelectRequest, SelectStage, SelectStep, Selected};

/// Runs a transaction of `count` operations against scripted outcomes: the
/// request at place `i` goes as `outcomes[i]` says, and well where the script
/// is over.
fn run(count: usize, outcomes: &[Result<(), u8>]) -> (Vec<SelectRequest>, Result<(), u8>) {
    let (mut state, mut request) = Selected::begin(count);
    let mut asked = Vec::new();
    loop {
        let outcome = outcomes.get(asked.len()).copied().unwrap_or(Ok(()));
        asked.push(request);
        match state.resume(outcome) {
            SelectStep::Continue { state: next, request: then } => {
                state = next;
                request = then;
            }
            SelectStep::Finished(result) => return (asked, result),
        }
    }
}

fn operate(index: usize) -> SelectRequest {
    SelectRequest::Operate { index }
}

#[test]
fn transaction_starts_by_asserting_the_line() {
    let (state, request) = Selected::<u8>::begin(3);
    assert_eq!(state, Selected { count: 3, stage: SelectStage::Assert });
    assert_eq!(request, SelectRequest::Assert);
}

#[test]
fn transaction_runs_its_operations_in_order_between_the_edges() {
    let (asked, result) = run(3, &[]);
    assert_eq!(result, Ok(()));
    assert_eq!(
        asked,
        vec![SelectRequest::Assert, operate(0), operate(1), operate(2), SelectRequest::Release]
    );
}

#[test]
fn transaction_of_the_driver_has_two_operations() {
    let (asked, result) = run(2, &[]);
    assert_eq!(result, Ok(()));
    assert_eq!(asked, vec![SelectRequest::Assert, operate(0), operate(1), SelectRequest::Release]);
}

#[test]
fn transaction_without_operations_still_toggles_the_line() {
    let (asked, result) = run(0, &[]);
    assert_eq!(result, Ok(()));
    assert_eq!(asked, vec![SelectRequest::Assert, SelectRequest::Release]);
}

#[test]
fn transaction_releases_the_line_after_a_failure_and_stops() {
    let (asked, result) = run(4, &[Ok(()), Ok(()), Err(7)]);
    assert_eq!(result, Err(7));
    assert_eq!(asked, vec![SelectRequest::Assert, operate(0), operate(1), SelectRequest::Release]);
}

#[test]
fn transaction_fails_with_the_failure_of_its_first_operation() {
    let (asked, result) = run(2, &[Ok(()), Err(1)]);
    assert_eq!(result, Err(1));
    assert_eq!(asked, vec![SelectRequest::Assert, operate(0), SelectRequest::Release]);
}

#[test]
fn transaction_fails_with_the_failure_of_its_last_operation() {
    let (asked, result) = run(2, &[Ok(()), Ok(()), Err(2)]);
    assert_eq!(result, Err(2));
    assert_eq!(asked, vec![SelectRequest::Assert, operate(0), operate(1), SelectRequest::Release]);
}

#[test]
fn transaction_comes_to_the_first_failure_not_to_a_later_one() {
    let (asked, result) = run(3, &[Ok(()), Err(5), Err(6)]);
    assert_eq!(result, Err(5));
    assert_eq!(asked, vec![SelectRequest::Assert, operate(0), SelectRequest::Release]);
}

#[test]
fn transaction_runs_nothing_when_the_line_cannot_be_asserted() {
    let (asked, result) = run(3, &[Err(9)]);
    assert_eq!(result, Err(9));
    assert_eq!(asked, vec![SelectRequest::Assert, SelectRequest::Release]);
}

#[test]
fn transaction_reports_a_failure_of_the_release_after_success() {
    let (asked, result) = run(1, &[Ok(()), Ok(()), Err(3)]);
    assert_eq!(result, Err(3));
    assert_eq!(asked, vec![SelectRequest::Assert, operate(0), SelectRequest::Release]);
}

#[test]
fn transaction_steps_from_the_last_operation_to_the_release() {
    let last = Selected::<u8> { count: 2, stage: SelectStage::Operate { index: 1 } };
    assert_eq!(
        last.resume(Ok(())),
        SelectStep::Continue {
            state: Selected { count: 2, stage: SelectStage::Release { result: Ok(()) } },
            request: SelectRequest::Release,
        }
    );
    let failing = Selected::<u8> { count: 2, stage: SelectStage::Operate { index: 0 } };
    assert_eq!(
        failing.resume(Err(4)),
        SelectStep::Continue {
            state: Selected { count: 2, stage: SelectStage::Release { result: Err(4) } },
            request: SelectRequest::Release,
        }
    );
}

#[test]
fn transaction_of_many_operations_asks_for_each_once() {
    let (asked, result) = run(1000, &[]);
    assert_eq!(result, Ok(()));
    assert_eq!(asked.len(), 1002);
    for (place, request) in asked[1..1001].iter().enumerate() {
        assert_eq!(*request, operate(place));
    }
    assert_eq!(asked[0], SelectRequest::Assert);
    assert_eq!(asked[1001], SelectRequest::Release);
}
