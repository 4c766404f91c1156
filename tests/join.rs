use zenoh_node::join::{finish_join, first_failure};

#[test]
fn no_results_is_ok() {
    assert_eq!(first_failure::<u32>(vec![]), Ok(()));
}

#[test]
fn first_failure_wins() {
    let r = first_failure(vec![Ok(()), Err(1u32), Ok(()), Err(2u32)]);
    assert_eq!(r, Err(1));
}

#[test]
fn join_without_failures_returns_handler() {
    let r = finish_join(String::from("H"), vec![Ok::<(), u32>(()), Ok(())]);
    assert_eq!(r, Ok(String::from("H")));
}

#[test]
fn join_with_a_failure_returns_error() {
    let r = finish_join(String::from("H"), vec![Ok(()), Err(String::from("decode")), Ok(())]);
    assert_eq!(r, Err(String::from("decode")));
}
