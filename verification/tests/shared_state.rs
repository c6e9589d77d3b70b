use api_endpoint::{get_api_port, get_api_url, initial_state, ApiServerState, SharedApiState};

fn shareable<T: Send + Sync + 'static>(_value: &T) {}

#[test]
fn a_read_gives_the_state_that_was_put_in() {
    let shared = SharedApiState::new(ApiServerState { port: 8080 });
    assert_eq!(shared.read(), ApiServerState { port: 8080 });
    assert_eq!(shared.read().port, 8080);
}

#[test]
fn every_read_of_a_shared_state_gives_the_same_address() {
    let shared = SharedApiState::new(ApiServerState { port: get_api_port(Some("8080")) });
    let first = &shared;
    let second = &shared;
    for _ in 0..1000 {
        assert_eq!(get_api_url(first), "http://localhost:8080");
        assert_eq!(get_api_url(second), "http://localhost:8080");
    }
}

#[test]
fn a_shared_state_can_be_handed_to_other_threads() {
    let shared = initial_state(None);
    shareable(&shared);
    assert_eq!(get_api_url(&shared), "http://localhost:3001");
}

#[test]
fn a_state_can_be_read_any_number_of_times() {
    let shared = SharedApiState::new(ApiServerState { port: 1 });
    for _ in 0..100000 {
        assert_eq!(shared.read().port, 1);
    }
}

#[test]
fn states_do_not_share_their_port() {
    let first = initial_state(Some("4000"));
    let second = initial_state(Some("5000"));
    let third = initial_state(Some("five thousand"));
    assert_eq!(get_api_url(&first), "http://localhost:4000");
    assert_eq!(get_api_url(&second), "http://localhost:5000");
    assert_eq!(get_api_url(&third), "http://localhost:3001");
    assert_eq!(get_api_url(&first), "http://localhost:4000");
}

#[test]
fn initial_state_holds_the_chosen_port() {
    assert_eq!(initial_state(None).read(), ApiServerState { port: 3001 });
    assert_eq!(initial_state(Some("443")).read(), ApiServerState { port: 443 });
    assert_eq!(initial_state(Some("")).read(), ApiServerState { port: 3001 });
    assert_eq!(initial_state(Some("65536")).read(), ApiServerState { port: 3001 });
}
