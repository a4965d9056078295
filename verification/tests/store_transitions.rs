use doctainr::records::{ContainerInfo, ContainerState, ImageInfo, VolumeInfo};
use doctainr::store::{resolve_host, AppState, Command, Event};

const UNAVAILABLE: &str = "Docker service not available";
const SOCKET: &str = "unix:///var/run/docker.sock";

/// Everything a store shows, for whole-state comparisons.
#[derive(Clone, Debug, PartialEq)]
struct Shown {
    docker_host: String,
    containers: Vec<ContainerInfo>,
    images: Vec<ImageInfo>,
    volumes: Vec<VolumeInfo>,
    last_action: Option<String>,
    error_message: Option<String>,
    is_loading: bool,
    service_available: bool,
}

fn shown(state: &AppState) -> Shown {
    Shown {
        docker_host: state.docker_host().clone(),
        containers: state.containers().clone(),
        images: state.images().clone(),
        volumes: state.volumes().clone(),
        last_action: state.last_action().clone(),
        error_message: state.error_message().clone(),
        is_loading: state.is_loading(),
        service_available: state.service_available(),
    }
}

fn message(text: &str) -> Option<String> {
    Some(text.to_string())
}

fn connected() -> AppState {
    AppState::new(SOCKET.to_string(), true)
}

fn disconnected() -> AppState {
    AppState::new(SOCKET.to_string(), false)
}

fn container(id: &str, state: ContainerState) -> ContainerInfo {
    ContainerInfo {
        id: id.to_string(),
        name: format!("name-{}", id),
        image: "img".to_string(),
        status: "status".to_string(),
        ports: "--".to_string(),
        state,
    }
}

fn image(id: &str) -> ImageInfo {
    ImageInfo { id: id.to_string(), repository: "r".to_string(), tag: "t".to_string(), size: "1B".to_string() }
}

fn volume(name: &str) -> VolumeInfo {
    VolumeInfo {
        name: name.to_string(),
        driver: "local".to_string(),
        mountpoint: "/m".to_string(),
        size: "--".to_string(),
    }
}

fn fill(mut state: AppState) -> AppState {
    state.apply(Event::ContainersFetched(Ok(vec![container("c1", ContainerState::Running)])));
    state.apply(Event::ImagesFetched(Ok(vec![image("i1"), image("i2")])));
    state.apply(Event::VolumesFetched(Ok(vec![volume("v1")])));
    state
}

fn filled() -> AppState {
    fill(connected())
}

#[test]
fn a_new_store_is_empty_and_idle() {
    let state = AppState::new("tcp://10.0.0.1:2375".to_string(), true);
    assert_eq!(
        shown(&state),
        Shown {
            docker_host: "tcp://10.0.0.1:2375".to_string(),
            containers: vec![],
            images: vec![],
            volumes: vec![],
            last_action: None,
            error_message: None,
            is_loading: false,
            service_available: true,
        }
    );
    assert!(!disconnected().service_available());
    assert!(!disconnected().is_loading());
}

#[test]
fn host_falls_back_to_the_local_socket() {
    assert_eq!(resolve_host(None), "unix:///var/run/docker.sock");
    assert_eq!(resolve_host(Some("tcp://remote:2375".to_string())), "tcp://remote:2375");
    assert_eq!(resolve_host(Some(String::new())), "");
}

#[test]
fn filling_shows_what_was_listed() {
    let state = filled();
    assert_eq!(*state.containers(), vec![container("c1", ContainerState::Running)]);
    assert_eq!(*state.images(), vec![image("i1"), image("i2")]);
    assert_eq!(*state.volumes(), vec![volume("v1")]);
    assert_eq!(*state.error_message(), None);
}

#[test]
fn refresh_entry_points_issue_their_listing() {
    let mut state = filled();
    let before = state.clone();
    assert_eq!(state.refresh_containers(), Some(Command::ListContainers));
    assert_eq!(state.refresh_images(), Some(Command::ListImages));
    assert_eq!(state.refresh_volumes(), Some(Command::ListVolumes));
    assert_eq!(state, before);
}

#[test]
fn refresh_all_issues_three_listings_containers_first() {
    let mut state = filled();
    let before = state.clone();
    assert_eq!(
        state.refresh_all(),
        vec![Command::ListContainers, Command::ListImages, Command::ListVolumes]
    );
    assert_eq!(state, before);
}

#[test]
fn failing_container_refresh_keeps_the_cache_and_sets_the_error() {
    let mut state = filled();
    let mut expected = shown(&state);
    assert_eq!(state.refresh_containers(), Some(Command::ListContainers));
    state.apply(Event::ContainerFetchBegan);
    let follow_up = state.apply(Event::ContainersFetched(Err("connection refused".to_string())));
    assert_eq!(follow_up, None);
    expected.error_message = message("Failed to list containers: connection refused");
    assert_eq!(shown(&state), expected);
    assert!(!state.error_message().clone().unwrap().is_empty());
}

#[test]
fn failing_refresh_with_an_empty_cause_still_sets_a_message() {
    let mut state = connected();
    state.apply(Event::ContainersFetched(Err(String::new())));
    assert_eq!(*state.error_message(), message("Failed to list containers: "));
    assert!(!state.error_message().clone().unwrap().is_empty());
}

#[test]
fn succeeding_container_refresh_replaces_the_cache_and_clears_the_error() {
    let mut state = filled();
    state.apply(Event::ImagesFetched(Err("boom".to_string())));
    assert!(state.error_message().is_some());
    let mut expected = shown(&state);
    let fresh = vec![container("c9", ContainerState::Stopped), container("c2", ContainerState::Running)];
    state.apply(Event::ContainerFetchBegan);
    let follow_up = state.apply(Event::ContainersFetched(Ok(fresh.clone())));
    assert_eq!(follow_up, None);
    expected.containers = fresh;
    expected.error_message = None;
    assert_eq!(shown(&state), expected);
}

#[test]
fn an_empty_listing_empties_the_cache() {
    let mut state = filled();
    state.apply(Event::ContainersFetched(Ok(vec![])));
    assert!(state.containers().is_empty());
}

#[test]
fn image_and_volume_refreshes_follow_the_same_rule() {
    let mut state = filled();
    let mut expected = shown(&state);

    state.apply(Event::ImagesFetched(Err("no route".to_string())));
    expected.error_message = message("Failed to list images: no route");
    assert_eq!(shown(&state), expected);

    state.apply(Event::ImagesFetched(Ok(vec![image("i3")])));
    expected.error_message = None;
    expected.images = vec![image("i3")];
    assert_eq!(shown(&state), expected);

    state.apply(Event::VolumesFetched(Err("timeout".to_string())));
    expected.error_message = message("Failed to list volumes: timeout");
    assert_eq!(shown(&state), expected);

    state.apply(Event::VolumesFetched(Ok(vec![])));
    expected.error_message = None;
    expected.volumes = vec![];
    assert_eq!(shown(&state), expected);
}

#[test]
fn loading_is_raised_only_by_a_beginning_container_fetch() {
    let mut state = connected();
    assert!(!state.is_loading());
    state.refresh_all();
    state.refresh_containers();
    assert!(!state.is_loading());
    state.apply(Event::ImagesFetched(Ok(vec![])));
    state.apply(Event::VolumesFetched(Err("x".to_string())));
    state.set_container_state("c1", ContainerState::Running);
    state.record_action("noted".to_string());
    state.apply(Event::StartFinished { id: "c1".to_string(), outcome: Ok(()) });
    state.apply(Event::StopFinished { id: "c1".to_string(), outcome: Err("x".to_string()) });
    assert!(!state.is_loading());

    state.apply(Event::ContainerFetchBegan);
    assert!(state.is_loading());
    state.apply(Event::ImagesFetched(Ok(vec![])));
    state.apply(Event::VolumesFetched(Ok(vec![])));
    state.refresh_images();
    state.apply(Event::StartFinished { id: "c1".to_string(), outcome: Ok(()) });
    assert!(state.is_loading());
    state.apply(Event::ContainersFetched(Ok(vec![])));
    assert!(!state.is_loading());

    state.apply(Event::ContainerFetchBegan);
    assert!(state.is_loading());
    state.apply(Event::ContainersFetched(Err("down".to_string())));
    assert!(!state.is_loading());
}

#[test]
fn overlapping_container_fetches_lower_the_flag_at_the_first_resolution() {
    let mut state = connected();
    state.apply(Event::ContainerFetchBegan);
    state.apply(Event::ContainerFetchBegan);
    assert!(state.is_loading());
    state.apply(Event::ContainersFetched(Ok(vec![container("old", ContainerState::Running)])));
    assert!(!state.is_loading());
    state.apply(Event::ContainersFetched(Ok(vec![container("new", ContainerState::Stopped)])));
    assert!(!state.is_loading());
    assert_eq!(*state.containers(), vec![container("new", ContainerState::Stopped)]);
}

#[test]
fn starting_a_container_records_the_action_and_refreshes() {
    let mut state = filled();
    state.apply(Event::VolumesFetched(Err("stale".to_string())));
    let mut expected = shown(&state);

    let command = state.set_container_state("abc123", ContainerState::Running);
    assert_eq!(command, Some(Command::StartContainer { id: "abc123".to_string() }));
    assert_eq!(shown(&state), expected);

    let follow_up = state.apply(Event::StartFinished { id: "abc123".to_string(), outcome: Ok(()) });
    assert_eq!(follow_up, Some(Command::ListContainers));
    expected.last_action = message("Started container abc123");
    expected.error_message = None;
    assert_eq!(shown(&state), expected);
    assert!(state.last_action().clone().unwrap().contains("abc123"));
}

#[test]
fn a_failed_start_sets_the_error_and_nothing_else() {
    let mut state = filled();
    state.record_action("earlier".to_string());
    let mut expected = shown(&state);
    let follow_up = state.apply(Event::StartFinished {
        id: "abc123".to_string(),
        outcome: Err("no such container".to_string()),
    });
    assert_eq!(follow_up, None);
    expected.error_message = message("Failed to start container: no such container");
    assert_eq!(shown(&state), expected);
    assert_eq!(*state.last_action(), message("earlier"));
}

#[test]
fn stopping_a_container_mirrors_starting() {
    let mut state = filled();
    let mut expected = shown(&state);
    let command = state.set_container_state("abc123", ContainerState::Stopped);
    assert_eq!(command, Some(Command::StopContainer { id: "abc123".to_string() }));
    let follow_up = state.apply(Event::StopFinished { id: "abc123".to_string(), outcome: Ok(()) });
    assert_eq!(follow_up, Some(Command::ListContainers));
    expected.last_action = message("Stopped container abc123");
    assert_eq!(shown(&state), expected);

    let follow_up = state.apply(Event::StopFinished {
        id: "abc123".to_string(),
        outcome: Err("already stopped".to_string()),
    });
    assert_eq!(follow_up, None);
    expected.error_message = message("Failed to stop container: already stopped");
    assert_eq!(shown(&state), expected);
}

#[test]
fn start_and_stop_entry_points_issue_their_command() {
    let mut state = connected();
    assert_eq!(
        state.start_container("x".to_string()),
        Some(Command::StartContainer { id: "x".to_string() })
    );
    assert_eq!(state.stop_container("y".to_string()), Some(Command::StopContainer { id: "y".to_string() }));
    assert_eq!(state, connected());
}

#[test]
fn the_target_state_alone_picks_the_command() {
    let mut state = filled();
    // c1 is cached as running; asking for Running again still issues a start.
    assert_eq!(
        state.set_container_state("c1", ContainerState::Running),
        Some(Command::StartContainer { id: "c1".to_string() })
    );
}

#[test]
fn without_a_connection_everything_reports_the_fixed_text() {
    let mut base = fill(disconnected());
    base.record_action("earlier".to_string());
    let mut expected = shown(&base);
    assert_eq!(expected.containers.len(), 1);
    assert_eq!(expected.images.len(), 2);
    assert_eq!(expected.volumes.len(), 1);
    assert_eq!(expected.error_message, None);
    expected.error_message = message(UNAVAILABLE);

    let mut state = base.clone();
    assert_eq!(state.refresh_containers(), None);
    assert_eq!(shown(&state), expected);

    let mut state = base.clone();
    assert_eq!(state.refresh_images(), None);
    assert_eq!(shown(&state), expected);

    let mut state = base.clone();
    assert_eq!(state.refresh_volumes(), None);
    assert_eq!(shown(&state), expected);

    let mut state = base.clone();
    assert_eq!(state.set_container_state("c1", ContainerState::Running), None);
    assert_eq!(shown(&state), expected);

    let mut state = base.clone();
    assert_eq!(state.set_container_state("c1", ContainerState::Stopped), None);
    assert_eq!(shown(&state), expected);

    let mut state = base.clone();
    assert_eq!(state.start_container("c1".to_string()), None);
    assert_eq!(shown(&state), expected);

    let mut state = base.clone();
    assert_eq!(state.stop_container("c1".to_string()), None);
    assert_eq!(shown(&state), expected);

    let mut state = base.clone();
    assert_eq!(state.refresh_all(), vec![]);
    assert_eq!(shown(&state), expected);
}

#[test]
fn without_a_connection_an_older_error_is_overwritten() {
    let mut state = disconnected();
    state.apply(Event::ImagesFetched(Err("old".to_string())));
    state.refresh_volumes();
    assert_eq!(*state.error_message(), message(UNAVAILABLE));
}

#[test]
fn of_two_failures_the_later_one_is_shown_alone() {
    let mut state = connected();
    state.apply(Event::ImagesFetched(Err("images down".to_string())));
    state.apply(Event::VolumesFetched(Err("volumes down".to_string())));
    assert_eq!(*state.error_message(), message("Failed to list volumes: volumes down"));

    let mut state = connected();
    state.apply(Event::VolumesFetched(Err("volumes down".to_string())));
    state.apply(Event::ImagesFetched(Err("images down".to_string())));
    assert_eq!(*state.error_message(), message("Failed to list images: images down"));
}

#[test]
fn a_success_of_any_kind_clears_the_error() {
    let mut state = connected();
    state.apply(Event::ContainersFetched(Err("down".to_string())));
    state.apply(Event::VolumesFetched(Ok(vec![volume("v")])));
    assert_eq!(*state.error_message(), None);
}

#[test]
fn record_action_overwrites_the_last_action_only() {
    let mut state = filled();
    state.apply(Event::ImagesFetched(Err("e".to_string())));
    let mut expected = shown(&state);
    state.record_action("first".to_string());
    state.record_action("second".to_string());
    expected.last_action = message("second");
    assert_eq!(shown(&state), expected);
}

#[test]
fn a_finished_start_without_a_connection_still_records_the_action() {
    let mut state = disconnected();
    let follow_up = state.apply(Event::StartFinished { id: "c".to_string(), outcome: Ok(()) });
    assert_eq!(follow_up, None);
    assert_eq!(*state.last_action(), message("Started container c"));
    assert_eq!(*state.error_message(), message(UNAVAILABLE));
}

#[test]
fn launch_creates_the_store_and_asks_for_everything() {
    let (state, commands) = AppState::launch(None, true);
    assert_eq!(state, connected());
    assert_eq!(state.docker_host(), SOCKET);
    assert_eq!(commands, vec![Command::ListContainers, Command::ListImages, Command::ListVolumes]);

    let (state, commands) = AppState::launch(Some("tcp://h:1".to_string()), true);
    assert_eq!(state, AppState::new("tcp://h:1".to_string(), true));
    assert_eq!(commands.len(), 3);
}

#[test]
fn launch_without_a_connection_reports_it_at_once() {
    let (state, commands) = AppState::launch(None, false);
    assert_eq!(commands, vec![]);
    let mut expected = shown(&disconnected());
    expected.error_message = message(UNAVAILABLE);
    assert_eq!(shown(&state), expected);
}
