//! The cached inventory and its transition rules.
//!
//! [`AppState`] holds what the front end shows. It never talks to the daemon
//! itself. An entry point such as [`AppState::refresh_containers`] hands the
//! caller a [`Command`] to carry out; the caller reports what became of it
//! as an [`Event`], and [`AppState::apply`] folds the event into the state.
//! Commands may be in flight side by side: every event is applied when it
//! arrives, so the event that arrives last decides what is shown.
//!
//! The rules are spec functions on [`StoreView`]; each executable function is
//! proved to follow its rule, and the `law_` functions state what the rules
//! imply.

use vstd::prelude::*;
use crate::records::{
    ContainerInfo, ContainerState, ContainerView, ImageInfo, ImageView, VolumeInfo, VolumeView,
};
use crate::text::contains_text;

verus! {

/// What the caller is asked to do against the daemon.
#[derive(Clone, Debug, PartialEq, Eq)]
pub enum Command {
    /// List all containers, running or not.
    ListContainers,
    /// List the tagged images.
    ListImages,
    /// List the volumes.
    ListVolumes,
    /// Start the container with this id, once.
    StartContainer { id: String },
    /// Stop the container with this id, once.
    StopContainer { id: String },
}

/// What the caller reports back.
#[derive(Debug, PartialEq, Eq)]
pub enum Event {
    /// A container listing is about to be sent to the daemon.
    ContainerFetchBegan,
    /// A container listing resolved, with the records or the cause of failure.
    ContainersFetched(Result<Vec<ContainerInfo>, String>),
    /// An image listing resolved.
    ImagesFetched(Result<Vec<ImageInfo>, String>),
    /// A volume listing resolved.
    VolumesFetched(Result<Vec<VolumeInfo>, String>),
    /// A start call for `id` resolved.
    StartFinished { id: String, outcome: Result<(), String> },
    /// A stop call for `id` resolved.
    StopFinished { id: String, outcome: Result<(), String> },
}

/// The inventory that the front end shows. It changes only through its
/// entry points and through [`AppState::apply`].
#[derive(Clone, Debug, PartialEq, Eq)]
pub struct AppState {
    docker_host: String,
    containers: Vec<ContainerInfo>,
    images: Vec<ImageInfo>,
    volumes: Vec<VolumeInfo>,
    last_action: Option<String>,
    error_message: Option<String>,
    is_loading: bool,
    service_available: bool,
}

/// What a [`Command`] denotes.
pub enum CommandView {
    ListContainers,
    ListImages,
    ListVolumes,
    StartContainer { id: Seq<char> },
    StopContainer { id: Seq<char> },
}

/// What an [`Event`] denotes.
pub enum EventView {
    ContainerFetchBegan,
    ContainersFetched(Result<Seq<ContainerView>, Seq<char>>),
    ImagesFetched(Result<Seq<ImageView>, Seq<char>>),
    VolumesFetched(Result<Seq<VolumeView>, Seq<char>>),
    StartFinished { id: Seq<char>, outcome: Result<(), Seq<char>> },
    StopFinished { id: Seq<char>, outcome: Result<(), Seq<char>> },
}

/// What an [`AppState`] denotes.
pub struct StoreView {
    /// Address of the daemon, as configured.
    pub docker_host: Seq<char>,
    /// Containers of the last successful listing, in the daemon's order.
    pub containers: Seq<ContainerView>,
    /// Images of the last successful listing, in the daemon's order.
    pub images: Seq<ImageView>,
    /// Volumes of the last successful listing, in the daemon's order.
    pub volumes: Seq<VolumeView>,
    /// Message of the most recent successful start or stop, or a recorded one.
    pub last_action: Option<Seq<char>>,
    /// Message of the most recent failure; a later success clears it.
    pub error_message: Option<Seq<char>>,
    /// Raised when a container listing begins, lowered when one resolves.
    pub is_loading: bool,
    /// Whether a connection to the daemon exists.
    pub service_available: bool,
}

impl View for Command {
    type V = CommandView;

    open spec fn view(&self) -> CommandView {
        match self {
            Command::ListContainers => CommandView::ListContainers,
            Command::ListImages => CommandView::ListImages,
            Command::ListVolumes => CommandView::ListVolumes,
            Command::StartContainer { id } => CommandView::StartContainer { id: id@ },
            Command::StopContainer { id } => CommandView::StopContainer { id: id@ },
        }
    }
}

impl DeepView for Command {
    type V = CommandView;

    open spec fn deep_view(&self) -> CommandView {
        self@
    }
}

impl View for Event {
    type V = EventView;

    open spec fn view(&self) -> EventView {
        match self {
            Event::ContainerFetchBegan => EventView::ContainerFetchBegan,
            Event::ContainersFetched(Ok(list)) => EventView::ContainersFetched(
                Ok(list.deep_view()),
            ),
            Event::ContainersFetched(Err(cause)) => EventView::ContainersFetched(Err(cause@)),
            Event::ImagesFetched(Ok(list)) => EventView::ImagesFetched(Ok(list.deep_view())),
            Event::ImagesFetched(Err(cause)) => EventView::ImagesFetched(Err(cause@)),
            Event::VolumesFetched(Ok(list)) => EventView::VolumesFetched(Ok(list.deep_view())),
            Event::VolumesFetched(Err(cause)) => EventView::VolumesFetched(Err(cause@)),
            Event::StartFinished { id, outcome: Ok(_) } => EventView::StartFinished {
                id: id@,
                outcome: Ok(()),
            },
            Event::StartFinished { id, outcome: Err(cause) } => EventView::StartFinished {
                id: id@,
                outcome: Err(cause@),
            },
            Event::StopFinished { id, outcome: Ok(_) } => EventView::StopFinished {
                id: id@,
                outcome: Ok(()),
            },
            Event::StopFinished { id, outcome: Err(cause) } => EventView::StopFinished {
                id: id@,
                outcome: Err(cause@),
            },
        }
    }
}

impl View for AppState {
    type V = StoreView;

    closed spec fn view(&self) -> StoreView {
        StoreView {
            docker_host: self.docker_host@,
            containers: self.containers.deep_view(),
            images: self.images.deep_view(),
            volumes: self.volumes.deep_view(),
            last_action: self.last_action.deep_view(),
            error_message: self.error_message.deep_view(),
            is_loading: self.is_loading,
            service_available: self.service_available,
        }
    }
}

/// Address used when none is configured.
pub open spec fn default_host_text() -> Seq<char> {
    "unix:///var/run/docker.sock"@
}

/// The address that is shown: the configured one, or the default.
pub open spec fn resolved_host(configured: Option<Seq<char>>) -> Seq<char> {
    match configured {
        Some(address) => address,
        None => default_host_text(),
    }
}

/// The message shown when an operation needs the daemon and no connection
/// exists.
pub open spec fn unavailable_text() -> Seq<char> {
    "Docker service not available"@
}

/// The message for a failed container listing.
pub open spec fn containers_failure_text(cause: Seq<char>) -> Seq<char> {
    "Failed to list containers: "@ + cause
}

/// The message for a failed image listing.
pub open spec fn images_failure_text(cause: Seq<char>) -> Seq<char> {
    "Failed to list images: "@ + cause
}

/// The message for a failed volume listing.
pub open spec fn volumes_failure_text(cause: Seq<char>) -> Seq<char> {
    "Failed to list volumes: "@ + cause
}

/// The message for a failed start.
pub open spec fn start_failure_text(cause: Seq<char>) -> Seq<char> {
    "Failed to start container: "@ + cause
}

/// The message for a failed stop.
pub open spec fn stop_failure_text(cause: Seq<char>) -> Seq<char> {
    "Failed to stop container: "@ + cause
}

/// The action message after a start.
pub open spec fn started_text(id: Seq<char>) -> Seq<char> {
    "Started container "@ + id
}

/// The action message after a stop.
pub open spec fn stopped_text(id: Seq<char>) -> Seq<char> {
    "Stopped container "@ + id
}

/// The command that moves the container `id` to the state `target`.
pub open spec fn command_toward(id: Seq<char>, target: ContainerState) -> CommandView {
    match target {
        ContainerState::Running => CommandView::StartContainer { id },
        ContainerState::Stopped => CommandView::StopContainer { id },
    }
}

/// The commands of an optional command: one or none.
pub open spec fn issued(command: Option<CommandView>) -> Seq<CommandView> {
    match command {
        Some(command) => seq![command],
        None => Seq::empty(),
    }
}

impl StoreView {
    /// The state at start-up: empty caches, no message, not loading.
    pub open spec fn initial(docker_host: Seq<char>, service_available: bool) -> StoreView {
        StoreView {
            docker_host,
            containers: Seq::empty(),
            images: Seq::empty(),
            volumes: Seq::empty(),
            last_action: None,
            error_message: None,
            is_loading: false,
            service_available,
        }
    }

    /// This state with `message` as its error message.
    pub open spec fn failed_with(self, message: Seq<char>) -> StoreView {
        StoreView { error_message: Some(message), ..self }
    }

    /// The rule of every entry point that needs the daemon. With a
    /// connection the command goes out and the state stays as it is; without
    /// one no command goes out and the error message becomes the fixed text.
    pub open spec fn request(self, command: CommandView) -> (StoreView, Option<CommandView>) {
        if self.service_available {
            (self, Some(command))
        } else {
            (self.failed_with(unavailable_text()), None)
        }
    }

    /// Rule of [`AppState::refresh_containers`].
    pub open spec fn refresh_containers(self) -> (StoreView, Option<CommandView>) {
        self.request(CommandView::ListContainers)
    }

    /// Rule of [`AppState::refresh_images`].
    pub open spec fn refresh_images(self) -> (StoreView, Option<CommandView>) {
        self.request(CommandView::ListImages)
    }

    /// Rule of [`AppState::refresh_volumes`].
    pub open spec fn refresh_volumes(self) -> (StoreView, Option<CommandView>) {
        self.request(CommandView::ListVolumes)
    }

    /// Rule of [`AppState::refresh_all`]: the three refreshes one after the
    /// other, containers first, with the commands in that order.
    pub open spec fn refresh_all(self) -> (StoreView, Seq<CommandView>) {
        let (first, containers) = self.refresh_containers();
        let (second, images) = first.refresh_images();
        let (third, volumes) = second.refresh_volumes();
        (third, issued(containers) + issued(images) + issued(volumes))
    }

    /// Rule of [`AppState::set_container_state`].
    pub open spec fn set_container_state(self, id: Seq<char>, target: ContainerState) -> (
        StoreView,
        Option<CommandView>,
    ) {
        self.request(command_toward(id, target))
    }

    /// Rule of [`AppState::record_action`].
    pub open spec fn record_action(self, message: Seq<char>) -> StoreView {
        StoreView { last_action: Some(message), ..self }
    }

    /// The state after a start or stop succeeded, before the container
    /// refresh that follows it.
    pub open spec fn acted(self, message: Seq<char>) -> StoreView {
        StoreView { last_action: Some(message), error_message: None, ..self }
    }

    /// Rule of [`AppState::apply`]: the state after `event`, and the command
    /// that follows from it, if any.
    ///
    /// A listing that succeeded replaces its cache and clears the error
    /// message; one that failed keeps the cache and sets the message. Only a
    /// container listing touches the loading flag: it is raised when the
    /// listing begins and lowered when it resolves, whatever the outcome. A
    /// start or stop that succeeded records the action, clears the error
    /// message and asks for a container refresh; one that failed only sets
    /// the error message.
    pub open spec fn apply(self, event: EventView) -> (StoreView, Option<CommandView>) {
        match event {
            EventView::ContainerFetchBegan => (StoreView { is_loading: true, ..self }, None),
            EventView::ContainersFetched(Ok(list)) => (
                StoreView { containers: list, error_message: None, is_loading: false, ..self },
                None,
            ),
            EventView::ContainersFetched(Err(cause)) => (
                StoreView {
                    error_message: Some(containers_failure_text(cause)),
                    is_loading: false,
                    ..self
                },
                None,
            ),
            EventView::ImagesFetched(Ok(list)) => (
                StoreView { images: list, error_message: None, ..self },
                None,
            ),
            EventView::ImagesFetched(Err(cause)) => (
                self.failed_with(images_failure_text(cause)),
                None,
            ),
            EventView::VolumesFetched(Ok(list)) => (
                StoreView { volumes: list, error_message: None, ..self },
                None,
            ),
            EventView::VolumesFetched(Err(cause)) => (
                self.failed_with(volumes_failure_text(cause)),
                None,
            ),
            EventView::StartFinished { id, outcome: Ok(_) } => self.acted(
                started_text(id),
            ).refresh_containers(),
            EventView::StartFinished { id, outcome: Err(cause) } => (
                self.failed_with(start_failure_text(cause)),
                None,
            ),
            EventView::StopFinished { id, outcome: Ok(_) } => self.acted(
                stopped_text(id),
            ).refresh_containers(),
            EventView::StopFinished { id, outcome: Err(cause) } => (
                self.failed_with(stop_failure_text(cause)),
                None,
            ),
        }
    }
}

/// One thing that can happen to the store: a call of an entry point, or an
/// event.
pub enum Step {
    RefreshAll,
    RefreshContainers,
    RefreshImages,
    RefreshVolumes,
    SetContainerState { id: Seq<char>, target: ContainerState },
    RecordAction { message: Seq<char> },
    Arrival(EventView),
}

/// The state after one step.
pub open spec fn after_step(state: StoreView, step: Step) -> StoreView {
    match step {
        Step::RefreshAll => state.refresh_all().0,
        Step::RefreshContainers => state.refresh_containers().0,
        Step::RefreshImages => state.refresh_images().0,
        Step::RefreshVolumes => state.refresh_volumes().0,
        Step::SetContainerState { id, target } => state.set_container_state(id, target).0,
        Step::RecordAction { message } => state.record_action(message),
        Step::Arrival(event) => state.apply(event).0,
    }
}

/// The state after a history of steps, oldest first.
pub open spec fn after_steps(state: StoreView, steps: Seq<Step>) -> StoreView
    decreases steps.len(),
{
    if steps.len() == 0 {
        state
    } else {
        after_step(after_steps(state, steps.drop_last()), steps.last())
    }
}

/// Container listings that have begun and not resolved at the end of a
/// history.
pub open spec fn open_container_fetches(steps: Seq<Step>) -> int
    decreases steps.len(),
{
    if steps.len() == 0 {
        0
    } else {
        open_container_fetches(steps.drop_last()) + match steps.last() {
            Step::Arrival(EventView::ContainerFetchBegan) => 1int,
            Step::Arrival(EventView::ContainersFetched(_)) => -1int,
            _ => 0int,
        }
    }
}

/// A history in which no container listing resolves before it began.
pub open spec fn orderly(steps: Seq<Step>) -> bool {
    forall|n: int| 0 <= n <= steps.len() ==> open_container_fetches(#[trigger] steps.take(n)) >= 0
}

/// A container refresh that fails leaves the cached containers as they were
/// and sets a non-empty error message; one that succeeds replaces the cache
/// by the fresh listing and clears the error message. This holds in
/// whatever state the listing resolves.
pub proof fn law_container_refresh_outcome(
    state: StoreView,
    fresh: Seq<ContainerView>,
    cause: Seq<char>,
)
    ensures
        state.apply(EventView::ContainersFetched(Err(cause))).0.containers == state.containers,
        state.apply(EventView::ContainersFetched(Err(cause))).0.error_message == Some(
            containers_failure_text(cause),
        ),
        containers_failure_text(cause).len() > 0,
        state.apply(EventView::ContainersFetched(Ok(fresh))).0.containers == fresh,
        state.apply(EventView::ContainersFetched(Ok(fresh))).0.error_message is None,
{
    reveal_strlit("Failed to list containers: ");
}

/// One undisturbed container refresh on a connected store, from the entry
/// point to the resolution: the entry point asks for the listing and changes
/// nothing, the flag is up while the listing is open, and the resolution
/// lowers it and leaves the outcome as the law above says.
pub proof fn law_container_refresh_round(
    state: StoreView,
    fresh: Seq<ContainerView>,
    cause: Seq<char>,
)
    requires
        state.service_available,
    ensures
        state.refresh_containers() == (state, Some(CommandView::ListContainers)),
        ({
            let begun = state.apply(EventView::ContainerFetchBegan).0;
            let failed = begun.apply(EventView::ContainersFetched(Err(cause))).0;
            let listed = begun.apply(EventView::ContainersFetched(Ok(fresh))).0;
            &&& begun == StoreView { is_loading: true, ..state }
            &&& failed == StoreView {
                error_message: Some(containers_failure_text(cause)),
                is_loading: false,
                ..state
            }
            &&& listed == StoreView {
                containers: fresh,
                error_message: None,
                is_loading: false,
                ..state
            }
        }),
{
}

/// The loading flag is down at start-up; the beginning of a container
/// listing raises it; every resolved container listing lowers it, whatever
/// the outcome; and no other step raises it.
pub proof fn law_loading_flag_steps(
    docker_host: Seq<char>,
    service_available: bool,
    state: StoreView,
    outcome: Result<Seq<ContainerView>, Seq<char>>,
    step: Step,
)
    ensures
        !StoreView::initial(docker_host, service_available).is_loading,
        state.apply(EventView::ContainerFetchBegan).0.is_loading,
        !state.apply(EventView::ContainersFetched(outcome)).0.is_loading,
        step != Step::Arrival(EventView::ContainerFetchBegan) && !state.is_loading ==> !after_step(
            state,
            step,
        ).is_loading,
{
}

/// The loading flag stays down as long as no container listing has begun.
pub proof fn law_idle_before_first_container_fetch(
    docker_host: Seq<char>,
    service_available: bool,
    steps: Seq<Step>,
)
    requires
        forall|n: int| 0 <= n < steps.len() ==> steps[n] != Step::Arrival(
            EventView::ContainerFetchBegan,
        ),
    ensures
        !after_steps(StoreView::initial(docker_host, service_available), steps).is_loading,
    decreases steps.len(),
{
    if steps.len() > 0 {
        let earlier = steps.drop_last();
        law_idle_before_first_container_fetch(docker_host, service_available, earlier);
        law_loading_flag_steps(
            docker_host,
            service_available,
            after_steps(StoreView::initial(docker_host, service_available), earlier),
            Ok(Seq::empty()),
            steps.last(),
        );
    }
}

/// Whenever the loading flag is up, a container listing has begun and not
/// resolved: in every orderly history from start-up, a raised flag means at
/// least one open container listing.
pub proof fn law_loading_only_during_container_fetch(
    docker_host: Seq<char>,
    service_available: bool,
    steps: Seq<Step>,
)
    requires
        orderly(steps),
    ensures
        after_steps(StoreView::initial(docker_host, service_available), steps).is_loading
            ==> open_container_fetches(steps) > 0,
    decreases steps.len(),
{
    if steps.len() > 0 {
        let earlier = steps.drop_last();
        assert forall|n: int| 0 <= n <= earlier.len() implies open_container_fetches(
            #[trigger] earlier.take(n),
        ) >= 0 by {
            assert(earlier.take(n) =~= steps.take(n));
        }
        law_loading_only_during_container_fetch(docker_host, service_available, earlier);
    }
}

/// A start that succeeds sets the last action to a message that contains
/// the id, clears the error message and asks for a container listing; one
/// that fails leaves the last action as it was, sets the error message and
/// asks for nothing.
pub proof fn law_start_outcome(state: StoreView, id: Seq<char>, cause: Seq<char>)
    requires
        state.service_available,
    ensures
        state.set_container_state(id, ContainerState::Running) == (
            state,
            Some(CommandView::StartContainer { id }),
        ),
        ({
            let (next, follow_up) = state.apply(EventView::StartFinished { id, outcome: Ok(()) });
            &&& next.last_action matches Some(message) && contains_text(message, id)
            &&& next.error_message is None
            &&& follow_up == Some(CommandView::ListContainers)
            &&& next.containers == state.containers
        }),
        ({
            let (next, follow_up) = state.apply(
                EventView::StartFinished { id, outcome: Err(cause) },
            );
            &&& next.last_action == state.last_action
            &&& next.error_message == Some(start_failure_text(cause))
            &&& follow_up is None
            &&& next.containers == state.containers
        }),
{
    let message = started_text(id);
    let at = "Started container "@.len() as int;
    assert(message.subrange(at, at + id.len()) =~= id);
}

/// A stop that succeeds sets the last action to a message that contains the
/// id, clears the error message and asks for a container listing; one that
/// fails leaves the last action as it was, sets the error message and asks
/// for nothing.
pub proof fn law_stop_outcome(state: StoreView, id: Seq<char>, cause: Seq<char>)
    requires
        state.service_available,
    ensures
        state.set_container_state(id, ContainerState::Stopped) == (
            state,
            Some(CommandView::StopContainer { id }),
        ),
        ({
            let (next, follow_up) = state.apply(EventView::StopFinished { id, outcome: Ok(()) });
            &&& next.last_action matches Some(message) && contains_text(message, id)
            &&& next.error_message is None
            &&& follow_up == Some(CommandView::ListContainers)
            &&& next.containers == state.containers
        }),
        ({
            let (next, follow_up) = state.apply(
                EventView::StopFinished { id, outcome: Err(cause) },
            );
            &&& next.last_action == state.last_action
            &&& next.error_message == Some(stop_failure_text(cause))
            &&& follow_up is None
            &&& next.containers == state.containers
        }),
{
    let message = stopped_text(id);
    let at = "Stopped container "@.len() as int;
    assert(message.subrange(at, at + id.len()) =~= id);
}

/// Without a connection every entry point that needs the daemon leaves the
/// caches, the last action and the loading flag as they were, sets the error
/// message to the fixed text and issues no command.
pub proof fn law_without_service(state: StoreView, id: Seq<char>, target: ContainerState)
    requires
        !state.service_available,
    ensures
        state.refresh_containers() == (state.failed_with(unavailable_text()), None::<CommandView>),
        state.refresh_images() == (state.failed_with(unavailable_text()), None::<CommandView>),
        state.refresh_volumes() == (state.failed_with(unavailable_text()), None::<CommandView>),
        state.set_container_state(id, target) == (
            state.failed_with(unavailable_text()),
            None::<CommandView>,
        ),
        state.refresh_all() == (state.failed_with(unavailable_text()), Seq::<CommandView>::empty()),
        state.failed_with(unavailable_text()).containers == state.containers,
        state.failed_with(unavailable_text()).images == state.images,
        state.failed_with(unavailable_text()).volumes == state.volumes,
        state.failed_with(unavailable_text()).last_action == state.last_action,
        state.failed_with(unavailable_text()).is_loading == state.is_loading,
        state.failed_with(unavailable_text()).error_message == Some(unavailable_text()),
{
}

/// With a connection a full refresh changes nothing and asks for the three
/// listings, containers first.
pub proof fn law_refresh_all_with_service(state: StoreView)
    requires
        state.service_available,
    ensures
        state.refresh_all() == (
            state,
            seq![CommandView::ListContainers, CommandView::ListImages, CommandView::ListVolumes],
        ),
{
    assert(state.refresh_all().1 =~= seq![
        CommandView::ListContainers,
        CommandView::ListImages,
        CommandView::ListVolumes,
    ]);
}

/// When an image listing and a volume listing both fail, the error message
/// is the message of the one that resolved last, alone: the earlier message
/// is overwritten, not kept beside it.
pub proof fn law_last_failure_wins(
    state: StoreView,
    images_cause: Seq<char>,
    volumes_cause: Seq<char>,
)
    ensures
        state.apply(EventView::ImagesFetched(Err(images_cause))).0.apply(
            EventView::VolumesFetched(Err(volumes_cause)),
        ).0.error_message == Some(volumes_failure_text(volumes_cause)),
        state.apply(EventView::VolumesFetched(Err(volumes_cause))).0.apply(
            EventView::ImagesFetched(Err(images_cause)),
        ).0.error_message == Some(images_failure_text(images_cause)),
{
}

/// A call that failed is not tried again: no failure, of a listing or of a
/// start or stop, is followed by a command.
pub proof fn law_failures_are_not_retried(state: StoreView, id: Seq<char>, cause: Seq<char>)
    ensures
        state.apply(EventView::ContainersFetched(Err(cause))).1 is None,
        state.apply(EventView::ImagesFetched(Err(cause))).1 is None,
        state.apply(EventView::VolumesFetched(Err(cause))).1 is None,
        state.apply(EventView::StartFinished { id, outcome: Err(cause) }).1 is None,
        state.apply(EventView::StopFinished { id, outcome: Err(cause) }).1 is None,
{
}

/// Of two listings of the same kind that both succeed, the one that
/// resolved last is the one that is shown, whichever was asked for first.
pub proof fn law_last_listing_wins(
    state: StoreView,
    earlier: Seq<ContainerView>,
    later: Seq<ContainerView>,
)
    ensures
        state.apply(EventView::ContainersFetched(Ok(earlier))).0.apply(
            EventView::ContainersFetched(Ok(later)),
        ).0.containers == later,
{
}

/// A listing of one kind never touches the caches of the other kinds, and
/// only a container listing touches the loading flag.
pub proof fn law_kinds_are_independent(state: StoreView, event: EventView)
    ensures
        !(event is ContainersFetched) ==> state.apply(event).0.containers == state.containers,
        !(event is ImagesFetched) ==> state.apply(event).0.images == state.images,
        !(event is VolumesFetched) ==> state.apply(event).0.volumes == state.volumes,
        !(event is ContainersFetched) && !(event is ContainerFetchBegan) ==> state.apply(
            event,
        ).0.is_loading == state.is_loading,
{
}

/// The daemon address and the presence of a connection are fixed at
/// start-up: no step changes them.
pub proof fn law_connection_is_fixed(state: StoreView, step: Step)
    ensures
        after_step(state, step).docker_host == state.docker_host,
        after_step(state, step).service_available == state.service_available,
{
}

fn prefixed(prefix: &str, rest: &str) -> (text: String)
    ensures
        text@ == prefix@ + rest@,
{
    let mut text = prefix.to_owned();
    text.append(rest);
    text
}

/// The daemon address to show: the configured one, or the default local
/// socket when none is configured.
pub fn resolve_host(configured: Option<String>) -> (host: String)
    ensures
        host@ == resolved_host(configured.deep_view()),
{
    match configured {
        Some(address) => address,
        None => "unix:///var/run/docker.sock".to_owned(),
    }
}

impl AppState {
    /// Creates the store at start-up. `service_available` says whether the
    /// connection to the daemon could be made; it never changes afterwards.
    pub fn new(docker_host: String, service_available: bool) -> (state: AppState)
        ensures
            state@ == StoreView::initial(docker_host@, service_available),
    {
        let state = AppState {
            docker_host,
            containers: Vec::new(),
            images: Vec::new(),
            volumes: Vec::new(),
            last_action: None,
            error_message: None,
            is_loading: false,
            service_available,
        };
        assert(state@.containers =~= Seq::empty());
        assert(state@.images =~= Seq::empty());
        assert(state@.volumes =~= Seq::empty());
        state
    }

    /// Start-up in one call: resolves the daemon address, creates the store
    /// and asks for the first full refresh.
    pub fn launch(configured_host: Option<String>, service_available: bool) -> (started: (
        AppState,
        Vec<Command>,
    ))
        ensures
            (started.0@, started.1.deep_view()) == StoreView::initial(
                resolved_host(configured_host.deep_view()),
                service_available,
            ).refresh_all(),
    {
        let mut state = AppState::new(resolve_host(configured_host), service_available);
        let commands = state.refresh_all();
        (state, commands)
    }

    /// Address of the daemon, as configured.
    pub fn docker_host(&self) -> (host: &String)
        ensures
            host@ == self@.docker_host,
    {
        &self.docker_host
    }

    /// Containers of the last successful listing, in the daemon's order.
    pub fn containers(&self) -> (list: &Vec<ContainerInfo>)
        ensures
            list.deep_view() == self@.containers,
    {
        &self.containers
    }

    /// Images of the last successful listing, in the daemon's order.
    pub fn images(&self) -> (list: &Vec<ImageInfo>)
        ensures
            list.deep_view() == self@.images,
    {
        &self.images
    }

    /// Volumes of the last successful listing, in the daemon's order.
    pub fn volumes(&self) -> (list: &Vec<VolumeInfo>)
        ensures
            list.deep_view() == self@.volumes,
    {
        &self.volumes
    }

    /// Message of the most recent successful start or stop, or a recorded one.
    pub fn last_action(&self) -> (message: &Option<String>)
        ensures
            message.deep_view() == self@.last_action,
    {
        &self.last_action
    }

    /// Message of the most recent failure, unless a later success cleared it.
    pub fn error_message(&self) -> (message: &Option<String>)
        ensures
            message.deep_view() == self@.error_message,
    {
        &self.error_message
    }

    /// The loading flag: raised when a container listing begins, lowered
    /// when one resolves.
    pub fn is_loading(&self) -> (loading: bool)
        ensures
            loading == self@.is_loading,
    {
        self.is_loading
    }

    /// Whether a connection to the daemon exists.
    pub fn service_available(&self) -> (available: bool)
        ensures
            available == self@.service_available,
    {
        self.service_available
    }

    fn request(&mut self, command: Command) -> (issued: Option<Command>)
        ensures
            (final(self)@, issued.deep_view()) == old(self)@.request(command@),
    {
        if self.service_available {
            Some(command)
        } else {
            self.error_message = Some("Docker service not available".to_owned());
            None
        }
    }

    /// Asks for the three listings, containers first, then images, then
    /// volumes. Without a connection it asks for none and sets the error
    /// message.
    pub fn refresh_all(&mut self) -> (commands: Vec<Command>)
        ensures
            (final(self)@, commands.deep_view()) == old(self)@.refresh_all(),
    {
        let mut commands: Vec<Command> = Vec::new();
        let containers = self.refresh_containers();
        let images = self.refresh_images();
        let volumes = self.refresh_volumes();
        match containers {
            Some(command) => commands.push(command),
            None => {},
        }
        match images {
            Some(command) => commands.push(command),
            None => {},
        }
        match volumes {
            Some(command) => commands.push(command),
            None => {},
        }
        commands
    }

    /// Asks for a container listing, or sets the error message when there is
    /// no connection.
    pub fn refresh_containers(&mut self) -> (command: Option<Command>)
        ensures
            (final(self)@, command.deep_view()) == old(self)@.refresh_containers(),
    {
        self.request(Command::ListContainers)
    }

    /// Asks for an image listing, or sets the error message when there is no
    /// connection.
    pub fn refresh_images(&mut self) -> (command: Option<Command>)
        ensures
            (final(self)@, command.deep_view()) == old(self)@.refresh_images(),
    {
        self.request(Command::ListImages)
    }

    /// Asks for a volume listing, or sets the error message when there is no
    /// connection.
    pub fn refresh_volumes(&mut self) -> (command: Option<Command>)
        ensures
            (final(self)@, command.deep_view()) == old(self)@.refresh_volumes(),
    {
        self.request(Command::ListVolumes)
    }

    /// Asks for the container `id` to be started.
    pub fn start_container(&mut self, id: String) -> (command: Option<Command>)
        ensures
            (final(self)@, command.deep_view()) == old(self)@.set_container_state(
                id@,
                ContainerState::Running,
            ),
    {
        self.request(Command::StartContainer { id })
    }

    /// Asks for the container `id` to be stopped.
    pub fn stop_container(&mut self, id: String) -> (command: Option<Command>)
        ensures
            (final(self)@, command.deep_view()) == old(self)@.set_container_state(
                id@,
                ContainerState::Stopped,
            ),
    {
        self.request(Command::StopContainer { id })
    }

    /// Asks for the container `id` to be moved to `next_state`: started for
    /// `Running`, stopped for `Stopped`, whatever state it is in.
    pub fn set_container_state(&mut self, id: &str, next_state: ContainerState) -> (command: Option<
        Command,
    >)
        ensures
            (final(self)@, command.deep_view()) == old(self)@.set_container_state(id@, next_state),
    {
        match next_state {
            ContainerState::Running => self.start_container(id.to_owned()),
            ContainerState::Stopped => self.stop_container(id.to_owned()),
        }
    }

    /// Sets the last action to `message`.
    pub fn record_action(&mut self, message: String)
        ensures
            final(self)@ == old(self)@.record_action(message@),
    {
        self.last_action = Some(message);
    }

    /// Folds an event into the state and returns the command that follows
    /// from it: a container listing after a start or stop that succeeded,
    /// nothing otherwise.
    pub fn apply(&mut self, event: Event) -> (command: Option<Command>)
        ensures
            (final(self)@, command.deep_view()) == old(self)@.apply(event@),
    {
        match event {
            Event::ContainerFetchBegan => {
                self.is_loading = true;
                None
            },
            Event::ContainersFetched(Ok(list)) => {
                self.containers = list;
                self.error_message = None;
                self.is_loading = false;
                None
            },
            Event::ContainersFetched(Err(cause)) => {
                self.error_message = Some(prefixed("Failed to list containers: ", cause.as_str()));
                self.is_loading = false;
                None
            },
            Event::ImagesFetched(Ok(list)) => {
                self.images = list;
                self.error_message = None;
                None
            },
            Event::ImagesFetched(Err(cause)) => {
                self.error_message = Some(prefixed("Failed to list images: ", cause.as_str()));
                None
            },
            Event::VolumesFetched(Ok(list)) => {
                self.volumes = list;
                self.error_message = None;
                None
            },
            Event::VolumesFetched(Err(cause)) => {
                self.error_message = Some(prefixed("Failed to list volumes: ", cause.as_str()));
                None
            },
            Event::StartFinished { id, outcome: Ok(_) } => {
                self.last_action = Some(prefixed("Started container ", id.as_str()));
                self.error_message = None;
                self.refresh_containers()
            },
            Event::StartFinished { id, outcome: Err(cause) } => {
                self.error_message = Some(prefixed("Failed to start container: ", cause.as_str()));
                None
            },
            Event::StopFinished { id, outcome: Ok(_) } => {
                self.last_action = Some(prefixed("Stopped container ", id.as_str()));
                self.error_message = None;
                self.refresh_containers()
            },
            Event::StopFinished { id, outcome: Err(cause) } => {
                self.error_message = Some(prefixed("Failed to stop container: ", cause.as_str()));
                None
            },
        }
    }
}

} // verus!
