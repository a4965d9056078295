//! Display records for containers, images and volumes, and the rules that
//! derive them from what the daemon reports.
//!
//! The daemon's answers arrive as raw records with optional fields. Each
//! rule here is a spec function over the characters of those fields; the
//! executable functions are proved to compute exactly that.

use vstd::prelude::*;
use crate::size::{format_size, size_label};
use crate::text::{
    append_decimal, cut_at_first, decimal, field_before, rest_after, take_chars, trim_leading,
    trim_leading_char,
};

verus! {

/// Runtime state of a container as the front end shows it.
#[derive(Clone, Copy, Debug, PartialEq, Eq, Structural)]
pub enum ContainerState {
    /// The daemon reports the container as running.
    Running,
    /// Anything else, including a missing report.
    Stopped,
}

impl ContainerState {
    /// Text of [`ContainerState::label`].
    pub open spec fn label_text(self) -> Seq<char> {
        match self {
            ContainerState::Running => "Running"@,
            ContainerState::Stopped => "Stopped"@,
        }
    }

    /// Text of [`ContainerState::css_class`].
    pub open spec fn css_class_text(self) -> Seq<char> {
        match self {
            ContainerState::Running => "running"@,
            ContainerState::Stopped => "stopped"@,
        }
    }

    /// Text of [`ContainerState::action_label`].
    pub open spec fn action_label_text(self) -> Seq<char> {
        match self {
            ContainerState::Running => "Stop"@,
            ContainerState::Stopped => "Start"@,
        }
    }

    /// Human-readable name of the state.
    pub fn label(&self) -> (text: &'static str)
        ensures
            text@ == self.label_text(),
    {
        match self {
            ContainerState::Running => "Running",
            ContainerState::Stopped => "Stopped",
        }
    }

    /// Style class used to colour the state.
    pub fn css_class(&self) -> (text: &'static str)
        ensures
            text@ == self.css_class_text(),
    {
        match self {
            ContainerState::Running => "running",
            ContainerState::Stopped => "stopped",
        }
    }

    /// Caption of the button that toggles the state.
    pub fn action_label(&self) -> (text: &'static str)
        ensures
            text@ == self.action_label_text(),
    {
        match self {
            ContainerState::Running => "Stop",
            ContainerState::Stopped => "Start",
        }
    }
}

/// Number of characters of a daemon id that are shown.
pub const SHORT_ID_LEN: usize = 12;

/// A container as the front end lists it.
#[derive(Clone, Debug, PartialEq, Eq)]
pub struct ContainerInfo {
    /// Leading characters of the daemon's id, or `unknown`.
    pub id: String,
    /// First alias without its leading slashes, or `unnamed`.
    pub name: String,
    /// Image the container was created from, or `unknown`.
    pub image: String,
    /// The daemon's status line, or `unknown`.
    pub status: String,
    /// Port mappings joined by `", "`, or `--` when there are none.
    pub ports: String,
    /// Whether the daemon reports the container as running.
    pub state: ContainerState,
}

/// An image as the front end lists it.
#[derive(Clone, Debug, PartialEq, Eq)]
pub struct ImageInfo {
    /// The daemon's id of the image.
    pub id: String,
    /// Repository part of the first tag, or `<none>`.
    pub repository: String,
    /// Tag part of the first tag, or `<none>`.
    pub tag: String,
    /// Size label of the image.
    pub size: String,
}

/// A volume as the front end lists it.
#[derive(Clone, Debug, PartialEq, Eq)]
pub struct VolumeInfo {
    /// Name of the volume.
    pub name: String,
    /// Storage driver of the volume.
    pub driver: String,
    /// Path at which the volume is mounted.
    pub mountpoint: String,
    /// Size label; the daemon does not report a size in a listing.
    pub size: String,
}

/// A published or exposed port, as the daemon reports it.
#[derive(Clone, Copy, Debug, PartialEq, Eq, Structural)]
pub struct RawPort {
    /// Port inside the container.
    pub private_port: u16,
    /// Port on the host, when the port is published.
    pub public_port: Option<u16>,
}

/// A container as the daemon reports it.
#[derive(Clone, Debug, PartialEq, Eq)]
pub struct RawContainer {
    /// Full id that the daemon assigned.
    pub id: Option<String>,
    /// Aliases of the container, each with a leading slash.
    pub names: Option<Vec<String>>,
    /// Image the container was created from.
    pub image: Option<String>,
    /// Free-form status line, such as `Up 3 hours`.
    pub status: Option<String>,
    /// Ports of the container.
    pub ports: Option<Vec<RawPort>>,
    /// State word, such as `running` or `exited`.
    pub state: Option<String>,
}

/// An image as the daemon reports it.
#[derive(Clone, Debug, PartialEq, Eq)]
pub struct RawImage {
    /// The daemon's id of the image.
    pub id: String,
    /// Tag texts of the form `repo:tag`.
    pub repo_tags: Vec<String>,
    /// Size in bytes.
    pub size: i64,
}

/// A volume as the daemon reports it.
#[derive(Clone, Debug, PartialEq, Eq)]
pub struct RawVolume {
    /// Name of the volume.
    pub name: String,
    /// Storage driver of the volume.
    pub driver: String,
    /// Path at which the volume is mounted.
    pub mountpoint: String,
}

/// What a [`ContainerInfo`] denotes.
pub struct ContainerView {
    pub id: Seq<char>,
    pub name: Seq<char>,
    pub image: Seq<char>,
    pub status: Seq<char>,
    pub ports: Seq<char>,
    pub state: ContainerState,
}

/// What an [`ImageInfo`] denotes.
pub struct ImageView {
    pub id: Seq<char>,
    pub repository: Seq<char>,
    pub tag: Seq<char>,
    pub size: Seq<char>,
}

/// What a [`VolumeInfo`] denotes.
pub struct VolumeView {
    pub name: Seq<char>,
    pub driver: Seq<char>,
    pub mountpoint: Seq<char>,
    pub size: Seq<char>,
}

/// What a [`RawContainer`] denotes.
pub struct RawContainerView {
    pub id: Option<Seq<char>>,
    pub names: Option<Seq<Seq<char>>>,
    pub image: Option<Seq<char>>,
    pub status: Option<Seq<char>>,
    pub ports: Option<Seq<RawPort>>,
    pub state: Option<Seq<char>>,
}

/// What a [`RawImage`] denotes.
pub struct RawImageView {
    pub id: Seq<char>,
    pub repo_tags: Seq<Seq<char>>,
    pub size: int,
}

/// What a [`RawVolume`] denotes.
pub struct RawVolumeView {
    pub name: Seq<char>,
    pub driver: Seq<char>,
    pub mountpoint: Seq<char>,
}

impl View for ContainerInfo {
    type V = ContainerView;

    open spec fn view(&self) -> ContainerView {
        ContainerView {
            id: self.id@,
            name: self.name@,
            image: self.image@,
            status: self.status@,
            ports: self.ports@,
            state: self.state,
        }
    }
}

impl DeepView for ContainerInfo {
    type V = ContainerView;

    open spec fn deep_view(&self) -> ContainerView {
        self@
    }
}

impl View for ImageInfo {
    type V = ImageView;

    open spec fn view(&self) -> ImageView {
        ImageView { id: self.id@, repository: self.repository@, tag: self.tag@, size: self.size@ }
    }
}

impl DeepView for ImageInfo {
    type V = ImageView;

    open spec fn deep_view(&self) -> ImageView {
        self@
    }
}

impl View for VolumeInfo {
    type V = VolumeView;

    open spec fn view(&self) -> VolumeView {
        VolumeView {
            name: self.name@,
            driver: self.driver@,
            mountpoint: self.mountpoint@,
            size: self.size@,
        }
    }
}

impl DeepView for VolumeInfo {
    type V = VolumeView;

    open spec fn deep_view(&self) -> VolumeView {
        self@
    }
}

impl View for RawContainer {
    type V = RawContainerView;

    open spec fn view(&self) -> RawContainerView {
        RawContainerView {
            id: self.id.deep_view(),
            names: self.names.deep_view(),
            image: self.image.deep_view(),
            status: self.status.deep_view(),
            ports: match self.ports {
                Some(ports) => Some(ports@),
                None => None,
            },
            state: self.state.deep_view(),
        }
    }
}

impl View for RawImage {
    type V = RawImageView;

    open spec fn view(&self) -> RawImageView {
        RawImageView {
            id: self.id@,
            repo_tags: self.repo_tags.deep_view(),
            size: self.size as int,
        }
    }
}

impl View for RawVolume {
    type V = RawVolumeView;

    open spec fn view(&self) -> RawVolumeView {
        RawVolumeView { name: self.name@, driver: self.driver@, mountpoint: self.mountpoint@ }
    }
}

/// The shown id: the first twelve characters of the daemon's id, the whole
/// id when it is shorter, `unknown` when the daemon gave none.
pub open spec fn short_id(id: Option<Seq<char>>) -> Seq<char> {
    match id {
        Some(full) => if full.len() <= SHORT_ID_LEN {
            full
        } else {
            full.take(SHORT_ID_LEN as int)
        },
        None => "unknown"@,
    }
}

/// The shown name: the first alias without its leading slashes, `unnamed`
/// when the daemon gave no alias.
pub open spec fn display_name(names: Option<Seq<Seq<char>>>) -> Seq<char> {
    match names {
        Some(aliases) => if aliases.len() > 0 {
            trim_leading(aliases[0], '/')
        } else {
            "unnamed"@
        },
        None => "unnamed"@,
    }
}

/// A field that is shown as it is, or as `unknown` when it is absent.
pub open spec fn or_unknown(field: Option<Seq<char>>) -> Seq<char> {
    match field {
        Some(text) => text,
        None => "unknown"@,
    }
}

/// One port mapping: `host:container` for a published port, the container
/// port alone otherwise.
pub open spec fn port_text(port: RawPort) -> Seq<char> {
    match port.public_port {
        Some(host) => decimal(host as nat) + seq![':'] + decimal(port.private_port as nat),
        None => decimal(port.private_port as nat),
    }
}

/// The mappings of `ports` in order, separated by `", "`.
pub open spec fn joined_ports(ports: Seq<RawPort>) -> Seq<char>
    decreases ports.len(),
{
    if ports.len() == 0 {
        Seq::empty()
    } else if ports.len() == 1 {
        port_text(ports[0])
    } else {
        joined_ports(ports.drop_last()) + seq![',', ' '] + port_text(ports.last())
    }
}

/// The shown port mappings: `--` when the daemon gave no port.
pub open spec fn port_mappings(ports: Option<Seq<RawPort>>) -> Seq<char> {
    match ports {
        Some(list) => if list.len() > 0 {
            joined_ports(list)
        } else {
            "--"@
        },
        None => "--"@,
    }
}

/// The runtime state: running exactly when the daemon's state text is
/// `running`; any other text, and a missing one, counts as stopped.
pub open spec fn runtime_state(state: Option<Seq<char>>) -> ContainerState {
    if state == Some("running"@) {
        ContainerState::Running
    } else {
        ContainerState::Stopped
    }
}

/// The display record of a reported container.
pub open spec fn normalized_container(raw: RawContainerView) -> ContainerView {
    ContainerView {
        id: short_id(raw.id),
        name: display_name(raw.names),
        image: or_unknown(raw.image),
        status: or_unknown(raw.status),
        ports: port_mappings(raw.ports),
        state: runtime_state(raw.state),
    }
}

/// Repository of a `repo:tag` text: what stands before the first colon.
pub open spec fn repository_of(repo_tag: Seq<char>) -> Seq<char> {
    field_before(repo_tag, ':')
}

/// Tag of a `repo:tag` text: what stands between the first colon and the
/// next one, `<none>` when the text holds no colon.
pub open spec fn tag_of(repo_tag: Seq<char>) -> Seq<char> {
    match rest_after(repo_tag, ':') {
        Some(rest) => field_before(rest, ':'),
        None => "<none>"@,
    }
}

/// The display record of a reported image. Repository and tag come from the
/// first tag text; both are `<none>` when the image has none.
pub open spec fn normalized_image(raw: RawImageView) -> ImageView {
    ImageView {
        id: raw.id,
        repository: if raw.repo_tags.len() > 0 {
            repository_of(raw.repo_tags[0])
        } else {
            "<none>"@
        },
        tag: if raw.repo_tags.len() > 0 {
            tag_of(raw.repo_tags[0])
        } else {
            "<none>"@
        },
        size: size_label(raw.size),
    }
}

/// The display record of a reported volume.
pub open spec fn normalized_volume(raw: RawVolumeView) -> VolumeView {
    VolumeView { name: raw.name, driver: raw.driver, mountpoint: raw.mountpoint, size: "--"@ }
}

/// A container counts as running exactly when the daemon's state text is
/// `running`; every other text, and a missing one, gives a stopped record.
pub proof fn law_running_iff_reported_running(raw: RawContainerView)
    ensures
        normalized_container(raw).state == ContainerState::Running <==> raw.state == Some(
            "running"@,
        ),
        normalized_container(raw).state == ContainerState::Stopped <==> raw.state != Some(
            "running"@,
        ),
{
}

fn text_or_unknown(field: &Option<String>) -> (text: String)
    ensures
        text@ == or_unknown(field.deep_view()),
{
    match field {
        Some(text) => text.clone(),
        None => "unknown".to_owned(),
    }
}

fn append_port(out: &mut String, port: &RawPort)
    ensures
        final(out)@ == old(out)@ + port_text(*port),
{
    match port.public_port {
        Some(host) => {
            proof {
                reveal_strlit(":");
            }
            append_decimal(out, host as u128);
            out.append(":");
            append_decimal(out, port.private_port as u128);
        },
        None => {
            append_decimal(out, port.private_port as u128);
        },
    }
}

fn join_ports(ports: &Vec<RawPort>) -> (text: String)
    ensures
        text@ == joined_ports(ports@),
{
    let mut text = String::new();
    let mut done: usize = 0;
    while done < ports.len()
        invariant
            done <= ports.len(),
            text@ == joined_ports(ports@.take(done as int)),
        decreases ports.len() - done,
    {
        proof {
            reveal_strlit(", ");
            assert(ports@.take(done + 1).drop_last() =~= ports@.take(done as int));
        }
        if done > 0 {
            text.append(", ");
        }
        append_port(&mut text, &ports[done]);
        done = done + 1;
    }
    assert(ports@.take(done as int) =~= ports@);
    text
}

impl ContainerInfo {
    /// Derives the display record of a container from the daemon's report.
    pub fn from_raw(raw: &RawContainer) -> (info: ContainerInfo)
        ensures
            info@ == normalized_container(raw@),
            info.state == ContainerState::Running <==> raw@.state == Some("running"@),
    {
        let id = match &raw.id {
            Some(full) => take_chars(full.as_str(), SHORT_ID_LEN),
            None => "unknown".to_owned(),
        };
        let name = match &raw.names {
            Some(aliases) => if aliases.len() > 0 {
                trim_leading_char(aliases[0].as_str(), '/')
            } else {
                "unnamed".to_owned()
            },
            None => "unnamed".to_owned(),
        };
        let ports = match &raw.ports {
            Some(list) => if list.len() > 0 {
                join_ports(list)
            } else {
                "--".to_owned()
            },
            None => "--".to_owned(),
        };
        let state = match &raw.state {
            Some(text) => if *text == "running".to_owned() {
                ContainerState::Running
            } else {
                ContainerState::Stopped
            },
            None => ContainerState::Stopped,
        };
        let info = ContainerInfo {
            id,
            name,
            image: text_or_unknown(&raw.image),
            status: text_or_unknown(&raw.status),
            ports,
            state,
        };
        assert(info@.id =~= short_id(raw@.id));
        info
    }
}

impl ImageInfo {
    /// Derives the display record of an image from the daemon's report.
    pub fn from_raw(raw: &RawImage) -> (info: ImageInfo)
        ensures
            info@ == normalized_image(raw@),
    {
        let (repository, tag) = if raw.repo_tags.len() > 0 {
            let (repository, rest) = cut_at_first(raw.repo_tags[0].as_str(), ':');
            let tag = match rest {
                Some(rest) => cut_at_first(rest.as_str(), ':').0,
                None => "<none>".to_owned(),
            };
            (repository, tag)
        } else {
            ("<none>".to_owned(), "<none>".to_owned())
        };
        ImageInfo { id: raw.id.clone(), repository, tag, size: format_size(raw.size) }
    }
}

impl VolumeInfo {
    /// Derives the display record of a volume from the daemon's report.
    pub fn from_raw(raw: &RawVolume) -> (info: VolumeInfo)
        ensures
            info@ == normalized_volume(raw@),
    {
        VolumeInfo {
            name: raw.name.clone(),
            driver: raw.driver.clone(),
            mountpoint: raw.mountpoint.clone(),
            size: "--".to_owned(),
        }
    }
}

/// Derives the display records of a container listing, in the daemon's order.
pub fn normalize_containers(raws: &Vec<RawContainer>) -> (infos: Vec<ContainerInfo>)
    ensures
        infos.len() == raws.len(),
        forall|i: int| 0 <= i < raws.len() ==> infos[i]@ == normalized_container(#[trigger] raws[i]@),
        forall|i: int|
            0 <= i < raws.len() ==> (infos[i].state == ContainerState::Running <==> (
                #[trigger] raws[i]@).state == Some("running"@)),
{
    let mut infos: Vec<ContainerInfo> = Vec::new();
    let mut done: usize = 0;
    while done < raws.len()
        invariant
            done <= raws.len(),
            infos.len() == done,
            forall|i: int| 0 <= i < done ==> infos[i]@ == normalized_container(#[trigger] raws[i]@),
        decreases raws.len() - done,
    {
        infos.push(ContainerInfo::from_raw(&raws[done]));
        done = done + 1;
    }
    infos
}

/// Derives the display records of an image listing, in the daemon's order.
pub fn normalize_images(raws: &Vec<RawImage>) -> (infos: Vec<ImageInfo>)
    ensures
        infos.len() == raws.len(),
        forall|i: int| 0 <= i < raws.len() ==> infos[i]@ == normalized_image(#[trigger] raws[i]@),
{
    let mut infos: Vec<ImageInfo> = Vec::new();
    let mut done: usize = 0;
    while done < raws.len()
        invariant
            done <= raws.len(),
            infos.len() == done,
            forall|i: int| 0 <= i < done ==> infos[i]@ == normalized_image(#[trigger] raws[i]@),
        decreases raws.len() - done,
    {
        infos.push(ImageInfo::from_raw(&raws[done]));
        done = done + 1;
    }
    infos
}

/// Derives the display records of a volume listing, in the daemon's order.
pub fn normalize_volumes(raws: &Vec<RawVolume>) -> (infos: Vec<VolumeInfo>)
    ensures
        infos.len() == raws.len(),
        forall|i: int| 0 <= i < raws.len() ==> infos[i]@ == normalized_volume(#[trigger] raws[i]@),
{
    let mut infos: Vec<VolumeInfo> = Vec::new();
    let mut done: usize = 0;
    while done < raws.len()
        invariant
            done <= raws.len(),
            infos.len() == done,
            forall|i: int| 0 <= i < done ==> infos[i]@ == normalized_volume(#[trigger] raws[i]@),
        decreases raws.len() - done,
    {
        infos.push(VolumeInfo::from_raw(&raws[done]));
        done = done + 1;
    }
    infos
}

} // verus!
