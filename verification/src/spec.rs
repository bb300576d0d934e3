//! The deployment descriptor: what is to run, how its health is judged and
//! how the deployment before it is retired.

use crate::json::{Json, JsonValue};
use vstd::prelude::*;

verus! {

/// One environment variable handed to the workload.
#[derive(Debug, Clone, PartialEq, Eq)]
pub struct EnvVar {
    pub name: String,
    pub value: String,
}

pub ghost struct EnvVarView {
    pub name: Seq<char>,
    pub value: Seq<char>,
}

impl DeepView for EnvVar {
    type V = EnvVarView;

    open spec fn deep_view(&self) -> EnvVarView {
        EnvVarView { name: self.name@, value: self.value@ }
    }
}

impl View for EnvVar {
    type V = EnvVarView;

    open spec fn view(&self) -> EnvVarView {
        self.deep_view()
    }
}

/// The image to run.
#[derive(Debug, Clone, PartialEq, Eq)]
pub struct Image {
    pub name: String,
    pub tag: String,
}

pub ghost struct ImageView {
    pub name: Seq<char>,
    pub tag: Seq<char>,
}

impl DeepView for Image {
    type V = ImageView;

    open spec fn deep_view(&self) -> ImageView {
        ImageView { name: self.name@, tag: self.tag@ }
    }
}

impl View for Image {
    type V = ImageView;

    open spec fn view(&self) -> ImageView {
        self.deep_view()
    }
}

/// How the health of a service is probed.
#[derive(Debug, Clone, PartialEq, Eq)]
pub enum CheckMethod {
    /// Run a command.
    Script(String),
    /// Request a full URL.
    Http(String),
    /// Request a path on the service's own address.
    HttpPath(String),
}

pub ghost enum CheckMethodView {
    Script(Seq<char>),
    Http(Seq<char>),
    HttpPath(Seq<char>),
}

impl DeepView for CheckMethod {
    type V = CheckMethodView;

    open spec fn deep_view(&self) -> CheckMethodView {
        match self {
            CheckMethod::Script(cmd) => CheckMethodView::Script(cmd@),
            CheckMethod::Http(url) => CheckMethodView::Http(url@),
            CheckMethod::HttpPath(path) => CheckMethodView::HttpPath(path@),
        }
    }
}

impl View for CheckMethod {
    type V = CheckMethodView;

    open spec fn view(&self) -> CheckMethodView {
        self.deep_view()
    }
}

impl Default for CheckMethod {
    /// The probe of a service that names none: the command `echo`.
    fn default() -> (r: CheckMethod)
        ensures
            r@ == CheckMethodView::Script("echo"@),
    {
        CheckMethod::Script("echo".to_owned())
    }
}

/// A health check: the probe, the seconds between two probes and the seconds
/// one probe may take.
#[derive(Debug, Clone, PartialEq, Eq)]
pub struct Check {
    pub method: CheckMethod,
    pub interval: u16,
    pub timeout: u16,
}

pub ghost struct CheckView {
    pub method: CheckMethodView,
    pub interval: u16,
    pub timeout: u16,
}

impl DeepView for Check {
    type V = CheckView;

    open spec fn deep_view(&self) -> CheckView {
        CheckView { method: self.method@, interval: self.interval, timeout: self.timeout }
    }
}

impl View for Check {
    type V = CheckView;

    open spec fn view(&self) -> CheckView {
        self.deep_view()
    }
}

/// A service that the workload offers and that is registered for discovery.
#[derive(Debug, Clone, PartialEq, Eq)]
pub struct Service {
    pub name: String,
    pub port: u16,
    pub tags: Vec<String>,
    pub check: Check,
    pub udp: bool,
    pub host_port: Option<u16>,
}

pub ghost struct ServiceView {
    pub name: Seq<char>,
    pub port: u16,
    pub tags: Seq<Seq<char>>,
    pub check: CheckView,
    pub udp: bool,
    pub host_port: Option<u16>,
}

impl DeepView for Service {
    type V = ServiceView;

    open spec fn deep_view(&self) -> ServiceView {
        ServiceView {
            name: self.name@,
            port: self.port,
            tags: self.tags.deep_view(),
            check: self.check@,
            udp: self.udp,
            host_port: self.host_port,
        }
    }
}

impl View for Service {
    type V = ServiceView;

    open spec fn view(&self) -> ServiceView {
        self.deep_view()
    }
}

/// A service of another workload whose address is handed over in an
/// environment variable.
#[derive(Debug, Clone, PartialEq, Eq)]
pub struct Discovery {
    pub service: String,
    pub env: String,
    pub multiple: bool,
    pub tag: Option<String>,
}

pub ghost struct DiscoveryView {
    pub service: Seq<char>,
    pub env: Seq<char>,
    pub multiple: bool,
    pub tag: Option<Seq<char>>,
}

impl DeepView for Discovery {
    type V = DiscoveryView;

    open spec fn deep_view(&self) -> DiscoveryView {
        DiscoveryView {
            service: self.service@,
            env: self.env@,
            multiple: self.multiple,
            tag: self.tag.deep_view(),
        }
    }
}

impl View for Discovery {
    type V = DiscoveryView;

    open spec fn view(&self) -> DiscoveryView {
        self.deep_view()
    }
}

/// A directory of the host mounted into the workload.
#[derive(Debug, Clone, PartialEq, Eq)]
pub struct Volume {
    pub from: String,
    pub to: String,
}

pub ghost struct VolumeView {
    pub from: Seq<char>,
    pub to: Seq<char>,
}

impl DeepView for Volume {
    type V = VolumeView;

    open spec fn deep_view(&self) -> VolumeView {
        VolumeView { from: self.from@, to: self.to@ }
    }
}

impl View for Volume {
    type V = VolumeView;

    open spec fn view(&self) -> VolumeView {
        self.deep_view()
    }
}

/// Where the workload's output goes: a driver and what configures it.
#[derive(Debug, Clone, PartialEq, Eq)]
pub struct Log {
    pub log_type: String,
    pub config: Option<Json>,
}

pub ghost struct LogView {
    pub log_type: Seq<char>,
    pub config: Option<JsonValue>,
}

impl DeepView for Log {
    type V = LogView;

    open spec fn deep_view(&self) -> LogView {
        LogView { log_type: self.log_type@, config: self.config.deep_view() }
    }
}

impl View for Log {
    type V = LogView;

    open spec fn view(&self) -> LogView {
        self.deep_view()
    }
}

/// When the deployment before this one is stopped.
#[derive(Debug, Clone, Copy, PartialEq, Eq, Structural)]
pub enum Stop {
    /// Before this one is started.
    Before,
    /// The given number of seconds after this one has proved healthy.
    AfterTimeout(u16),
}

impl DeepView for Stop {
    type V = Stop;

    open spec fn deep_view(&self) -> Stop {
        *self
    }
}

impl View for Stop {
    type V = Stop;

    open spec fn view(&self) -> Stop {
        *self
    }
}

impl Default for Stop {
    /// A descriptor that names no policy keeps the old deployment for ten
    /// seconds.
    fn default() -> (r: Stop)
        ensures
            r == Stop::AfterTimeout(10),
    {
        Stop::AfterTimeout(10)
    }
}

/// The description of one desired deployment.
#[derive(Debug, Clone, PartialEq, Eq)]
pub struct Spec {
    pub image: Image,
    pub cmd: Vec<String>,
    pub services: Vec<Service>,
    pub envs: Vec<EnvVar>,
    pub discoveries: Vec<Discovery>,
    pub name: Option<String>,
    pub host: Option<String>,
    pub user: Option<String>,
    pub privileged: bool,
    pub network_mode: Option<String>,
    pub stop: Stop,
    pub kill_timeout: Option<u16>,
    pub log: Option<Log>,
}

pub ghost struct SpecView {
    pub image: ImageView,
    pub cmd: Seq<Seq<char>>,
    pub services: Seq<ServiceView>,
    pub envs: Seq<EnvVarView>,
    pub discoveries: Seq<DiscoveryView>,
    pub name: Option<Seq<char>>,
    pub host: Option<Seq<char>>,
    pub user: Option<Seq<char>>,
    pub privileged: bool,
    pub network_mode: Option<Seq<char>>,
    pub stop: Stop,
    pub kill_timeout: Option<u16>,
    pub log: Option<LogView>,
}

impl DeepView for Spec {
    type V = SpecView;

    open spec fn deep_view(&self) -> SpecView {
        SpecView {
            image: self.image@,
            cmd: self.cmd.deep_view(),
            services: self.services.deep_view(),
            envs: self.envs.deep_view(),
            discoveries: self.discoveries.deep_view(),
            name: self.name.deep_view(),
            host: self.host.deep_view(),
            user: self.user.deep_view(),
            privileged: self.privileged,
            network_mode: self.network_mode.deep_view(),
            stop: self.stop,
            kill_timeout: self.kill_timeout,
            log: self.log.deep_view(),
        }
    }
}

impl View for Spec {
    type V = SpecView;

    open spec fn view(&self) -> SpecView {
        self.deep_view()
    }
}

} // verus!
