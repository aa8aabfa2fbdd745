//! Running a built submission: a container is created from its image with
//! capped resources and the engine's port published on a host port the
//! system picks; once started, that host port is looked up, the bot fleet
//! is launched against it, the container's output is followed and its exit
//! awaited.  The decisions are a state machine; the driver performs each
//! action and reports its outcome.

use vstd::prelude::*;

use crate::builder::image_tag_of;
use crate::errors::{
    build_failure, context_prefix, ErrorView, FailureContext, SubmissionError,
};
use crate::text::{str_equal, unsigned_value};

verus! {

/// The port the engine listens on inside its container.
pub open spec fn engine_port() -> Seq<char> {
    "9000/tcp"@
}

/// The name of the container that runs submission `submission_id`.
pub open spec fn container_name_of(submission_id: Seq<char>) -> Seq<char> {
    "run_"@ + submission_id
}

/// The error reported when the container's engine port is not published.
pub open spec fn missing_port_text() -> Seq<char> {
    "Failed to find mapped port for 9000/tcp"@
}

/// How the container of a submission is created.
#[derive(Debug, Clone, PartialEq, Eq)]
pub struct ContainerPlan {
    /// The image to run.
    pub image: String,
    /// The container's name.
    pub name: String,
    /// The port the engine listens on, exposed and published.
    pub container_port: String,
    /// The host address the port is published on.
    pub host_ip: String,
    /// The host port it is published on ("0": let the system pick one).
    pub host_port: String,
    /// CPU time allowed per period, in microseconds.
    pub cpu_quota: i64,
    /// The CPU accounting period, in microseconds.
    pub cpu_period: i64,
    /// Memory limit, in bytes.
    pub memory: i64,
    /// Whether the container is removed when it exits.
    pub auto_remove: bool,
    /// Whether standard output is attached.
    pub attach_stdout: bool,
    /// Whether standard error is attached.
    pub attach_stderr: bool,
}

/// The plan of the container that runs submission `submission_id`: the
/// submission's image, one CPU (a quota of 100 000 µs per 100 000 µs),
/// 512 MiB of memory, removal on exit, output attached, and port 9000/tcp
/// published on 127.0.0.1 at a port the system picks.
pub open spec fn is_container_plan_of(plan: &ContainerPlan, submission_id: Seq<char>) -> bool {
    &&& plan.image@ == image_tag_of(submission_id)
    &&& plan.name@ == container_name_of(submission_id)
    &&& plan.container_port@ == engine_port()
    &&& plan.host_ip@ == "127.0.0.1"@
    &&& plan.host_port@ == "0"@
    &&& plan.cpu_quota == 100000
    &&& plan.cpu_period == 100000
    &&& plan.memory == 512 * 1024 * 1024
    &&& plan.auto_remove
    &&& plan.attach_stdout
    &&& plan.attach_stderr
}

/// The plan of the container that runs submission `submission_id`.
pub fn container_plan(submission_id: &str) -> (plan: ContainerPlan)
    ensures
        is_container_plan_of(&plan, submission_id@),
{
    let mut image = String::from_str("iicpc_submission:");
    image.append(submission_id);
    let mut name = String::from_str("run_");
    name.append(submission_id);
    ContainerPlan {
        image,
        name,
        container_port: String::from_str("9000/tcp"),
        host_ip: String::from_str("127.0.0.1"),
        host_port: String::from_str("0"),
        cpu_quota: 100000,
        cpu_period: 100000,
        memory: 512 * 1024 * 1024,
        auto_remove: true,
        attach_stdout: true,
        attach_stderr: true,
    }
}

/// One published container port and the host ports bound to it, as the
/// daemon reports them after the container started.  The daemon reports a
/// map keyed by container port, so a list of entries read from it names
/// each port at most once.
#[derive(Debug, Clone, PartialEq, Eq)]
pub struct PortEntry {
    /// The container port, e.g. "9000/tcp".
    pub port: String,
    /// The host ports bound to it, in order; each may be unknown.
    pub host_ports: Option<Vec<Option<String>>>,
}

/// The first entry of `entries` for the container port `port`.  For
/// entries read from the daemon's port map, where each port occurs at most
/// once, this is the map's entry for `port`.
pub open spec fn find_port(entries: Seq<PortEntry>, port: Seq<char>) -> Option<PortEntry>
    decreases entries.len(),
{
    if entries.len() == 0 {
        None
    } else if entries[0].port@ == port {
        Some(entries[0])
    } else {
        find_port(entries.drop_first(), port)
    }
}

/// The host port the engine port is published on, as text: the first host
/// port bound to 9000/tcp, if the daemon reports one.
pub open spec fn mapped_port_text(ports: Option<Seq<PortEntry>>) -> Option<Seq<char>> {
    match ports {
        None => None,
        Some(entries) => match find_port(entries, engine_port()) {
            None => None,
            Some(entry) => match entry.host_ports {
                None => None,
                Some(bindings) => if bindings@.len() > 0 {
                    match bindings@[0] {
                        Some(p) => Some(p@),
                        None => None,
                    }
                } else {
                    None
                },
            },
        },
    }
}

/// The description of the error parsing `s` as a `u16` fails with.
pub uninterp spec fn u16_parse_failure(s: Seq<char>) -> Seq<char>;

/// Parses `text` as a port number.
///
/// Calls `str::parse::<u16>`.  Its documentation: the text must be an
/// optional `+` followed by decimal digits only, whose value fits in a
/// `u16`; anything else is an error.  The error's description is named by
/// `u16_parse_failure`, a function of the text alone.
#[verifier::external_body]
fn parse_port_number(text: &str) -> (parsed: Result<u16, String>)
    ensures
        match unsigned_value(text@) {
            Some(n) => if n <= u16::MAX {
                parsed == Ok::<u16, String>(n as u16)
            } else {
                parsed is Err
            },
            None => parsed is Err,
        },
        parsed matches Err(e) ==> e@ == u16_parse_failure(text@),
{
    match text.parse::<u16>() {
        Ok(port) => Ok(port),
        Err(e) => Err(e.to_string()),
    }
}

/// The host port, given the result of parsing the published port's text:
/// the parsed number, or a build error reporting the invalid mapping.
pub fn port_from_parse(parsed: Result<u16, String>) -> (port: Result<u16, SubmissionError>)
    ensures
        match parsed {
            Ok(p) => port == Ok::<u16, SubmissionError>(p),
            Err(e) => port matches Err(err) && err@ == ErrorView::BuildError(
                context_prefix(FailureContext::PortMapping) + e@,
            ),
        },
{
    match parsed {
        Ok(p) => Ok(p),
        Err(e) => Err(build_failure(FailureContext::PortMapping, e.as_str())),
    }
}

/// The text of the first host port bound to 9000/tcp, if any.
fn mapped_port_lookup(ports: &Option<Vec<PortEntry>>) -> (text: Option<String>)
    ensures
        match text {
            Some(t) => mapped_port_text(port_entries(ports)) == Some(t@),
            None => mapped_port_text(port_entries(ports)) == None::<Seq<char>>,
        },
{
    match ports {
        None => None,
        Some(entries) => {
            let n = entries.len();
            let mut i: usize = 0;
            assert(entries@.subrange(0, n as int) =~= entries@);
            while i < n
                invariant
                    n == entries@.len(),
                    port_entries(ports) == Some(entries@),
                    i <= n,
                    find_port(entries@, engine_port()) == find_port(
                        entries@.subrange(i as int, n as int),
                        engine_port(),
                    ),
                decreases n - i,
            {
                assert(entries@.subrange(i as int, n as int).drop_first() =~= entries@.subrange(
                    i + 1,
                    n as int,
                ));
                assert(entries@.subrange(i as int, n as int)[0] == entries@[i as int]);
                if str_equal(entries[i].port.as_str(), "9000/tcp") {
                    assert(find_port(entries@, engine_port()) == Some(entries@[i as int]));
                    let entry = &entries[i];
                    assert(*entry == entries@[i as int]);
                    match &entry.host_ports {
                        None => {
                            return None;
                        },
                        Some(bindings) => {
                            if bindings.len() > 0 {
                                let first = &bindings[0];
                                assert(*first == bindings@[0]);
                                match first {
                                    Some(p) => {
                                        return Some(p.clone());
                                    },
                                    None => {
                                        return None;
                                    },
                                }
                            } else {
                                return None;
                            }
                        },
                    }
                }
                i = i + 1;
            }
            assert(entries@.subrange(n as int, n as int).len() == 0);
            None
        },
    }
}

/// The entries of an optional list of published ports.
pub open spec fn port_entries(ports: &Option<Vec<PortEntry>>) -> Option<Seq<PortEntry>> {
    match ports {
        Some(v) => Some(v@),
        None => None,
    }
}

/// The host port the engine of a started container can be reached on:
/// the first host port bound to 9000/tcp, parsed as a port number.  No
/// such port is a build error, and so is one that is not a number.
pub fn mapped_host_port(ports: &Option<Vec<PortEntry>>) -> (port: Result<u16, SubmissionError>)
    ensures
        match mapped_port_text(port_entries(ports)) {
            None => port matches Err(err) && err@ == ErrorView::BuildError(missing_port_text()),
            Some(t) => match unsigned_value(t) {
                Some(n) => if n <= u16::MAX {
                    port == Ok::<u16, SubmissionError>(n as u16)
                } else {
                    port matches Err(err) && err@ == ErrorView::BuildError(
                        context_prefix(FailureContext::PortMapping) + u16_parse_failure(t),
                    )
                },
                None => port matches Err(err) && err@ == ErrorView::BuildError(
                    context_prefix(FailureContext::PortMapping) + u16_parse_failure(t),
                ),
            },
        },
{
    match mapped_port_lookup(ports) {
        None => Err(
            SubmissionError::BuildError(String::from_str("Failed to find mapped port for 9000/tcp")),
        ),
        Some(text) => port_from_parse(parse_port_number(text.as_str())),
    }
}

} // verus!

verus! {

/// Where the run of a submission is in its course.
#[derive(Debug, Clone, Copy, PartialEq, Eq, Structural)]
pub enum RunStage {
    Connecting,
    Creating,
    Starting,
    Inspecting,
    FollowingLogs,
    Waiting,
    Done,
}

/// What the driver of a run has to do next.
pub enum RunAction {
    /// Connect to the local Docker daemon.
    ConnectDocker,
    /// Create the container as `plan` says.
    CreateContainer { plan: ContainerPlan },
    /// Start the container `name`.
    StartContainer { name: String },
    /// Inspect the container `name` and report the ports it publishes.
    InspectContainer { name: String },
    /// Launch the bot fleet against `host_port` in the background, then
    /// follow the standard output and error of the container `name` until
    /// they end, logging each line and each read failure.
    LaunchFleetAndFollowLogs { host_port: u16, name: String },
    /// Wait until the container `name` meets `condition`, logging its exit
    /// status or the failure to obtain it.
    WaitForExit { name: String, condition: String },
    /// Stop; the run ended with `outcome`.
    Finish { outcome: Result<(), SubmissionError> },
}

/// The action that ends a run with the error `e`.
pub open spec fn is_run_failure(action: RunAction, e: ErrorView) -> bool {
    match action {
        RunAction::Finish { outcome: Err(err) } => err@ == e,
        _ => false,
    }
}

/// The run of one built submission.
pub struct RunSession {
    pub stage: RunStage,
    pub submission_id: String,
}

impl RunSession {
    /// Starts the run of submission `submission_id`; the first action is
    /// to connect to the Docker daemon.
    pub fn start(submission_id: &str) -> (res: (RunSession, RunAction))
        ensures
            res.0.stage == RunStage::Connecting,
            res.0.submission_id@ == submission_id@,
            res.1 is ConnectDocker,
    {
        (
            RunSession { stage: RunStage::Connecting, submission_id: String::from_str(submission_id) },
            RunAction::ConnectDocker,
        )
    }

    /// The name of the container of this run.
    fn container_name(&self) -> (name: String)
        ensures
            name@ == container_name_of(self.submission_id@),
    {
        let mut name = String::from_str("run_");
        name.append(self.submission_id.as_str());
        name
    }

    /// Handles the connection to the Docker daemon: a failure ends the run,
    /// a success creates the container.
    pub fn on_docker_connected(&mut self, outcome: Result<(), String>) -> (action: RunAction)
        requires
            old(self).stage == RunStage::Connecting,
        ensures
            final(self).submission_id == old(self).submission_id,
            match outcome {
                Err(e) => final(self).stage == RunStage::Done && is_run_failure(
                    action,
                    ErrorView::BuildError(context_prefix(FailureContext::DockerConnect) + e@),
                ),
                Ok(()) => {
                    &&& final(self).stage == RunStage::Creating
                    &&& action matches RunAction::CreateContainer { plan } && is_container_plan_of(
                        &plan,
                        old(self).submission_id@,
                    )
                },
            },
    {
        match outcome {
            Err(e) => {
                self.stage = RunStage::Done;
                RunAction::Finish {
                    outcome: Err(build_failure(FailureContext::DockerConnect, e.as_str())),
                }
            },
            Ok(()) => {
                self.stage = RunStage::Creating;
                RunAction::CreateContainer { plan: container_plan(self.submission_id.as_str()) }
            },
        }
    }

    /// Handles the creation of the container: a failure ends the run, a
    /// success starts the container.
    pub fn on_created(&mut self, outcome: Result<(), String>) -> (action: RunAction)
        requires
            old(self).stage == RunStage::Creating,
        ensures
            final(self).submission_id == old(self).submission_id,
            match outcome {
                Err(e) => final(self).stage == RunStage::Done && is_run_failure(
                    action,
                    ErrorView::BuildError(context_prefix(FailureContext::ContainerCreate) + e@),
                ),
                Ok(()) => {
                    &&& final(self).stage == RunStage::Starting
                    &&& action matches RunAction::StartContainer { name } && name@
                        == container_name_of(old(self).submission_id@)
                },
            },
    {
        match outcome {
            Err(e) => {
                self.stage = RunStage::Done;
                RunAction::Finish {
                    outcome: Err(build_failure(FailureContext::ContainerCreate, e.as_str())),
                }
            },
            Ok(()) => {
                self.stage = RunStage::Starting;
                RunAction::StartContainer { name: self.container_name() }
            },
        }
    }

    /// Handles the start of the container: a failure ends the run, a
    /// success inspects the container.
    pub fn on_started(&mut self, outcome: Result<(), String>) -> (action: RunAction)
        requires
            old(self).stage == RunStage::Starting,
        ensures
            final(self).submission_id == old(self).submission_id,
            match outcome {
                Err(e) => final(self).stage == RunStage::Done && is_run_failure(
                    action,
                    ErrorView::BuildError(context_prefix(FailureContext::ContainerStart) + e@),
                ),
                Ok(()) => {
                    &&& final(self).stage == RunStage::Inspecting
                    &&& action matches RunAction::InspectContainer { name } && name@
                        == container_name_of(old(self).submission_id@)
                },
            },
    {
        match outcome {
            Err(e) => {
                self.stage = RunStage::Done;
                RunAction::Finish {
                    outcome: Err(build_failure(FailureContext::ContainerStart, e.as_str())),
                }
            },
            Ok(()) => {
                self.stage = RunStage::Inspecting;
                RunAction::InspectContainer { name: self.container_name() }
            },
        }
    }

    /// Handles the inspection of the container, given the ports it
    /// publishes: a failed inspection, or no usable host port for 9000/tcp,
    /// ends the run; otherwise the fleet is launched against that port and
    /// the container's output followed.
    pub fn on_inspected(&mut self, outcome: Result<Option<Vec<PortEntry>>, String>) -> (action:
        RunAction)
        requires
            old(self).stage == RunStage::Inspecting,
        ensures
            final(self).submission_id == old(self).submission_id,
            match outcome {
                Err(e) => final(self).stage == RunStage::Done && is_run_failure(
                    action,
                    ErrorView::BuildError(context_prefix(FailureContext::Inspect) + e@),
                ),
                Ok(ports) => match mapped_port_text(port_entries(&ports)) {
                    None => final(self).stage == RunStage::Done && is_run_failure(
                        action,
                        ErrorView::BuildError(missing_port_text()),
                    ),
                    Some(t) => match unsigned_value(t) {
                        Some(n) => if n <= u16::MAX {
                            &&& final(self).stage == RunStage::FollowingLogs
                            &&& action matches RunAction::LaunchFleetAndFollowLogs {
                                host_port,
                                name,
                            } && host_port == n && name@ == container_name_of(
                                old(self).submission_id@,
                            )
                        } else {
                            final(self).stage == RunStage::Done && is_run_failure(
                                action,
                                ErrorView::BuildError(
                                    context_prefix(FailureContext::PortMapping)
                                        + u16_parse_failure(t),
                                ),
                            )
                        },
                        None => final(self).stage == RunStage::Done && is_run_failure(
                            action,
                            ErrorView::BuildError(
                                context_prefix(FailureContext::PortMapping) + u16_parse_failure(t),
                            ),
                        ),
                    },
                },
            },
    {
        match outcome {
            Err(e) => {
                self.stage = RunStage::Done;
                RunAction::Finish { outcome: Err(build_failure(FailureContext::Inspect, e.as_str())) }
            },
            Ok(ports) => match mapped_host_port(&ports) {
                Err(e) => {
                    self.stage = RunStage::Done;
                    RunAction::Finish { outcome: Err(e) }
                },
                Ok(host_port) => {
                    self.stage = RunStage::FollowingLogs;
                    RunAction::LaunchFleetAndFollowLogs { host_port, name: self.container_name() }
                },
            },
        }
    }

    /// Handles the end of the container's output: waiting until the
    /// container is no longer running comes next.
    pub fn on_logs_ended(&mut self) -> (action: RunAction)
        requires
            old(self).stage == RunStage::FollowingLogs,
        ensures
            final(self).submission_id == old(self).submission_id,
            final(self).stage == RunStage::Waiting,
            action matches RunAction::WaitForExit { name, condition } && name@ == container_name_of(
                old(self).submission_id@,
            ) && condition@ == "not-running"@,
    {
        self.stage = RunStage::Waiting;
        RunAction::WaitForExit {
            name: self.container_name(),
            condition: String::from_str("not-running"),
        }
    }

    /// Handles the end of waiting for the container, whatever it reported:
    /// the run ends successfully.
    pub fn on_exited(&mut self) -> (action: RunAction)
        requires
            old(self).stage == RunStage::Waiting,
        ensures
            final(self).submission_id == old(self).submission_id,
            final(self).stage == RunStage::Done,
            action matches RunAction::Finish { outcome: Ok(()) },
    {
        self.stage = RunStage::Done;
        RunAction::Finish { outcome: Ok(()) }
    }
}

} // verus!

verus! {

/// The container that runs a submission is created from the image that the
/// submission's build tagged.
pub proof fn lemma_runs_built_image(
    plan: &ContainerPlan,
    build: &crate::builder::ImageBuildPlan,
    submission_id: Seq<char>,
)
    requires
        is_container_plan_of(plan, submission_id),
        build.tag@ == image_tag_of(submission_id),
    ensures
        plan.image@ == build.tag@,
{
}

/// A port written in decimal, as a bot writes the port it connects to,
/// reads back as the same port.
pub proof fn lemma_port_text_roundtrip(port: u16)
    ensures
        unsigned_value(crate::text::decimal(port as nat)) == Some(port as nat),
{
    crate::text::lemma_decimal_reads_back(port as nat);
}

} // verus!

verus! {

/// A container name is "run_" followed by the whole submission identifier,
/// so two different submissions never share a container name.
pub proof fn lemma_container_name_holds_id(a: Seq<char>, b: Seq<char>)
    ensures
        container_name_of(a).len() == 4 + a.len(),
        container_name_of(a).subrange(0, 4) == "run_"@,
        container_name_of(a).skip(4) == a,
        container_name_of(a) == container_name_of(b) ==> a == b,
{
    reveal_strlit("run_");
    assert(container_name_of(a).subrange(0, 4) =~= "run_"@);
    assert(container_name_of(a).skip(4) =~= a);
    assert(container_name_of(b).skip(4) =~= b);
}

/// The container that runs a submission is created under the name the run
/// then starts, inspects, follows and awaits, and from that submission's
/// image: both hold the whole submission identifier.
pub proof fn lemma_container_plan_holds_id(plan: &ContainerPlan, submission_id: Seq<char>)
    requires
        is_container_plan_of(plan, submission_id),
    ensures
        plan.name@.skip(4) == submission_id,
        plan.image@.skip(17) == submission_id,
{
    lemma_container_name_holds_id(submission_id, submission_id);
    crate::builder::lemma_image_tag_holds_id(submission_id, submission_id);
}

} // verus!

verus! {

/// Looking a container port up finds an entry for that port, one of the
/// entries, whenever some entry is for it, and nothing otherwise.
pub proof fn lemma_find_port(entries: Seq<PortEntry>, port: Seq<char>)
    ensures
        find_port(entries, port) matches Some(e) ==> e.port@ == port && entries.contains(e),
        find_port(entries, port) is None <==> forall|i: int|
            0 <= i < entries.len() ==> (#[trigger] entries[i]).port@ != port,
    decreases entries.len(),
{
    if entries.len() > 0 {
        lemma_find_port(entries.drop_first(), port);
        if entries[0].port@ != port {
            if let Some(e) = find_port(entries.drop_first(), port) {
                let k = choose|k: int| 0 <= k < entries.drop_first().len() && entries.drop_first()[k] == e;
                assert(entries[k + 1] == e);
            }
            assert forall|i: int| 0 < i < entries.len() implies entries[i] == entries.drop_first()[i - 1] by {}
        } else {
            assert(entries[0] == entries[0]);
        }
    }
}

} // verus!
