use vstd::prelude::*;
use vstd::string::*;
use crate::config::ControlPlaneConfig;
use crate::json::{copy_value, error_text, member, member_text, member_texts, null_value, to_pretty_text};
use crate::security::SecurityValidator;
use crate::text::{join2, join3, same_text, uuid_text, uuid_text_of};
use crate::types::{AgentInfo, CommandPayload, CommandResult, CommandType};

verus! {

/// How a command ended: whether it succeeded, what it printed, and why it failed.
pub struct Outcome {
    pub success: bool,
    pub output: String,
    pub error: Option<String>,
}

impl Outcome {
    /// A failure always names a non-empty reason.
    pub open spec fn wf(&self) -> bool {
        !self.success ==> (self.error is Some && self.error->0@.len() > 0)
    }
}

/// What a finished process handed back.
pub struct ProcessOutput {
    pub success: bool,
    pub stdout: String,
    pub stderr: String,
}

/// The outside work a command needs, or its outcome where it needs none.
pub enum CommandPlan {
    /// Run `program` with `args` and wait for it.
    Run { program: String, args: Vec<String> },
    /// Copy the file at `source` to `destination`.
    Copy { source: String, destination: String },
    /// Write `contents` to the file at `path`.
    Write { path: String, contents: String },
    /// Nothing to do outside: this is the outcome.
    Done(Outcome),
}

/// What the outside work of a plan gave back: a finished process, or a file operation.
pub enum WorkResult {
    Process(Result<ProcessOutput, String>),
    File(Result<(), String>),
}

/// What the control loop does on a tick.
#[derive(Clone, Copy, Debug, PartialEq, Eq, Structural)]
pub enum TickAction {
    /// The circuit is open: do nothing, and wait this many extra milliseconds.
    CoolOff(u64),
    /// Poll for commands, run them, report results, then send a heartbeat.
    Work,
}

/// Extra wait, in milliseconds, when a tick finds the circuit open.
pub const COOL_OFF_MS: u64 = 30_000;

/// The error reported for a failed process with nothing on its error stream.
pub open spec fn silent_failure_text() -> Seq<char> {
    "process exited with a failure status"@
}

/// `text` if it is not empty, else the fallback reason.
pub open spec fn reason_or_default(text: Seq<char>) -> Seq<char> {
    if text.len() > 0 { text } else { silent_failure_text() }
}

fn reason(text: String) -> (r: String)
    ensures
        r@ == reason_or_default(text@),
        r@.len() > 0,
{
    if text.unicode_len() > 0 {
        text
    } else {
        proof {
            reveal_strlit("process exited with a failure status");
        }
        "process exited with a failure status".to_owned()
    }
}

fn failed(error: String) -> (r: Outcome)
    requires
        error@.len() > 0,
    ensures
        r.wf(),
        !r.success,
        r.output@.len() == 0,
        r.error == Some(error),
{
    Outcome { success: false, output: String::new(), error: Some(error) }
}

/// The outcome of an Execute command whose process gave `result`: success on a success
/// status, with what it printed; otherwise its error stream (or a fallback reason) as the error.
pub open spec fn execute_outcome(result: Result<ProcessOutput, String>, r: Outcome) -> bool {
    match result {
        Ok(p) => r.success == p.success && r.output@ == p.stdout@ && (p.success ==> r.error is None)
            && (!p.success ==> r.error->0@ == reason_or_default(p.stderr@)),
        Err(e) => !r.success && r.output@.len() == 0 && r.error->0@ == reason_or_default(e@),
    }
}

/// The outcome of a Stop command for `process` whose kill process gave `result`.
pub open spec fn stop_outcome(process: Seq<char>, result: Result<ProcessOutput, String>, r: Outcome) -> bool {
    match result {
        Ok(p) => r.success == p.success
            && (p.success ==> r.output@ == "Process "@ + process + " stopped"@ && r.error is None)
            && (!p.success ==> r.error->0@ == reason_or_default(p.stderr@)),
        Err(e) => !r.success && r.error->0@ == reason_or_default(e@),
    }
}

/// The outcome of a Deploy command whose copy gave `result`.
pub open spec fn deploy_outcome(source: Seq<char>, destination: Seq<char>, result: Result<(), String>, r: Outcome) -> bool {
    &&& r.success == result is Ok
    &&& result is Ok ==> r.output@ == "File deployed from "@ + source + " to "@ + destination && r.error is None
    &&& result matches Err(e) ==> r.error->0@ == reason_or_default(e@)
}

/// The outcome of a Configure command whose write gave `result`.
pub open spec fn configure_outcome(path: Seq<char>, result: Result<(), String>, r: Outcome) -> bool {
    &&& r.success == result is Ok
    &&& result is Ok ==> r.output@ == "Configuration written to "@ + path && r.error is None
    &&& result matches Err(e) ==> r.error->0@ == reason_or_default(e@)
}

/// The outcome of a process run for an Execute command.
pub fn complete_execute(result: Result<ProcessOutput, String>) -> (r: Outcome)
    ensures
        r.wf(),
        execute_outcome(result, r),
{
    match result {
        Ok(p) => {
            if p.success {
                Outcome { success: true, output: p.stdout, error: None }
            } else {
                Outcome { success: false, output: p.stdout, error: Some(reason(p.stderr)) }
            }
        },
        Err(e) => failed(reason(e)),
    }
}

/// The outcome of a Stop command's kill process.
pub fn complete_stop(process: &str, result: Result<ProcessOutput, String>) -> (r: Outcome)
    ensures
        r.wf(),
        stop_outcome(process@, result, r),
{
    match result {
        Ok(p) => {
            if p.success {
                Outcome { success: true, output: join3("Process ", process, " stopped"), error: None }
            } else {
                failed(reason(p.stderr))
            }
        },
        Err(e) => failed(reason(e)),
    }
}

/// The outcome of a Deploy command's copy.
pub fn complete_deploy(source: &str, destination: &str, result: Result<(), String>) -> (r: Outcome)
    ensures
        r.wf(),
        deploy_outcome(source@, destination@, result, r),
{
    match result {
        Ok(()) => {
            let head = join3("File deployed from ", source, " to ");
            Outcome { success: true, output: join2(head.as_str(), destination), error: None }
        },
        Err(e) => failed(reason(e)),
    }
}

/// The outcome of a Configure command's write.
pub fn complete_configure(path: &str, result: Result<(), String>) -> (r: Outcome)
    ensures
        r.wf(),
        configure_outcome(path@, result, r),
{
    match result {
        Ok(()) => Outcome { success: true, output: join2("Configuration written to ", path), error: None },
        Err(e) => failed(reason(e)),
    }
}

/// The report of a command from its outcome and the milliseconds it took.
pub fn command_result(command_id: u128, outcome: Outcome, execution_time: u64) -> (r: CommandResult)
    requires
        outcome.wf(),
    ensures
        r.wf(),
        r.command_id == command_id,
        r.success == outcome.success,
        r.output == outcome.output,
        r.error == outcome.error,
        r.execution_time == execution_time,
{
    CommandResult {
        command_id,
        success: outcome.success,
        output: outcome.output,
        error: outcome.error,
        execution_time,
    }
}

/// The decisions of the control loop: addresses, validation and dispatch of commands.
pub struct ControlPlane {
    pub config: ControlPlaneConfig,
    pub agent_info: AgentInfo,
    pub security_validator: SecurityValidator,
}

impl ControlPlane {
    pub fn new(config: ControlPlaneConfig, agent_info: AgentInfo, security_validator: SecurityValidator) -> (r: Self)
        ensures
            r.config == config,
            r.agent_info == agent_info,
            r.security_validator == security_validator,
    {
        ControlPlane { config, agent_info, security_validator }
    }

    /// The value of the `Authorization` header: `Bearer <api key>` when a key is configured.
    pub fn authorization(&self) -> (r: Option<String>)
        ensures
            match self.config.api_key {
                Some(k) => r is Some && r->0@ == "Bearer "@ + k@,
                None => r is None,
            },
    {
        match &self.config.api_key {
            Some(k) => Some(join2("Bearer ", k.as_str())),
            None => None,
        }
    }

    /// `<server>/api/agents/register`
    pub fn register_url(&self) -> (r: String)
        ensures
            r@ == self.config.server_url@ + "/api/agents/register"@,
    {
        join2(self.config.server_url.as_str(), "/api/agents/register")
    }

    /// `<server>/api/agents/<id>/heartbeat`
    pub fn heartbeat_url(&self) -> (r: String)
        ensures
            r@ == self.config.server_url@ + "/api/agents/"@ + uuid_text_of(self.agent_info.id) + "/heartbeat"@,
    {
        let id = uuid_text(self.agent_info.id);
        let head = join3(self.config.server_url.as_str(), "/api/agents/", id.as_str());
        join2(head.as_str(), "/heartbeat")
    }

    /// `<server>/api/agents/<id>/commands`
    pub fn commands_url(&self) -> (r: String)
        ensures
            r@ == self.config.server_url@ + "/api/agents/"@ + uuid_text_of(self.agent_info.id) + "/commands"@,
    {
        let id = uuid_text(self.agent_info.id);
        let head = join3(self.config.server_url.as_str(), "/api/agents/", id.as_str());
        join2(head.as_str(), "/commands")
    }

    /// `<server>/api/commands/<command id>/result`
    pub fn result_url(&self, command_id: u128) -> (r: String)
        ensures
            r@ == self.config.server_url@ + "/api/commands/"@ + uuid_text_of(command_id) + "/result"@,
    {
        let id = uuid_text(command_id);
        let head = join3(self.config.server_url.as_str(), "/api/commands/", id.as_str());
        join2(head.as_str(), "/result")
    }

    /// Skip the tick and cool off while the circuit is open; work otherwise.
    pub fn tick_action(&self, circuit_open: bool) -> (r: TickAction)
        ensures
            r == (if circuit_open { TickAction::CoolOff(COOL_OFF_MS) } else { TickAction::Work }),
    {
        if circuit_open {
            TickAction::CoolOff(COOL_OFF_MS)
        } else {
            TickAction::Work
        }
    }

    /// Execute: run `program` with `args` if the allowlist admits the program.
    pub fn plan_execute(&self, program: String, args: Vec<String>) -> (r: CommandPlan)
        ensures
            self.security_validator.config.command_allowed(program@) ==> r == (CommandPlan::Run { program, args }),
            !self.security_validator.config.command_allowed(program@) ==> (r matches CommandPlan::Done(o)
                && o.wf() && !o.success && o.output@.len() == 0
                && o.error->0@ == "Security validation failed: "@ + "Security error: "@ + "Command '"@ + program@
                    + "' is not allowed"@),
    {
        match self.security_validator.validate_command(program.as_str()) {
            Ok(()) => CommandPlan::Run { program, args },
            Err(e) => {
                let text = e.message();
                proof {
                    reveal_strlit("Security validation failed: ");
                }
                CommandPlan::Done(failed(join2("Security validation failed: ", text.as_str())))
            },
        }
    }

    /// Deploy: copy `source` to `destination` if both paths are admitted.
    pub fn plan_deploy(&self, source: String, destination: String) -> (r: CommandPlan)
        ensures
            self.security_validator.config.path_allowed(source@) && self.security_validator.config.path_allowed(destination@)
                ==> r == (CommandPlan::Copy { source, destination }),
            !self.security_validator.config.path_allowed(source@) ==> (r matches CommandPlan::Done(o)
                && o.wf() && !o.success && o.error->0@ == "Source path validation failed: "@ + "Security error: "@
                    + "Path '"@ + source@ + "' is not allowed"@),
            self.security_validator.config.path_allowed(source@) && !self.security_validator.config.path_allowed(destination@)
                ==> (r matches CommandPlan::Done(o) && o.wf() && !o.success
                && o.error->0@ == "Destination path validation failed: "@ + "Security error: "@ + "Path '"@
                    + destination@ + "' is not allowed"@),
    {
        match self.security_validator.validate_path(source.as_str()) {
            Ok(()) => {},
            Err(e) => {
                let text = e.message();
                proof {
                    reveal_strlit("Source path validation failed: ");
                }
                return CommandPlan::Done(failed(join2("Source path validation failed: ", text.as_str())));
            },
        }
        match self.security_validator.validate_path(destination.as_str()) {
            Ok(()) => CommandPlan::Copy { source, destination },
            Err(e) => {
                let text = e.message();
                proof {
                    reveal_strlit("Destination path validation failed: ");
                }
                CommandPlan::Done(failed(join2("Destination path validation failed: ", text.as_str())))
            },
        }
    }

    /// Configure: write the serialised settings to `path` if the path is admitted; a
    /// serialisation failure (given as its text) fails the command.
    pub fn plan_configure(&self, path: String, contents: Result<String, String>) -> (r: CommandPlan)
        ensures
            !self.security_validator.config.path_allowed(path@) ==> (r matches CommandPlan::Done(o)
                && o.wf() && !o.success && o.error->0@ == "Configuration path validation failed: "@
                    + "Security error: "@ + "Path '"@ + path@ + "' is not allowed"@),
            self.security_validator.config.path_allowed(path@) ==> match contents {
                Ok(c) => r == (CommandPlan::Write { path, contents: c }),
                Err(e) => r matches CommandPlan::Done(o) && o.wf() && !o.success
                    && o.error->0@ == reason_or_default(e@),
            },
    {
        match self.security_validator.validate_path(path.as_str()) {
            Ok(()) => match contents {
                Ok(c) => CommandPlan::Write { path, contents: c },
                Err(e) => CommandPlan::Done(failed(reason(e))),
            },
            Err(e) => {
                let text = e.message();
                proof {
                    reveal_strlit("Configuration path validation failed: ");
                }
                CommandPlan::Done(failed(join2("Configuration path validation failed: ", text.as_str())))
            },
        }
    }

    /// Monitor: the settings are only acknowledged for now.
    pub fn plan_monitor(&self) -> (r: CommandPlan)
        ensures
            r matches CommandPlan::Done(o) && o.wf() && o.success && o.error is None
                && o.output@ == "Monitoring configuration updated"@,
    {
        CommandPlan::Done(Outcome {
            success: true,
            output: "Monitoring configuration updated".to_owned(),
            error: None,
        })
    }

    /// Stop: kill the named process with the platform's tool (`taskkill` on Windows, `pkill` elsewhere).
    pub fn plan_stop(&self, process: String) -> (r: CommandPlan)
        ensures
            self.agent_info.platform@ == "windows"@ ==> (r matches CommandPlan::Run { program, args }
                && program@ == "taskkill"@ && args@.len() == 3 && args@[0]@ == "/F"@ && args@[1]@ == "/IM"@
                && args@[2] == process),
            self.agent_info.platform@ != "windows"@ ==> (r matches CommandPlan::Run { program, args }
                && program@ == "pkill"@ && args@.len() == 1 && args@[0] == process),
    {
        let mut args: Vec<String> = Vec::new();
        if same_text(self.agent_info.platform.as_str(), "windows") {
            args.push("/F".to_owned());
            args.push("/IM".to_owned());
            args.push(process);
            CommandPlan::Run { program: "taskkill".to_owned(), args }
        } else {
            args.push(process);
            CommandPlan::Run { program: "pkill".to_owned(), args }
        }
    }

    /// The plan for a command of kind `kind` with the fields `payload`: the Execute, Deploy,
    /// Configure, Monitor or Stop plan for the matching fields (the Configure settings are
    /// written as indented JSON text).
    pub fn plan_command(&self, kind: CommandType, payload: &CommandPayload) -> (r: CommandPlan)
        ensures
            kind == CommandType::Execute ==> {
                &&& self.security_validator.config.command_allowed(payload.command@) ==> (r matches CommandPlan::Run { program, args }
                    && program == payload.command && args@ == payload.args@)
                &&& !self.security_validator.config.command_allowed(payload.command@) ==> (r matches CommandPlan::Done(o)
                    && o.wf() && !o.success && o.output@.len() == 0
                    && o.error->0@ == "Security validation failed: "@ + "Security error: "@ + "Command '"@
                        + payload.command@ + "' is not allowed"@)
            },
            kind == CommandType::Deploy ==> {
                &&& self.security_validator.config.path_allowed(payload.source@)
                    && self.security_validator.config.path_allowed(payload.destination@)
                    ==> r == (CommandPlan::Copy { source: payload.source, destination: payload.destination })
                &&& !self.security_validator.config.path_allowed(payload.source@) ==> (r matches CommandPlan::Done(o)
                    && o.wf() && !o.success && o.error->0@ == "Source path validation failed: "@ + "Security error: "@
                        + "Path '"@ + payload.source@ + "' is not allowed"@)
                &&& self.security_validator.config.path_allowed(payload.source@)
                    && !self.security_validator.config.path_allowed(payload.destination@) ==> (r matches CommandPlan::Done(o)
                    && o.wf() && !o.success && o.error->0@ == "Destination path validation failed: "@
                        + "Security error: "@ + "Path '"@ + payload.destination@ + "' is not allowed"@)
            },
            kind == CommandType::Configure ==> {
                &&& !self.security_validator.config.path_allowed(payload.path@) ==> (r matches CommandPlan::Done(o)
                    && o.wf() && !o.success && o.error->0@ == "Configuration path validation failed: "@
                        + "Security error: "@ + "Path '"@ + payload.path@ + "' is not allowed"@)
                &&& self.security_validator.config.path_allowed(payload.path@) ==> ((r matches CommandPlan::Write { path, contents }
                    && path == payload.path) || (r matches CommandPlan::Done(o) && o.wf() && !o.success))
            },
            kind == CommandType::Monitor ==> (r matches CommandPlan::Done(o) && o.wf() && o.success && o.error is None
                && o.output@ == "Monitoring configuration updated"@),
            kind == CommandType::Stop ==> {
                &&& self.agent_info.platform@ == "windows"@ ==> (r matches CommandPlan::Run { program, args }
                    && program@ == "taskkill"@ && args@.len() == 3 && args@[0]@ == "/F"@ && args@[1]@ == "/IM"@
                    && args@[2] == payload.process)
                &&& self.agent_info.platform@ != "windows"@ ==> (r matches CommandPlan::Run { program, args }
                    && program@ == "pkill"@ && args@.len() == 1 && args@[0] == payload.process)
            },
    {
        match kind {
            CommandType::Execute => self.plan_execute(payload.command.clone(), copy_texts(&payload.args)),
            CommandType::Deploy => self.plan_deploy(payload.source.clone(), payload.destination.clone()),
            CommandType::Configure => {
                let contents = match to_pretty_text(&payload.config) {
                    Ok(c) => Ok(c),
                    Err(e) => Err(error_text(&e)),
                };
                self.plan_configure(payload.path.clone(), contents)
            },
            CommandType::Monitor => self.plan_monitor(),
            CommandType::Stop => self.plan_stop(payload.process.clone()),
        }
    }

    /// The outcome of a command of kind `kind` with fields `payload`, once the outside work
    /// of `plan` was done and gave `work`. A `Done` plan keeps its outcome; a work result of
    /// the wrong sort fails the command.
    pub fn finish_command(&self, kind: CommandType, payload: &CommandPayload, plan: CommandPlan, work: WorkResult) -> (r: Outcome)
        ensures
            r.wf(),
            (plan matches CommandPlan::Done(o) && o.wf()) ==> r == plan->Done_0,
            !(plan is Done) ==> match (kind, work) {
                (CommandType::Execute, WorkResult::Process(p)) => execute_outcome(p, r),
                (CommandType::Stop, WorkResult::Process(p)) => stop_outcome(payload.process@, p, r),
                (CommandType::Deploy, WorkResult::File(f)) => deploy_outcome(payload.source@, payload.destination@, f, r),
                (CommandType::Configure, WorkResult::File(f)) => configure_outcome(payload.path@, f, r),
                _ => !r.success,
            },
    {
        match plan {
            CommandPlan::Done(o) => {
                let keep = match &o.error {
                    Some(e) => o.success || e.unicode_len() > 0,
                    None => o.success,
                };
                if keep {
                    o
                } else {
                    failed(reason(String::new()))
                }
            },
            _ => match (kind, work) {
                (CommandType::Execute, WorkResult::Process(p)) => complete_execute(p),
                (CommandType::Stop, WorkResult::Process(p)) => complete_stop(payload.process.as_str(), p),
                (CommandType::Deploy, WorkResult::File(f)) => complete_deploy(payload.source.as_str(), payload.destination.as_str(), f),
                (CommandType::Configure, WorkResult::File(f)) => complete_configure(payload.path.as_str(), f),
                _ => failed(reason(String::new())),
            },
        }
    }
}

/// An independent copy of a list of texts.
pub fn copy_texts(v: &Vec<String>) -> (r: Vec<String>)
    ensures
        r@ == v@,
{
    let mut out: Vec<String> = Vec::new();
    let mut i: usize = 0;
    while i < v.len()
        invariant
            i <= v@.len(),
            out@ == v@.subrange(0, i as int),
        decreases v@.len() - i,
    {
        out.push(v[i].clone());
        assert(out@ =~= v@.subrange(0, i + 1));
        i = i + 1;
    }
    assert(out@ =~= v@);
    out
}

/// The fields of a command's payload: `command` and `args` (Execute), `source` and
/// `destination` (Deploy), `path` and `config` (Configure), `process` (Stop). A missing or
/// non-string text reads as empty, non-string arguments are skipped, a missing `config` is `null`.
pub fn read_payload(payload: &serde_json::Value) -> (r: CommandPayload) {
    CommandPayload {
        command: member_text(payload, "command"),
        args: member_texts(payload, "args"),
        source: member_text(payload, "source"),
        destination: member_text(payload, "destination"),
        path: member_text(payload, "path"),
        config: match member(payload, "config") {
            Some(v) => copy_value(v),
            None => null_value(),
        },
        process: member_text(payload, "process"),
    }
}

} // verus!
