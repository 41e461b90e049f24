//! The job dispatcher: routes a job by its type, validates its payload,
//! builds the subprocess command for the host platform, and assembles the
//! job result. Subprocess launching, waiting and killing happen outside
//! the library; the dispatcher's contract is "produce a result" for every
//! outcome handed back.

use vstd::prelude::*;
use vstd::string::*;
use vstd::utf8::{encode_utf8, encode_utf8_valid_utf8, is_char_boundary, valid_utf8};
use crate::protocol::{JobPayload, JobRequest, JobResult};
use crate::text::{push_dec_u64, str_eq, string_push, spec_dec_nat, u64_to_dec};

verus! {

/// The host platform, chosen by the embedding program.
pub enum Platform {
    Windows,
    Unix,
}

/// The job types the dispatcher routes.
pub enum JobKind {
    RunScript,
    Reboot,
    Shutdown,
    ServiceRestart,
    ServiceStop,
    ServiceStart,
    ProcessKill,
    Unsupported,
}

/// The routing table on `job_type`.
pub open spec fn spec_route(t: Seq<char>) -> JobKind {
    if t == "run_script"@ {
        JobKind::RunScript
    } else if t == "reboot"@ {
        JobKind::Reboot
    } else if t == "shutdown"@ {
        JobKind::Shutdown
    } else if t == "service_restart"@ {
        JobKind::ServiceRestart
    } else if t == "service_stop"@ {
        JobKind::ServiceStop
    } else if t == "service_start"@ {
        JobKind::ServiceStart
    } else if t == "process_kill"@ {
        JobKind::ProcessKill
    } else {
        JobKind::Unsupported
    }
}

/// The job dispatcher. Its routing, payload validation and result
/// assembly are pure; running the planned command is the embedder's part.
pub struct JobRunner;

impl JobRunner {
    /// Routes a job type string to its kind.
    pub fn route(job_type: &str) -> (r: JobKind)
        ensures
            r == spec_route(job_type@),
    {
        if str_eq(job_type, "run_script") {
            JobKind::RunScript
        } else if str_eq(job_type, "reboot") {
            JobKind::Reboot
        } else if str_eq(job_type, "shutdown") {
            JobKind::Shutdown
        } else if str_eq(job_type, "service_restart") {
            JobKind::ServiceRestart
        } else if str_eq(job_type, "service_stop") {
            JobKind::ServiceStop
        } else if str_eq(job_type, "service_start") {
            JobKind::ServiceStart
        } else if str_eq(job_type, "process_kill") {
            JobKind::ProcessKill
        } else {
            JobKind::Unsupported
        }
    }
}

/// A subprocess command: the program and its argument vector.
pub struct CommandSpec {
    pub program: String,
    pub args: Vec<String>,
}

impl CommandSpec {
    /// The argument vector as character sequences.
    pub open spec fn args_view(self) -> Seq<Seq<char>> {
        self.args@.map_values(|s: String| s@)
    }
}

/// The argument vector for a script, by interpreter.
pub open spec fn spec_script_command(lang: Seq<char>, script: Seq<char>) -> Option<
    (Seq<char>, Seq<Seq<char>>),
> {
    if lang == "powershell"@ {
        Some(
            (
                "powershell"@,
                seq![
                    "-NoProfile"@,
                    "-NonInteractive"@,
                    "-ExecutionPolicy"@,
                    "Bypass"@,
                    "-Command"@,
                    script,
                ],
            ),
        )
    } else if lang == "bash"@ {
        Some(("bash"@, seq!["-c"@, script]))
    } else if lang == "python"@ {
        Some(("python3"@, seq!["-c"@, script]))
    } else if lang == "cmd"@ {
        Some(("cmd"@, seq!["/C"@, script]))
    } else {
        None
    }
}

/// Builds the interpreter command for a script, or `None` for an
/// interpreter the dispatcher does not support.
pub fn build_script_command(language: &str, script: &str) -> (r: Option<CommandSpec>)
    ensures
        r is Some <==> spec_script_command(language@, script@) is Some,
        r matches Some(c) ==> spec_script_command(language@, script@) == Some(
            (c.program@, c.args_view()),
        ),
{
    if str_eq(language, "powershell") {
        let mut args: Vec<String> = Vec::new();
        args.push("-NoProfile".to_owned());
        args.push("-NonInteractive".to_owned());
        args.push("-ExecutionPolicy".to_owned());
        args.push("Bypass".to_owned());
        args.push("-Command".to_owned());
        args.push(script.to_owned());
        let c = CommandSpec { program: "powershell".to_owned(), args };
        proof {
            assert(c.args_view() =~~= spec_script_command(language@, script@)->Some_0.1);
        }
        Some(c)
    } else if str_eq(language, "bash") {
        let mut args: Vec<String> = Vec::new();
        args.push("-c".to_owned());
        args.push(script.to_owned());
        let c = CommandSpec { program: "bash".to_owned(), args };
        proof {
            assert(c.args_view() =~~= spec_script_command(language@, script@)->Some_0.1);
        }
        Some(c)
    } else if str_eq(language, "python") {
        let mut args: Vec<String> = Vec::new();
        args.push("-c".to_owned());
        args.push(script.to_owned());
        let c = CommandSpec { program: "python3".to_owned(), args };
        proof {
            assert(c.args_view() =~~= spec_script_command(language@, script@)->Some_0.1);
        }
        Some(c)
    } else if str_eq(language, "cmd") {
        let mut args: Vec<String> = Vec::new();
        args.push("/C".to_owned());
        args.push(script.to_owned());
        let c = CommandSpec { program: "cmd".to_owned(), args };
        proof {
            assert(c.args_view() =~~= spec_script_command(language@, script@)->Some_0.1);
        }
        Some(c)
    } else {
        None
    }
}

/// The OS reboot command: on Windows `shutdown /r /t 5`, with `/f` when
/// forced; elsewhere `shutdown -r +0`.
pub open spec fn spec_reboot_command(platform: Platform, force: bool) -> (
    Seq<char>,
    Seq<Seq<char>>,
) {
    match platform {
        Platform::Windows => {
            if force {
                ("shutdown"@, seq!["/r"@, "/t"@, "5"@, "/f"@])
            } else {
                ("shutdown"@, seq!["/r"@, "/t"@, "5"@])
            }
        },
        Platform::Unix => ("shutdown"@, seq!["-r"@, "+0"@]),
    }
}

/// Builds the OS reboot command.
pub fn build_reboot_command(platform: &Platform, force: bool) -> (r: CommandSpec)
    ensures
        spec_reboot_command(*platform, force) == (r.program@, r.args_view()),
{
    match platform {
        Platform::Windows => {
            let mut args: Vec<String> = Vec::new();
            args.push("/r".to_owned());
            args.push("/t".to_owned());
            args.push("5".to_owned());
            if force {
                args.push("/f".to_owned());
            }
            let c = CommandSpec { program: "shutdown".to_owned(), args };
            proof {
                assert(c.args_view() =~~= spec_reboot_command(*platform, force).1);
            }
            c
        },
        Platform::Unix => {
            let mut args: Vec<String> = Vec::new();
            args.push("-r".to_owned());
            args.push("+0".to_owned());
            let c = CommandSpec { program: "shutdown".to_owned(), args };
            proof {
                assert(c.args_view() =~~= spec_reboot_command(*platform, force).1);
            }
            c
        },
    }
}

/// The OS shutdown command: on Windows `shutdown /s /t {delay}`, with `/f`
/// when forced; elsewhere `shutdown -h now` for no delay, else
/// `shutdown -h +{delay/60}`.
pub open spec fn spec_shutdown_command(platform: Platform, force: bool, delay_sec: u64) -> (
    Seq<char>,
    Seq<Seq<char>>,
) {
    match platform {
        Platform::Windows => {
            if force {
                ("shutdown"@, seq!["/s"@, "/t"@, spec_dec_nat(delay_sec as nat), "/f"@])
            } else {
                ("shutdown"@, seq!["/s"@, "/t"@, spec_dec_nat(delay_sec as nat)])
            }
        },
        Platform::Unix => {
            if delay_sec == 0 {
                ("shutdown"@, seq!["-h"@, "now"@])
            } else {
                ("shutdown"@, seq!["-h"@, seq!['+'] + spec_dec_nat((delay_sec / 60) as nat)])
            }
        },
    }
}

/// Builds the OS shutdown command.
pub fn build_shutdown_command(platform: &Platform, force: bool, delay_sec: u64) -> (r:
    CommandSpec)
    ensures
        spec_shutdown_command(*platform, force, delay_sec) == (r.program@, r.args_view()),
{
    match platform {
        Platform::Windows => {
            let mut args: Vec<String> = Vec::new();
            args.push("/s".to_owned());
            args.push("/t".to_owned());
            args.push(u64_to_dec(delay_sec));
            if force {
                args.push("/f".to_owned());
            }
            let c = CommandSpec { program: "shutdown".to_owned(), args };
            proof {
                assert(c.args_view() =~~= spec_shutdown_command(*platform, force, delay_sec).1);
            }
            c
        },
        Platform::Unix => {
            let mut args: Vec<String> = Vec::new();
            args.push("-h".to_owned());
            if delay_sec == 0 {
                args.push("now".to_owned());
            } else {
                let mut minutes = String::new();
                string_push(&mut minutes, '+');
                push_dec_u64(&mut minutes, delay_sec / 60);
                args.push(minutes);
            }
            let c = CommandSpec { program: "shutdown".to_owned(), args };
            proof {
                assert(c.args_view() =~~= spec_shutdown_command(*platform, force, delay_sec).1);
            }
            c
        },
    }
}

/// A service-manager action.
pub enum ServiceAction {
    Restart,
    Stop,
    Start,
}

/// The service-manager command: on Windows through the shell's service
/// cmdlets, elsewhere through the system service manager.
pub open spec fn spec_service_command(
    platform: Platform,
    action: ServiceAction,
    name: Seq<char>,
) -> (Seq<char>, Seq<Seq<char>>) {
    match platform {
        Platform::Windows => {
            let tail = match action {
                ServiceAction::Restart => seq!["Restart-Service"@, "-Name"@, name, "-Force"@],
                ServiceAction::Stop => seq!["Stop-Service"@, "-Name"@, name, "-Force"@],
                ServiceAction::Start => seq!["Start-Service"@, "-Name"@, name],
            };
            ("powershell"@, seq!["-NoProfile"@, "-Command"@] + tail)
        },
        Platform::Unix => {
            let verb = match action {
                ServiceAction::Restart => "restart"@,
                ServiceAction::Stop => "stop"@,
                ServiceAction::Start => "start"@,
            };
            ("systemctl"@, seq![verb, name])
        },
    }
}

/// Builds the service-manager command.
pub fn build_service_command(platform: &Platform, action: &ServiceAction, name: &str) -> (r:
    CommandSpec)
    ensures
        spec_service_command(*platform, *action, name@) == (r.program@, r.args_view()),
{
    match platform {
        Platform::Windows => {
            let mut args: Vec<String> = Vec::new();
            args.push("-NoProfile".to_owned());
            args.push("-Command".to_owned());
            match action {
                ServiceAction::Restart => {
                    args.push("Restart-Service".to_owned());
                    args.push("-Name".to_owned());
                    args.push(name.to_owned());
                    args.push("-Force".to_owned());
                },
                ServiceAction::Stop => {
                    args.push("Stop-Service".to_owned());
                    args.push("-Name".to_owned());
                    args.push(name.to_owned());
                    args.push("-Force".to_owned());
                },
                ServiceAction::Start => {
                    args.push("Start-Service".to_owned());
                    args.push("-Name".to_owned());
                    args.push(name.to_owned());
                },
            }
            let c = CommandSpec { program: "powershell".to_owned(), args };
            proof {
                assert(c.args_view() =~~= spec_service_command(*platform, *action, name@).1);
            }
            c
        },
        Platform::Unix => {
            let mut args: Vec<String> = Vec::new();
            match action {
                ServiceAction::Restart => args.push("restart".to_owned()),
                ServiceAction::Stop => args.push("stop".to_owned()),
                ServiceAction::Start => args.push("start".to_owned()),
            }
            args.push(name.to_owned());
            let c = CommandSpec { program: "systemctl".to_owned(), args };
            proof {
                assert(c.args_view() =~~= spec_service_command(*platform, *action, name@).1);
            }
            c
        },
    }
}

/// The forceful process-kill command.
pub open spec fn spec_kill_command(platform: Platform, pid: u64) -> (Seq<char>, Seq<Seq<char>>) {
    match platform {
        Platform::Windows => ("taskkill"@, seq!["/PID"@, spec_dec_nat(pid as nat), "/F"@]),
        Platform::Unix => ("kill"@, seq!["-9"@, spec_dec_nat(pid as nat)]),
    }
}

/// Builds the forceful process-kill command.
pub fn build_kill_command(platform: &Platform, pid: u64) -> (r: CommandSpec)
    ensures
        spec_kill_command(*platform, pid) == (r.program@, r.args_view()),
{
    match platform {
        Platform::Windows => {
            let mut args: Vec<String> = Vec::new();
            args.push("/PID".to_owned());
            args.push(u64_to_dec(pid));
            args.push("/F".to_owned());
            let c = CommandSpec { program: "taskkill".to_owned(), args };
            proof {
                assert(c.args_view() =~~= spec_kill_command(*platform, pid).1);
            }
            c
        },
        Platform::Unix => {
            let mut args: Vec<String> = Vec::new();
            args.push("-9".to_owned());
            args.push(u64_to_dec(pid));
            let c = CommandSpec { program: "kill".to_owned(), args };
            proof {
                assert(c.args_view() =~~= spec_kill_command(*platform, pid).1);
            }
            c
        },
    }
}

// ───────────────────────────────────────────────────────────────
// Dispatch
// ───────────────────────────────────────────────────────────────

/// The script interpreter a job asks for; absent means the shell default.
pub open spec fn spec_lang(p: JobPayload) -> Seq<char> {
    match p.language {
        Some(l) => l@,
        None => "powershell"@,
    }
}

/// The view of an optional string.
pub open spec fn spec_opt_view(o: Option<String>) -> Option<Seq<char>> {
    match o {
        Some(s) => Some(s@),
        None => None,
    }
}

/// The view of an environment-variable list.
pub open spec fn spec_env_view(v: Seq<(String, String)>) -> Seq<(Seq<char>, Seq<char>)> {
    v.map_values(|p: (String, String)| (p.0@, p.1@))
}

/// The service action a routed job kind asks for.
pub open spec fn spec_service_action(k: JobKind) -> ServiceAction {
    match k {
        JobKind::ServiceStop => ServiceAction::Stop,
        JobKind::ServiceStart => ServiceAction::Start,
        _ => ServiceAction::Restart,
    }
}

/// What the dispatcher decides for a job: run a script under a deadline,
/// run a plain OS command, or fail outright.
pub enum JobAction {
    RunScript {
        command: CommandSpec,
        working_dir: Option<String>,
        env_vars: Vec<(String, String)>,
        timeout_sec: u64,
    },
    RunCommand { command: CommandSpec, power: bool },
    Fail { message: String },
}

fn clone_opt_string(o: &Option<String>) -> (r: Option<String>)
    ensures
        spec_opt_view(r) == spec_opt_view(*o),
{
    match o {
        Some(s) => Some(s.as_str().to_owned()),
        None => None,
    }
}

fn clone_env(v: &Vec<(String, String)>) -> (r: Vec<(String, String)>)
    ensures
        spec_env_view(r@) == spec_env_view(v@),
{
    let mut r: Vec<(String, String)> = Vec::new();
    let n = v.len();
    let mut i: usize = 0;
    while i < n
        invariant
            i <= n,
            n == v@.len(),
            r@.len() == i,
            forall|j: int|
                0 <= j < i ==> #[trigger] r@[j].0@ == v@[j].0@ && r@[j].1@ == v@[j].1@,
        decreases n - i,
    {
        let key = v[i].0.as_str().to_owned();
        let val = v[i].1.as_str().to_owned();
        r.push((key, val));
        i = i + 1;
    }
    proof {
        assert(spec_env_view(r@) =~= spec_env_view(v@));
    }
    r
}

impl JobRunner {
    /// Routes a job and validates its payload into the action to take. Every
    /// missing required field and every unsupported type or interpreter comes
    /// back as a failure message; nothing is propagated upward.
    pub fn plan(job: &JobRequest, platform: &Platform) -> (r: JobAction)
        ensures
            spec_route(job.job_type@) == JobKind::Unsupported ==> (r matches JobAction::Fail {
                message,
            } && message@ == "Unsupported job type: "@ + job.job_type@),
            spec_route(job.job_type@) == JobKind::RunScript ==> (match job.payload.script {
                None => r matches JobAction::Fail { message } && message@
                    == "Missing script in payload"@,
                Some(script) => match spec_script_command(spec_lang(job.payload), script@) {
                    None => r matches JobAction::Fail { message } && message@
                        == "Unsupported language: "@ + spec_lang(job.payload),
                    Some(pc) => r matches JobAction::RunScript {
                        command,
                        working_dir,
                        env_vars,
                        timeout_sec,
                    } && (command.program@, command.args_view()) == pc && timeout_sec
                        == job.timeout_sec && spec_opt_view(working_dir) == spec_opt_view(
                        job.payload.working_dir,
                    ) && spec_env_view(env_vars@) == spec_env_view(job.payload.env_vars@),
                },
            }),
            spec_route(job.job_type@) == JobKind::Reboot ==> (r matches JobAction::RunCommand {
                command,
                power,
            } && power == true && (command.program@, command.args_view()) == spec_reboot_command(
                *platform,
                job.payload.force.unwrap_or(false),
            )),
            spec_route(job.job_type@) == JobKind::Shutdown ==> (r matches JobAction::RunCommand {
                command,
                power,
            } && power == true && (command.program@, command.args_view()) == spec_shutdown_command(
                *platform,
                job.payload.force.unwrap_or(false),
                job.payload.delay_sec.unwrap_or(0u64),
            )),
            spec_route(job.job_type@) == JobKind::ServiceRestart || spec_route(job.job_type@)
                == JobKind::ServiceStop || spec_route(job.job_type@) == JobKind::ServiceStart ==> (
            match job.payload.service_name {
                None => r matches JobAction::Fail { message } && message@
                    == "Missing service_name in payload"@,
                Some(name) => r matches JobAction::RunCommand { command, power } && power == false && (
                command.program@,
                command.args_view(),
                ) == spec_service_command(
                    *platform,
                    spec_service_action(spec_route(job.job_type@)),
                    name@,
                ),
            }),
            spec_route(job.job_type@) == JobKind::ProcessKill ==> (match job.payload.pid {
                None => r matches JobAction::Fail { message } && message@
                    == "Missing pid in payload"@,
                Some(pid) => r matches JobAction::RunCommand { command, power } && power == false && (
                command.program@,
                command.args_view(),
                ) == spec_kill_command(*platform, pid),
            }),
    {
        let kind = Self::route(job.job_type.as_str());
        match kind {
            JobKind::RunScript => {
                match &job.payload.script {
                    None => JobAction::Fail { message: "Missing script in payload".to_owned() },
                    Some(script) => {
                        let language: &str = match &job.payload.language {
                            Some(l) => l.as_str(),
                            None => "powershell",
                        };
                        match build_script_command(language, script.as_str()) {
                            None => {
                                let mut message = "Unsupported language: ".to_owned();
                                message.append(language);
                                JobAction::Fail { message }
                            },
                            Some(command) => JobAction::RunScript {
                                command,
                                working_dir: clone_opt_string(&job.payload.working_dir),
                                env_vars: clone_env(&job.payload.env_vars),
                                timeout_sec: job.timeout_sec,
                            },
                        }
                    },
                }
            },
            JobKind::Reboot => {
                let force = job.payload.force.unwrap_or(false);
                JobAction::RunCommand { command: build_reboot_command(platform, force), power: true }
            },
            JobKind::Shutdown => {
                let force = job.payload.force.unwrap_or(false);
                let delay = job.payload.delay_sec.unwrap_or(0);
                JobAction::RunCommand {
                    command: build_shutdown_command(platform, force, delay),
                    power: true,
                }
            },
            JobKind::ServiceRestart => {
                match &job.payload.service_name {
                    None => JobAction::Fail {
                        message: "Missing service_name in payload".to_owned(),
                    },
                    Some(name) => JobAction::RunCommand {
                        command: build_service_command(platform, &ServiceAction::Restart, name.as_str()),
                        power: false,
                    },
                }
            },
            JobKind::ServiceStop => {
                match &job.payload.service_name {
                    None => JobAction::Fail {
                        message: "Missing service_name in payload".to_owned(),
                    },
                    Some(name) => JobAction::RunCommand {
                        command: build_service_command(platform, &ServiceAction::Stop, name.as_str()),
                        power: false,
                    },
                }
            },
            JobKind::ServiceStart => {
                match &job.payload.service_name {
                    None => JobAction::Fail {
                        message: "Missing service_name in payload".to_owned(),
                    },
                    Some(name) => JobAction::RunCommand {
                        command: build_service_command(platform, &ServiceAction::Start, name.as_str()),
                        power: false,
                    },
                }
            },
            JobKind::ProcessKill => {
                match job.payload.pid {
                    None => JobAction::Fail { message: "Missing pid in payload".to_owned() },
                    Some(pid) => JobAction::RunCommand {
                        command: build_kill_command(platform, pid),
                        power: false,
                    },
                }
            },
            JobKind::Unsupported => {
                let mut message = "Unsupported job type: ".to_owned();
                message.append(job.job_type.as_str());
                JobAction::Fail { message }
            },
        }
    }

}

// ───────────────────────────────────────────────────────────────
// Output bounding
// ───────────────────────────────────────────────────────────────

/// The UTF-8 byte length of a character sequence.
pub open spec fn spec_byte_len(s: Seq<char>) -> nat {
    encode_utf8(s).len()
}

/// UTF-8 encoding distributes over concatenation.
proof fn lemma_encode_utf8_concat(a: Seq<char>, b: Seq<char>)
    ensures
        encode_utf8(a + b) == encode_utf8(a) + encode_utf8(b),
    decreases a.len(),
{
    if a.len() == 0 {
        assert(a + b =~= b);
        assert(encode_utf8(a) + encode_utf8(b) =~= encode_utf8(b));
    } else {
        assert((a + b)[0] == a[0]);
        assert((a + b).drop_first() =~= a.drop_first() + b);
        lemma_encode_utf8_concat(a.drop_first(), b);
        assert(encode_utf8(a + b) =~= encode_utf8(a) + encode_utf8(b));
    }
}

/// The truncation relation: within the byte cap the stream is unchanged;
/// beyond it, the result is a prefix of the stream cut at a character
/// boundary at or below the cap, with the sentinel appended.
pub open spec fn spec_truncated_output(orig: Seq<char>, r: Seq<char>) -> bool {
    if spec_byte_len(orig) <= 1048576 {
        r == orig
    } else {
        exists|p: Seq<char>, b: int|
            #![auto]
            r == p + "... [truncated]"@ && 0 <= b <= 1048576 && is_char_boundary(
                encode_utf8(orig),
                b,
            ) && (forall|b2: int|
                b < b2 <= 1048576 ==> !is_char_boundary(encode_utf8(orig), b2))
                && encode_utf8(p) == encode_utf8(orig).subrange(0, b)
    }
}

/// Caps a captured stream at 1 MiB of UTF-8 bytes, appending an explicit
/// sentinel when anything was cut off.
pub fn truncate_output(s: &str) -> (r: String)
    ensures
        spec_truncated_output(s@, r@),
        spec_byte_len(r@) <= 1048576 + spec_byte_len("... [truncated]"@),
{
    broadcast use encode_utf8_valid_utf8;

    let n = s.as_bytes().len();
    proof {
        assert(s.spec_bytes() == encode_utf8(s@));
        assert(valid_utf8(s.spec_bytes()));
    }
    if n <= 1048576 {
        s.to_owned()
    } else {
        let mut b: usize = 1048576;
        while !s.is_char_boundary(b)
            invariant
                b <= 1048576,
                n == s.spec_bytes().len(),
                1048576 < n,
                valid_utf8(s.spec_bytes()),
                forall|b2: int| b < b2 <= 1048576 ==> !is_char_boundary(s.spec_bytes(), b2),
            decreases b,
        {
            assert(is_char_boundary(s.spec_bytes(), 0));
            b = b - 1;
        }
        let (head, _tail) = s.split_at(b);
        let mut r = head.to_owned();
        r.append("... [truncated]");
        proof {
            lemma_encode_utf8_concat(head@, "... [truncated]"@);
            assert(encode_utf8(head@) == s.spec_bytes().subrange(0, b as int));
            assert(spec_truncated_output(s@, r@));
        }
        r
    }
}

// ───────────────────────────────────────────────────────────────
// Result assembly
// ───────────────────────────────────────────────────────────────

/// The completion stamp of a result: never before its start stamp.
pub open spec fn spec_clamped_end(started: int, completed: int) -> int {
    if completed < started {
        started
    } else {
        completed
    }
}

fn clamp_end(started_at: i64, completed_at: i64) -> (r: i64)
    ensures
        r == spec_clamped_end(started_at as int, completed_at as int),
{
    if completed_at < started_at {
        started_at
    } else {
        completed_at
    }
}

/// The text of an optional output stream: empty when absent.
pub open spec fn spec_opt_text(o: Option<String>) -> Seq<char> {
    match o {
        Some(s) => s@,
        None => seq![],
    }
}

impl JobRunner {
    /// A failure result: the shape every error flattens into.
    pub fn fail_result(job_id: &str, started_at: i64, completed_at: i64, message: String) -> (r:
        JobResult)
        ensures
            r.job_id@ == job_id@,
            r.status@ == "failed"@,
            r.started_at == started_at,
            r.completed_at == spec_clamped_end(started_at as int, completed_at as int),
            r.stdout is None,
            r.stderr is None,
            r.exit_code is None,
            r.error_message matches Some(m) && m@ == message@,
            r.result_data is None,
            r.wf(),
    {
        let r = JobResult {
            job_id: job_id.to_owned(),
            status: "failed".to_owned(),
            started_at,
            completed_at: clamp_end(started_at, completed_at),
            stdout: None,
            stderr: None,
            exit_code: None,
            error_message: Some(message),
            result_data: None,
        };
        proof {
            reveal_strlit("failed");
            reveal_strlit("success");
            assert("failed"@.len() == 6 && "success"@.len() == 7);
        }
        r
    }

    /// The result of a script that outran its deadline.
    pub fn timeout_result(job_id: &str, timeout_sec: u64, started_at: i64, completed_at: i64) -> (r:
        JobResult)
        ensures
            r.job_id@ == job_id@,
            r.status@ == "timeout"@,
            r.started_at == started_at,
            r.completed_at == spec_clamped_end(started_at as int, completed_at as int),
            r.stdout is None,
            r.stderr is None,
            r.exit_code is None,
            r.error_message matches Some(m) && m@ == "Job timed out after "@ + spec_dec_nat(
                timeout_sec as nat,
            ) + " seconds"@,
            r.result_data is None,
            r.wf(),
    {
        let mut message = "Job timed out after ".to_owned();
        push_dec_u64(&mut message, timeout_sec);
        message.append(" seconds");
        let r = JobResult {
            job_id: job_id.to_owned(),
            status: "timeout".to_owned(),
            started_at,
            completed_at: clamp_end(started_at, completed_at),
            stdout: None,
            stderr: None,
            exit_code: None,
            error_message: Some(message),
            result_data: None,
        };
        proof {
            reveal_strlit("timeout");
            reveal_strlit("success");
            assert("timeout"@[0] == 't' && "success"@[0] == 's');
        }
        r
    }

    /// The result of a script launch that failed outright.
    pub fn launch_error_result(job_id: &str, started_at: i64, completed_at: i64, detail: &str) -> (r:
        JobResult)
        ensures
            r.job_id@ == job_id@,
            r.status@ == "failed"@,
            r.started_at == started_at,
            r.completed_at == spec_clamped_end(started_at as int, completed_at as int),
            r.stdout is None,
            r.stderr is None,
            r.exit_code is None,
            r.error_message matches Some(m) && m@ == "Process execution error: "@ + detail@,
            r.result_data is None,
            r.wf(),
    {
        let mut message = "Process execution error: ".to_owned();
        message.append(detail);
        Self::fail_result(job_id, started_at, completed_at, message)
    }

    /// The result of a script that ran to completion: success exactly when the
    /// exit code is zero, both streams capped, empty streams omitted.
    pub fn script_result(
        job_id: &str,
        started_at: i64,
        completed_at: i64,
        exit_code: Option<i32>,
        stdout: &str,
        stderr: &str,
    ) -> (r: JobResult)
        ensures
            r.job_id@ == job_id@,
            r.started_at == started_at,
            r.completed_at == spec_clamped_end(started_at as int, completed_at as int),
            r.exit_code == Some(exit_code.unwrap_or(-1i32)),
            r.status@ == "success"@ <==> exit_code.unwrap_or(-1i32) == 0,
            r.status@ == "success"@ || r.status@ == "failed"@,
            spec_truncated_output(stdout@, spec_opt_text(r.stdout)),
            spec_truncated_output(stderr@, spec_opt_text(r.stderr)),
            r.stdout matches Some(t) ==> t@.len() > 0,
            r.stderr matches Some(t) ==> t@.len() > 0,
            spec_byte_len(spec_opt_text(r.stdout)) <= 1048576 + spec_byte_len("... [truncated]"@),
            spec_byte_len(spec_opt_text(r.stderr)) <= 1048576 + spec_byte_len("... [truncated]"@),
            r.error_message is None,
            r.result_data is None,
            r.wf(),
    {
        let code = exit_code.unwrap_or(-1);
        let out = truncate_output(stdout);
        let err = truncate_output(stderr);
        proof {
            if out@.len() == 0 {
                assert(out@ =~= Seq::<char>::empty());
            }
            if err@.len() == 0 {
                assert(err@ =~= Seq::<char>::empty());
            }
        }
        let status = if code == 0 {
            "success".to_owned()
        } else {
            "failed".to_owned()
        };
        let r = JobResult {
            job_id: job_id.to_owned(),
            status,
            started_at,
            completed_at: clamp_end(started_at, completed_at),
            stdout: if out.as_str().is_empty() {
                None
            } else {
                Some(out)
            },
            stderr: if err.as_str().is_empty() {
                None
            } else {
                Some(err)
            },
            exit_code: Some(code),
            error_message: None,
            result_data: None,
        };
        proof {
            reveal_strlit("failed");
            reveal_strlit("success");
            assert("failed"@.len() == 6 && "success"@.len() == 7);
        }
        r
    }

    /// The result of a service or process-management command: success exactly
    /// when the exit code is zero; standard output is always reported.
    pub fn command_result(
        job_id: &str,
        started_at: i64,
        completed_at: i64,
        exit_code: Option<i32>,
        stdout: &str,
        stderr: &str,
    ) -> (r: JobResult)
        ensures
            r.job_id@ == job_id@,
            r.started_at == started_at,
            r.completed_at == spec_clamped_end(started_at as int, completed_at as int),
            r.exit_code == Some(exit_code.unwrap_or(-1i32)),
            r.status@ == "success"@ <==> exit_code.unwrap_or(-1i32) == 0,
            r.status@ == "success"@ || r.status@ == "failed"@,
            r.stdout matches Some(t) && spec_truncated_output(stdout@, t@),
            spec_truncated_output(stderr@, spec_opt_text(r.stderr)),
            r.stderr matches Some(t) ==> t@.len() > 0,
            spec_byte_len(spec_opt_text(r.stdout)) <= 1048576 + spec_byte_len("... [truncated]"@),
            spec_byte_len(spec_opt_text(r.stderr)) <= 1048576 + spec_byte_len("... [truncated]"@),
            r.error_message is None,
            r.result_data is None,
            r.wf(),
    {
        let code = exit_code.unwrap_or(-1);
        let out = truncate_output(stdout);
        let err = truncate_output(stderr);
        proof {
            if out@.len() == 0 {
                assert(out@ =~= Seq::<char>::empty());
            }
            if err@.len() == 0 {
                assert(err@ =~= Seq::<char>::empty());
            }
        }
        let status = if code == 0 {
            "success".to_owned()
        } else {
            "failed".to_owned()
        };
        let r = JobResult {
            job_id: job_id.to_owned(),
            status,
            started_at,
            completed_at: clamp_end(started_at, completed_at),
            stdout: Some(out),
            stderr: if err.as_str().is_empty() {
                None
            } else {
                Some(err)
            },
            exit_code: Some(code),
            error_message: None,
            result_data: None,
        };
        proof {
            reveal_strlit("failed");
            reveal_strlit("success");
            assert("failed"@.len() == 6 && "success"@.len() == 7);
        }
        r
    }

    /// The result of a power action: success as soon as the OS command
    /// returned, whatever its exit code. A non-zero exit code is dropped
    /// from the result, so that a successful result never carries one.
    pub fn power_result(
        job_id: &str,
        started_at: i64,
        completed_at: i64,
        exit_code: Option<i32>,
        stdout: &str,
        stderr: &str,
    ) -> (r: JobResult)
        ensures
            r.job_id@ == job_id@,
            r.status@ == "success"@,
            r.started_at == started_at,
            r.completed_at == spec_clamped_end(started_at as int, completed_at as int),
            r.exit_code == (if exit_code == Some(0i32) {
                exit_code
            } else {
                None::<i32>
            }),
            r.stdout matches Some(t) && spec_truncated_output(stdout@, t@),
            spec_truncated_output(stderr@, spec_opt_text(r.stderr)),
            r.stderr matches Some(t) ==> t@.len() > 0,
            spec_byte_len(spec_opt_text(r.stdout)) <= 1048576 + spec_byte_len("... [truncated]"@),
            spec_byte_len(spec_opt_text(r.stderr)) <= 1048576 + spec_byte_len("... [truncated]"@),
            r.error_message is None,
            r.result_data is None,
            r.wf(),
    {
        let out = truncate_output(stdout);
        let err = truncate_output(stderr);
        proof {
            if err@.len() == 0 {
                assert(err@ =~= Seq::<char>::empty());
            }
        }
        let code: Option<i32> = match exit_code {
            Some(c) => if c == 0 {
                Some(0)
            } else {
                None
            },
            None => None,
        };
        let r = JobResult {
            job_id: job_id.to_owned(),
            status: "success".to_owned(),
            started_at,
            completed_at: clamp_end(started_at, completed_at),
            stdout: Some(out),
            stderr: if err.as_str().is_empty() {
                None
            } else {
                Some(err)
            },
            exit_code: code,
            error_message: None,
            result_data: None,
        };
        r
    }
}

} // verus!
