//! Owning or adopting the private engine: where it is, whether it may be started here, how long
//! to wait for it, and what its process gets to see.

use vstd::prelude::*;
use rand::RngCore;
use crate::engine_payload::hex_digit;
use crate::engine_payload::hex_encode;
use crate::engine_payload::hex_text;
use crate::failure::Failure;
use crate::has_scheme;
use crate::mcp::get;
use crate::mcp::get_call;
use crate::mcp::CallView;
use crate::mcp::Method;
use crate::mcp::UpstreamCall;
use crate::names_scheme;
use crate::text::begins_with;
use crate::text::chars_of;
use crate::text::decimal;
use crate::text::decimal_text;
use crate::text::law_trimming_is_idempotent;
use crate::text::nonempty;
use crate::text::nonempty_spec;
use crate::text::opt_str;
use crate::text::opt_text;
use crate::text::parse_port;
use crate::text::port_value;
use crate::text::same_text;
use crate::text::trim;
use crate::text::trim_end_char;
use crate::text::trimmed;
use crate::text::trimmed_end;
use crate::text::trimmed_start;
use crate::text::without_trailing;
use crate::RESEARCH_PORT;

verus! {

/// How long a started engine may take to become ready, in milliseconds.
pub const READY_TIMEOUT_MILLIS: u64 = 20000;

/// The same time in seconds, as it stands in messages.
pub const READY_TIMEOUT_SECS: u64 = 20;

/// How many random bytes a fresh engine token is made of.
pub const ENGINE_TOKEN_BYTES: usize = 32;

/// How long to wait between two looks at a started engine, in milliseconds.
pub const READY_POLL_MILLIS: u64 = 125;

/// The parts of a URL that matter for reaching an engine.
#[derive(Debug, Clone, PartialEq, Eq)]
pub struct UrlParts {
    pub scheme: String,
    pub host: Option<String>,
    pub username: String,
    pub password: Option<String>,
    /// The port, or the one that the scheme stands for.
    pub port: Option<u16>,
    /// The whole URL in its normal form.
    pub text: String,
}

/// What the parts of a URL say.
pub struct UrlView {
    pub scheme: Seq<char>,
    pub host: Option<Seq<char>>,
    pub username: Seq<char>,
    pub password: Option<Seq<char>>,
    pub port: Option<u16>,
    pub text: Seq<char>,
}

impl View for UrlParts {
    type V = UrlView;

    open spec fn view(&self) -> UrlView {
        UrlView {
            scheme: self.scheme@,
            host: opt_text(self.host),
            username: self.username@,
            password: opt_text(self.password),
            port: self.port,
            text: self.text@,
        }
    }
}

/// What `reqwest::Url::parse` makes of a text, by its parts.
pub uninterp spec fn url_parts(text: Seq<char>) -> Option<UrlView>;

/// `reqwest::Url::parse`, with the parts of the URL that it makes. Its result is only named.
#[verifier::external_body]
fn parse_url(text: &str) -> (r: Option<UrlParts>)
    ensures
        match r {
            Some(parts) => url_parts(text@) == Some(parts@),
            None => url_parts(text@) is None,
        },
{
    let url = reqwest::Url::parse(text).ok()?;
    Some(UrlParts {
        scheme: url.scheme().to_owned(),
        host: url.host_str().map(str::to_owned),
        username: url.username().to_owned(),
        password: url.password().map(str::to_owned),
        port: url.port_or_known_default(),
        text: url.as_str().to_owned(),
    })
}

/// Where the engine is, and whether it is only to be adopted there.
#[derive(Debug, Clone, PartialEq, Eq)]
pub struct EngineTarget {
    pub base_url: String,
    pub host: String,
    pub port: u16,
    pub adopt_only: bool,
}

/// Where an engine is.
pub struct TargetView {
    pub base_url: Seq<char>,
    pub host: Seq<char>,
    pub port: u16,
    pub adopt_only: bool,
}

impl View for EngineTarget {
    type V = TargetView;

    open spec fn view(&self) -> TargetView {
        TargetView {
            base_url: self.base_url@,
            host: self.host@,
            port: self.port,
            adopt_only: self.adopt_only,
        }
    }
}

/// The target of a result, or what is said against it.
pub open spec fn target_outcome(r: Result<EngineTarget, Failure>) -> Result<TargetView, Seq<char>> {
    match r {
        Ok(target) => Ok(target@),
        Err(e) => Err(e@),
    }
}

/// The URL that an upstream override stands for, before it is parsed.
pub open spec fn upstream_url(up: Seq<char>) -> Seq<char> {
    without_trailing(
        if has_scheme(up) {
            up
        } else {
            "http://"@ + up
        },
        '/',
    )
}

/// The target that an explicit URL names: an endpoint of HTTP or HTTPS without credentials.
pub open spec fn explicit_target(url: UrlView) -> Result<TargetView, Seq<char>> {
    if !(url.scheme == "http"@ || url.scheme == "https"@) || url.host is None || url.username.len()
        > 0 || url.password is Some {
        Err("RYU_RESEARCH_UPSTREAM must be an http(s) endpoint without credentials"@)
    } else if url.port is None {
        Err("RYU_RESEARCH_UPSTREAM has no port"@)
    } else {
        Ok(
            TargetView {
                base_url: without_trailing(url.text, '/'),
                host: url.host->0,
                port: url.port->0,
                adopt_only: true,
            },
        )
    }
}

/// The target on a loopback port.
pub open spec fn loopback_target(port: u16) -> TargetView {
    TargetView {
        base_url: "http://127.0.0.1:"@ + decimal(port as nat),
        host: "127.0.0.1"@,
        port: port,
        adopt_only: false,
    }
}

/// The target that the port setting names; without one it is the usual port.
pub open spec fn local_target(port: Option<Seq<char>>) -> Result<TargetView, Seq<char>> {
    match nonempty_spec(port) {
        Some(text) => match port_value(text) {
            Some(number) => Ok(loopback_target(number)),
            None => Err("RESEARCH_PORT must be a valid TCP port"@),
        },
        None => Ok(loopback_target(RESEARCH_PORT)),
    }
}

/// The target that the environment names.
pub open spec fn env_target(upstream: Option<Seq<char>>, port: Option<Seq<char>>) -> Result<
    TargetView,
    Seq<char>,
> {
    match nonempty_spec(upstream) {
        Some(up) => match url_parts(upstream_url(up)) {
            Some(url) => explicit_target(url),
            None => Err("RYU_RESEARCH_UPSTREAM must be an http(s) URL or host:port"@),
        },
        None => local_target(port),
    }
}

impl EngineTarget {
    /// The target that an explicit URL names. An engine there is only ever adopted.
    pub fn from_url(url: &UrlParts) -> (r: Result<Self, Failure>)
        ensures
            target_outcome(r) == explicit_target(url@),
    {
        let host: &String = match &url.host {
            Some(host) => host,
            None => {
                return Err(
                    Failure::new(
                        "RYU_RESEARCH_UPSTREAM must be an http(s) endpoint without credentials",
                    ),
                );
            },
        };
        if !(same_text(url.scheme.as_str(), "http") || same_text(url.scheme.as_str(), "https"))
            || url.username.as_str().unicode_len() > 0 || url.password.is_some() {
            return Err(
                Failure::new(
                    "RYU_RESEARCH_UPSTREAM must be an http(s) endpoint without credentials",
                ),
            );
        }
        match url.port {
            Some(port) => Ok(
                EngineTarget {
                    base_url: trim_end_char(url.text.as_str(), '/').to_owned(),
                    host: host.clone(),
                    port: port,
                    adopt_only: true,
                },
            ),
            None => Err(Failure::new("RYU_RESEARCH_UPSTREAM has no port")),
        }
    }

    /// The target on a loopback port, by the port setting.
    fn local(port: Option<&str>) -> (r: Result<Self, Failure>)
        ensures
            target_outcome(r) == local_target(opt_str(port)),
    {
        let number: u16 = match nonempty(port) {
            Some(text) => match parse_port(text.as_str()) {
                Some(number) => number,
                None => {
                    return Err(Failure::new("RESEARCH_PORT must be a valid TCP port"));
                },
            },
            None => RESEARCH_PORT,
        };
        let mut url: String = "http://127.0.0.1:".to_owned();
        url.append(decimal_text(number as u64).as_str());
        Ok(
            EngineTarget {
                base_url: url,
                host: "127.0.0.1".to_owned(),
                port: number,
                adopt_only: false,
            },
        )
    }

    /// The target that the environment names: an explicit upstream, or else a loopback port.
    pub fn from_env(upstream: Option<&str>, port: Option<&str>) -> (r: Result<Self, Failure>)
        ensures
            target_outcome(r) == env_target(opt_str(upstream), opt_str(port)),
    {
        match nonempty(upstream) {
            Some(up) => {
                let normalized: String = if names_scheme(up.as_str()) {
                    up
                } else {
                    let mut url: String = "http://".to_owned();
                    url.append(up.as_str());
                    url
                };
                match parse_url(trim_end_char(normalized.as_str(), '/')) {
                    Some(url) => EngineTarget::from_url(&url),
                    None => Err(
                        Failure::new("RYU_RESEARCH_UPSTREAM must be an http(s) URL or host:port"),
                    ),
                }
            },
            None => EngineTarget::local(port),
        }
    }

    /// Where the engine is asked whether it is ready.
    pub fn ready_url(&self) -> (r: String)
        ensures
            r@ == self.base_url@ + "/experiments"@,
    {
        let mut url: String = self.base_url.clone();
        url.append("/experiments");
        url
    }

    /// The request that asks the engine whether it is ready, under the engine's token.
    pub fn ready_request(&self, token: &str) -> (r: UpstreamCall)
        ensures
            r@ == get_call(self.base_url@ + "/experiments"@).under(Some(token@)),
            r@ == ready_call(self.base_url@, token@),
    {
        get(self.ready_url()).under(Some(token))
    }
}

/// The request that finds out whether an engine is authenticated and ready.
pub open spec fn ready_call(base: Seq<char>, token: Seq<char>) -> CallView {
    get_call(base + "/experiments"@).under(Some(token))
}

/// Whether a host is this machine itself.
pub open spec fn loopback_host(host: Seq<char>) -> bool {
    host == "127.0.0.1"@ || host == "localhost"@ || host == "::1"@
}

/// How far the supervisor is with making an engine ready.
#[derive(Debug, Clone, Copy, PartialEq, Eq, Structural)]
pub enum Stage {
    /// It looks for an engine that is ready already.
    Adopting,
    /// It has started an engine and waits for it.
    Waiting,
}

/// What the supervisor asks for next.
#[derive(Debug, Clone, Copy, PartialEq, Eq, Structural)]
pub enum Step {
    /// Nothing: the engine is ready.
    Ready,
    /// Start the engine, and report that with `spawned`.
    Spawn,
    /// Wait for `READY_POLL_MILLIS` and look at the engine again.
    Wait,
}

/// Owns or adopts the private engine.
#[derive(Debug, Clone, PartialEq, Eq)]
pub struct EngineSupervisor {
    /// Whether it owns the process of an engine that it started.
    pub owns_process: bool,
    pub stage: Stage,
}

/// What the supervisor makes of a look at the engine: what it asks for next, or what it says where
/// it gives up. `elapsed` is the time since the engine was started, in milliseconds.
pub open spec fn look(stage: Stage, target: TargetView, ready: bool, elapsed: u64) -> Result<
    Step,
    Seq<char>,
> {
    if ready {
        Ok(Step::Ready)
    } else if stage == Stage::Adopting {
        if target.adopt_only {
            Err(
                "the explicit research engine at "@ + target.base_url
                    + " is not authenticated and ready"@,
            )
        } else if !loopback_host(target.host) {
            Err("Research only spawns its engine on loopback"@)
        } else {
            Ok(Step::Spawn)
        }
    } else if elapsed >= READY_TIMEOUT_MILLIS {
        Err(
            "embedded research engine did not become authenticated and ready at "@ + target.base_url
                + " within "@ + decimal(READY_TIMEOUT_SECS as nat) + "s"@,
        )
    } else {
        Ok(Step::Wait)
    }
}

/// The supervisor after a look at the engine. It gives up a process that has ended, but goes on
/// waiting: another process may have been first.
pub open spec fn looked(before: EngineSupervisor, outcome: Result<Step, Seq<char>>, exited: bool) -> EngineSupervisor {
    match outcome {
        Ok(Step::Wait) => EngineSupervisor {
            owns_process: before.owns_process && !exited,
            stage: Stage::Waiting,
        },
        _ => EngineSupervisor { owns_process: before.owns_process, stage: Stage::Adopting },
    }
}

/// The step of a result, or what is said against going on.
pub open spec fn step_outcome(r: Result<Step, Failure>) -> Result<Step, Seq<char>> {
    match r {
        Ok(step) => Ok(step),
        Err(e) => Err(e@),
    }
}

/// A supervisor that has not started anything.
pub open spec fn idle() -> EngineSupervisor {
    EngineSupervisor { owns_process: false, stage: Stage::Adopting }
}

/// A supervisor that looks for a ready engine again.
pub open spec fn begun(before: EngineSupervisor) -> EngineSupervisor {
    EngineSupervisor { owns_process: before.owns_process, stage: Stage::Adopting }
}

/// A supervisor that has just started an engine.
pub open spec fn engine_started(before: EngineSupervisor) -> EngineSupervisor {
    EngineSupervisor { owns_process: true, stage: Stage::Waiting }
}

impl EngineSupervisor {
    /// A supervisor that owns nothing yet.
    #[must_use]
    pub fn new() -> (r: Self)
        ensures
            !r.owns_process,
            r.stage == Stage::Adopting,
            r == idle(),
    {
        EngineSupervisor { owns_process: false, stage: Stage::Adopting }
    }

    /// Starts to make an engine ready afresh, whatever became of an earlier time.
    pub fn begin(&mut self)
        ensures
            *final(self) == (EngineSupervisor {
                owns_process: old(self).owns_process,
                stage: Stage::Adopting,
            }),
            *final(self) == begun(*old(self)),
    {
        self.stage = Stage::Adopting;
    }

    /// Takes one step to an engine that is authenticated and ready. `ready` is what a look at it
    /// showed, `elapsed` the time since it was started, in milliseconds, and `exited` whether the
    /// process that the supervisor owns has ended.
    pub fn ensure_ready(
        &mut self,
        target: &EngineTarget,
        ready: bool,
        elapsed: u64,
        exited: bool,
    ) -> (r: Result<Step, Failure>)
        ensures
            step_outcome(r) == look(old(self).stage, target@, ready, elapsed),
            *final(self) == looked(*old(self), look(old(self).stage, target@, ready, elapsed), exited),
    {
        let stage: Stage = self.stage;
        self.stage = Stage::Adopting;
        if ready {
            return Ok(Step::Ready);
        }
        if stage == Stage::Adopting {
            if target.adopt_only {
                let mut message: String = "the explicit research engine at ".to_owned();
                message.append(target.base_url.as_str());
                message.append(" is not authenticated and ready");
                return Err(Failure { message: message });
            }
            let host: &str = target.host.as_str();
            if !same_text(host, "127.0.0.1") && !same_text(host, "localhost") && !same_text(
                host,
                "::1",
            ) {
                return Err(Failure::new("Research only spawns its engine on loopback"));
            }
            return Ok(Step::Spawn);
        }
        if elapsed >= READY_TIMEOUT_MILLIS {
            let mut message: String =
                "embedded research engine did not become authenticated and ready at ".to_owned();
            message.append(target.base_url.as_str());
            message.append(" within ");
            message.append(decimal_text(READY_TIMEOUT_SECS).as_str());
            message.append("s");
            return Err(Failure { message: message });
        }
        if exited {
            self.owns_process = false;
        }
        self.stage = Stage::Waiting;
        Ok(Step::Wait)
    }

    /// Takes note of an engine that was started: the supervisor owns its process from now on.
    pub fn spawned(&mut self)
        ensures
            *final(self) == (EngineSupervisor { owns_process: true, stage: Stage::Waiting }),
            *final(self) == engine_started(*old(self)),
    {
        self.owns_process = true;
        self.stage = Stage::Waiting;
    }
}

impl Default for EngineSupervisor {
    fn default() -> (r: Self)
        ensures
            !r.owns_process,
            r.stage == Stage::Adopting,
            r == idle(),
    {
        EngineSupervisor::new()
    }
}

/// `rand`'s `OsRng`, filled by `try_fill_bytes`: random bytes of the operating system, as many as
/// asked for. There are none where the system has no randomness to give; where no byte is asked
/// for, the system is not asked either. Which bytes they are is left unsaid.
#[verifier::external_body]
fn random_bytes(count: usize) -> (r: Option<Vec<u8>>)
    ensures
        r matches Some(bytes) ==> bytes@.len() == count,
        count == 0 ==> r is Some,
{
    let mut bytes = vec![0_u8; count];
    rand::rngs::OsRng.try_fill_bytes(&mut bytes).ok()?;
    Some(bytes)
}

/// Whether a character is a lower-case hexadecimal digit.
pub open spec fn hex_char(c: char) -> bool {
    '0' <= c <= '9' || 'a' <= c <= 'f'
}

/// The text of bytes that were drawn: their hexadecimal text, or none where there are none.
pub fn hex_of_drawn(drawn: Option<Vec<u8>>) -> (r: Option<String>)
    ensures
        opt_text(r) == (match drawn {
            Some(bytes) => Some(hex_text(bytes@)),
            None => None,
        }),
{
    match drawn {
        Some(bytes) => Some(hex_encode(bytes.as_slice())),
        None => None,
    }
}

/// Random bytes in hexadecimal: two digits for each. There are none where the operating system has
/// no randomness to give, which is never so where no byte is asked for.
pub fn random_hex(byte_count: usize) -> (r: Option<String>)
    ensures
        r matches Some(text) ==> {
            &&& text@.len() == 2 * byte_count
            &&& forall|i: int| 0 <= i < text@.len() ==> hex_char(#[trigger] text@[i])
        },
        byte_count == 0 ==> opt_text(r) == Some(Seq::<char>::empty()),
{
    let drawn: Option<Vec<u8>> = random_bytes(byte_count);
    proof {
        if drawn is Some {
            let bytes = drawn->0@;
            let text = hex_text(bytes);
            assert forall|i: int| 0 <= i < text.len() implies hex_char(#[trigger] text[i]) by {
                let b = bytes[i / 2];
                assert(text[i] == if i % 2 == 0 {
                    hex_digit(b as int / 16)
                } else {
                    hex_digit(b as int % 16)
                });
            }
            if byte_count == 0 {
                assert(text =~= Seq::<char>::empty());
            }
        }
    }
    hex_of_drawn(drawn)
}

/// The engine token that is there already: the one of the environment, or else the one of the
/// token file, white space around it and blank ones aside.
pub open spec fn existing_token_spec(env: Option<Seq<char>>, file: Option<Seq<char>>) -> Option<
    Seq<char>,
> {
    match nonempty_spec(env) {
        Some(token) => Some(token),
        None => nonempty_spec(file),
    }
}

/// The engine token that is there already, by the setting in the environment and the contents of
/// the token file.
pub fn research_engine_token(env: Option<&str>, file: Option<&str>) -> (r: Option<String>)
    ensures
        opt_text(r) == existing_token_spec(opt_str(env), opt_str(file)),
{
    match nonempty(env) {
        Some(token) => Some(token),
        None => nonempty(file),
    }
}

/// What is to be done about the engine token.
#[derive(Debug, Clone, PartialEq, Eq)]
pub enum TokenPlan {
    /// Use the token that is there.
    Use(String),
    /// Create the token file with a fresh token.
    Create,
}

/// What is to be done about the engine token: the one of the environment comes first, then the one
/// of the token file, and only where there is neither is one created.
pub fn plan_engine_token(env: Option<&str>, file: Option<&str>) -> (r: TokenPlan)
    ensures
        match r {
            TokenPlan::Use(token) => existing_token_spec(opt_str(env), opt_str(file)) == Some(
                token@,
            ),
            TokenPlan::Create => existing_token_spec(opt_str(env), opt_str(file)) is None,
        },
{
    match research_engine_token(env, file) {
        Some(token) => TokenPlan::Use(token),
        None => TokenPlan::Create,
    }
}

/// What came of creating the token file, which must not exist before.
#[derive(Debug, Clone, PartialEq, Eq)]
pub enum TokenFile {
    /// It was created, and the fresh token was written to it.
    Created,
    /// Another process was first. What it wrote is absent where it could not be read.
    Taken { winner: Option<String> },
    /// It could not be created.
    Failed,
}

/// The token to use, by what came of creating the token file, or what is said where there is none.
pub open spec fn token_spec(fresh: Seq<char>, path: Seq<char>, file: TokenFile) -> Result<
    Seq<char>,
    Seq<char>,
> {
    match file {
        TokenFile::Created => Ok(fresh),
        TokenFile::Taken { winner: None } => Err("reading concurrently-created token "@ + path),
        TokenFile::Taken { winner: Some(text) } => if trimmed(text@).len() == 0 {
            Err("concurrently-created research engine token is empty"@)
        } else {
            Ok(trimmed(text@))
        },
        TokenFile::Failed => Err("creating "@ + path),
    }
}

/// The token to use, by what came of creating the token file at `path`.
pub fn ensure_engine_token(fresh: String, path: &str, file: &TokenFile) -> (r: Result<
    String,
    Failure,
>)
    ensures
        match r {
            Ok(token) => token_spec(fresh@, path@, *file) == Ok::<Seq<char>, Seq<char>>(token@),
            Err(e) => token_spec(fresh@, path@, *file) == Err::<Seq<char>, Seq<char>>(e@),
        },
{
    match file {
        TokenFile::Created => Ok(fresh),
        TokenFile::Taken { winner } => match winner {
            None => {
                let mut message: String = "reading concurrently-created token ".to_owned();
                message.append(path);
                Err(Failure { message: message })
            },
            Some(text) => {
                let token: &str = trim(text.as_str());
                if token.unicode_len() == 0 {
                    return Err(
                        Failure::new("concurrently-created research engine token is empty"),
                    );
                }
                Ok(token.to_owned())
            },
        },
        TokenFile::Failed => {
            let mut message: String = "creating ".to_owned();
            message.append(path);
            Err(Failure { message: message })
        },
    }
}

/// Where the code of the engine comes from.
#[derive(Debug, Clone, Copy, PartialEq, Eq, Structural)]
pub enum CodeSource {
    /// The directory that the environment names.
    Override,
    /// The payload that ships with the process.
    Embedded,
}

/// Where the engine's code comes from, given what is in the directory that the environment names.
pub open spec fn code_source(
    directory: Option<Seq<char>>,
    has_package: bool,
    has_experiments: bool,
) -> Result<CodeSource, Seq<char>> {
    match directory {
        Some(named) if named.len() > 0 => if has_package && has_experiments {
            Ok(CodeSource::Override)
        } else {
            Err("RESEARCH_DIR must contain ryu_research/ and experiments/: "@ + named)
        },
        _ => Ok(CodeSource::Embedded),
    }
}

/// Where the code of the engine comes from, by the directory that the environment names. Such a
/// directory must hold the engine package and the experiments.
pub fn engine_code_dir(directory: Option<&str>, has_package: bool, has_experiments: bool) -> (r:
    Result<CodeSource, Failure>)
    ensures
        match r {
            Ok(CodeSource::Embedded) => directory is None || directory->0@.len() == 0,
            Ok(CodeSource::Override) => directory is Some && directory->0@.len() > 0 && has_package
                && has_experiments,
            Err(e) => directory is Some && directory->0@.len() > 0 && !(has_package
                && has_experiments) && e@
                == "RESEARCH_DIR must contain ryu_research/ and experiments/: "@ + directory->0@,
        },
        match r {
            Ok(source) => code_source(opt_str(directory), has_package, has_experiments) == Ok::<
                CodeSource,
                Seq<char>,
            >(source),
            Err(e) => code_source(opt_str(directory), has_package, has_experiments) == Err::<
                CodeSource,
                Seq<char>,
            >(e@),
        },
{
    match directory {
        Some(path) => {
            if path.unicode_len() == 0 {
                return Ok(CodeSource::Embedded);
            }
            if !has_package || !has_experiments {
                let mut message: String =
                    "RESEARCH_DIR must contain ryu_research/ and experiments/: ".to_owned();
                message.append(path);
                return Err(Failure { message: message });
            }
            Ok(CodeSource::Override)
        },
        None => Ok(CodeSource::Embedded),
    }
}

/// A Python interpreter that the engine may be started with.
#[derive(Debug, Clone, Copy, PartialEq, Eq, Structural)]
pub enum PythonProgram {
    /// The one that the environment names.
    Override,
    /// The one in the virtual environment next to the code.
    Venv,
    /// `python3` from the search path.
    Python3,
    /// `python` from the search path.
    Python,
}

/// The interpreters to try, in order.
pub open spec fn candidates(named: bool, has_venv: bool, windows: bool) -> Seq<PythonProgram> {
    if named {
        seq![PythonProgram::Override]
    } else {
        (if has_venv {
            seq![PythonProgram::Venv]
        } else {
            Seq::empty()
        }) + (if windows {
            seq![PythonProgram::Python]
        } else {
            seq![PythonProgram::Python3, PythonProgram::Python]
        })
    }
}

/// The interpreters to try, in order: the one that the environment names and no other, or else the
/// one of a virtual environment, if there is one, and those of the search path.
pub fn python_candidates(named: bool, has_venv: bool, windows: bool) -> (r: Vec<PythonProgram>)
    ensures
        r@ == candidates(named, has_venv, windows),
{
    let mut programs: Vec<PythonProgram> = Vec::new();
    if named {
        programs.push(PythonProgram::Override);
        assert(programs@ =~= candidates(named, has_venv, windows));
        return programs;
    }
    if has_venv {
        programs.push(PythonProgram::Venv);
    }
    if windows {
        programs.push(PythonProgram::Python);
    } else {
        programs.push(PythonProgram::Python3);
        programs.push(PythonProgram::Python);
    }
    assert(programs@ =~= candidates(named, has_venv, windows));
    programs
}

/// What came of starting an interpreter.
#[derive(Debug, Clone, Copy, PartialEq, Eq, Structural)]
pub enum Attempt {
    Started,
    /// There is no such program.
    NotFound,
    /// The program could not be started for another reason.
    Failed,
}

/// Whether the engine was started by an attempt, or the next interpreter is to be tried.
pub open spec fn spawn_outcome(attempt: Attempt, program: Seq<char>, more: bool) -> Result<
    bool,
    Seq<char>,
> {
    match attempt {
        Attempt::Started => Ok(true),
        Attempt::NotFound => if more {
            Ok(false)
        } else {
            Err("spawning the embedded research engine; set RESEARCH_PYTHON to Python 3"@)
        },
        Attempt::Failed => Err("spawning "@ + program + " -m ryu_research"@),
    }
}

/// Whether the engine was started, or the next interpreter is to be tried, by what came of starting
/// `program`; `more` tells whether there is another one.
pub fn spawn_python(attempt: Attempt, program: &str, more: bool) -> (r: Result<bool, Failure>)
    ensures
        match r {
            Ok(true) => attempt == Attempt::Started,
            Ok(false) => attempt == Attempt::NotFound && more,
            Err(e) => {
                ||| attempt == Attempt::NotFound && !more && e@
                    == "spawning the embedded research engine; set RESEARCH_PYTHON to Python 3"@
                ||| attempt == Attempt::Failed && e@ == "spawning "@ + program@
                    + " -m ryu_research"@
            },
        },
        match r {
            Ok(started) => spawn_outcome(attempt, program@, more) == Ok::<bool, Seq<char>>(started),
            Err(e) => spawn_outcome(attempt, program@, more) == Err::<bool, Seq<char>>(e@),
        },
{
    match attempt {
        Attempt::Started => Ok(true),
        Attempt::NotFound => {
            if more {
                Ok(false)
            } else {
                Err(
                    Failure::new(
                        "spawning the embedded research engine; set RESEARCH_PYTHON to Python 3",
                    ),
                )
            }
        },
        Attempt::Failed => {
            let mut message: String = "spawning ".to_owned();
            message.append(program);
            message.append(" -m ryu_research");
            Err(Failure { message: message })
        },
    }
}

/// A variable of the engine's environment.
#[derive(Debug, Clone, PartialEq, Eq)]
pub struct EngineVariable {
    pub name: &'static str,
    pub value: EngineValue,
}

/// What a variable of the engine's environment is set to.
#[derive(Debug, Clone, PartialEq, Eq)]
pub enum EngineValue {
    Text(String),
    /// The directory of the engine's code.
    CodeDir,
    /// The directory of the experiments below it.
    ExperimentsDir,
    /// The directory of the workspaces.
    WorkspacesDir,
}

/// What a variable of the engine's environment is set to.
pub enum ValueView {
    Text(Seq<char>),
    CodeDir,
    ExperimentsDir,
    WorkspacesDir,
}

impl View for EngineVariable {
    type V = (Seq<char>, ValueView);

    open spec fn view(&self) -> (Seq<char>, ValueView) {
        (
            self.name@,
            match self.value {
                EngineValue::Text(text) => ValueView::Text(text@),
                EngineValue::CodeDir => ValueView::CodeDir,
                EngineValue::ExperimentsDir => ValueView::ExperimentsDir,
                EngineValue::WorkspacesDir => ValueView::WorkspacesDir,
            },
        )
    }
}

/// The variables that are set for the engine.
pub open spec fn engine_variables(target: TargetView, token: Seq<char>) -> Seq<
    (Seq<char>, ValueView),
> {
    seq![
        ("PYTHONPATH"@, ValueView::CodeDir),
        ("PYTHONDONTWRITEBYTECODE"@, ValueView::Text("1"@)),
        ("RESEARCH_HOST"@, ValueView::Text(target.host)),
        ("RESEARCH_PORT"@, ValueView::Text(decimal(target.port as nat))),
        ("RESEARCH_EXPERIMENTS"@, ValueView::ExperimentsDir),
        ("RESEARCH_WORKSPACES"@, ValueView::WorkspacesDir),
        ("RYU_RESEARCH_ENGINE_TOKEN"@, ValueView::Text(token)),
    ]
}

/// The variables that are set for the engine, besides the benign ones that it inherits.
pub fn engine_environment(target: &EngineTarget, token: &str) -> (r: Vec<EngineVariable>)
    ensures
        r@.map_values(|v: EngineVariable| v@) == engine_variables(target@, token@),
{
    let variables: Vec<EngineVariable> = vec![
        EngineVariable { name: "PYTHONPATH", value: EngineValue::CodeDir },
        EngineVariable {
            name: "PYTHONDONTWRITEBYTECODE",
            value: EngineValue::Text("1".to_owned()),
        },
        EngineVariable { name: "RESEARCH_HOST", value: EngineValue::Text(target.host.clone()) },
        EngineVariable {
            name: "RESEARCH_PORT",
            value: EngineValue::Text(decimal_text(target.port as u64)),
        },
        EngineVariable { name: "RESEARCH_EXPERIMENTS", value: EngineValue::ExperimentsDir },
        EngineVariable { name: "RESEARCH_WORKSPACES", value: EngineValue::WorkspacesDir },
        EngineVariable {
            name: "RYU_RESEARCH_ENGINE_TOKEN",
            value: EngineValue::Text(token.to_owned()),
        },
    ];
    assert(variables@.map_values(|v: EngineVariable| v@) =~= engine_variables(target@, token@));
    variables
}

/// A character with an ASCII letter in upper case.
pub open spec fn upper_char(c: char) -> char {
    if 'a' <= c <= 'z' {
        (c as u32 - 32) as u8 as char
    } else {
        c
    }
}

/// A text with its ASCII letters in upper case.
pub open spec fn upper(s: Seq<char>) -> Seq<char> {
    s.map_values(|c: char| upper_char(c))
}

/// The variables that the engine may inherit.
pub open spec fn benign_names() -> Seq<Seq<char>> {
    seq![
        "APPDATA"@,
        "COMSPEC"@,
        "CUDA_PATH"@,
        "CUDA_VISIBLE_DEVICES"@,
        "DYLD_LIBRARY_PATH"@,
        "HOME"@,
        "LANG"@,
        "LC_ALL"@,
        "LD_LIBRARY_PATH"@,
        "LOCALAPPDATA"@,
        "NUMBER_OF_PROCESSORS"@,
        "PATH"@,
        "PATHEXT"@,
        "PROCESSOR_ARCHITECTURE"@,
        "PROGRAMDATA"@,
        "PROGRAMFILES"@,
        "PROGRAMFILES(X86)"@,
        "SYSTEMROOT"@,
        "TEMP"@,
        "TERM"@,
        "TMP"@,
        "USERPROFILE"@,
        "WINDIR"@,
    ]
}

/// Whether the engine may inherit a variable. The case of its name does not matter.
pub open spec fn benign(name: Seq<char>) -> bool {
    benign_names().contains(upper(name))
}

fn benign_list() -> (r: Vec<&'static str>)
    ensures
        r@.map_values(|s: &'static str| s@) == benign_names(),
{
    let names: Vec<&'static str> = vec![
        "APPDATA",
        "COMSPEC",
        "CUDA_PATH",
        "CUDA_VISIBLE_DEVICES",
        "DYLD_LIBRARY_PATH",
        "HOME",
        "LANG",
        "LC_ALL",
        "LD_LIBRARY_PATH",
        "LOCALAPPDATA",
        "NUMBER_OF_PROCESSORS",
        "PATH",
        "PATHEXT",
        "PROCESSOR_ARCHITECTURE",
        "PROGRAMDATA",
        "PROGRAMFILES",
        "PROGRAMFILES(X86)",
        "SYSTEMROOT",
        "TEMP",
        "TERM",
        "TMP",
        "USERPROFILE",
        "WINDIR",
    ];
    assert(names@.map_values(|s: &'static str| s@) =~= benign_names());
    names
}

fn to_upper(s: &str) -> (r: String)
    ensures
        r@ == upper(s@),
{
    let chars: Vec<char> = chars_of(s);
    let mut out: String = String::new();
    let mut i: usize = 0;
    assert(out@ =~= upper(s@.take(0)));
    while i < chars.len()
        invariant
            i <= chars@.len(),
            chars@ == s@,
            out@ == upper(s@.take(i as int)),
        decreases chars@.len() - i,
    {
        let c: char = chars[i];
        if 'a' <= c && c <= 'z' {
            out.push((c as u8 - 32) as char);
        } else {
            out.push(c);
        }
        assert(out@ =~= upper(s@.take(i + 1)));
        i += 1;
    }
    assert(s@.take(s@.len() as int) =~= s@);
    out
}

/// Whether the engine may inherit a variable of that name.
pub fn copies_variable(name: &str) -> (r: bool)
    ensures
        r == benign(name@),
{
    let normalized: String = to_upper(name);
    let names: Vec<&'static str> = benign_list();
    let ghost all = names@.map_values(|s: &'static str| s@);
    let mut i: usize = 0;
    while i < names.len()
        invariant
            i <= names@.len(),
            all == names@.map_values(|s: &'static str| s@),
            all == benign_names(),
            normalized@ == upper(name@),
            forall|j: int| 0 <= j < i ==> #[trigger] all[j] != normalized@,
        decreases names@.len() - i,
    {
        assert(all[i as int] == names@[i as int]@);
        if same_text(names[i], normalized.as_str()) {
            assert(benign_names()[i as int] == upper(name@));
            return true;
        }
        i += 1;
    }
    assert(!benign_names().contains(upper(name@)));
    false
}

/// An explicit upstream is only ever adopted, and anything else is on the loopback address.
pub proof fn law_explicit_upstream_is_adopt_only(
    upstream: Option<Seq<char>>,
    port: Option<Seq<char>>,
)
    ensures
        env_target(upstream, port) matches Ok(target) ==> {
            &&& target.adopt_only <==> nonempty_spec(upstream) is Some
            &&& !target.adopt_only ==> target.host == "127.0.0.1"@ && loopback_host(target.host)
        },
{
}

/// Without any setting, the engine is started where requests are sent to.
pub proof fn law_default_target_is_the_default_base_url()
    ensures
        env_target(None, None) == Ok::<TargetView, Seq<char>>(loopback_target(RESEARCH_PORT)),
        loopback_target(RESEARCH_PORT).base_url == crate::base_url(None),
{
    reveal_strlit("http://127.0.0.1:");
    reveal_strlit("http://");
    reveal_strlit("127.0.0.1:8087");
    reveal_with_fuel(decimal, 5);
    assert(decimal(8087) =~= seq!['8', '0', '8', '7']);
    assert("http://127.0.0.1:"@ + decimal(8087) =~= "http://"@ + crate::RESEARCH_ADDR@);
}

/// No target carries credentials: a URL with a user name or a password is refused.
pub proof fn law_credentials_are_refused(url: UrlView)
    requires
        url.username.len() > 0 || url.password is Some,
    ensures
        explicit_target(url) is Err,
{
}

/// An engine is started only where none was ready, only on a loopback host, and never for an
/// explicit upstream.
pub proof fn law_only_local_engines_are_started(
    stage: Stage,
    target: TargetView,
    ready: bool,
    elapsed: u64,
)
    requires
        look(stage, target, ready, elapsed) == Ok::<Step, Seq<char>>(Step::Spawn),
    ensures
        !ready,
        !target.adopt_only,
        loopback_host(target.host),
        stage == Stage::Adopting,
{
}

/// A ready engine is used, whoever started it, and the supervisor owns what it owned before.
pub proof fn law_ready_engines_are_adopted(
    before: EngineSupervisor,
    target: TargetView,
    elapsed: u64,
    exited: bool,
)
    ensures
        look(before.stage, target, true, elapsed) == Ok::<Step, Seq<char>>(Step::Ready),
        looked(before, look(before.stage, target, true, elapsed), exited).owns_process
            == before.owns_process,
{
}

/// The wait for a started engine goes on until it is ready or the time is up, and no longer,
/// whether or not the process that was started has ended.
pub proof fn law_the_wait_is_bounded(
    before: EngineSupervisor,
    target: TargetView,
    elapsed: u64,
    exited: bool,
)
    requires
        before.stage == Stage::Waiting,
    ensures
        elapsed < READY_TIMEOUT_MILLIS ==> look(before.stage, target, false, elapsed) == Ok::<
            Step,
            Seq<char>,
        >(Step::Wait) && looked(
            before,
            look(before.stage, target, false, elapsed),
            exited,
        ).stage == Stage::Waiting,
        elapsed >= READY_TIMEOUT_MILLIS ==> look(before.stage, target, false, elapsed) is Err,
{
}

/// A token that is found or agreed on is never blank, and has no white space around it.
pub proof fn law_tokens_are_trimmed(
    env: Option<Seq<char>>,
    file: Option<Seq<char>>,
    path: Seq<char>,
    taken: TokenFile,
)
    ensures
        existing_token_spec(env, file) matches Some(token) ==> token.len() > 0 && trimmed(token)
            == token,
        taken is Taken ==> (token_spec(Seq::empty(), path, taken) matches Ok(token) ==> token.len()
            > 0 && trimmed(token) == token),
{
    match env {
        Some(text) => {
            law_trimming_is_idempotent(text);
        },
        None => {},
    }
    match file {
        Some(text) => {
            law_trimming_is_idempotent(text);
        },
        None => {},
    }
    match taken {
        TokenFile::Taken { winner: Some(text) } => {
            law_trimming_is_idempotent(text@);
        },
        _ => {},
    }
}

/// What comes of creating the token file where no other process interferes: a file that is there
/// is not replaced.
pub open spec fn creation(file: Option<String>) -> TokenFile {
    match file {
        None => TokenFile::Created,
        Some(text) => TokenFile::Taken { winner: Some(text) },
    }
}

/// The token that is settled on where no other process interferes, by the setting in the
/// environment and the token file before.
pub open spec fn settled_token(
    env: Option<Seq<char>>,
    file: Option<String>,
    fresh: Seq<char>,
    path: Seq<char>,
) -> Result<Seq<char>, Seq<char>> {
    match existing_token_spec(env, opt_text(file)) {
        Some(token) => Ok(token),
        None => token_spec(fresh, path, creation(file)),
    }
}

/// The token file after that.
pub open spec fn token_file_after(
    env: Option<Seq<char>>,
    file: Option<String>,
    fresh: Seq<char>,
) -> Option<Seq<char>> {
    if existing_token_spec(env, opt_text(file)) is None && creation(file) is Created {
        Some(fresh)
    } else {
        opt_text(file)
    }
}

/// Whether a text is a token such as `random_hex` makes.
pub open spec fn hex_token(text: Seq<char>) -> bool {
    text.len() > 0 && forall|i: int| 0 <= i < text.len() ==> hex_char(#[trigger] text[i])
}

/// A fresh token is its own trimmed text, and reads back from the token file as it is.
pub proof fn law_fresh_tokens_read_back(fresh: Seq<char>)
    requires
        hex_token(fresh),
    ensures
        trimmed(fresh) == fresh,
        existing_token_spec(None, Some(fresh)) == Some(fresh),
{
    assert(hex_char(fresh[0]));
    assert(hex_char(fresh[fresh.len() - 1]));
    assert(trimmed_start(fresh) == fresh);
    assert(trimmed_end(fresh) == fresh);
}

/// The token of the environment comes first, then the one of the token file; only where there is no
/// file is one created, with the fresh token; a blank file is an error. A file that is there is never
/// overwritten.
pub proof fn law_tokens_are_found_before_they_are_created(
    env: Option<Seq<char>>,
    file: Option<String>,
    fresh: Seq<char>,
    path: Seq<char>,
)
    ensures
        nonempty_spec(env) is Some ==> settled_token(env, file, fresh, path) == Ok::<
            Seq<char>,
            Seq<char>,
        >(nonempty_spec(env)->0),
        nonempty_spec(env) is None && nonempty_spec(opt_text(file)) is Some ==> settled_token(
            env,
            file,
            fresh,
            path,
        ) == Ok::<Seq<char>, Seq<char>>(nonempty_spec(opt_text(file))->0),
        nonempty_spec(env) is None && file is None ==> settled_token(env, file, fresh, path) == Ok::<
            Seq<char>,
            Seq<char>,
        >(fresh) && token_file_after(env, file, fresh) == Some(fresh),
        nonempty_spec(env) is None && file is Some && nonempty_spec(opt_text(file)) is None
            ==> settled_token(env, file, fresh, path) == Err::<Seq<char>, Seq<char>>(
            "concurrently-created research engine token is empty"@,
        ),
        file is Some ==> token_file_after(env, file, fresh) == opt_text(file),
        nonempty_spec(env) is Some ==> token_file_after(env, file, fresh) == opt_text(file),
{
}

/// A token that is settled on is never empty, and is settled on again the next time, whatever fresh
/// token that time brings.
pub proof fn law_tokens_stay(
    env: Option<Seq<char>>,
    file: Option<String>,
    next: Option<String>,
    fresh: Seq<char>,
    other: Seq<char>,
    path: Seq<char>,
)
    requires
        hex_token(fresh),
        settled_token(env, file, fresh, path) is Ok,
        opt_text(next) == token_file_after(env, file, fresh),
    ensures
        settled_token(env, file, fresh, path)->Ok_0.len() > 0,
        settled_token(env, next, other, path) == settled_token(env, file, fresh, path),
        token_file_after(env, next, other) == opt_text(next),
{
    law_fresh_tokens_read_back(fresh);
}

/// The engine inherits no variable whose name begins with an R, in either case, and so none of this
/// app's or its host's own: those begin with `RYU_` or `RESEARCH_`.
pub proof fn law_no_token_is_inherited(name: Seq<char>)
    requires
        name.len() > 0,
        upper_char(name[0]) == 'R',
    ensures
        !benign(name),
{
    reveal_strlit("APPDATA");
    reveal_strlit("COMSPEC");
    reveal_strlit("CUDA_PATH");
    reveal_strlit("CUDA_VISIBLE_DEVICES");
    reveal_strlit("DYLD_LIBRARY_PATH");
    reveal_strlit("HOME");
    reveal_strlit("LANG");
    reveal_strlit("LC_ALL");
    reveal_strlit("LD_LIBRARY_PATH");
    reveal_strlit("LOCALAPPDATA");
    reveal_strlit("NUMBER_OF_PROCESSORS");
    reveal_strlit("PATH");
    reveal_strlit("PATHEXT");
    reveal_strlit("PROCESSOR_ARCHITECTURE");
    reveal_strlit("PROGRAMDATA");
    reveal_strlit("PROGRAMFILES");
    reveal_strlit("PROGRAMFILES(X86)");
    reveal_strlit("SYSTEMROOT");
    reveal_strlit("TEMP");
    reveal_strlit("TERM");
    reveal_strlit("TMP");
    reveal_strlit("USERPROFILE");
    reveal_strlit("WINDIR");
    let names = benign_names();
    assert(names[0][0] == 'A');
    assert(names[1][0] == 'C');
    assert(names[2][0] == 'C');
    assert(names[3][0] == 'C');
    assert(names[4][0] == 'D');
    assert(names[5][0] == 'H');
    assert(names[6][0] == 'L');
    assert(names[7][0] == 'L');
    assert(names[8][0] == 'L');
    assert(names[9][0] == 'L');
    assert(names[10][0] == 'N');
    assert(names[11][0] == 'P');
    assert(names[12][0] == 'P');
    assert(names[13][0] == 'P');
    assert(names[14][0] == 'P');
    assert(names[15][0] == 'P');
    assert(names[16][0] == 'P');
    assert(names[17][0] == 'S');
    assert(names[18][0] == 'T');
    assert(names[19][0] == 'T');
    assert(names[20][0] == 'T');
    assert(names[21][0] == 'U');
    assert(names[22][0] == 'W');
    assert forall|i: int| 0 <= i < names.len() implies #[trigger] names[i] != upper(name) by {
        assert(upper(name)[0] == 'R');
        assert(names[i][0] != 'R');
    }
}

/// The interpreter that the environment names is the only one tried. Otherwise the one of a virtual
/// environment goes before those of the search path, and changes nothing about them: `python3` and then
/// `python`, or on Windows `python` alone.
pub proof fn law_interpreters_are_tried_in_order(has_venv: bool, windows: bool)
    ensures
        candidates(true, has_venv, windows) == seq![PythonProgram::Override],
        candidates(false, true, windows) == seq![PythonProgram::Venv] + candidates(
            false,
            false,
            windows,
        ),
        candidates(false, false, false) == seq![PythonProgram::Python3, PythonProgram::Python],
        candidates(false, false, true) == seq![PythonProgram::Python],
{
}

/// There is always an interpreter to try, none is tried twice, and `python` is the last resort unless
/// one is named.
pub proof fn law_there_is_always_an_interpreter(named: bool, has_venv: bool, windows: bool)
    ensures
        candidates(named, has_venv, windows).len() > 0,
        candidates(named, has_venv, windows).no_duplicates(),
        !named ==> candidates(named, has_venv, windows).last() == PythonProgram::Python,
        candidates(named, has_venv, windows).contains(PythonProgram::Override) <==> named,
        candidates(named, has_venv, windows).contains(PythonProgram::Venv) <==> !named && has_venv,
        candidates(named, has_venv, windows).contains(PythonProgram::Python3) <==> !named && !windows,
{
    let tried = candidates(named, has_venv, windows);
    if named {
        assert(tried[0] == PythonProgram::Override);
    } else if has_venv {
        assert(tried[0] == PythonProgram::Venv);
        if !windows {
            assert(tried[1] == PythonProgram::Python3);
        }
    } else if !windows {
        assert(tried[0] == PythonProgram::Python3);
    }
}

/// An explicit upstream is accepted exactly where it is an HTTP address with a host and a port and
/// without a name or a password. It is adopted under its own host and port, at its own address
/// without the slashes at its end.
pub proof fn law_explicit_upstreams_are_accepted_exactly(url: UrlView)
    ensures
        ({
            let plain = (url.scheme == "http"@ || url.scheme == "https"@) && url.host is Some
                && url.username == Seq::<char>::empty() && url.password is None;
            &&& plain && url.port is Some ==> (explicit_target(url) matches Ok(target)
                && target.base_url == without_trailing(url.text, '/') && Some(target.host)
                == url.host && Some(target.port) == url.port && target.adopt_only)
            &&& plain && url.port is None ==> explicit_target(url) == Err::<TargetView, Seq<char>>(
                "RYU_RESEARCH_UPSTREAM has no port"@,
            )
            &&& !plain ==> explicit_target(url) == Err::<TargetView, Seq<char>>(
                "RYU_RESEARCH_UPSTREAM must be an http(s) endpoint without credentials"@,
            )
        }),
{
    if url.username.len() == 0 {
        assert(url.username =~= Seq::<char>::empty());
    }
}

/// Where no upstream is given, the engine is on the loopback of this machine, at the port that is given
/// or at 8087, and it may be started; a port that is no port is refused.
pub proof fn law_the_local_engine_is_on_loopback(
    upstream: Option<Seq<char>>,
    port: Option<Seq<char>>,
    number: u16,
)
    requires
        upstream is None || trimmed(upstream->0).len() == 0,
    ensures
        (port is None || trimmed(port->0).len() == 0) ==> (env_target(upstream, port) matches Ok(target)
            && target.base_url == "http://127.0.0.1:8087"@ && target.host == "127.0.0.1"@
            && target.port == 8087 && !target.adopt_only),
        port matches Some(text) ==> (trimmed(text).len() > 0 && port_value(trimmed(text)) == Some(number)
            ==> (env_target(upstream, port) matches Ok(target) && target.base_url
            == "http://127.0.0.1:"@ + decimal(number as nat) && target.host == "127.0.0.1"@
            && target.port == number && !target.adopt_only)),
        port matches Some(text) ==> (trimmed(text).len() > 0 && port_value(trimmed(text)) is None
            ==> env_target(upstream, port) == Err::<TargetView, Seq<char>>(
            "RESEARCH_PORT must be a valid TCP port"@,
        )),
{
    law_default_target_is_the_default_base_url();
    reveal_strlit("http://127.0.0.1:8087");
    reveal_strlit("http://127.0.0.1:");
    reveal_with_fuel(decimal, 5);
    assert("http://127.0.0.1:"@ + decimal(8087) =~= "http://127.0.0.1:8087"@);
}

/// Where an upstream is given, the port is not looked at: the upstream, without the white space around
/// it and the slashes at its end, and as an HTTP address unless it says how it is spoken to, is the
/// target or is refused.
pub proof fn law_the_upstream_goes_before_the_port(
    upstream: Seq<char>,
    port: Option<Seq<char>>,
    given: Seq<char>,
)
    requires
        given == trimmed(upstream),
        given.len() > 0,
    ensures
        ({
            let address = if begins_with(given, "http://"@) || begins_with(given, "https://"@) {
                without_trailing(given, '/')
            } else {
                without_trailing("http://"@ + given, '/')
            };
            &&& upstream_url(given) == address
            &&& url_parts(address) matches Some(url) ==> env_target(Some(upstream), port)
                == explicit_target(url)
            &&& url_parts(address) is None ==> env_target(Some(upstream), port) == Err::<TargetView, Seq<char>>(
                "RYU_RESEARCH_UPSTREAM must be an http(s) URL or host:port"@,
            )
        }),
{
}

/// An engine that answers is used in every stage. One that does not is started only while none is being
/// waited for, only on loopback and only where it may be; one that is being waited for gets twenty
/// seconds.
pub proof fn law_looking_at_the_engine_decides(
    target: TargetView,
    elapsed: u64,
    stage: Stage,
)
    ensures
        look(stage, target, true, elapsed) == Ok::<Step, Seq<char>>(Step::Ready),
        look(Stage::Adopting, target, false, elapsed) == Ok::<Step, Seq<char>>(Step::Spawn)
            <==> !target.adopt_only && (target.host == "127.0.0.1"@ || target.host == "localhost"@
            || target.host == "::1"@),
        look(Stage::Adopting, target, false, elapsed) is Ok ==> look(
            Stage::Adopting,
            target,
            false,
            elapsed,
        ) == Ok::<Step, Seq<char>>(Step::Spawn),
        target.adopt_only ==> look(Stage::Adopting, target, false, elapsed) == Err::<Step, Seq<char>>(
            "the explicit research engine at "@ + target.base_url
                + " is not authenticated and ready"@,
        ),
        !target.adopt_only && look(Stage::Adopting, target, false, elapsed) is Err ==> look(
            Stage::Adopting,
            target,
            false,
            elapsed,
        ) == Err::<Step, Seq<char>>("Research only spawns its engine on loopback"@),
        elapsed < 20000 ==> look(Stage::Waiting, target, false, elapsed) == Ok::<Step, Seq<char>>(
            Step::Wait,
        ),
        elapsed >= 20000 ==> look(Stage::Waiting, target, false, elapsed) == Err::<Step, Seq<char>>(
            "embedded research engine did not become authenticated and ready at "@ + target.base_url
                + " within 20s"@,
        ),
{
    reveal_strlit(" within ");
    reveal_strlit("s");
    reveal_strlit(" within 20s");
    reveal_with_fuel(decimal, 3);
    let told = "embedded research engine did not become authenticated and ready at "@
        + target.base_url;
    assert(told + " within "@ + decimal(20) + "s"@ =~= told + " within 20s"@);
}

/// Only a wait goes on waiting, and only a process that has exited while it was waited for is given up;
/// every other look leaves the process as it was and starts anew.
pub proof fn law_only_an_exited_process_is_given_up(
    before: EngineSupervisor,
    target: TargetView,
    ready: bool,
    elapsed: u64,
    exited: bool,
)
    ensures
        ({
            let outcome = look(before.stage, target, ready, elapsed);
            let after = looked(before, outcome, exited);
            &&& after.stage == Stage::Waiting <==> outcome == Ok::<Step, Seq<char>>(Step::Wait)
            &&& after.owns_process <==> before.owns_process && !(exited && outcome == Ok::<
                Step,
                Seq<char>,
            >(Step::Wait))
        }),
{
}

/// The token of the environment goes before the one in the file, each without the white space around
/// it, and one of white space alone counts as none.
pub proof fn law_the_environment_goes_before_the_token_file(env: Seq<char>, file: Seq<char>)
    ensures
        trimmed(env).len() > 0 ==> existing_token_spec(Some(env), Some(file)) == Some(trimmed(env))
            && existing_token_spec(Some(env), None) == Some(trimmed(env)),
        trimmed(env).len() == 0 ==> existing_token_spec(Some(env), Some(file)) == existing_token_spec(
            None,
            Some(file),
        ) && existing_token_spec(Some(env), None) is None,
        trimmed(file).len() > 0 ==> existing_token_spec(None, Some(file)) == Some(trimmed(file)),
        trimmed(file).len() == 0 ==> existing_token_spec(None, Some(file)) is None,
        existing_token_spec(None, None) is None,
{
}

/// A token file that was created holds the fresh token; one that another process created first gives
/// that process's token; trouble names the file.
pub proof fn law_the_first_token_wins(fresh: Seq<char>, path: Seq<char>, text: String)
    ensures
        token_spec(fresh, path, TokenFile::Created) == Ok::<Seq<char>, Seq<char>>(fresh),
        trimmed(text@).len() > 0 ==> token_spec(
            fresh,
            path,
            TokenFile::Taken { winner: Some(text) },
        ) == Ok::<Seq<char>, Seq<char>>(trimmed(text@)),
        trimmed(text@).len() == 0 ==> token_spec(
            fresh,
            path,
            TokenFile::Taken { winner: Some(text) },
        ) == Err::<Seq<char>, Seq<char>>("concurrently-created research engine token is empty"@),
        token_spec(fresh, path, TokenFile::Taken { winner: None }) == Err::<Seq<char>, Seq<char>>(
            "reading concurrently-created token "@ + path,
        ),
        token_spec(fresh, path, TokenFile::Failed) == Err::<Seq<char>, Seq<char>>(
            "creating "@ + path,
        ),
{
}

/// The engine is told where its code, its experiments and its workspaces are, where to listen, and the
/// token to ask for; it is told nothing twice.
pub proof fn law_the_engine_is_told_where_it_is(target: TargetView, token: Seq<char>)
    ensures
        ({
            let told = engine_variables(target, token);
            &&& told.len() == 7
            &&& told.contains(("PYTHONPATH"@, ValueView::CodeDir))
            &&& told.contains(("PYTHONDONTWRITEBYTECODE"@, ValueView::Text("1"@)))
            &&& told.contains(("RESEARCH_HOST"@, ValueView::Text(target.host)))
            &&& told.contains(("RESEARCH_PORT"@, ValueView::Text(decimal(target.port as nat))))
            &&& told.contains(("RESEARCH_EXPERIMENTS"@, ValueView::ExperimentsDir))
            &&& told.contains(("RESEARCH_WORKSPACES"@, ValueView::WorkspacesDir))
            &&& told.contains(("RYU_RESEARCH_ENGINE_TOKEN"@, ValueView::Text(token)))
            &&& forall|i: int, j: int|
                0 <= i < j < told.len() ==> (#[trigger] told[i]).0 != (#[trigger] told[j]).0
        }),
{
    let told = engine_variables(target, token);
    assert(told[0] == ("PYTHONPATH"@, ValueView::CodeDir));
    assert(told[1] == ("PYTHONDONTWRITEBYTECODE"@, ValueView::Text("1"@)));
    assert(told[2] == ("RESEARCH_HOST"@, ValueView::Text(target.host)));
    assert(told[3] == ("RESEARCH_PORT"@, ValueView::Text(decimal(target.port as nat))));
    assert(told[4] == ("RESEARCH_EXPERIMENTS"@, ValueView::ExperimentsDir));
    assert(told[5] == ("RESEARCH_WORKSPACES"@, ValueView::WorkspacesDir));
    assert(told[6] == ("RYU_RESEARCH_ENGINE_TOKEN"@, ValueView::Text(token)));
    reveal_strlit("PYTHONPATH");
    reveal_strlit("PYTHONDONTWRITEBYTECODE");
    reveal_strlit("RESEARCH_HOST");
    reveal_strlit("RESEARCH_PORT");
    reveal_strlit("RESEARCH_EXPERIMENTS");
    reveal_strlit("RESEARCH_WORKSPACES");
    reveal_strlit("RYU_RESEARCH_ENGINE_TOKEN");
    assert("PYTHONPATH"@.len() == 10 && "PYTHONDONTWRITEBYTECODE"@.len() == 23
        && "RESEARCH_HOST"@.len() == 13 && "RESEARCH_PORT"@.len() == 13
        && "RESEARCH_EXPERIMENTS"@.len() == 20 && "RESEARCH_WORKSPACES"@.len() == 19
        && "RYU_RESEARCH_ENGINE_TOKEN"@.len() == 25);
    assert("RESEARCH_HOST"@[9] == 'H' && "RESEARCH_PORT"@[9] == 'P');
}

/// Upper case changes the 26 letters of ASCII, each to the one 32 places before it, and nothing else.
pub proof fn law_upper_case_is_of_ascii(s: Seq<char>, i: int)
    requires
        0 <= i < s.len(),
    ensures
        upper(s).len() == s.len(),
        'a' <= s[i] <= 'z' ==> upper(s)[i] as int == s[i] as int - 32,
        !('a' <= s[i] <= 'z') ==> upper(s)[i] == s[i],
        upper(upper(s)) == upper(s),
{
    assert forall|j: int| 0 <= j < s.len() implies upper(upper(s))[j] == upper(s)[j] by {
        let c = s[j];
        if 'a' <= c <= 'z' {
            assert(upper(s)[j] as u32 == c as u32 - 32);
        }
    }
    assert(upper(upper(s)) =~= upper(s));
}

/// Whether a variable is copied does not depend on the case of its name.
pub proof fn law_variables_are_copied_in_any_case(a: Seq<char>, b: Seq<char>)
    requires
        upper(a) == upper(b),
    ensures
        benign(a) == benign(b),
{
}

/// The variables that are copied to the engine are these 23, in any case, and no others.
pub proof fn law_only_harmless_variables_are_copied(given: Seq<char>, name: Seq<char>)
    requires
        name == upper(given),
    ensures
        benign(given) <==> {
            ||| name == "APPDATA"@
            ||| name == "COMSPEC"@
            ||| name == "CUDA_PATH"@
            ||| name == "CUDA_VISIBLE_DEVICES"@
            ||| name == "DYLD_LIBRARY_PATH"@
            ||| name == "HOME"@
            ||| name == "LANG"@
            ||| name == "LC_ALL"@
            ||| name == "LD_LIBRARY_PATH"@
            ||| name == "LOCALAPPDATA"@
            ||| name == "NUMBER_OF_PROCESSORS"@
            ||| name == "PATH"@
            ||| name == "PATHEXT"@
            ||| name == "PROCESSOR_ARCHITECTURE"@
            ||| name == "PROGRAMDATA"@
            ||| name == "PROGRAMFILES"@
            ||| name == "PROGRAMFILES(X86)"@
            ||| name == "SYSTEMROOT"@
            ||| name == "TEMP"@
            ||| name == "TERM"@
            ||| name == "TMP"@
            ||| name == "USERPROFILE"@
            ||| name == "WINDIR"@
        },
{
    assert(benign_names()[0] == "APPDATA"@);
    assert(benign_names()[1] == "COMSPEC"@);
    assert(benign_names()[2] == "CUDA_PATH"@);
    assert(benign_names()[3] == "CUDA_VISIBLE_DEVICES"@);
    assert(benign_names()[4] == "DYLD_LIBRARY_PATH"@);
    assert(benign_names()[5] == "HOME"@);
    assert(benign_names()[6] == "LANG"@);
    assert(benign_names()[7] == "LC_ALL"@);
    assert(benign_names()[8] == "LD_LIBRARY_PATH"@);
    assert(benign_names()[9] == "LOCALAPPDATA"@);
    assert(benign_names()[10] == "NUMBER_OF_PROCESSORS"@);
    assert(benign_names()[11] == "PATH"@);
    assert(benign_names()[12] == "PATHEXT"@);
    assert(benign_names()[13] == "PROCESSOR_ARCHITECTURE"@);
    assert(benign_names()[14] == "PROGRAMDATA"@);
    assert(benign_names()[15] == "PROGRAMFILES"@);
    assert(benign_names()[16] == "PROGRAMFILES(X86)"@);
    assert(benign_names()[17] == "SYSTEMROOT"@);
    assert(benign_names()[18] == "TEMP"@);
    assert(benign_names()[19] == "TERM"@);
    assert(benign_names()[20] == "TMP"@);
    assert(benign_names()[21] == "USERPROFILE"@);
    assert(benign_names()[22] == "WINDIR"@);
    assert(benign_names().len() == 23);
}

/// The code is the one that ships with the process unless a directory is named; one that is named is
/// used where it holds both the package and the experiments, and is otherwise refused by its name.
pub proof fn law_a_named_directory_is_used_or_refused(
    named: Seq<char>,
    package: bool,
    experiments: bool,
)
    ensures
        code_source(None, package, experiments) == Ok::<CodeSource, Seq<char>>(CodeSource::Embedded),
        code_source(Some(Seq::<char>::empty()), package, experiments) == Ok::<CodeSource, Seq<char>>(
            CodeSource::Embedded,
        ),
        named.len() > 0 ==> code_source(Some(named), true, true) == Ok::<CodeSource, Seq<char>>(
            CodeSource::Override,
        ),
        named.len() > 0 && !(package && experiments) ==> code_source(Some(named), package, experiments)
            == Err::<CodeSource, Seq<char>>(
            "RESEARCH_DIR must contain ryu_research/ and experiments/: "@ + named,
        ),
{
}

/// An interpreter that is not there is passed over as long as there is another; any other trouble ends
/// the search and names the program.
pub proof fn law_only_missing_interpreters_are_passed_over(program: Seq<char>, more: bool)
    ensures
        spawn_outcome(Attempt::Started, program, more) == Ok::<bool, Seq<char>>(true),
        spawn_outcome(Attempt::NotFound, program, true) == Ok::<bool, Seq<char>>(false),
        spawn_outcome(Attempt::NotFound, program, false) == Err::<bool, Seq<char>>(
            "spawning the embedded research engine; set RESEARCH_PYTHON to Python 3"@,
        ),
        spawn_outcome(Attempt::Failed, program, more) == Err::<bool, Seq<char>>(
            "spawning "@ + program + " -m ryu_research"@,
        ),
{
}

/// The engine is looked at eight times a second, and its tokens are drawn from 32 bytes.
pub proof fn law_the_wait_and_the_token_have_their_measure()
    ensures
        READY_POLL_MILLIS * 8 == 1000,
        READY_TIMEOUT_MILLIS == READY_TIMEOUT_SECS * 1000,
        ENGINE_TOKEN_BYTES == 32,
{
}

/// An engine is asked for its experiments, under the token.
pub proof fn law_engines_are_asked_under_the_token(base: Seq<char>, token: Seq<char>)
    ensures
        ({
            let call = ready_call(base, token);
            call.method == Method::Get && call.url == base + "/experiments"@ && call.body is None
                && call.bearer == Some(token)
        }),
{
}

/// Targets, steps and variables are seen whole.
pub proof fn law_targets_are_seen_whole(
    target: EngineTarget,
    step: Step,
    failure: Failure,
    url: UrlParts,
    variable: EngineVariable,
)
    ensures
        target@.base_url == target.base_url@ && target@.host == target.host@ && target@.port
            == target.port && target@.adopt_only == target.adopt_only,
        target_outcome(Ok::<EngineTarget, Failure>(target)) == Ok::<TargetView, Seq<char>>(target@),
        target_outcome(Err::<EngineTarget, Failure>(failure)) == Err::<TargetView, Seq<char>>(
            failure.message@,
        ),
        step_outcome(Ok::<Step, Failure>(step)) == Ok::<Step, Seq<char>>(step),
        step_outcome(Err::<Step, Failure>(failure)) == Err::<Step, Seq<char>>(failure.message@),
        url@.scheme == url.scheme@ && url@.host == opt_text(url.host) && url@.username == url.username@
            && url@.password == opt_text(url.password) && url@.port == url.port && url@.text
            == url.text@,
        variable@.0 == variable.name@,
        variable.value matches EngineValue::Text(text) ==> variable@.1 == ValueView::Text(text@),
        variable.value is CodeDir ==> variable@.1 == ValueView::CodeDir,
        variable.value is ExperimentsDir ==> variable@.1 == ValueView::ExperimentsDir,
        variable.value is WorkspacesDir ==> variable@.1 == ValueView::WorkspacesDir,
{
}

/// A supervisor owns nothing at first; one that begins again keeps its process; one that has started an
/// engine owns it and waits for it, so that its next look is never another start.
pub proof fn law_a_started_engine_is_waited_for(
    before: EngineSupervisor,
    target: TargetView,
    ready: bool,
    elapsed: u64,
)
    ensures
        !idle().owns_process && idle().stage == Stage::Adopting,
        begun(before).owns_process == before.owns_process && begun(before).stage == Stage::Adopting,
        engine_started(before).owns_process && engine_started(before).stage == Stage::Waiting,
        look(engine_started(before).stage, target, ready, elapsed) != Ok::<Step, Seq<char>>(
            Step::Spawn,
        ),
{
}

/// A token's characters are the ten digits and the first six letters in lower case: the characters that
/// bytes are spelled with.
pub proof fn law_tokens_are_of_hexadecimal_characters(c: char, bytes: Seq<u8>, i: int)
    ensures
        hex_char(c) <==> ('0' as int <= c as int <= '9' as int) || ('a' as int <= c as int <= 'f' as int),
        0 <= i < hex_text(bytes).len() ==> hex_char(hex_text(bytes)[i]),
{
    if 0 <= i < hex_text(bytes).len() {
        let b = bytes[i / 2];
        assert(hex_text(bytes)[i] == if i % 2 == 0 {
            hex_digit(b as int / 16)
        } else {
            hex_digit(b as int % 16)
        });
    }
}

} // verus!
