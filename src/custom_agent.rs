use vstd::prelude::*;

use crate::action::BaseCodingAgent;

verus! {

/// The agent families a custom agent can be based on.
#[derive(Clone, Copy, Debug, PartialEq, Eq, Structural)]
pub enum BaseAgentType {
    ClaudeCode,
    Amp,
    Gemini,
    Codex,
    Opencode,
    CursorAgent,
    QwenCode,
    Copilot,
    Droid,
}

/// Pick the base family of a custom agent; a custom agent cannot be based on another
/// custom agent.
pub fn base_agent_type(kind: BaseCodingAgent) -> (r: Result<BaseAgentType, &'static str>)
    ensures
        r is Err <==> kind is CustomAgent,
        r matches Err(m) ==> m@ == "Custom agent cannot be based on another Custom agent"@,
        r matches Ok(t) ==> match kind {
            BaseCodingAgent::ClaudeCode => t is ClaudeCode,
            BaseCodingAgent::Amp => t is Amp,
            BaseCodingAgent::Gemini => t is Gemini,
            BaseCodingAgent::Codex => t is Codex,
            BaseCodingAgent::Opencode => t is Opencode,
            BaseCodingAgent::CursorAgent => t is CursorAgent,
            BaseCodingAgent::QwenCode => t is QwenCode,
            BaseCodingAgent::Copilot => t is Copilot,
            BaseCodingAgent::Droid => t is Droid,
            BaseCodingAgent::CustomAgent => false,
        },
{
    match kind {
        BaseCodingAgent::ClaudeCode => Ok(BaseAgentType::ClaudeCode),
        BaseCodingAgent::Amp => Ok(BaseAgentType::Amp),
        BaseCodingAgent::Gemini => Ok(BaseAgentType::Gemini),
        BaseCodingAgent::Codex => Ok(BaseAgentType::Codex),
        BaseCodingAgent::Opencode => Ok(BaseAgentType::Opencode),
        BaseCodingAgent::CursorAgent => Ok(BaseAgentType::CursorAgent),
        BaseCodingAgent::QwenCode => Ok(BaseAgentType::QwenCode),
        BaseCodingAgent::Copilot => Ok(BaseAgentType::Copilot),
        BaseCodingAgent::Droid => Ok(BaseAgentType::Droid),
        BaseCodingAgent::CustomAgent => Err("Custom agent cannot be based on another Custom agent"),
    }
}

/// Settings of a ClaudeCode base agent.
#[derive(Clone, Debug, PartialEq, Eq)]
pub struct ClaudeCodeSettings {
    pub dangerously_skip_permissions: Option<bool>,
    pub model: Option<String>,
}

/// Settings of a Gemini base agent.
#[derive(Clone, Copy, Debug, PartialEq, Eq, Structural)]
pub struct GeminiSettings {
    pub yolo: Option<bool>,
}

/// Settings of a Codex base agent.
#[derive(Clone, Debug, PartialEq, Eq)]
pub struct CodexSettings {
    pub sandbox: Option<String>,
}

/// How much a Droid base agent may do without asking.
#[derive(Clone, Copy, Debug, PartialEq, Eq, Structural)]
pub enum Autonomy {
    Normal,
    Low,
    Medium,
    High,
    SkipPermissionsUnsafe,
}

/// Settings of a Droid base agent.
#[derive(Clone, Debug, PartialEq, Eq)]
pub struct DroidSettings {
    pub autonomy: Autonomy,
    pub model: Option<String>,
}

/// Settings of a Cursor base agent.
#[derive(Clone, Debug, PartialEq, Eq)]
pub struct CursorAgentSettings {
    pub force: Option<bool>,
    pub model: Option<String>,
}

/// Settings of a Qwen base agent.
#[derive(Clone, Copy, Debug, PartialEq, Eq, Structural)]
pub struct QwenCodeSettings {
    pub yolo: Option<bool>,
}

/// Settings of an Opencode base agent.
#[derive(Clone, Copy, Debug, PartialEq, Eq, Structural)]
pub struct OpencodeSettings {
    pub auto_approve: bool,
}

/// Settings of a Copilot base agent.
#[derive(Clone, Copy, Debug, PartialEq, Eq, Structural)]
pub struct CopilotSettings {
    pub allow_all_tools: Option<bool>,
}

/// A base agent with its settings. There is no custom variant, so a custom agent
/// can never embed another one.
#[derive(Clone, Debug, PartialEq, Eq)]
pub enum CodingAgent {
    ClaudeCode(ClaudeCodeSettings),
    Amp,
    Gemini(GeminiSettings),
    Codex(CodexSettings),
    Opencode(OpencodeSettings),
    CursorAgent(CursorAgentSettings),
    QwenCode(QwenCodeSettings),
    Copilot(CopilotSettings),
    Droid(DroidSettings),
}

/// The form a custom agent's base is described in, one optional section per family.
#[allow(non_snake_case)]
#[derive(Clone, Debug, PartialEq, Eq)]
pub struct CustomAgentBaseAgentSchema {
    pub type_field: Option<BaseAgentType>,
    pub CLAUDE_CODE: Option<ClaudeCodeSettings>,
    pub AMP: Option<bool>,
    pub GEMINI: Option<GeminiSettings>,
    pub CODEX: Option<CodexSettings>,
    pub OPENCODE: Option<OpencodeSettings>,
    pub CURSOR_AGENT: Option<CursorAgentSettings>,
    pub QWEN_CODE: Option<QwenCodeSettings>,
    pub COPILOT: Option<CopilotSettings>,
    pub DROID: Option<DroidSettings>,
}

/// Overrides of the command a custom agent runs.
#[derive(Clone, Debug, PartialEq, Eq)]
pub struct CmdOverrides {
    pub base_command_override: Option<String>,
    pub additional_params: Option<Vec<String>>,
}

/// The texts of a list of strings.
pub open spec fn texts(v: Seq<String>) -> Seq<Seq<char>> {
    v.map_values(|s: String| s@)
}

/// A command: a base command line and the parameters that follow it.
#[derive(Clone, Debug, PartialEq, Eq)]
pub struct CommandBuilder {
    pub base: String,
    pub params: Vec<String>,
}

fn push_text(params: &mut Vec<String>, flag: &str)
    ensures
        texts(final(params)@) == texts(old(params)@).push(flag@),
{
    let ghost before = params@;
    params.push(flag.to_owned());
    assert(texts(params@) =~= texts(before).push(flag@));
}

fn push_owned(params: &mut Vec<String>, value: String)
    ensures
        texts(final(params)@) == texts(old(params)@).push(value@),
{
    let ghost before = params@;
    let ghost v = value@;
    params.push(value);
    assert(texts(params@) =~= texts(before).push(v));
}

fn extend_texts(params: &mut Vec<String>, more: &Vec<String>)
    ensures
        texts(final(params)@) == texts(old(params)@) + texts(more@),
{
    let ghost start = texts(params@);
    let mut i: usize = 0;
    while i < more.len()
        invariant
            i <= more@.len(),
            texts(params@) == start + texts(more@.take(i as int)),
        decreases more@.len() - i,
    {
        push_owned(params, more[i].clone());
        proof {
            assert(texts(more@.take(i + 1)) =~= texts(more@.take(i as int)).push(more@[i as int]@));
            assert(start + texts(more@.take(i + 1)) =~= (start + texts(more@.take(i as int))).push(
                more@[i as int]@,
            ));
        }
        i += 1;
    }
    assert(more@.take(more@.len() as int) =~= more@);
}

impl CommandBuilder {
    /// A command with no parameters.
    pub fn new(base: String) -> (r: CommandBuilder)
        ensures
            r.base == base,
            r.params@.len() == 0,
    {
        CommandBuilder { base, params: Vec::new() }
    }

    /// The parameters of a first run.
    pub fn build_initial(&self) -> (r: Vec<String>)
        ensures
            texts(r@) == texts(self.params@),
    {
        let mut r: Vec<String> = Vec::new();
        extend_texts(&mut r, &self.params);
        assert(texts(Seq::<String>::empty()) + texts(self.params@) =~= texts(self.params@));
        r
    }

    /// The parameters of a follow-up run: those of a first run, then `additional`.
    pub fn build_follow_up(&self, additional: &Vec<String>) -> (r: Vec<String>)
        ensures
            texts(r@) == texts(self.params@) + texts(additional@),
    {
        let mut r = self.build_initial();
        extend_texts(&mut r, additional);
        r
    }
}

/// Text appended to every prompt a custom agent sends.
#[derive(Clone, Debug, PartialEq, Eq)]
pub struct AppendPrompt(pub Option<String>);

impl AppendPrompt {
    /// The prompt followed by the appended text, if any.
    pub fn combine_prompt(&self, prompt: &str) -> (r: String)
        ensures
            r@ == match self.0 {
                Some(a) => prompt@ + a@,
                None => prompt@,
            },
    {
        match &self.0 {
            Some(a) => prompt.to_owned().concat(a.as_str()),
            None => prompt.to_owned(),
        }
    }
}

/// How a spawned agent receives its prompt.
#[derive(Clone, Copy, Debug, PartialEq, Eq, Structural)]
pub enum SpawnStrategy {
    /// A JSON-lines control protocol over the child's stdin and stdout.
    ControlProtocol,
    /// The whole prompt on stdin, which is then closed.
    StdinPrompt,
}

/// Which normaliser turns an agent's output into conversation entries.
#[derive(Clone, Copy, Debug, PartialEq, Eq, Structural)]
pub enum LogNormalizer {
    /// The ClaudeCode JSON output format, plus the stderr normaliser.
    ClaudeStyle,
    /// The shared normaliser of ACP-style agents.
    Acp,
    Codex,
    /// Droid's own output, plus the stderr normaliser.
    Droid,
    /// Only the stderr normaliser.
    StderrOnly,
}

/// Whether an agent can be run on this machine.
#[derive(Clone, Copy, Debug, PartialEq, Eq, Structural)]
pub enum AvailabilityInfo {
    LoginDetected,
    InstallationFound,
    NotFound,
}

/// A user-defined agent: a base agent run through a custom command.
#[derive(Clone, Debug, PartialEq, Eq)]
pub struct CustomAgent {
    pub name: Option<String>,
    pub base_agent: Option<CodingAgent>,
    pub append_prompt: AppendPrompt,
    pub cmd: CmdOverrides,
}

/// The command that runs a base agent when no override is given; the ClaudeCode
/// family (also the default base) runs the command its own executor is configured with.
pub open spec fn default_command(base: Option<CodingAgent>, claude_code_command: Seq<char>) -> Seq<
    char,
> {
    match base {
        Some(CodingAgent::ClaudeCode(_)) | None => claude_code_command,
        Some(CodingAgent::Amp) => "npx -y @sourcegraph/amp@0.0.1764777697-g907e30"@,
        Some(CodingAgent::Gemini(_)) => "npx -y @google/gemini-cli@latest"@,
        Some(CodingAgent::Codex(_)) => "npx -y @openai/codex@latest"@,
        Some(CodingAgent::Opencode(_)) => "npx -y @opencodeai/codex@latest"@,
        Some(CodingAgent::CursorAgent(_)) => "npx -y @cursor cursor-agent"@,
        Some(CodingAgent::QwenCode(_)) => "npx -y @qwen/qwen-code@latest"@,
        Some(CodingAgent::Copilot(_)) => "npx -y @copilot/copilot-cli@latest"@,
        Some(CodingAgent::Droid(_)) => "npx -y @anthropic/droid@latest"@,
    }
}

/// A model flag, when a model is chosen.
pub open spec fn model_flags(model: Option<String>) -> Seq<Seq<char>> {
    match model {
        Some(m) => seq!["--model"@, m@],
        None => Seq::empty(),
    }
}

/// A single flag, when it is switched on.
pub open spec fn flag_if(on: bool, flag: Seq<char>) -> Seq<Seq<char>> {
    if on {
        seq![flag]
    } else {
        Seq::empty()
    }
}

/// An optional boolean setting, off when unset.
pub open spec fn is_on(b: Option<bool>) -> bool {
    b == Some(true)
}

/// The flags a Droid agent gets for its autonomy level.
pub open spec fn autonomy_flags(a: Autonomy) -> Seq<Seq<char>> {
    match a {
        Autonomy::Normal => Seq::empty(),
        Autonomy::Low => seq!["--auto"@, "low"@],
        Autonomy::Medium => seq!["--auto"@, "medium"@],
        Autonomy::High => seq!["--auto"@, "high"@],
        Autonomy::SkipPermissionsUnsafe => seq!["--skip-permissions-unsafe"@],
    }
}

/// The flags the ClaudeCode family always needs (also the default base).
pub open spec fn claude_flags() -> Seq<Seq<char>> {
    seq![
        "-p"@,
        "--verbose"@,
        "--output-format=stream-json"@,
        "--input-format=stream-json"@,
        "--include-partial-messages"@,
        "--disallowedTools=AskUserQuestion"@,
    ]
}

/// The parameters each base family requires, from its settings.
pub open spec fn required_flags(base: Option<CodingAgent>) -> Seq<Seq<char>> {
    match base {
        None => claude_flags() + seq!["--dangerously-skip-permissions"@],
        Some(CodingAgent::ClaudeCode(c)) => claude_flags() + flag_if(
            is_on(c.dangerously_skip_permissions),
            "--dangerously-skip-permissions"@,
        ) + model_flags(c.model),
        Some(CodingAgent::Amp) => seq!["--output-format=stream-json"@, "--verbose"@],
        Some(CodingAgent::Gemini(g)) => flag_if(is_on(g.yolo), "--yolo"@),
        Some(CodingAgent::Codex(c)) => match c.sandbox {
            Some(s) => seq!["--sandbox"@, s@],
            None => Seq::empty(),
        },
        Some(CodingAgent::Droid(d)) => seq!["--output-format"@, "stream-json"@] + autonomy_flags(
            d.autonomy,
        ) + model_flags(d.model),
        Some(CodingAgent::CursorAgent(c)) => flag_if(is_on(c.force), "--force"@) + model_flags(
            c.model,
        ),
        Some(CodingAgent::QwenCode(q)) => flag_if(is_on(q.yolo), "--yolo"@),
        Some(CodingAgent::Opencode(o)) => flag_if(o.auto_approve, "--auto-approve"@),
        Some(CodingAgent::Copilot(c)) => flag_if(is_on(c.allow_all_tools), "--allow-all-tools"@),
    }
}

/// The additional parameters of the overrides.
pub open spec fn override_params(cmd: CmdOverrides) -> Seq<Seq<char>> {
    match cmd.additional_params {
        Some(p) => texts(p@),
        None => Seq::empty(),
    }
}

fn push_model(params: &mut Vec<String>, model: &Option<String>)
    ensures
        texts(final(params)@) == texts(old(params)@) + model_flags(*model),
{
    match model {
        Some(m) => {
            let ghost start = texts(params@);
            push_text(params, "--model");
            push_owned(params, m.clone());
            assert(texts(params@) =~= start + model_flags(*model));
        },
        None => {
            assert(texts(params@) + Seq::<Seq<char>>::empty() =~= texts(params@));
        },
    }
}

fn push_flag_if(params: &mut Vec<String>, on: bool, flag: &str)
    ensures
        texts(final(params)@) == texts(old(params)@) + flag_if(on, flag@),
{
    if on {
        let ghost start = texts(params@);
        push_text(params, flag);
        assert(texts(params@) =~= start + flag_if(on, flag@));
    } else {
        assert(texts(params@) + Seq::<Seq<char>>::empty() =~= texts(params@));
    }
}

fn push_claude_flags(params: &mut Vec<String>)
    ensures
        texts(final(params)@) == texts(old(params)@) + claude_flags(),
{
    let ghost start = texts(params@);
    push_text(params, "-p");
    push_text(params, "--verbose");
    push_text(params, "--output-format=stream-json");
    push_text(params, "--input-format=stream-json");
    push_text(params, "--include-partial-messages");
    push_text(params, "--disallowedTools=AskUserQuestion");
    assert(texts(params@) =~= start + claude_flags());
}

fn is_true(b: Option<bool>) -> (r: bool)
    ensures
        r == is_on(b),
{
    match b {
        Some(v) => v,
        None => false,
    }
}

impl CustomAgent {
    /// The command that runs the base agent when no override is given.
    pub fn default_base_command<'a>(&self, claude_code_command: &'a str) -> (r: &'a str)
        ensures
            r@ == default_command(self.base_agent, claude_code_command@),
    {
        match &self.base_agent {
            Some(CodingAgent::ClaudeCode(_)) => claude_code_command,
            Some(CodingAgent::Amp) => "npx -y @sourcegraph/amp@0.0.1764777697-g907e30",
            Some(CodingAgent::Gemini(_)) => "npx -y @google/gemini-cli@latest",
            Some(CodingAgent::Codex(_)) => "npx -y @openai/codex@latest",
            Some(CodingAgent::Opencode(_)) => "npx -y @opencodeai/codex@latest",
            Some(CodingAgent::CursorAgent(_)) => "npx -y @cursor cursor-agent",
            Some(CodingAgent::QwenCode(_)) => "npx -y @qwen/qwen-code@latest",
            Some(CodingAgent::Copilot(_)) => "npx -y @copilot/copilot-cli@latest",
            Some(CodingAgent::Droid(_)) => "npx -y @anthropic/droid@latest",
            None => claude_code_command,
        }
    }

    /// The command of this agent: the override, else the base family's default, with
    /// the parameters the family requires, then the additional parameters of the
    /// overrides.
    pub fn build_command_builder(&self, claude_code_command: &str) -> (r: CommandBuilder)
        ensures
            r.base@ == match self.cmd.base_command_override {
                Some(b) => b@,
                None => default_command(self.base_agent, claude_code_command@),
            },
            texts(r.params@) == required_flags(self.base_agent) + override_params(self.cmd),
    {
        let base = match &self.cmd.base_command_override {
            Some(b) => b.clone(),
            None => self.default_base_command(claude_code_command).to_owned(),
        };
        CommandBuilder { base, params: self.command_params() }
    }

    /// The parameters the base family requires, then the additional parameters of the
    /// overrides.
    pub fn command_params(&self) -> (r: Vec<String>)
        ensures
            texts(r@) == required_flags(self.base_agent) + override_params(self.cmd),
    {
        let mut params: Vec<String> = Vec::new();
        let ghost empty = texts(params@);
        match &self.base_agent {
            None => {
                push_claude_flags(&mut params);
                push_text(&mut params, "--dangerously-skip-permissions");
            },
            Some(CodingAgent::ClaudeCode(c)) => {
                push_claude_flags(&mut params);
                push_flag_if(
                    &mut params,
                    is_true(c.dangerously_skip_permissions),
                    "--dangerously-skip-permissions",
                );
                push_model(&mut params, &c.model);
            },
            Some(CodingAgent::Amp) => {
                push_text(&mut params, "--output-format=stream-json");
                push_text(&mut params, "--verbose");
            },
            Some(CodingAgent::Gemini(g)) => {
                push_flag_if(&mut params, is_true(g.yolo), "--yolo");
            },
            Some(CodingAgent::Codex(c)) => {
                match &c.sandbox {
                    Some(s) => {
                        push_text(&mut params, "--sandbox");
                        push_owned(&mut params, s.clone());
                    },
                    None => {},
                }
            },
            Some(CodingAgent::Droid(d)) => {
                push_text(&mut params, "--output-format");
                push_text(&mut params, "stream-json");
                let ghost mid = texts(params@);
                match d.autonomy {
                    Autonomy::Normal => {},
                    Autonomy::Low => {
                        push_text(&mut params, "--auto");
                        push_text(&mut params, "low");
                    },
                    Autonomy::Medium => {
                        push_text(&mut params, "--auto");
                        push_text(&mut params, "medium");
                    },
                    Autonomy::High => {
                        push_text(&mut params, "--auto");
                        push_text(&mut params, "high");
                    },
                    Autonomy::SkipPermissionsUnsafe => {
                        push_text(&mut params, "--skip-permissions-unsafe");
                    },
                }
                assert(texts(params@) =~= mid + autonomy_flags(d.autonomy));
                push_model(&mut params, &d.model);
            },
            Some(CodingAgent::CursorAgent(c)) => {
                push_flag_if(&mut params, is_true(c.force), "--force");
                push_model(&mut params, &c.model);
            },
            Some(CodingAgent::QwenCode(q)) => {
                push_flag_if(&mut params, is_true(q.yolo), "--yolo");
            },
            Some(CodingAgent::Opencode(o)) => {
                push_flag_if(&mut params, o.auto_approve, "--auto-approve");
            },
            Some(CodingAgent::Copilot(c)) => {
                push_flag_if(&mut params, is_true(c.allow_all_tools), "--allow-all-tools");
            },
        }
        assert(texts(params@) =~= empty + required_flags(self.base_agent));
        match &self.cmd.additional_params {
            Some(extra) => extend_texts(&mut params, extra),
            None => {
                assert(texts(params@) + Seq::<Seq<char>>::empty() =~= texts(params@));
            },
        }
        params
    }

    /// The control protocol for a ClaudeCode base, stdin piping for every other base
    /// and for none.
    pub fn spawn_strategy(&self) -> (r: SpawnStrategy)
        ensures
            r == if self.base_agent matches Some(CodingAgent::ClaudeCode(_)) {
                SpawnStrategy::ControlProtocol
            } else {
                SpawnStrategy::StdinPrompt
            },
    {
        match &self.base_agent {
            Some(CodingAgent::ClaudeCode(_)) => SpawnStrategy::ControlProtocol,
            _ => SpawnStrategy::StdinPrompt,
        }
    }

    /// The parameters of a follow-up run, which resumes the agent's session.
    pub fn follow_up_params(&self, session_id: &str) -> (r: Vec<String>)
        ensures
            texts(r@) == required_flags(self.base_agent) + override_params(self.cmd) + seq![
                "--resume"@,
                session_id@,
            ],
    {
        let builder = CommandBuilder::new(String::new());
        let builder = CommandBuilder { params: self.command_params(), ..builder };
        let mut resume: Vec<String> = Vec::new();
        push_text(&mut resume, "--resume");
        push_text(&mut resume, session_id);
        assert(texts(resume@) =~= seq!["--resume"@, session_id@]);
        builder.build_follow_up(&resume)
    }

    /// The normaliser for the base family: the ClaudeCode format for a ClaudeCode base,
    /// Amp and none; ACP for Gemini, Opencode and Qwen; Codex and Droid their own; stderr
    /// only for Cursor and Copilot.
    pub fn normalizer(&self) -> (r: LogNormalizer)
        ensures
            r == match self.base_agent {
                Some(CodingAgent::ClaudeCode(_)) | Some(CodingAgent::Amp) | None => LogNormalizer::ClaudeStyle,
                Some(CodingAgent::Gemini(_)) | Some(CodingAgent::Opencode(_)) | Some(
                    CodingAgent::QwenCode(_),
                ) => LogNormalizer::Acp,
                Some(CodingAgent::Codex(_)) => LogNormalizer::Codex,
                Some(CodingAgent::Droid(_)) => LogNormalizer::Droid,
                Some(CodingAgent::CursorAgent(_)) | Some(CodingAgent::Copilot(_)) => LogNormalizer::StderrOnly,
            },
    {
        match &self.base_agent {
            Some(CodingAgent::ClaudeCode(_)) | Some(CodingAgent::Amp) | None => LogNormalizer::ClaudeStyle,
            Some(CodingAgent::Gemini(_)) | Some(CodingAgent::Opencode(_)) | Some(
                CodingAgent::QwenCode(_),
            ) => LogNormalizer::Acp,
            Some(CodingAgent::Codex(_)) => LogNormalizer::Codex,
            Some(CodingAgent::Droid(_)) => LogNormalizer::Droid,
            Some(CodingAgent::CursorAgent(_)) | Some(CodingAgent::Copilot(_)) => LogNormalizer::StderrOnly,
        }
    }

    /// Availability: found when an override is given and resolves on the path;
    /// otherwise what the base agent reports, or not found without a base.
    pub fn get_availability_info(
        &self,
        override_resolves: bool,
        base_availability: AvailabilityInfo,
    ) -> (r: AvailabilityInfo)
        ensures
            r == if self.cmd.base_command_override is Some && override_resolves {
                AvailabilityInfo::InstallationFound
            } else if self.base_agent is Some {
                base_availability
            } else {
                AvailabilityInfo::NotFound
            },
    {
        if self.cmd.base_command_override.is_some() && override_resolves {
            return AvailabilityInfo::InstallationFound;
        }
        if self.base_agent.is_some() {
            base_availability
        } else {
            AvailabilityInfo::NotFound
        }
    }
}

/// The steps of the control protocol, in order.
#[derive(Clone, Copy, Debug, PartialEq, Eq, Structural)]
pub enum PeerStage {
    Initialize,
    SetPermissionMode,
    SendUserMessage,
    Done,
}

/// What the protocol peer does after a step.
#[derive(Clone, Debug, PartialEq, Eq)]
pub struct PeerTransition {
    pub next: PeerStage,
    /// A line for the raw log, when the step failed in a way the user must see.
    pub raw_log: Option<String>,
}

/// The raw-log line for a failed step, if that failure is shown.
pub open spec fn peer_failure_line(stage: PeerStage, error: Seq<char>) -> Option<Seq<char>> {
    match stage {
        PeerStage::Initialize => Some("Error: Failed to initialize - "@ + error),
        PeerStage::SendUserMessage => Some("Error: Failed to send prompt - "@ + error),
        _ => None,
    }
}

/// Advance the control protocol after the outcome of a step: a failed initialisation
/// ends it with a raw-log line; a failed permission-mode change is only a warning; a
/// failed prompt is logged; the protocol is done after the prompt.
pub fn peer_step(stage: PeerStage, outcome: Result<(), String>) -> (r: PeerTransition)
    ensures
        r.next == match stage {
            PeerStage::Initialize => if outcome is Ok {
                PeerStage::SetPermissionMode
            } else {
                PeerStage::Done
            },
            PeerStage::SetPermissionMode => PeerStage::SendUserMessage,
            _ => PeerStage::Done,
        },
        match outcome {
            Ok(()) => r.raw_log is None,
            Err(e) => match peer_failure_line(stage, e@) {
                Some(line) => r.raw_log matches Some(l) && l@ == line,
                None => r.raw_log is None,
            },
        },
{
    match (stage, outcome) {
        (PeerStage::Initialize, Ok(())) => PeerTransition { next: PeerStage::SetPermissionMode, raw_log: None },
        (PeerStage::Initialize, Err(e)) => PeerTransition {
            next: PeerStage::Done,
            raw_log: Some(String::from_str("Error: Failed to initialize - ").concat(e.as_str())),
        },
        (PeerStage::SetPermissionMode, _) => PeerTransition { next: PeerStage::SendUserMessage, raw_log: None },
        (PeerStage::SendUserMessage, Ok(())) => PeerTransition { next: PeerStage::Done, raw_log: None },
        (PeerStage::SendUserMessage, Err(e)) => PeerTransition {
            next: PeerStage::Done,
            raw_log: Some(String::from_str("Error: Failed to send prompt - ").concat(e.as_str())),
        },
        (PeerStage::Done, _) => PeerTransition { next: PeerStage::Done, raw_log: None },
    }
}

} // verus!
