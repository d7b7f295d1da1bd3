//! The command line and the environment of one round, as plain values: the
//! program, its arguments, its working directory, and the environment
//! variables to remove and to set. The caller turns the plan into a process.

use vstd::prelude::*;
use crate::config::{HeadlessConfig, HeadlessConfigView, OpenAiConfig, OpenAiConfigView};
use crate::text::{holds_text, opt_view, push_str, same_text, starts_with_text, texts_of};

verus! {

/// An environment variable to set.
#[derive(Debug, PartialEq, Eq)]
pub struct EnvVar {
    pub name: String,
    pub value: String,
}

/// The mathematical value of an [`EnvVar`].
pub ghost struct EnvVarView {
    pub name: Seq<char>,
    pub value: Seq<char>,
}

impl View for EnvVar {
    type V = EnvVarView;

    open spec fn view(&self) -> EnvVarView {
        EnvVarView { name: self.name@, value: self.value@ }
    }
}

/// What to run for one round.
#[derive(Debug, PartialEq, Eq)]
pub struct CommandPlan {
    pub program: String,
    pub args: Vec<String>,
    pub current_dir: Option<String>,
    pub env_remove: Vec<String>,
    pub env_set: Vec<EnvVar>,
}

/// The mathematical value of a [`CommandPlan`].
pub ghost struct CommandPlanView {
    pub program: Seq<char>,
    pub args: Seq<Seq<char>>,
    pub current_dir: Option<Seq<char>>,
    pub env_remove: Seq<Seq<char>>,
    pub env_set: Seq<EnvVarView>,
}

/// The values of a list of variables.
pub open spec fn env_of(vars: Seq<EnvVar>) -> Seq<EnvVarView> {
    vars.map_values(|v: EnvVar| v@)
}

impl View for CommandPlan {
    type V = CommandPlanView;

    open spec fn view(&self) -> CommandPlanView {
        CommandPlanView {
            program: self.program@,
            args: texts_of(self.args@),
            current_dir: opt_view(self.current_dir),
            env_remove: texts_of(self.env_remove@),
            env_set: env_of(self.env_set@),
        }
    }
}

/// The arguments that ask the assistant for `prompt`, with its answer as a
/// stream of JSON records, and for the earlier conversation where
/// `use_continue` holds.
pub open spec fn prompt_args(prompt: Seq<char>, use_continue: bool) -> Seq<Seq<char>> {
    let fixed = seq![
        "-p"@,
        prompt,
        "--output-format"@,
        "stream-json"@,
        "--include-partial-messages"@,
    ];
    if use_continue {
        fixed.push("--continue"@)
    } else {
        fixed
    }
}

/// The command for `prompt` before any override. On Windows the assistant is
/// started through the command interpreter.
pub open spec fn headless_command(prompt: Seq<char>, use_continue: bool, windows: bool)
    -> CommandPlanView {
    CommandPlanView {
        program: if windows {
            "cmd.exe"@
        } else {
            "qwen"@
        },
        args: if windows {
            seq!["/C"@, "qwen.cmd"@] + prompt_args(prompt, use_continue)
        } else {
            prompt_args(prompt, use_continue)
        },
        current_dir: None,
        env_remove: Seq::empty(),
        env_set: Seq::empty(),
    }
}

/// The arguments that the session overrides add.
pub open spec fn cli_override_args(config: HeadlessConfigView) -> Seq<Seq<char>> {
    let directory = match config.working_directory {
        Some(d) => seq!["--include-directories"@, d],
        None => Seq::empty(),
    };
    let mode = match config.approval_mode {
        Some(m) => seq!["--approval-mode"@, m],
        None => Seq::empty(),
    };
    directory + mode
}

/// `plan` with the session overrides applied: the working directory becomes
/// that of the process and is passed on as an included directory, and the
/// approval mode is passed on.
pub open spec fn with_cli_overrides(plan: CommandPlanView, config: Option<HeadlessConfigView>)
    -> CommandPlanView {
    match config {
        Some(c) => CommandPlanView {
            args: plan.args + cli_override_args(c),
            current_dir: if c.working_directory is Some {
                c.working_directory
            } else {
                plan.current_dir
            },
            ..plan
        },
        None => plan,
    }
}

/// Whether the variable `key` marks a run under continuous integration.
pub open spec fn is_ci_key(key: Seq<char>) -> bool {
    key == "CI"@ || key == "CONTINUOUS_INTEGRATION"@ || "CI_"@.is_prefix_of(key)
}

/// Those of `keys` that mark a run under continuous integration, in order.
pub open spec fn ci_keys(keys: Seq<Seq<char>>) -> Seq<Seq<char>>
    decreases keys.len(),
{
    if keys.len() == 0 {
        Seq::empty()
    } else if is_ci_key(keys.last()) {
        ci_keys(keys.drop_last()).push(keys.last())
    } else {
        ci_keys(keys.drop_last())
    }
}

/// The terminal type to set where the environment names none.
pub open spec fn term_default(keys: Seq<Seq<char>>) -> Seq<EnvVarView> {
    if keys.contains("TERM"@) {
        Seq::empty()
    } else {
        seq![EnvVarView { name: "TERM"@, value: "xterm-256color"@ }]
    }
}

/// The variable `name` with the value `value`, where there is a value.
pub open spec fn env_if_set(name: Seq<char>, value: Option<Seq<char>>) -> Seq<EnvVarView> {
    match value {
        Some(v) => seq![EnvVarView { name, value: v }],
        None => Seq::empty(),
    }
}

/// The variables that the endpoint overrides set.
pub open spec fn openai_env(config: Option<OpenAiConfigView>) -> Seq<EnvVarView> {
    match config {
        Some(c) => env_if_set("OPENAI_API_KEY"@, c.openai_api_key) + env_if_set(
            "OPENAI_BASE_URL"@,
            c.openai_base_url,
        ) + env_if_set("OPENAI_MODEL"@, c.openai_model),
        None => Seq::empty(),
    }
}

/// `plan` with the environment overrides applied, where `env_keys` are the
/// names of the variables in the caller's environment: the variables of
/// continuous integration are removed, a terminal type is set where none is
/// named, and the endpoint overrides are set.
pub open spec fn with_env_overrides(
    plan: CommandPlanView,
    env_keys: Seq<Seq<char>>,
    config: Option<OpenAiConfigView>,
) -> CommandPlanView {
    CommandPlanView {
        env_remove: plan.env_remove + ci_keys(env_keys),
        env_set: plan.env_set + term_default(env_keys) + openai_env(config),
        ..plan
    }
}

/// The view of an optional reference to session overrides.
pub open spec fn opt_headless_ref_view(o: Option<&HeadlessConfig>) -> Option<HeadlessConfigView> {
    match o {
        Some(c) => Some(c@),
        None => None,
    }
}

/// The view of an optional reference to endpoint overrides.
pub open spec fn opt_openai_ref_view(o: Option<&OpenAiConfig>) -> Option<OpenAiConfigView> {
    match o {
        Some(c) => Some(c@),
        None => None,
    }
}

/// Puts the variable `name` with the value `value` at the end of `vars`.
pub fn push_env(vars: &mut Vec<EnvVar>, name: &str, value: &str)
    ensures
        env_of(final(vars)@) == env_of(old(vars)@).push(
            EnvVarView { name: name@, value: value@ },
        ),
{
    vars.push(EnvVar { name: name.to_owned(), value: value.to_owned() });
    assert(env_of(vars@) =~= env_of(old(vars)@).push(EnvVarView { name: name@, value: value@ }));
}

/// Whether the variable `key` marks a run under continuous integration: it is
/// `CI` or `CONTINUOUS_INTEGRATION`, or begins with `CI_`.
pub fn is_ci_variable(key: &str) -> (r: bool)
    ensures
        r == is_ci_key(key@),
{
    same_text(key, "CI") || same_text(key, "CONTINUOUS_INTEGRATION") || starts_with_text(
        key,
        "CI_",
    )
}

/// The command that asks the assistant for `prompt`.
pub fn build_qwen_headless_command(prompt: &str, use_continue: bool, windows: bool) -> (r:
    CommandPlan)
    ensures
        r@ == headless_command(prompt@, use_continue, windows),
{
    let mut args: Vec<String> = Vec::new();
    assert(texts_of(args@) =~= Seq::<Seq<char>>::empty());
    let program = if windows {
        push_str(&mut args, "/C");
        push_str(&mut args, "qwen.cmd");
        "cmd.exe".to_owned()
    } else {
        "qwen".to_owned()
    };
    let ghost head = texts_of(args@);
    push_str(&mut args, "-p");
    push_str(&mut args, prompt);
    push_str(&mut args, "--output-format");
    push_str(&mut args, "stream-json");
    push_str(&mut args, "--include-partial-messages");
    if use_continue {
        push_str(&mut args, "--continue");
    }
    let env_remove: Vec<String> = Vec::new();
    let env_set: Vec<EnvVar> = Vec::new();
    proof {
        assert(texts_of(args@) =~= head + prompt_args(prompt@, use_continue));
        if windows {
            assert(head =~= seq!["/C"@, "qwen.cmd"@]);
        } else {
            assert(head + prompt_args(prompt@, use_continue) =~= prompt_args(
                prompt@,
                use_continue,
            ));
        }
        assert(texts_of(env_remove@) =~= Seq::<Seq<char>>::empty());
        assert(env_of(env_set@) =~= Seq::<EnvVarView>::empty());
    }
    CommandPlan { program, args, current_dir: None, env_remove, env_set }
}

/// The command of a round as it is run: the command for `prompt` with the
/// session overrides and then the environment overrides applied.
pub open spec fn round_command(
    prompt: Seq<char>,
    use_continue: bool,
    openai_config: Option<OpenAiConfigView>,
    headless_config: Option<HeadlessConfigView>,
    env_keys: Seq<Seq<char>>,
    windows: bool,
) -> CommandPlanView {
    with_env_overrides(
        with_cli_overrides(headless_command(prompt, use_continue, windows), headless_config),
        env_keys,
        openai_config,
    )
}

/// The command of a round as it is run. `env_keys` are the names of the
/// variables in the caller's environment.
pub fn headless_round_command(
    prompt: &str,
    use_continue: bool,
    openai_config: Option<&OpenAiConfig>,
    headless_config: Option<&HeadlessConfig>,
    env_keys: &Vec<String>,
    windows: bool,
) -> (r: CommandPlan)
    ensures
        r@ == round_command(
            prompt@,
            use_continue,
            opt_openai_ref_view(openai_config),
            opt_headless_ref_view(headless_config),
            texts_of(env_keys@),
            windows,
        ),
{
    let mut command = build_qwen_headless_command(prompt, use_continue, windows);
    apply_qwen_cli_overrides(&mut command, headless_config);
    apply_qwen_env_overrides(&mut command, env_keys, openai_config);
    command
}

/// Applies the session overrides to `command`.
pub fn apply_qwen_cli_overrides(command: &mut CommandPlan, headless_config: Option<&HeadlessConfig>)
    ensures
        final(command)@ == with_cli_overrides(
            old(command)@,
            opt_headless_ref_view(headless_config),
        ),
{
    let config = match headless_config {
        Some(c) => c,
        None => {
            return ;
        },
    };
    let ghost before = texts_of(command.args@);
    match &config.working_directory {
        Some(directory) => {
            command.current_dir = Some(directory.clone());
            push_str(&mut command.args, "--include-directories");
            push_str(&mut command.args, directory.as_str());
        },
        None => {},
    }
    match &config.approval_mode {
        Some(mode) => {
            push_str(&mut command.args, "--approval-mode");
            push_str(&mut command.args, mode.as_str());
        },
        None => {},
    }
    assert(texts_of(command.args@) =~= before + cli_override_args(config@));
}

/// Applies the environment overrides to `command`. `env_keys` are the names
/// of the variables in the caller's environment.
pub fn apply_qwen_env_overrides(
    command: &mut CommandPlan,
    env_keys: &Vec<String>,
    openai_config: Option<&OpenAiConfig>,
)
    ensures
        final(command)@ == with_env_overrides(
            old(command)@,
            texts_of(env_keys@),
            opt_openai_ref_view(openai_config),
        ),
{
    let ghost keys = texts_of(env_keys@);
    let ghost removed = texts_of(command.env_remove@);
    let ghost set = env_of(command.env_set@);
    let mut i: usize = 0;
    proof {
        assert(keys.subrange(0, 0) =~= Seq::<Seq<char>>::empty());
        assert(removed + Seq::<Seq<char>>::empty() =~= removed);
    }
    while i < env_keys.len()
        invariant
            i <= env_keys.len(),
            keys == texts_of(env_keys@),
            texts_of(command.env_remove@) == removed + ci_keys(keys.subrange(0, i as int)),
            command.program == old(command).program,
            command.args == old(command).args,
            command.current_dir == old(command).current_dir,
            command.env_set == old(command).env_set,
        decreases env_keys.len() - i,
    {
        let ghost done = keys.subrange(0, i as int + 1);
        proof {
            assert(done.drop_last() =~= keys.subrange(0, i as int));
            assert(done.last() == env_keys@[i as int]@);
        }
        if is_ci_variable(env_keys[i].as_str()) {
            push_str(&mut command.env_remove, env_keys[i].as_str());
            assert(texts_of(command.env_remove@) =~= removed + ci_keys(done));
        }
        i += 1;
    }
    proof {
        assert(keys.subrange(0, i as int) =~= keys);
    }
    if !holds_text(env_keys, "TERM") {
        push_env(&mut command.env_set, "TERM", "xterm-256color");
    }
    assert(env_of(command.env_set@) =~= set + term_default(keys));
    match openai_config {
        Some(config) => {
            match &config.openai_api_key {
                Some(value) => {
                    push_env(&mut command.env_set, "OPENAI_API_KEY", value.as_str());
                },
                None => {},
            }
            match &config.openai_base_url {
                Some(value) => {
                    push_env(&mut command.env_set, "OPENAI_BASE_URL", value.as_str());
                },
                None => {},
            }
            match &config.openai_model {
                Some(value) => {
                    push_env(&mut command.env_set, "OPENAI_MODEL", value.as_str());
                },
                None => {},
            }
        },
        None => {},
    }
    assert(env_of(command.env_set@) =~= set + term_default(keys) + openai_env(
        opt_openai_ref_view(openai_config),
    ));
}

} // verus!
