//! The compiler run for a configuration: program, arguments, environment and
//! working directory, as data for a driver to execute.

use crate::config::{Args, ArgsView};
use crate::features::TargetFeatures;
use crate::layout::{derive_output_dir, output_dir};
use crate::text::same_text;
use crate::views::lemma_pushed_pair;
use vstd::prelude::*;

verus! {

/// One run of the compiler.
#[derive(Debug, PartialEq, Eq)]
pub struct Invocation {
    pub program: String,
    pub args: Vec<String>,
    /// Variables to set, in this order; a later setting of a name replaces
    /// an earlier one.
    pub envs: Vec<(String, String)>,
    pub current_dir: String,
}

/// [`Invocation`] as contracts speak of it, its text as sequences of characters.
pub struct InvocationView {
    pub program: Seq<char>,
    pub args: Seq<Seq<char>>,
    pub envs: Seq<(Seq<char>, Seq<char>)>,
    pub current_dir: Seq<char>,
}

impl View for Invocation {
    type V = InvocationView;

    open spec fn view(&self) -> InvocationView {
        InvocationView {
            program: self.program@,
            args: self.args.deep_view(),
            envs: self.envs.deep_view(),
            current_dir: self.current_dir@,
        }
    }
}

impl DeepView for Invocation {
    type V = InvocationView;

    open spec fn deep_view(&self) -> InvocationView {
        self@
    }
}

/// The variable that carries the compiler's flags.
pub open spec fn reserved_name() -> Seq<char> {
    "RUSTFLAGS"@
}

/// The flags that every build carries: the switch for the experimental web
/// APIs and the target features.
pub open spec fn seeded_flags(features: TargetFeatures) -> Seq<char> {
    "--cfg=web_sys_unstable_apis -C target-feature="@ + features.flags()
}

/// The seeded flags followed, after a space each, by the values that the
/// configuration gives for the reserved variable, in order.
pub open spec fn accumulated_flags(
    features: TargetFeatures,
    env: Seq<(Seq<char>, Seq<char>)>,
) -> Seq<char>
    decreases env.len(),
{
    if env.len() == 0 {
        seeded_flags(features)
    } else if env.last().0 == reserved_name() {
        accumulated_flags(features, env.drop_last()).push(' ') + env.last().1
    } else {
        accumulated_flags(features, env.drop_last())
    }
}

/// The settings in the order they are applied: first the reserved variable
/// with the seeded flags; then, for each variable of the configuration, the
/// variable as given or, where it is the reserved one, the reserved variable
/// with the flags accumulated up to it.
pub open spec fn env_settings(
    features: TargetFeatures,
    env: Seq<(Seq<char>, Seq<char>)>,
) -> Seq<(Seq<char>, Seq<char>)>
    decreases env.len(),
{
    if env.len() == 0 {
        seq![(reserved_name(), seeded_flags(features))]
    } else {
        env_settings(features, env.drop_last()).push(
            if env.last().0 == reserved_name() {
                (reserved_name(), accumulated_flags(features, env))
            } else {
                env.last()
            },
        )
    }
}

/// The compiler's arguments: a build for the target on the nightly channel,
/// with the standard library built from source, into the configuration's
/// output directory, optimised if asked.
pub open spec fn toolchain_args(env: Seq<(Seq<char>, Seq<char>)>, release: bool) -> Seq<Seq<char>> {
    seq![
        "+nightly"@,
        "build"@,
        "--target"@,
        "wasm32-unknown-unknown"@,
        "-Z"@,
        "build-std=panic_abort,std"@,
        "--target-dir"@,
        output_dir(env),
    ] + if release {
        seq!["--release"@]
    } else {
        Seq::<Seq<char>>::empty()
    }
}

/// The run that builds a configuration.
pub open spec fn invocation(args: ArgsView) -> InvocationView {
    InvocationView {
        program: "cargo"@,
        args: toolchain_args(args.env_vars, args.release),
        envs: env_settings(args.features, args.env_vars),
        current_dir: args.module_dir,
    }
}

/// The environment that results from applying settings in order.
pub open spec fn effective_env(settings: Seq<(Seq<char>, Seq<char>)>) -> Map<Seq<char>, Seq<char>>
    decreases settings.len(),
{
    if settings.len() == 0 {
        Map::empty()
    } else {
        effective_env(settings.drop_last()).insert(settings.last().0, settings.last().1)
    }
}

/// The seeded flags begin the accumulated flags, whatever the configuration
/// adds.
pub proof fn lemma_seeded_flags_lead(features: TargetFeatures, env: Seq<(Seq<char>, Seq<char>)>)
    ensures
        seeded_flags(features).is_prefix_of(accumulated_flags(features, env)),
    decreases env.len(),
{
    if env.len() > 0 {
        lemma_seeded_flags_lead(features, env.drop_last());
        let sofar = accumulated_flags(features, env.drop_last());
        if env.last().0 == reserved_name() {
            let all = sofar.push(' ') + env.last().1;
            assert(all.subrange(0, seeded_flags(features).len() as int) =~= sofar.subrange(
                0,
                seeded_flags(features).len() as int,
            ));
        }
    }
}

/// In the environment of the run the reserved variable holds the accumulated
/// flags: no setting of the configuration replaces the seeded ones.
pub proof fn lemma_reserved_variable_accumulates(
    features: TargetFeatures,
    env: Seq<(Seq<char>, Seq<char>)>,
)
    ensures
        effective_env(env_settings(features, env)).contains_key(reserved_name()),
        effective_env(env_settings(features, env))[reserved_name()] == accumulated_flags(
            features,
            env,
        ),
    decreases env.len(),
{
    let settings = env_settings(features, env);
    if env.len() > 0 {
        lemma_reserved_variable_accumulates(features, env.drop_last());
        assert(settings.drop_last() =~= env_settings(features, env.drop_last()));
    }
}

/// Every other variable holds, in the environment of the run, the value of
/// its last setting in the configuration.
pub proof fn lemma_other_variables_pass(
    features: TargetFeatures,
    env: Seq<(Seq<char>, Seq<char>)>,
    at: int,
)
    requires
        0 <= at < env.len(),
        env[at].0 != reserved_name(),
        forall|later: int| at < later < env.len() ==> (#[trigger] env[later]).0 != env[at].0,
    ensures
        effective_env(env_settings(features, env)).contains_key(env[at].0),
        effective_env(env_settings(features, env))[env[at].0] == env[at].1,
    decreases env.len(),
{
    let settings = env_settings(features, env);
    assert(settings.drop_last() =~= env_settings(features, env.drop_last()));
    if at < env.len() - 1 {
        let front = env.drop_last();
        assert forall|later: int| at < later < front.len() implies (#[trigger] front[later]).0
            != front[at].0 by {}
        lemma_other_variables_pass(features, front, at);
    }
}

fn seed_flags(features: &TargetFeatures) -> (flags: String)
    ensures
        flags@ == seeded_flags(*features),
{
    let mut flags = "--cfg=web_sys_unstable_apis -C target-feature=".to_owned();
    let encoded = features.to_string();
    flags.append(encoded.as_str());
    flags
}

/// The variables to set for the build, in order.
pub fn build_env(features: &TargetFeatures, env_vars: &Vec<(String, String)>) -> (envs: Vec<
    (String, String),
>)
    ensures
        envs.deep_view() == env_settings(*features, env_vars.deep_view()),
{
    let ghost env = env_vars.deep_view();
    let mut flags = seed_flags(features);
    let mut envs: Vec<(String, String)> = Vec::new();
    let name = "RUSTFLAGS".to_owned();
    let value = flags.clone();
    envs.push((name, value));
    let mut i: usize = 0;
    while i < env_vars.len()
        invariant
            i <= env_vars.len(),
            env == env_vars.deep_view(),
            flags@ == accumulated_flags(*features, env.take(i as int)),
            envs.deep_view() == env_settings(*features, env.take(i as int)),
        decreases env_vars.len() - i,
    {
        proof {
            let next = env.take(i + 1);
            assert(next.drop_last() =~= env.take(i as int));
        }
        let ghost before = envs@;
        if same_text(env_vars[i].0.as_str(), "RUSTFLAGS") {
            flags.push(' ');
            flags.append(env_vars[i].1.as_str());
            let name = "RUSTFLAGS".to_owned();
            let value = flags.clone();
            envs.push((name, value));
            proof {
                lemma_pushed_pair(before, envs@, name, value);
            }
        } else {
            let name = env_vars[i].0.clone();
            let value = env_vars[i].1.clone();
            envs.push((name, value));
            proof {
                lemma_pushed_pair(before, envs@, name, value);
            }
        }
        i += 1;
    }
    proof {
        assert(env.take(i as int) =~= env);
    }
    envs
}

/// The compiler's arguments for a configuration.
pub fn build_args(env_vars: &Vec<(String, String)>, release: bool) -> (args: Vec<String>)
    ensures
        args.deep_view() == toolchain_args(env_vars.deep_view(), release),
{
    let mut args: Vec<String> = Vec::new();
    args.push("+nightly".to_owned());
    args.push("build".to_owned());
    args.push("--target".to_owned());
    args.push("wasm32-unknown-unknown".to_owned());
    args.push("-Z".to_owned());
    args.push("build-std=panic_abort,std".to_owned());
    args.push("--target-dir".to_owned());
    args.push(derive_output_dir(env_vars));
    if release {
        args.push("--release".to_owned());
    }
    args
}

impl Invocation {
    /// The run that builds `args`.
    pub fn for_args(args: &Args) -> (run: Invocation)
        ensures
            run@ == invocation(args@),
    {
        Invocation {
            program: "cargo".to_owned(),
            args: build_args(&args.env_vars, args.release),
            envs: build_env(&args.features, &args.env_vars),
            current_dir: args.module_dir.clone(),
        }
    }
}

} // verus!
