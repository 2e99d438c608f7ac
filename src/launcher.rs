//! The jail session's own decisions: which command and environment to start,
//! which mounts to release, and which exit code to report.
use vstd::prelude::*;
use vstd::string::StrSliceExecFns;
use vstd::string::StringExecFns;
use crate::image::ImageHostConfig;
use crate::reference::lacks;

verus! {

/// The hostname given to every jail.
pub const JAIL_HOSTNAME: &'static str = "lcontainer";

/// The process-information filesystem mounted inside each jail.
pub const PROC_MOUNT: &'static str = "proc";

/// The exit code reported when a process did not exit normally.
pub const ABNORMAL_EXIT: i32 = -1;

#[derive(Debug, Clone, Copy, PartialEq, Eq, Structural)]
pub enum LaunchError {
    /// No override arguments, and the image names no program: neither an
    /// entrypoint nor a command.
    MissingEntrypoint,
    /// The environment entry at this index has no `=`.
    MalformedEnv(usize),
    NamespaceSetup,
    ProcessSpawn,
    Wait,
}

/// What is started inside the jail. The environment replaces the launching
/// process's own: nothing is inherited. It is applied in order, so where a
/// key appears twice the later entry wins: the process sees
/// `env_value(env@, key)` for each key.
#[derive(Debug, Clone)]
pub struct LaunchPlan {
    pub argv: Vec<String>,
    pub env: Vec<(String, String)>,
}

/// The value that a key takes when the pairs of `env` are set in order: that
/// of its last entry.
pub open spec fn env_value(env: Seq<(String, String)>, key: Seq<char>) -> Option<Seq<char>>
    decreases env.len(),
{
    if env.len() == 0 {
        None
    } else if env.last().0@ == key {
        Some(env.last().1@)
    } else {
        env_value(env.drop_last(), key)
    }
}

/// `key=value` split at its first `=`.
pub open spec fn is_split_of(key: Seq<char>, value: Seq<char>, entry: Seq<char>) -> bool {
    key + seq!['='] + value == entry && lacks(key, '=')
}

pub open spec fn env_matches(env: Seq<(String, String)>, entries: Seq<String>) -> bool {
    env.len() == entries.len() && forall|i: int|
        0 <= i < env.len() ==> is_split_of(env[i].0@, env[i].1@, entries[i]@)
}

pub open spec fn first_malformed(entries: Seq<String>, i: int) -> bool {
    0 <= i < entries.len() && lacks(entries[i]@, '=') && forall|j: int|
        0 <= j < i ==> !lacks(entries[j]@, '=')
}

pub open spec fn all_well_formed(entries: Seq<String>) -> bool {
    forall|j: int| 0 <= j < entries.len() ==> !lacks(entries[j]@, '=')
}

/// An entrypoint that names a program to start.
pub open spec fn has_entry(config: ImageHostConfig) -> bool {
    config.entrypoint matches Some(e) && e@.len() > 0
}

/// The arguments that the image itself asks for: its entrypoint's first word
/// followed by its command. A missing or empty entrypoint contributes nothing.
pub open spec fn image_argv(config: ImageHostConfig) -> Seq<String> {
    if has_entry(config) {
        seq![config.entrypoint->Some_0@[0]] + config.cmd@
    } else {
        config.cmd@
    }
}

/// Splits an environment entry at its first `=`.
pub fn split_env_entry(entry: &str) -> (r: Option<(String, String)>)
    ensures
        r is None <==> lacks(entry@, '='),
        r matches Some(kv) ==> is_split_of(kv.0@, kv.1@, entry@),
{
    let n = entry.unicode_len();
    let mut i: usize = 0;
    while i < n
        invariant
            n == entry@.len(),
            i <= n,
            forall|k: int| 0 <= k < i ==> entry@[k] != '=',
        decreases n - i,
    {
        if entry.get_char(i) == '=' {
            let key = String::from_str(entry.substring_char(0, i));
            let value = String::from_str(entry.substring_char(i + 1, n));
            assert(key@ + seq!['='] + value@ =~= entry@);
            return Some((key, value));
        }
        i = i + 1;
    }
    None
}

/// The environment built from `KEY=VALUE` entries, in their order.
pub fn resolve_env(entries: &Vec<String>) -> (r: Result<Vec<(String, String)>, LaunchError>)
    ensures
        r is Ok <==> all_well_formed(entries@),
        r matches Ok(env) ==> env_matches(env@, entries@),
        r matches Err(e) ==> e matches LaunchError::MalformedEnv(i) && first_malformed(
            entries@,
            i as int,
        ),
{
    let mut env: Vec<(String, String)> = Vec::new();
    let mut i: usize = 0;
    while i < entries.len()
        invariant
            i <= entries@.len(),
            env_matches(env@, entries@.subrange(0, i as int)),
            forall|j: int| 0 <= j < i ==> !lacks(entries@[j]@, '='),
        decreases entries@.len() - i,
    {
        match split_env_entry(entries[i].as_str()) {
            None => {
                return Err(LaunchError::MalformedEnv(i));
            },
            Some(kv) => {
                env.push(kv);
            },
        }
        i = i + 1;
    }
    assert(entries@.subrange(0, i as int) =~= entries@);
    Ok(env)
}

/// The command and environment of one launch. Override arguments, when there
/// are any, are started verbatim; otherwise the image's entrypoint's first word
/// followed by its command. An image without an entrypoint starts its command
/// alone (`/bin/sh` for an image whose command is `["/bin/sh"]`); one with
/// neither is `MissingEntrypoint`. The environment is the image's alone, in
/// entry order (a later duplicate key wins when it is applied), and is
/// checked first.
pub fn resolve_command(arguments: &Vec<String>, config: &ImageHostConfig) -> (r: Result<
    LaunchPlan,
    LaunchError,
>)
    ensures
        !all_well_formed(config.env@) ==> (r matches Err(LaunchError::MalformedEnv(i))
            && first_malformed(config.env@, i as int)),
        all_well_formed(config.env@) ==> (r is Err <==> arguments@.len() == 0 && image_argv(
            *config,
        ).len() == 0),
        r is Err && all_well_formed(config.env@) ==> r->Err_0 == LaunchError::MissingEntrypoint,
        r matches Ok(plan) ==> env_matches(plan.env@, config.env@),
        r matches Ok(plan) ==> (arguments@.len() > 0 ==> plan.argv@ == arguments@),
        r matches Ok(plan) ==> (arguments@.len() == 0 ==> plan.argv@ == image_argv(*config)),
{
    let env = match resolve_env(&config.env) {
        Ok(env) => env,
        Err(e) => {
            return Err(e);
        },
    };
    let argv = if arguments.len() > 0 {
        copy_strings(arguments)
    } else {
        let mut argv: Vec<String> = match &config.entrypoint {
            Some(entry) if entry.len() > 0 => vec![entry[0].clone()],
            _ => Vec::new(),
        };
        let mut rest = copy_strings(&config.cmd);
        argv.append(&mut rest);
        assert(argv@ =~= image_argv(*config));
        if argv.len() == 0 {
            return Err(LaunchError::MissingEntrypoint);
        }
        argv
    };
    Ok(LaunchPlan { argv, env })
}

fn copy_strings(v: &Vec<String>) -> (r: Vec<String>)
    ensures
        r@ == v@,
{
    let mut out: Vec<String> = Vec::new();
    let mut i: usize = 0;
    while i < v.len()
        invariant
            i <= v@.len(),
            out@ == v@.subrange(0, i as int),
        decreases v@.len() - i,
    {
        out.push(v[i].clone());
        i = i + 1;
        assert(out@ =~= v@.subrange(0, i as int));
    }
    assert(v@.subrange(0, i as int) =~= v@);
    out
}

/// The exit code of an invocation: the process's own, or the sentinel when it
/// ended abnormally or its status is unknown.
pub fn exit_code(code: Option<i32>) -> (r: i32)
    ensures
        r == match code {
            Some(c) => c,
            None => ABNORMAL_EXIT,
        },
{
    match code {
        Some(c) => c,
        None => ABNORMAL_EXIT,
    }
}

/// What a teardown of `recorded` hands out, and what it leaves recorded. The
/// order handed out is creation order; reverse order for nested mounts is an
/// open question that this does not settle.
pub open spec fn teardown(recorded: Seq<String>) -> (Seq<String>, Seq<String>) {
    (recorded, Seq::empty())
}

/// The mounts made while setting up one jail, in creation order.
#[derive(Debug)]
pub struct MountTracker {
    names: Vec<String>,
}

impl View for MountTracker {
    type V = Seq<String>;

    closed spec fn view(&self) -> Seq<String> {
        self.names@
    }
}

impl MountTracker {
    pub fn new() -> (r: MountTracker)
        ensures
            r@ == Seq::<String>::empty(),
    {
        MountTracker { names: Vec::new() }
    }

    /// Records a mount that now stands.
    pub fn record(&mut self, name: String)
        ensures
            final(self)@ == old(self)@.push(name),
    {
        self.names.push(name);
    }

    /// Hands out every recorded mount, in creation order, for release, and
    /// forgets them, so that none is released twice. Creation order is right
    /// while a jail makes one mount; whether nested mounts should be released
    /// in reverse order is left open.
    pub fn release_all(&mut self) -> (r: Vec<String>)
        ensures
            (r@, final(self)@) == teardown(old(self)@),
    {
        let mut out: Vec<String> = Vec::new();
        core::mem::swap(&mut out, &mut self.names);
        out
    }

    pub fn len(&self) -> (r: usize)
        ensures
            r == self@.len(),
    {
        self.names.len()
    }
}

/// Every mount recorded in a session is released exactly once: a teardown
/// hands out all of them in creation order, and any later teardown none.
pub proof fn lemma_mounts_released_once(recorded: Seq<String>)
    ensures
        teardown(recorded).0 + teardown(teardown(recorded).1).0 == recorded,
        teardown(teardown(recorded).1).0.len() == 0,
{
    assert(teardown(recorded).0 + teardown(teardown(recorded).1).0 =~= recorded);
}

} // verus!
