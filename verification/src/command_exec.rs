use vstd::prelude::*;

use crate::app_server::{RpcError, INVALID_REQUEST_ERROR_CODE};
use crate::strings::{decimal, decimal_string};
use crate::text::{owned, str_eq};

verus! {

pub const INVALID_PARAMS_ERROR_CODE: i64 = -32602;

pub const EMPTY_COMMAND_ERROR: &'static str = "command must not be empty";
pub const SIZE_NEEDS_TTY_ERROR: &'static str = "command/exec size requires tty: true";
pub const OUTPUT_CAP_CONFLICT_ERROR: &'static str = "command/exec cannot set both outputBytesCap and disableOutputCap";
pub const TIMEOUT_CONFLICT_ERROR: &'static str = "command/exec cannot set both timeoutMs and disableTimeout";
pub const NEGATIVE_TIMEOUT_ERROR: &'static str = "command/exec timeoutMs must be non-negative, got ";

/// What a client asks of a one-off command, as far as deciding how to run it goes.
pub struct CommandExecRequest {
    pub command: Vec<String>,
    pub tty: bool,
    /// Whether a terminal size was given.
    pub has_size: bool,
    pub output_bytes_cap: Option<u64>,
    pub disable_output_cap: bool,
    pub disable_timeout: bool,
    pub timeout_ms: Option<i64>,
}

/// When a command is stopped.
#[derive(Debug, Clone, Copy, PartialEq, Eq, Structural)]
pub enum ExecExpiration {
    /// Only when the client cancels it.
    Cancellation,
    /// After this many milliseconds.
    Timeout(u64),
    /// After the default timeout.
    DefaultTimeout,
}

/// How a one-off command runs: how much output is kept and when it is stopped.
#[derive(Debug, Clone, Copy, PartialEq, Eq, Structural)]
pub struct ExecPlan {
    pub output_bytes_cap: Option<u64>,
    pub expiration: ExecExpiration,
}

/// The decimal text of a signed number.
pub open spec fn signed_decimal(n: int) -> Seq<char> {
    if n < 0 {
        "-"@ + decimal((-n) as nat)
    } else {
        decimal(n as nat)
    }
}

/// How a one-off command runs, or the code and message of the error it is refused
/// with, checked in this order: an empty command, a terminal size without a
/// terminal, an output cap both set and disabled, a timeout both set and disabled,
/// a negative timeout. The output cap is the one given, or the default, unless it is
/// disabled; the command stops on cancellation only when the timeout is disabled,
/// else after the timeout given, else after the default one.
pub open spec fn exec_plan(
    command_len: nat,
    tty: bool,
    has_size: bool,
    output_bytes_cap: Option<u64>,
    disable_output_cap: bool,
    disable_timeout: bool,
    timeout_ms: Option<i64>,
    default_output_bytes_cap: u64,
) -> Result<ExecPlan, (i64, Seq<char>)> {
    if command_len == 0 {
        Err((INVALID_REQUEST_ERROR_CODE, EMPTY_COMMAND_ERROR@))
    } else if has_size && !tty {
        Err((INVALID_PARAMS_ERROR_CODE, SIZE_NEEDS_TTY_ERROR@))
    } else if disable_output_cap && output_bytes_cap is Some {
        Err((INVALID_PARAMS_ERROR_CODE, OUTPUT_CAP_CONFLICT_ERROR@))
    } else if disable_timeout && timeout_ms is Some {
        Err((INVALID_PARAMS_ERROR_CODE, TIMEOUT_CONFLICT_ERROR@))
    } else if timeout_ms matches Some(t) && t < 0 {
        Err((INVALID_PARAMS_ERROR_CODE, NEGATIVE_TIMEOUT_ERROR@ + signed_decimal(timeout_ms->0 as int)))
    } else {
        Ok(
            ExecPlan {
                output_bytes_cap: if disable_output_cap {
                    None
                } else {
                    match output_bytes_cap {
                        Some(c) => Some(c),
                        None => Some(default_output_bytes_cap),
                    }
                },
                expiration: if disable_timeout {
                    ExecExpiration::Cancellation
                } else {
                    match timeout_ms {
                        Some(t) => ExecExpiration::Timeout(t as u64),
                        None => ExecExpiration::DefaultTimeout,
                    }
                },
            },
        )
    }
}

fn signed_decimal_string(n: i64) -> (r: String)
    ensures
        r@ == signed_decimal(n as int),
{
    if n < 0 {
        let magnitude: u64 = ((-(n + 1)) as u64) + 1;
        let mut r = owned("-");
        r.append(decimal_string(magnitude).as_str());
        proof {
            reveal_strlit("-");
        }
        r
    } else {
        decimal_string(n as u64)
    }
}

/// How a one-off command runs: see [`exec_plan`]; `default_output_bytes_cap` is the
/// cap kept when the client gives none.
pub fn plan_command_exec(request: &CommandExecRequest, default_output_bytes_cap: u64) -> (r: Result<ExecPlan, RpcError>)
    ensures
        match r {
            Ok(p) => exec_plan(
                request.command.len() as nat,
                request.tty,
                request.has_size,
                request.output_bytes_cap,
                request.disable_output_cap,
                request.disable_timeout,
                request.timeout_ms,
                default_output_bytes_cap,
            ) == Ok::<ExecPlan, (i64, Seq<char>)>(p),
            Err(e) => exec_plan(
                request.command.len() as nat,
                request.tty,
                request.has_size,
                request.output_bytes_cap,
                request.disable_output_cap,
                request.disable_timeout,
                request.timeout_ms,
                default_output_bytes_cap,
            ) == Err::<ExecPlan, (i64, Seq<char>)>((e.code, e.message@)),
        },
{
    if request.command.len() == 0 {
        return Err(RpcError { code: INVALID_REQUEST_ERROR_CODE, message: owned(EMPTY_COMMAND_ERROR) });
    }
    if request.has_size && !request.tty {
        return Err(RpcError { code: INVALID_PARAMS_ERROR_CODE, message: owned(SIZE_NEEDS_TTY_ERROR) });
    }
    if request.disable_output_cap && request.output_bytes_cap.is_some() {
        return Err(RpcError { code: INVALID_PARAMS_ERROR_CODE, message: owned(OUTPUT_CAP_CONFLICT_ERROR) });
    }
    if request.disable_timeout && request.timeout_ms.is_some() {
        return Err(RpcError { code: INVALID_PARAMS_ERROR_CODE, message: owned(TIMEOUT_CONFLICT_ERROR) });
    }
    let timeout: Option<u64> = match request.timeout_ms {
        Some(t) => {
            if t < 0 {
                let mut message = owned(NEGATIVE_TIMEOUT_ERROR);
                message.append(signed_decimal_string(t).as_str());
                return Err(RpcError { code: INVALID_PARAMS_ERROR_CODE, message });
            }
            Some(t as u64)
        },
        None => None,
    };
    let output_bytes_cap = if request.disable_output_cap {
        None
    } else {
        match request.output_bytes_cap {
            Some(c) => Some(c),
            None => Some(default_output_bytes_cap),
        }
    };
    let expiration = if request.disable_timeout {
        ExecExpiration::Cancellation
    } else {
        match timeout {
            Some(t) => ExecExpiration::Timeout(t),
            None => ExecExpiration::DefaultTimeout,
        }
    };
    Ok(ExecPlan { output_bytes_cap, expiration })
}

/// The environment as a map from name to value.
pub open spec fn env_map(env: Seq<(String, String)>) -> Map<Seq<char>, Seq<char>>
    decreases env.len(),
{
    if env.len() == 0 {
        Map::empty()
    } else {
        env_map(env.drop_last()).insert(env.last().0@, env.last().1@)
    }
}

/// Each name set once.
pub open spec fn env_names_unique(env: Seq<(String, String)>) -> bool {
    forall|i: int, j: int| 0 <= i < j < env.len() ==> (#[trigger] env[i]).0@ != (#[trigger] env[j]).0@
}

/// The environment after the client's overrides, in order: a value sets the name,
/// none removes it.
pub open spec fn overridden(env: Map<Seq<char>, Seq<char>>, overrides: Seq<(Seq<char>, Option<Seq<char>>)>) -> Map<
    Seq<char>,
    Seq<char>,
>
    decreases overrides.len(),
{
    if overrides.len() == 0 {
        env
    } else {
        let before = overridden(env, overrides.drop_last());
        let (name, value) = overrides.last();
        match value {
            Some(v) => before.insert(name, v),
            None => before.remove(name),
        }
    }
}

pub open spec fn overrides_view(o: Seq<(String, Option<String>)>) -> Seq<(Seq<char>, Option<Seq<char>>)> {
    o.map_values(
        |e: (String, Option<String>)|
            (
                e.0@,
                match e.1 {
                    Some(v) => Some(v@),
                    None => None,
                },
            ),
    )
}

proof fn lemma_env_map_without_name(env: Seq<(String, String)>, name: Seq<char>)
    requires
        forall|i: int| 0 <= i < env.len() ==> (#[trigger] env[i]).0@ != name,
    ensures
        !env_map(env).dom().contains(name),
    decreases env.len(),
{
    if env.len() > 0 {
        lemma_env_map_without_name(env.drop_last(), name);
    }
}

proof fn lemma_env_map_update(env: Seq<(String, String)>, k: int, entry: (String, String))
    requires
        env_names_unique(env),
        0 <= k < env.len(),
        entry.0@ == env[k].0@,
    ensures
        env_map(env.update(k, entry)) == env_map(env).insert(entry.0@, entry.1@),
        env_names_unique(env.update(k, entry)),
    decreases env.len(),
{
    let u = env.update(k, entry);
    if k == env.len() - 1 {
        assert(u.drop_last() =~= env.drop_last());
        assert(env_map(env).insert(entry.0@, entry.1@) =~= env_map(env.drop_last()).insert(entry.0@, entry.1@));
    } else {
        let init = env.drop_last();
        assert(u.drop_last() =~= init.update(k, entry));
        lemma_env_map_update(init, k, entry);
        assert(init[k] == env[k]);
        assert(env.last().0@ != entry.0@);
        assert(env_map(u) =~= env_map(env).insert(entry.0@, entry.1@));
    }
    assert forall|i: int, j: int| 0 <= i < j < u.len() implies (#[trigger] u[i]).0@ != (#[trigger] u[j]).0@ by {
        assert(u[i].0@ == env[i].0@ && u[j].0@ == env[j].0@);
    }
}

proof fn lemma_env_map_remove(env: Seq<(String, String)>, k: int)
    requires
        env_names_unique(env),
        0 <= k < env.len(),
    ensures
        env_map(env.remove(k)) == env_map(env).remove(env[k].0@),
        env_names_unique(env.remove(k)),
    decreases env.len(),
{
    let r = env.remove(k);
    let name = env[k].0@;
    if k == env.len() - 1 {
        assert(r =~= env.drop_last());
        assert forall|i: int| 0 <= i < r.len() implies (#[trigger] r[i]).0@ != name by {
            assert(r[i] == env[i]);
        }
        lemma_env_map_without_name(r, name);
        assert(env_map(env).remove(name) =~= env_map(r));
    } else {
        let init = env.drop_last();
        assert(init[k] == env[k]);
        lemma_env_map_remove(init, k);
        assert(r.drop_last() =~= init.remove(k));
        assert(r.last() == env.last());
        assert(env.last().0@ != name);
        assert(env_map(r) =~= env_map(env).remove(name));
    }
    assert forall|i: int, j: int| 0 <= i < j < r.len() implies (#[trigger] r[i]).0@ != (#[trigger] r[j]).0@ by {
        let a = if i < k { i } else { i + 1 };
        let b = if j < k { j } else { j + 1 };
        assert(r[i] == env[a] && r[j] == env[b]);
    }
}

fn find_env(env: &Vec<(String, String)>, name: &str) -> (r: Option<usize>)
    ensures
        match r {
            Some(k) => k < env.len() && env@[k as int].0@ == name@,
            None => forall|i: int| 0 <= i < env.len() ==> (#[trigger] env@[i]).0@ != name@,
        },
{
    let mut i: usize = 0;
    while i < env.len()
        invariant
            i <= env.len(),
            forall|j: int| 0 <= j < i ==> (#[trigger] env@[j]).0@ != name@,
        decreases env.len() - i,
    {
        if str_eq(env[i].0.as_str(), name) {
            return Some(i);
        }
        i = i + 1;
    }
    None
}

/// Applies the client's overrides to the environment of a command: see
/// [`overridden`]. Each name stays set at most once.
pub fn apply_env_overrides(env: &mut Vec<(String, String)>, overrides: Vec<(String, Option<String>)>)
    requires
        env_names_unique(old(env)@),
    ensures
        env_names_unique(final(env)@),
        env_map(final(env)@) == overridden(env_map(old(env)@), overrides_view(overrides@)),
{
    let ghost start = env_map(env@);
    let ghost ov = overrides_view(overrides@);
    let mut i: usize = 0;
    let n = overrides.len();
    assert(ov.take(0) =~= Seq::<(Seq<char>, Option<Seq<char>>)>::empty());
    while i < n
        invariant
            n == overrides.len(),
            i <= n,
            ov == overrides_view(overrides@),
            env_names_unique(env@),
            env_map(env@) == overridden(start, ov.take(i as int)),
        decreases n - i,
    {
        assert(ov.take(i + 1).drop_last() =~= ov.take(i as int));
        let (name, value) = (&overrides[i].0, &overrides[i].1);
        assert(ov.take(i + 1).last() == ov[i as int]);
        match value {
            Some(v) => {
                match find_env(env, name.as_str()) {
                    Some(k) => {
                        let entry = (owned(name.as_str()), owned(v.as_str()));
                        proof {
                            lemma_env_map_update(env@, k as int, entry);
                        }
                        env.set(k, entry);
                    },
                    None => {
                        let ghost before = env@;
                        env.push((owned(name.as_str()), owned(v.as_str())));
                        assert(env@.drop_last() =~= before);
                        assert forall|a: int, b: int| 0 <= a < b < env@.len() implies (#[trigger] env@[a]).0@
                            != (#[trigger] env@[b]).0@ by {
                            if b == env@.len() - 1 {
                                assert(env@[a] == before[a]);
                            } else {
                                assert(env@[a] == before[a] && env@[b] == before[b]);
                            }
                        }
                    },
                }
            },
            None => {
                match find_env(env, name.as_str()) {
                    Some(k) => {
                        proof {
                            lemma_env_map_remove(env@, k as int);
                        }
                        env.remove(k);
                    },
                    None => {
                        proof {
                            lemma_env_map_without_name(env@, name@);
                        }
                        assert(env_map(env@).remove(name@) =~= env_map(env@));
                    },
                }
            },
        }
        i = i + 1;
    }
    assert(ov.take(n as int) =~= ov);
}

}
