use vstd::prelude::*;
use vstd::string::*;

use crate::timer::{spec_delay, spec_expired, timer_wf, Timer};

verus! {

/// The closed set of invokable commands, one tag per registered handler.
#[derive(Clone, Copy, Debug, PartialEq, Eq, Structural)]
pub enum Command {
    Greet,
    Basic,
    HelloWorld,
    AsyncCommand,
}

/// A caller error, raised by the dispatch layer before any handler runs.
/// Handlers report their own failures as plain strings, never as this type,
/// so the two paths stay distinguishable.
#[derive(Clone, Copy, Debug, PartialEq, Eq, Structural)]
pub enum InvokeError {
    UnknownCommand,
}

/// Character-by-character equality of two string slices.
pub fn str_eq(a: &str, b: &str) -> (r: bool)
    ensures
        r == (a@ == b@),
{
    let a_len = a.unicode_len();
    let b_len = b.unicode_len();
    if a_len != b_len {
        return false;
    }
    let mut i: usize = 0;
    while i < a_len
        invariant
            a_len == a@.len(),
            b_len == b@.len(),
            a_len == b_len,
            i <= a_len,
            forall|j: int| 0 <= j < i ==> a@[j] == b@[j],
        decreases a_len - i,
    {
        if a.get_char(i) != b.get_char(i) {
            return false;
        }
        i += 1;
    }
    proof {
        assert(a@ =~= b@);
    }
    true
}

/// Whether a name belongs to the registered command set.
pub open spec fn spec_registered(n: Seq<char>) -> bool {
    ||| n == "greet"@
    ||| n == "basic"@
    ||| n == "hello_world"@
    ||| n == "async_command"@
}

/// The name-to-handler mapping: each registered name resolves to its tag,
/// every other name is a caller error.
pub open spec fn spec_parse(n: Seq<char>) -> Result<Command, InvokeError> {
    if n == "greet"@ {
        Ok(Command::Greet)
    } else if n == "basic"@ {
        Ok(Command::Basic)
    } else if n == "hello_world"@ {
        Ok(Command::HelloWorld)
    } else if n == "async_command"@ {
        Ok(Command::AsyncCommand)
    } else {
        Err(InvokeError::UnknownCommand)
    }
}

/// Resolve an invocation name against the registered set. A name outside the
/// set is rejected here, before any handler could run.
pub fn parse_command(name: &str) -> (r: Result<Command, InvokeError>)
    ensures
        r == spec_parse(name@),
        r is Ok <==> spec_registered(name@),
{
    if str_eq(name, "greet") {
        Ok(Command::Greet)
    } else if str_eq(name, "basic") {
        Ok(Command::Basic)
    } else if str_eq(name, "hello_world") {
        Ok(Command::HelloWorld)
    } else if str_eq(name, "async_command") {
        Ok(Command::AsyncCommand)
    } else {
        Err(InvokeError::UnknownCommand)
    }
}

/// The registered command names, in registration order. Every listed name
/// resolves; together with `lemma_unknown_rejected` this makes the mapping a
/// closed registry.
pub fn registered_names() -> (v: Vec<String>)
    ensures
        v@.len() == 4,
        v@[0]@ == "greet"@,
        v@[1]@ == "basic"@,
        v@[2]@ == "hello_world"@,
        v@[3]@ == "async_command"@,
        forall|i: int| 0 <= i < v@.len() ==> spec_registered(#[trigger] v@[i]@),
{
    let mut v: Vec<String> = Vec::new();
    v.push(String::from_str("greet"));
    v.push(String::from_str("basic"));
    v.push(String::from_str("hello_world"));
    v.push(String::from_str("async_command"));
    v
}

/// Unknown invocation rejection: a name outside the registered set resolves
/// to the caller error, never to a handler tag.
pub proof fn lemma_unknown_rejected(n: Seq<char>)
    requires
        !spec_registered(n),
    ensures
        spec_parse(n) == Err::<Command, InvokeError>(InvokeError::UnknownCommand),
{
}

/// The greeting `hello_world` returns, whatever its argument.
pub open spec fn spec_greeting() -> Seq<char> {
    "Hello from Rust!"@
}

/// The value `hello_world` hands back for a given argument: always the fixed
/// greeting, never the error side.
pub open spec fn spec_hello_world_result(name: Seq<char>) -> Result<Seq<char>, Seq<char>> {
    Ok(spec_greeting())
}

/// The line `hello_world` gives the shell for standard output; only here
/// does the argument appear.
pub open spec fn spec_hello_world_log(name: Seq<char>) -> Seq<char> {
    "hello_world called by "@ + name
}

/// The `hello_world` handler: returns the fixed greeting for any argument,
/// plus the line the shell writes to standard output.
pub fn hello_world(name: &str) -> (r: (Result<String, String>, String))
    ensures
        r.0 matches Ok(v) && Ok::<Seq<char>, Seq<char>>(v@) == spec_hello_world_result(name@),
        r.1@ == spec_hello_world_log(name@),
{
    let greeting = String::from_str("Hello from Rust!");
    let log = String::from_str("hello_world called by ").concat(name);
    (Ok(greeting), log)
}

/// Handler purity for `hello_world`: the returned value is the same for any
/// two arguments; only the log line may differ.
pub proof fn lemma_hello_world_uniform(n1: Seq<char>, n2: Seq<char>)
    ensures
        spec_hello_world_result(n1) == spec_hello_world_result(n2),
{
}

/// The line the `basic` handler writes to standard output.
pub open spec fn spec_basic_log() -> Seq<char> {
    "basic command called"@
}

/// The `basic` handler: no input, no returned value; it only hands the shell
/// a line for standard output.
pub fn basic() -> (log: String)
    ensures
        log@ == spec_basic_log(),
{
    String::from_str("basic command called")
}

/// Milliseconds `async_command` waits before completing.
pub const ASYNC_COMMAND_DELAY_MS: u64 = 1000;

/// First half of `async_command`: the handler suspends exactly once, for this
/// many milliseconds. The shell sleeps for the returned duration and then
/// calls `async_command_finish`.
pub fn async_command_begin() -> (ms: u64)
    ensures
        ms == ASYNC_COMMAND_DELAY_MS,
{
    ASYNC_COMMAND_DELAY_MS
}

/// The fixed completion value of `async_command`.
pub open spec fn spec_async_command_result() -> Result<Seq<char>, Seq<char>> {
    Ok("Async command completed!"@)
}

/// The line `async_command` writes to standard output after the delay.
pub open spec fn spec_async_command_log() -> Seq<char> {
    "async_command completed"@
}

/// Second half of `async_command`: the fixed completion value, and the line
/// written to standard output after the delay.
pub fn async_command_finish() -> (r: (Result<String, String>, String))
    ensures
        r.0 matches Ok(v) && Ok::<Seq<char>, Seq<char>>(v@) == spec_async_command_result(),
        r.1@ == spec_async_command_log(),
{
    (Ok(String::from_str("Async command completed!")), String::from_str("async_command completed"))
}

/// Timer lower bound for `async_command`: a timer started for the configured
/// delay that has fired shows at least that much elapsed time, and there is
/// an instant at which it fires.
pub proof fn lemma_async_command_timer(t: Timer, now: u64)
    requires
        timer_wf(t),
        spec_delay(t) == ASYNC_COMMAND_DELAY_MS,
        spec_expired(t, now),
    ensures
        now - t.start >= ASYNC_COMMAND_DELAY_MS,
        exists|later: u64| spec_expired(t, later),
{
    crate::timer::lemma_timer_lower_bound(t, now);
    crate::timer::lemma_timer_fires(t);
}

} // verus!
