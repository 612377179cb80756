//! The worker loop: one interpreter instance, the task dispatch that drives
//! it, and the state machine of a worker generation.
//!
//! A generation is born `Bootstrapping`: the host bindings are installed and
//! the fixed prelude is evaluated. Success makes it `Ready`; a prelude
//! failure is fatal to the generation, which reports the error and goes
//! straight to `Terminated`. While `Ready`, each wake of the loop drains the
//! real-time event queue first and then the control queue, dispatching every
//! task; a stop signal moves the generation to `Draining`, which finishes
//! in-flight work and ends in `Terminated`. A failing user script is never
//! fatal: the failure becomes a report line and the next task is dispatched
//! as if nothing happened.

use vstd::prelude::*;
use wlambda::EvalContext;
use wlambda::VVal;
use wlambda::rpc_helper::RPCHandle;
use wlambda::threads::AValChannel;
use crate::bridge::TaskBridge;
use crate::bridge::QUEUE_CAPACITY;
use crate::report::send_report;
use crate::script::bind_log;
use crate::script::bind_new_log_sender;
use crate::script::bind_params;
use crate::script::ctx_call_int_bool;
use crate::script::ctx_call_str;
use crate::script::ctx_eval;
use crate::script::ctx_get_global;
use crate::script::rpc_register;
use crate::task::M2WTask;

verus! {

/// The lifecycle of one worker generation.
#[derive(Debug, Clone, Copy, PartialEq, Eq, Structural)]
pub enum WorkerState {
    /// Binding host callables and evaluating the fixed prelude.
    Bootstrapping,
    /// Polling and dispatching tasks.
    Ready,
    /// A stop was signalled: finish in-flight work, pop nothing new.
    Draining,
    /// The generation is over; its producers are permanently inert.
    Terminated,
}

/// Where bootstrap leads: `Ready` on success, `Terminated` on a prelude
/// failure, which is fatal to the generation.
pub open spec fn step_after_bootstrap(ok: bool) -> WorkerState {
    if ok {
        WorkerState::Ready
    } else {
        WorkerState::Terminated
    }
}

/// The stop signal is level-triggered and only moves a ready worker into
/// `Draining`; anywhere else it changes nothing.
pub open spec fn step_on_stop(st: WorkerState) -> WorkerState {
    match st {
        WorkerState::Ready => WorkerState::Draining,
        _ => st,
    }
}

/// Once a draining worker has finished its in-flight work it terminates;
/// anywhere else nothing changes.
pub open spec fn step_on_drained(st: WorkerState) -> WorkerState {
    match st {
        WorkerState::Draining => WorkerState::Terminated,
        _ => st,
    }
}

/// Apply the bootstrap outcome to a newborn worker.
pub fn after_bootstrap(ok: bool) -> (r: WorkerState)
    ensures
        r == step_after_bootstrap(ok),
{
    if ok {
        WorkerState::Ready
    } else {
        WorkerState::Terminated
    }
}

/// Apply the stop signal to a worker state.
pub fn on_stop_signal(st: WorkerState) -> (r: WorkerState)
    ensures
        r == step_on_stop(st),
{
    match st {
        WorkerState::Ready => WorkerState::Draining,
        _ => st,
    }
}

/// Apply the end of draining to a worker state.
pub fn on_drained(st: WorkerState) -> (r: WorkerState)
    ensures
        r == step_on_drained(st),
{
    match st {
        WorkerState::Draining => WorkerState::Terminated,
        _ => st,
    }
}

/// `s` begins with `p`.
pub open spec fn starts_with(s: Seq<char>, p: Seq<char>) -> bool {
    p.len() <= s.len() && s.take(p.len() as int) == p
}

/// The report line for the bootstrap-prelude stage of a reinitialization.
pub open spec fn init_line(r: Result<VVal, String>) -> Seq<char> {
    match r {
        Ok(_) => "Initialized! ok"@,
        Err(e) => "Initialized! error: "@ + e@,
    }
}

/// A line that reports the outcome of the init stage.
pub open spec fn is_init_line(s: Seq<char>) -> bool {
    s == "Initialized! ok"@ || starts_with(s, "Initialized! error: "@)
}

/// The report line for installing a new event handler.
pub open spec fn update_line(r: Result<VVal, String>) -> Seq<char> {
    match r {
        Ok(_) => "Updated MIDI Function! ok"@,
        Err(e) => "Updated MIDI Function! error: "@ + e@,
    }
}

/// A line that reports the outcome of the handler-update stage.
pub open spec fn is_update_line(s: Seq<char>) -> bool {
    s == "Updated MIDI Function! ok"@ || starts_with(s, "Updated MIDI Function! error: "@)
}

/// The report line for an event-handler invocation that raised an error.
pub open spec fn handler_error_line(e: Seq<char>) -> Seq<char> {
    "MIDI handler error: "@ + e
}

/// A line that reports a raised event-handler error.
pub open spec fn is_handler_error_line(s: Seq<char>) -> bool {
    starts_with(s, "MIDI handler error: "@)
}

/// Appending anything to a prefix leaves a sequence that starts with it.
proof fn lemma_concat_starts_with(p: Seq<char>, e: Seq<char>)
    ensures
        starts_with(p + e, p),
{
    assert((p + e).take(p.len() as int) =~= p);
}

/// Render the init-stage outcome as its report line.
fn init_line_of(r: &Result<VVal, String>) -> (s: String)
    ensures
        s@ == init_line(*r),
        is_init_line(s@),
{
    match r {
        Ok(_) => String::from_str("Initialized! ok"),
        Err(e) => {
            let mut s = String::from_str("Initialized! error: ");
            s.append(e.as_str());
            proof {
                lemma_concat_starts_with("Initialized! error: "@, e@);
            }
            s
        },
    }
}

/// Render the update-stage outcome as its report line.
fn update_line_of(r: &Result<VVal, String>) -> (s: String)
    ensures
        s@ == update_line(*r),
        is_update_line(s@),
{
    match r {
        Ok(_) => String::from_str("Updated MIDI Function! ok"),
        Err(e) => {
            let mut s = String::from_str("Updated MIDI Function! error: ");
            s.append(e.as_str());
            proof {
                lemma_concat_starts_with("Updated MIDI Function! error: "@, e@);
            }
            s
        },
    }
}

/// Render a raised handler error as its report line.
fn handler_error_line_of(e: &String) -> (s: String)
    ensures
        s@ == handler_error_line(e@),
        is_handler_error_line(s@),
{
    let mut s = String::from_str("MIDI handler error: ");
    s.append(e.as_str());
    proof {
        lemma_concat_starts_with("MIDI handler error: "@, e@);
    }
    s
}

/// The fixed prelude every generation evaluates at bootstrap: an empty event
/// handler, and the `update_midi_function` entry point through which a new
/// handler is installed — the indirection that makes the swap atomic from
/// the interpreter's point of view.
pub open spec fn prelude_text() -> Seq<char> {
    "!:global on_midi = {||}; !:global update_midi_function = {!(code) = @; !func = std:eval code; .on_midi = unwrap func; };"@
}

/// The prelude as source text.
pub fn prelude_source() -> (s: &'static str)
    ensures
        s@ == prelude_text(),
{
    "!:global on_midi = {||}; !:global update_midi_function = {!(code) = @; !func = std:eval code; .on_midi = unwrap func; };"
}

/// Bootstrap one worker generation: register the RPC entry points, bind the
/// host callables (`log`, `params`, `new_log_sender`), announce the start,
/// and evaluate the fixed prelude. Success leaves the generation `Ready`; a
/// prelude failure is reported and leaves it `Terminated`.
pub fn bootstrap_worker(
    ctx: &mut EvalContext,
    rpc: &RPCHandle,
    chan: &AValChannel,
    params: VVal,
) -> (st: WorkerState)
    ensures
        st == WorkerState::Ready || st == WorkerState::Terminated,
{
    rpc_register(rpc, "worker", ctx);
    bind_log(ctx, chan);
    bind_params(ctx, params);
    bind_new_log_sender(ctx, chan);
    let _ = ctx_eval(ctx, "log :STARTUP_WLAMBDA");
    let r = ctx_eval(ctx, prelude_source());
    match r {
        Ok(_) => after_bootstrap(true),
        Err(e) => {
            let mut line = String::from_str("Bootstrap error: ");
            line.append(e.as_str());
            send_report(chan, line.as_str());
            after_bootstrap(false)
        },
    }
}

/// Install a new event handler from source text through the prelude's
/// `update_midi_function` entry point, and report the outcome. `None` only
/// when the entry point itself is not bound (a generation whose bootstrap
/// never ran); otherwise the published report line.
fn run_handler_update(ctx: &mut EvalContext, chan: &AValChannel, code: &str) -> (r: Option<String>)
    ensures
        match r {
            Some(line) => is_update_line(line@),
            None => true,
        },
{
    let updater = ctx_get_global(ctx, "update_midi_function");
    match updater {
        Some(f) => {
            let res = ctx_call_str(ctx, &f, code);
            let line = update_line_of(&res);
            send_report(chan, line.as_str());
            Some(line)
        },
        None => None,
    }
}

/// Dispatch one task against the interpreter, publishing every produced
/// report line on the channel and returning the lines in publish order.
///
/// - A note event invokes the bound handler; a raised error becomes one
///   report line and is otherwise ignored — it never stops later tasks.
/// - A handler update produces exactly one line reporting its outcome.
/// - A reinitialization always runs and reports its two stages in order:
///   the init stage first, then the handler update — the update stage runs
///   even when the init stage failed.
pub fn dispatch_task(ctx: &mut EvalContext, chan: &AValChannel, task: M2WTask) -> (reports: Vec<
    String,
>)
    ensures
        match task {
            M2WTask::MIDI(_, _) => reports@.len() <= 1 && (reports@.len() == 1
                ==> is_handler_error_line(reports@[0]@)),
            M2WTask::UpdateCode(_) => reports@.len() <= 1 && (reports@.len() == 1
                ==> is_update_line(reports@[0]@)),
            M2WTask::InitCode(_, _) => 1 <= reports@.len() && reports@.len() <= 2 && is_init_line(
                reports@[0]@,
            ) && (reports@.len() == 2 ==> is_update_line(reports@[1]@)),
        },
{
    let mut reports: Vec<String> = Vec::new();
    match task {
        M2WTask::MIDI(x, o) => {
            let handler = ctx_get_global(ctx, "on_midi");
            match handler {
                Some(f) => {
                    let res = ctx_call_int_bool(ctx, &f, x, o);
                    match res {
                        Ok(_) => {},
                        Err(e) => {
                            let line = handler_error_line_of(&e);
                            send_report(chan, line.as_str());
                            reports.push(line);
                        },
                    }
                },
                None => {},
            }
        },
        M2WTask::UpdateCode(code) => {
            let r = run_handler_update(ctx, chan, code.as_str());
            match r {
                Some(line) => {
                    reports.push(line);
                },
                None => {},
            }
        },
        M2WTask::InitCode(init_code, program_code) => {
            let res = ctx_eval(ctx, init_code.as_str());
            let line = init_line_of(&res);
            send_report(chan, line.as_str());
            reports.push(line);
            let r = run_handler_update(ctx, chan, program_code.as_str());
            match r {
                Some(line2) => {
                    reports.push(line2);
                },
                None => {},
            }
        },
    }
    reports
}

/// One wake of a ready worker: drain the real-time event queue first, then
/// the control queue, dispatching every popped task, until both are empty.
/// The count of dispatched tasks comes back. Whatever the interpreter does
/// with each task — succeed, fail, raise — every queued task is dispatched.
pub fn drain_and_dispatch(ctx: &mut EvalContext, chan: &AValChannel, b: &mut TaskBridge) -> (n:
    usize)
    requires
        old(b).wf(),
    ensures
        final(b).wf(),
        final(b).generation() == old(b).generation(),
        final(b).events().len() == 0,
        final(b).controls().len() == 0,
        n as nat == old(b).events().len() + old(b).controls().len(),
{
    let mut n: usize = 0;
    loop
        invariant
            b.wf(),
            b.generation() == old(b).generation(),
            n as nat + b.events().len() + b.controls().len() == old(b).events().len()
                + old(b).controls().len(),
            old(b).events().len() + old(b).controls().len() <= 2 * QUEUE_CAPACITY,
        ensures
            b.wf(),
            b.generation() == old(b).generation(),
            b.events().len() == 0,
            b.controls().len() == 0,
        decreases b.events().len() + b.controls().len(),
    {
        let t = b.pop_task();
        match t {
            Some(task) => {
                let _reports = dispatch_task(ctx, chan, task);
                n = n + 1;
            },
            None => {
                break ;
            },
        }
    }
    n
}

} // verus!
