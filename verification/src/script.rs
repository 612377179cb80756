//! The boundary with the embedded WLambda interpreter.
//!
//! The interpreter is an external collaborator: the worker only ever asks it
//! to evaluate source text, look up a global, call a callable with plain
//! arguments, and install host-provided bindings. Every one of those
//! operations may fail or succeed depending on interpreter-internal state,
//! so nothing is promised about their results; the worker's own logic is
//! verified for every outcome they can produce.

use vstd::prelude::*;
use wlambda::EvalContext;
use wlambda::VVal;
use wlambda::rpc_helper::RPCHandle;
use wlambda::threads::AValChannel;

verus! {

#[verifier::external_type_specification]
#[verifier::external_body]
pub struct ExEvalContext(EvalContext);

#[verifier::external_type_specification]
#[verifier::external_body]
pub struct ExVVal(VVal);

#[verifier::external_type_specification]
#[verifier::external_body]
pub struct ExRPCHandle(RPCHandle);

/// Relies on `wlambda::EvalContext::eval`: it parses and evaluates the
/// source text against the context's current state and returns the resulting
/// value, or the failure rendered as text.
#[verifier::external_body]
pub(crate) fn ctx_eval(ctx: &mut EvalContext, code: &str) -> (r: Result<VVal, String>)
{
    ctx.eval(code).map_err(|e| format!("{}", e))
}

/// Relies on `wlambda::EvalContext::get_global_var`: it returns the value of
/// the named global variable, or `None` when no such global is bound.
#[verifier::external_body]
pub(crate) fn ctx_get_global(ctx: &mut EvalContext, name: &str) -> (r: Option<VVal>)
{
    ctx.get_global_var(name)
}

/// Relies on `wlambda::EvalContext::call`: it invokes the callable with an
/// integer and a boolean argument and returns its result, or the raised
/// failure rendered as text.
#[verifier::external_body]
pub(crate) fn ctx_call_int_bool(ctx: &mut EvalContext, f: &VVal, x: i64, o: bool) -> (r: Result<
    VVal,
    String,
>)
{
    ctx.call(f, &[VVal::Int(x), VVal::Bol(o)]).map_err(|e| format!("{:?}", e))
}

/// Relies on `wlambda::EvalContext::call`: it invokes the callable with one
/// text argument and returns its result, or the raised failure rendered as
/// text.
#[verifier::external_body]
pub(crate) fn ctx_call_str(ctx: &mut EvalContext, f: &VVal, s: &str) -> (r: Result<VVal, String>)
{
    ctx.call(f, &[VVal::new_str(s)]).map_err(|e| format!("{:?}", e))
}

/// Relies on `wlambda::EvalContext::set_global_var` and
/// `wlambda::vval::VValFun::new_fun`: it binds the global `log` to a host
/// callable that forwards its single argument to the report channel through
/// `AValChannel::send`.
#[verifier::external_body]
pub(crate) fn bind_log(ctx: &mut EvalContext, chan: &AValChannel)
{
    let c = chan.clone();
    ctx.set_global_var(
        "log",
        &wlambda::vval::VValFun::new_fun(
            move |env: &mut wlambda::vval::Env, _argc: usize| {
                c.send(&env.arg(0));
                Ok(VVal::None)
            },
            Some(1),
            Some(1),
            false,
        ),
    );
}

/// Relies on `wlambda::EvalContext::set_global_var` and
/// `wlambda::vval::VValFun::new_fun`: it binds the global `new_log_sender`
/// to a host callable that mints a fresh sender for the same report channel
/// through `AValChannel::fork_sender`.
#[verifier::external_body]
pub(crate) fn bind_new_log_sender(ctx: &mut EvalContext, chan: &AValChannel)
{
    let c = chan.clone();
    ctx.set_global_var(
        "new_log_sender",
        &wlambda::vval::VValFun::new_fun(
            move |_env: &mut wlambda::vval::Env, _argc: usize| Ok(c.fork_sender()),
            Some(0),
            Some(0),
            false,
        ),
    );
}

/// Relies on `wlambda::EvalContext::set_global_var`: it binds the global
/// `params` to the given value (the host's parameter-mirror object).
#[verifier::external_body]
pub(crate) fn bind_params(ctx: &mut EvalContext, v: VVal)
{
    ctx.set_global_var("params", &v);
}

/// Relies on `wlambda::rpc_helper::RPCHandle::register_global_functions`:
/// it installs the handle's RPC entry points under the given prefix into the
/// context's global scope.
#[verifier::external_body]
pub(crate) fn rpc_register(rpc: &RPCHandle, prefix: &str, ctx: &mut EvalContext)
{
    rpc.register_global_functions(prefix, ctx);
}

} // verus!
