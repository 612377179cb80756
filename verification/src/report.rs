//! The asynchronous log/report channel.
//!
//! The worker (and any script code that asks for a forked sender) writes
//! text reports into a `wlambda` value channel; a UI poller drains it once
//! per redraw. The channel is multi-writer and shared: script code can mint
//! new senders bound to the same reader at any time. No claim is therefore
//! made here about its contents — both ends are non-blocking, and what a
//! receive observes depends on every sender that shares the channel.

use vstd::prelude::*;
use wlambda::threads::AValChannel;

verus! {

#[verifier::external_type_specification]
#[verifier::external_body]
pub struct ExAValChannel(AValChannel);

/// Relies on `wlambda::threads::AValChannel::new_vval`: it returns a fresh
/// channel (as a script value wrapping the channel itself), whose senders
/// never block and whose receiving end returns at once when empty.
#[verifier::external_body]
fn channel_new_raw() -> (c: AValChannel)
{
    let mut v = AValChannel::new_vval();
    let c = v.with_usr_ref(|c: &mut AValChannel| c.clone());
    c.unwrap()
}

/// Relies on `wlambda::threads::AValChannel::send`: it enqueues the value
/// for the single reader and returns at once, never blocking the caller.
#[verifier::external_body]
fn channel_send_str_raw(chan: &AValChannel, msg: &str)
{
    chan.send(&wlambda::VVal::new_str(msg));
}

/// Relies on `wlambda::threads::AValChannel::try_recv`: it returns the next
/// queued value or an empty marker at once, never blocking the caller. A
/// non-text value is handed on as its raw text form.
#[verifier::external_body]
fn channel_try_recv_raw(chan: &AValChannel) -> (r: Option<String>)
{
    let v = chan.try_recv();
    if v.is_some() {
        Some(v.unwrap_opt().s_raw())
    } else {
        None
    }
}

/// A fresh report channel.
pub fn new_report_channel() -> (c: AValChannel) {
    channel_new_raw()
}

/// Publish one report line; never blocks.
pub fn send_report(chan: &AValChannel, msg: &str) {
    channel_send_str_raw(chan, msg);
}

/// Poll for the next report line; `None` at once when nothing is queued.
pub fn try_recv_report(chan: &AValChannel) -> (r: Option<String>) {
    channel_try_recv_raw(chan)
}

/// How many lines the observer log keeps before evicting the oldest.
pub const LOG_KEEP: usize = 100;

/// Append one line to the observer's bounded log: when the log already holds
/// more than [`LOG_KEEP`] lines the oldest is evicted first, so the length
/// never grows past `LOG_KEEP + 1`.
pub fn append_log_line(log: &mut Vec<String>, line: String)
    ensures
        final(log)@ == if old(log)@.len() > LOG_KEEP {
            old(log)@.drop_first().push(line)
        } else {
            old(log)@.push(line)
        },
        old(log)@.len() <= LOG_KEEP + 1 ==> final(log)@.len() <= LOG_KEEP + 1,
{
    if log.len() > LOG_KEEP {
        let _ = log.remove(0);
        proof {
            assert(log@ =~= old(log)@.drop_first());
        }
    }
    log.push(line);
}

/// How many report lines one poll is willing to drain. One poll runs per UI
/// redraw, so a bounded budget keeps the work per frame fixed; more lines
/// than the log can even hold are left for the next frame.
pub const POLL_BUDGET: usize = 256;

/// Drain report lines into the observer log — until the channel reports
/// empty or the per-poll budget is spent — keeping the log within its bound.
pub fn poll_reports_into_log(chan: &AValChannel, log: &mut Vec<String>)
    ensures
        old(log)@.len() <= LOG_KEEP + 1 ==> final(log)@.len() <= LOG_KEEP + 1,
        final(log)@.len() >= 1 || final(log)@ == old(log)@,
{
    let mut budget: usize = POLL_BUDGET;
    loop
        invariant
            old(log)@.len() <= LOG_KEEP + 1 ==> log@.len() <= LOG_KEEP + 1,
            log@.len() >= 1 || log@ == old(log)@,
        decreases budget,
    {
        if budget == 0 {
            break ;
        }
        budget = budget - 1;
        let r = try_recv_report(chan);
        match r {
            Some(line) => {
                append_log_line(log, line);
            },
            None => {
                break ;
            },
        }
    }
}

} // verus!
