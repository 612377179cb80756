use midi_to_wlambda::bridge::TaskBridge;
use midi_to_wlambda::report::new_report_channel;
use midi_to_wlambda::report::try_recv_report;
use midi_to_wlambda::task::M2WTask;
use midi_to_wlambda::worker::after_bootstrap;
use midi_to_wlambda::worker::bootstrap_worker;
use midi_to_wlambda::worker::dispatch_task;
use midi_to_wlambda::worker::drain_and_dispatch;
use midi_to_wlambda::worker::on_drained;
use midi_to_wlambda::worker::on_stop_signal;
use midi_to_wlambda::worker::WorkerState;
use wlambda::rpc_helper::RPCHandle;
use wlambda::threads::AValChannel;
use wlambda::EvalContext;
use wlambda::VVal;

fn ready_worker() -> (EvalContext, AValChannel) {
    let mut ctx = EvalContext::new_default();
    let rpc = RPCHandle::new();
    let chan = new_report_channel();
    let st = bootstrap_worker(&mut ctx, &rpc, &chan, VVal::None);
    assert_eq!(st, WorkerState::Ready);
    assert_eq!(try_recv_report(&chan), Some(String::from("STARTUP_WLAMBDA")));
    (ctx, chan)
}

#[test]
fn bootstrap_reaches_ready_and_announces_itself() {
    let (_ctx, chan) = ready_worker();
    assert_eq!(try_recv_report(&chan), None);
}

#[test]
fn update_then_event_reports_hit_once() {
    let (mut ctx, chan) = ready_worker();

    let reports = dispatch_task(
        &mut ctx,
        &chan,
        M2WTask::UpdateCode(String::from("{!(note, is_on) = @; log :hit }")),
    );
    assert_eq!(reports.len(), 1);
    assert!(reports[0].starts_with("Updated MIDI Function!"));
    assert_eq!(try_recv_report(&chan), Some(reports[0].clone()));

    let reports = dispatch_task(&mut ctx, &chan, M2WTask::MIDI(5, true));
    // A successful handler invocation publishes nothing of its own...
    assert_eq!(reports.len(), 0);
    // ...the single "hit" comes from the script, and nothing else follows.
    assert_eq!(try_recv_report(&chan), Some(String::from("hit")));
    assert_eq!(try_recv_report(&chan), None);
}

#[test]
fn reinitialize_reports_both_stages_in_order() {
    let (mut ctx, chan) = ready_worker();

    let reports = dispatch_task(
        &mut ctx,
        &chan,
        M2WTask::InitCode(
            String::from("log :a"),
            String::from("log :b; {!(note, is_on) = @; }"),
        ),
    );
    assert_eq!(reports.len(), 2);
    assert!(reports[0].starts_with("Initialized!"));
    assert!(reports[1].starts_with("Updated MIDI Function!"));

    // The channel interleaves the script's own lines with the stage
    // reports, in evaluation order.
    assert_eq!(try_recv_report(&chan), Some(String::from("a")));
    assert_eq!(try_recv_report(&chan), Some(reports[0].clone()));
    assert_eq!(try_recv_report(&chan), Some(String::from("b")));
    assert_eq!(try_recv_report(&chan), Some(reports[1].clone()));
    assert_eq!(try_recv_report(&chan), None);
}

#[test]
fn failing_init_still_runs_the_update_stage() {
    let (mut ctx, chan) = ready_worker();

    let reports = dispatch_task(
        &mut ctx,
        &chan,
        M2WTask::InitCode(
            String::from("this is not ( valid"),
            String::from("{!(note, is_on) = @; log :still }"),
        ),
    );
    assert_eq!(reports.len(), 2);
    assert!(reports[0].starts_with("Initialized! error:"));
    assert!(reports[1].starts_with("Updated MIDI Function!"));

    // The handler installed by the second stage works.
    let _ = dispatch_task(&mut ctx, &chan, M2WTask::MIDI(1, true));
    assert_eq!(try_recv_report(&chan), Some(reports[0].clone()));
    assert_eq!(try_recv_report(&chan), Some(reports[1].clone()));
    assert_eq!(try_recv_report(&chan), Some(String::from("still")));
}

#[test]
fn handler_error_does_not_stop_later_events() {
    let (mut ctx, chan) = ready_worker();
    let (mut b, h) = TaskBridge::new();

    assert!(b.push_control(
        &h,
        M2WTask::UpdateCode(String::from("{!(note, is_on) = @; panic :boom }"))
    ));
    let n = drain_and_dispatch(&mut ctx, &chan, &mut b);
    assert_eq!(n, 1);
    let update1 = try_recv_report(&chan).unwrap();
    assert!(update1.starts_with("Updated MIDI Function!"));

    // First event raises; the worker reports it and keeps going. The
    // second task, queued behind it, installs a quiet handler; the third
    // event then logs normally.
    assert!(b.push_event(&h, M2WTask::MIDI(1, true)));
    assert!(b.push_control(
        &h,
        M2WTask::UpdateCode(String::from("{!(note, is_on) = @; log :after }"))
    ));
    let n = drain_and_dispatch(&mut ctx, &chan, &mut b);
    assert_eq!(n, 2);
    assert!(b.push_event(&h, M2WTask::MIDI(2, true)));
    let n = drain_and_dispatch(&mut ctx, &chan, &mut b);
    assert_eq!(n, 1);

    let err_line = try_recv_report(&chan).unwrap();
    assert!(err_line.starts_with("MIDI handler error:"));
    let update2 = try_recv_report(&chan).unwrap();
    assert!(update2.starts_with("Updated MIDI Function!"));
    assert_eq!(try_recv_report(&chan), Some(String::from("after")));
    assert_eq!(try_recv_report(&chan), None);
}

#[test]
fn bad_update_code_reports_an_error() {
    let (mut ctx, chan) = ready_worker();
    let reports = dispatch_task(
        &mut ctx,
        &chan,
        M2WTask::UpdateCode(String::from("this is not ( valid")),
    );
    assert_eq!(reports.len(), 1);
    assert!(reports[0].starts_with("Updated MIDI Function! error:"));
    assert_eq!(try_recv_report(&chan), Some(reports[0].clone()));
}

#[test]
fn state_machine_transitions() {
    assert_eq!(after_bootstrap(true), WorkerState::Ready);
    assert_eq!(after_bootstrap(false), WorkerState::Terminated);
    assert_eq!(on_stop_signal(WorkerState::Ready), WorkerState::Draining);
    assert_eq!(on_stop_signal(WorkerState::Draining), WorkerState::Draining);
    assert_eq!(on_stop_signal(WorkerState::Terminated), WorkerState::Terminated);
    assert_eq!(on_stop_signal(WorkerState::Bootstrapping), WorkerState::Bootstrapping);
    assert_eq!(on_drained(WorkerState::Draining), WorkerState::Terminated);
    assert_eq!(on_drained(WorkerState::Ready), WorkerState::Ready);
}

#[test]
fn scripts_can_fork_their_own_sender() {
    let (mut ctx, chan) = ready_worker();
    // A handler that mints its own sender and reports through it: the
    // forked sender still converges on the one reader.
    let reports = dispatch_task(
        &mut ctx,
        &chan,
        M2WTask::UpdateCode(String::from(
            "{!(note, is_on) = @; !s = new_log_sender[]; s.send[:forked] }",
        )),
    );
    assert_eq!(reports.len(), 1);
    assert!(reports[0].starts_with("Updated MIDI Function!"));
    let _ = dispatch_task(&mut ctx, &chan, M2WTask::MIDI(3, false));
    assert_eq!(try_recv_report(&chan), Some(reports[0].clone()));
    assert_eq!(try_recv_report(&chan), Some(String::from("forked")));
}
