use midi_to_wlambda::report::append_log_line;
use midi_to_wlambda::report::new_report_channel;
use midi_to_wlambda::report::poll_reports_into_log;
use midi_to_wlambda::report::send_report;
use midi_to_wlambda::report::try_recv_report;

#[test]
fn send_then_try_recv_in_order() {
    let chan = new_report_channel();
    send_report(&chan, "one");
    send_report(&chan, "two");
    assert_eq!(try_recv_report(&chan), Some(String::from("one")));
    assert_eq!(try_recv_report(&chan), Some(String::from("two")));
    assert_eq!(try_recv_report(&chan), None);
}

#[test]
fn forked_senders_share_the_reader() {
    let chan = new_report_channel();
    let clone = chan.clone();
    send_report(&clone, "from-clone");
    assert_eq!(try_recv_report(&chan), Some(String::from("from-clone")));
}

#[test]
fn log_append_evicts_past_the_cap() {
    let mut log: Vec<String> = Vec::new();
    for i in 0..150 {
        append_log_line(&mut log, format!("line {}", i));
        assert!(log.len() <= 101);
    }
    assert_eq!(log.len(), 101);
    assert_eq!(log[0], "line 49");
    assert_eq!(log[100], "line 149");
}

#[test]
fn poll_moves_reports_into_the_log() {
    let chan = new_report_channel();
    let mut log: Vec<String> = Vec::new();
    send_report(&chan, "a");
    send_report(&chan, "b");
    poll_reports_into_log(&chan, &mut log);
    assert_eq!(log, vec![String::from("a"), String::from("b")]);
    assert_eq!(try_recv_report(&chan), None);
}
