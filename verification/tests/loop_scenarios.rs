use pb_devtools::dispatch::{drive_loop, initial_state, run_script, step};
use pb_devtools::queue::MsgQueue;
use pb_devtools::event::{Event, Key};
use pb_devtools::msg::Msg;
use pb_devtools::page::Page;

#[test]
fn init_key_right_show_scenario() {
    let msgs = vec![
        Msg::InkviewEvent(Event::Init),
        Msg::InkviewEvent(Event::KeyDown { key: Key::Right }),
        Msg::InkviewEvent(Event::Show),
    ];
    let ok = vec![true, true, true];
    let t = run_script(&msgs, &ok);
    assert_eq!(t.surface_constructions, 1);
    assert_eq!(t.daemon_starts, 1);
    assert_eq!(t.state.display.page, Page::Status);
    // every one of the three messages asks for a render and the surface
    // exists from the first message on
    assert_eq!(t.renders, 3);
    assert_eq!(t.processed, 3);
    assert!(!t.exited_by_message);
    assert_eq!(t.close_app_calls, 1);
}

#[test]
fn init_and_show_render_while_key_navigates() {
    let mut st = initial_state();
    let e_init = step(&mut st, Msg::InkviewEvent(Event::Init), true);
    assert!(e_init.rendered);
    assert!(e_init.surface_constructed);
    let e_key = step(&mut st, Msg::InkviewEvent(Event::KeyDown { key: Key::Right }), true);
    assert_eq!(st.display.page, Page::Status);
    assert!(e_key.rendered);
    let e_show = step(&mut st, Msg::InkviewEvent(Event::Show), true);
    assert!(e_show.rendered);
    assert_eq!(st.display.page, Page::Status);
}

#[test]
fn two_inits_construct_surface_once() {
    let mut st = initial_state();
    let first = step(&mut st, Msg::InkviewEvent(Event::Init), true);
    assert!(first.surface_constructed);
    assert!(!first.duplicate_init_logged);
    assert!(first.daemon_start);
    let second = step(&mut st, Msg::InkviewEvent(Event::Init), true);
    assert!(!second.surface_constructed);
    assert!(second.duplicate_init_logged);
    assert!(!second.daemon_start);

    let msgs = vec![Msg::InkviewEvent(Event::Init), Msg::InkviewEvent(Event::Init)];
    let t = run_script(&msgs, &vec![true, true]);
    assert_eq!(t.surface_constructions, 1);
    assert_eq!(t.daemon_starts, 1);
}

#[test]
fn render_before_surface_init_is_noop() {
    let mut st = initial_state();
    let eff = step(&mut st, Msg::InkviewEvent(Event::Show), true);
    assert!(!eff.rendered);
    assert!(eff.render_skipped_logged);
    assert!(!eff.quit);
    assert_eq!(st, initial_state());

    let t = run_script(&vec![Msg::InkviewEvent(Event::Repaint)], &vec![true]);
    assert_eq!(t.renders, 0);
    assert_eq!(t.processed, 1);
}

#[test]
fn navigation_works_without_surface() {
    let mut st = initial_state();
    let eff = step(&mut st, Msg::InkviewEvent(Event::KeyDown { key: Key::Next }), true);
    assert_eq!(st.display.page, Page::Status);
    assert!(!eff.rendered);
    assert!(eff.render_skipped_logged);
}

#[test]
fn quit_message_stops_loop_with_one_shutdown() {
    let msgs = vec![
        Msg::InkviewEvent(Event::KeyDown { key: Key::Right }),
        Msg::Quit,
        Msg::InkviewEvent(Event::KeyDown { key: Key::Left }),
    ];
    let t = run_script(&msgs, &vec![true, true, true]);
    assert_eq!(t.processed, 2);
    assert!(t.exited_by_message);
    assert_eq!(t.close_app_calls, 1);
    // the message after the terminal one was never consumed
    assert_eq!(t.state.display.page, Page::Status);
}

#[test]
fn exit_event_stops_loop() {
    let msgs = vec![Msg::InkviewEvent(Event::Exit)];
    let t = run_script(&msgs, &vec![true]);
    assert_eq!(t.processed, 1);
    assert!(t.exited_by_message);
    assert_eq!(t.renders, 0);
    assert_eq!(t.close_app_calls, 1);
}

#[test]
fn queue_close_stops_loop_with_one_shutdown() {
    let msgs = vec![Msg::InkviewEvent(Event::Show)];
    let t = run_script(&msgs, &vec![true]);
    assert_eq!(t.processed, 1);
    assert!(!t.exited_by_message);
    assert_eq!(t.close_app_calls, 1);
}

#[test]
fn keepalive_failure_logs_and_loop_continues() {
    let msgs = vec![
        Msg::WifiKeepAlive,
        Msg::InkviewEvent(Event::KeyDown { key: Key::Right }),
    ];
    let t = run_script(&msgs, &vec![false, true]);
    assert_eq!(t.processed, 2);
    assert!(!t.exited_by_message);
    assert_eq!(t.state.display.page, Page::Status);

    let mut st = initial_state();
    let eff = step(&mut st, Msg::WifiKeepAlive, false);
    assert!(eff.keepalive_invoked);
    assert!(eff.keepalive_failure_logged);
    assert!(!eff.quit);
    let eff_ok = step(&mut st, Msg::WifiKeepAlive, true);
    assert!(eff_ok.keepalive_invoked);
    assert!(!eff_ok.keepalive_failure_logged);
}

#[test]
fn ignored_events_change_nothing() {
    let mut st = initial_state();
    let e1 = step(&mut st, Msg::InkviewEvent(Event::Other), true);
    let e2 = step(&mut st, Msg::InkviewEvent(Event::KeyDown { key: Key::Other }), true);
    assert_eq!(st, initial_state());
    assert!(!e1.rendered && !e1.render_skipped_logged && !e1.quit);
    assert!(!e2.rendered && !e2.render_skipped_logged && !e2.quit);
}

#[test]
fn drive_loop_consumes_the_queue_in_send_order() {
    let mut q = MsgQueue::new();
    q.send(Msg::InkviewEvent(Event::Init));
    q.send(Msg::InkviewEvent(Event::KeyDown { key: Key::Right }));
    q.send(Msg::Quit);
    let t = drive_loop(&mut q, &vec![true, true, true]);
    assert_eq!(t.processed, 3);
    assert_eq!(t.state.display.page, Page::Status);
    assert_eq!(t.surface_constructions, 1);
    assert!(t.exited_by_message);
    assert_eq!(t.close_app_calls, 1);
    assert_eq!(q.len(), 0);
}

#[test]
fn print_status_message_prints_without_render() {
    let mut st = initial_state();
    let eff = step(&mut st, Msg::PrintStatus, true);
    assert!(eff.status_print);
    assert!(!eff.rendered);
    assert!(!eff.quit);
    assert_eq!(st, initial_state());
}
