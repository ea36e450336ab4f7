use libwinit::control_flow::{next_control_flow, LoopControl, RUN_RETURN_WAIT_MILLIS};
use libwinit::events::{NativeEvent, NativeWindowEvent, WinitEvent, WinitEventType};
use libwinit::polling_event_loop::{LoopAction, PollingEventLoop};
use libwinit::waker::WinitEventLoopWaker;
use libwinit::window_ref::{NativeWindow, PhysicalPosition, PhysicalSize, WindowRef};
use libwinit::{WinitControlFlow, WinitError, WinitUserEvent};

#[derive(Debug, Clone, PartialEq)]
struct FakeWindow {
    title: String,
}

type Loop = PollingEventLoop<FakeWindow, &'static str, &'static str>;

fn native(id: u128, title: &str, width: u32, height: u32) -> NativeWindow<FakeWindow> {
    NativeWindow {
        window: FakeWindow { title: title.to_string() },
        id,
        scale_factor: 1.0f64.to_bits(),
        inner_size: PhysicalSize { width, height },
        outer_position: Some(PhysicalPosition { x: 10, y: 20 }),
    }
}

fn open_window(event_loop: &mut Loop, id: u128, title: &str, width: u32, height: u32) -> WindowRef {
    event_loop.begin_dispatch();
    let window = native(id, title, width, height);
    let created = event_loop.create_window(move || Ok(window));
    event_loop.end_dispatch();
    created.unwrap()
}

fn resized(id: u128, width: u32, height: u32) -> NativeEvent {
    NativeEvent::WindowEvent { window_id: id, event: NativeWindowEvent::Resized { width, height } }
}

fn event_with_type(event_type: WinitEventType) -> WinitEvent {
    WinitEvent { event_type, ..WinitEvent::default() }
}

#[test]
fn queue_is_fifo() {
    let mut event_loop = Loop::new();
    let e1 = WinitEvent { window_id: 1, ..event_with_type(WinitEventType::WindowEventFocused) };
    let e2 = WinitEvent { window_id: 2, ..event_with_type(WinitEventType::WindowEventMoved) };
    let e3 = WinitEvent { window_id: 3, ..event_with_type(WinitEventType::UserEvent) };
    event_loop.push(e1);
    event_loop.push(e2);
    event_loop.push(e3);
    assert_eq!(event_loop.poll(), Some(e1));
    assert_eq!(event_loop.poll(), Some(e2));
    assert_eq!(event_loop.poll(), Some(e3));
    assert_eq!(event_loop.poll(), None);
}

#[test]
fn create_window_requires_running_loop() {
    let mut event_loop = Loop::new();
    let result = event_loop.create_window(|| Ok(native(1, "T", 800, 600)));
    assert_eq!(result, Err(WinitError::EventLoopNotRunning));
    assert_eq!(event_loop.with_window(1, |_| Ok(())), Err(WinitError::WindowNotFound(1)));
}

#[test]
fn create_window_reports_platform_error() {
    let mut event_loop = Loop::new();
    event_loop.begin_dispatch();
    let result = event_loop.create_window(|| Err(WinitError::Winit));
    assert_eq!(result, Err(WinitError::Winit));
    assert_eq!(event_loop.window_ref(1), Err(WinitError::WindowNotFound(1)));
}

#[test]
fn created_window_mirror_starts_from_native_state() {
    let mut event_loop = Loop::new();
    let window_ref = open_window(&mut event_loop, 42, "T", 800, 600);
    assert_eq!(window_ref.id(), 42);
    assert_eq!(window_ref.inner_size(), PhysicalSize { width: 800, height: 600 });
    assert_eq!(window_ref.outer_position(), PhysicalPosition { x: 10, y: 20 });
    assert_eq!(f64::from_bits(window_ref.scale_factor()), 1.0);
    assert_eq!(event_loop.window_ref(42), Ok(window_ref));
    let title = event_loop.with_window(42, |w| Ok(w.title.clone()));
    assert_eq!(title, Ok("T".to_string()));
}

#[test]
fn window_without_position_mirrors_origin() {
    let mut event_loop = Loop::new();
    event_loop.begin_dispatch();
    let mut window = native(5, "P", 1, 1);
    window.outer_position = None;
    let window_ref = event_loop.create_window(move || Ok(window)).unwrap();
    assert_eq!(window_ref.outer_position(), PhysicalPosition { x: 0, y: 0 });
}

#[test]
fn destroyed_window_is_gone_and_listeners_dropped() {
    let mut event_loop = Loop::new();
    open_window(&mut event_loop, 7, "T", 100, 100);
    event_loop.add_redraw_listener(7, "redraw");
    event_loop.add_resize_listener(7, "resize");
    assert_eq!(event_loop.count_redraw_listeners(), 1);
    assert_eq!(event_loop.count_resize_listeners(), 1);

    assert_eq!(event_loop.destroy_window(7), Ok(()));
    assert_eq!(event_loop.with_window(7, |_| Ok(())), Err(WinitError::WindowNotFound(7)));
    assert_eq!(event_loop.count_redraw_listeners(), 0);
    assert_eq!(event_loop.count_resize_listeners(), 0);

    let actions = event_loop.process_event(NativeEvent::RedrawRequested(7));
    assert!(actions.is_empty());
    let actions = event_loop.process_event(resized(7, 50, 50));
    assert_eq!(actions, vec![LoopAction::SignalSemaphore]);
    assert_eq!(event_loop.destroy_window(7), Err(WinitError::WindowNotFound(7)));
}

#[test]
fn listeners_replace_and_remove_idempotently() {
    let mut event_loop = Loop::new();
    event_loop.add_redraw_listener(1, "first");
    event_loop.add_redraw_listener(1, "second");
    assert_eq!(event_loop.count_redraw_listeners(), 1);
    assert_eq!(event_loop.redraw_listener(1), Some(&"second"));
    assert_eq!(event_loop.remove_redraw_listener(1), Some("second"));
    assert_eq!(event_loop.remove_redraw_listener(1), None);
    event_loop.add_resize_listener(2, "a");
    event_loop.add_resize_listener(3, "b");
    assert_eq!(event_loop.count_resize_listeners(), 2);
    assert_eq!(event_loop.resize_listener(3), Some(&"b"));
    assert_eq!(event_loop.remove_resize_listener(2), Some("a"));
    assert_eq!(event_loop.remove_resize_listener(2), None);
    assert_eq!(event_loop.count_resize_listeners(), 1);
}

#[test]
fn resize_updates_mirror_notifies_and_requests_redraw() {
    let mut event_loop = Loop::new();
    let created = open_window(&mut event_loop, 9, "T", 800, 600);
    assert_eq!(created.inner_size(), PhysicalSize { width: 800, height: 600 });
    event_loop.add_resize_listener(9, "resize");
    event_loop.add_redraw_listener(9, "redraw");

    let actions = event_loop.process_event(resized(9, 1024, 768));
    assert_eq!(
        actions,
        vec![
            LoopAction::NotifyResizeListener { window_id: 9, width: 1024, height: 768 },
            LoopAction::RequestRedraw { window_id: 9 },
            LoopAction::SignalSemaphore,
        ]
    );
    let mirror = event_loop.window_ref(9).unwrap();
    assert_eq!(mirror.inner_size(), PhysicalSize { width: 1024, height: 768 });

    let queued = event_loop.poll().unwrap();
    assert_eq!(queued.event_type, WinitEventType::WindowEventResized);
    assert_eq!((queued.window_resized.width, queued.window_resized.height), (1024, 768));

    let actions = event_loop.process_event(NativeEvent::RedrawRequested(9));
    assert_eq!(actions, vec![LoopAction::NotifyRedrawListener { window_id: 9 }]);
    assert_eq!(event_loop.poll(), None);
}

#[test]
fn scale_change_updates_scale_and_size() {
    let mut event_loop = Loop::new();
    open_window(&mut event_loop, 3, "S", 100, 100);
    let event = NativeEvent::WindowEvent {
        window_id: 3,
        event: NativeWindowEvent::ScaleFactorChanged { scale_factor: 2.0f64.to_bits(), width: 200, height: 200 },
    };
    let actions = event_loop.process_event(event);
    assert_eq!(actions, vec![LoopAction::RequestRedraw { window_id: 3 }, LoopAction::SignalSemaphore]);
    let mirror = event_loop.window_ref(3).unwrap();
    assert_eq!(f64::from_bits(mirror.scale_factor()), 2.0);
    assert_eq!(mirror.inner_size(), PhysicalSize { width: 200, height: 200 });
    assert_eq!(mirror.outer_position(), PhysicalPosition { x: 10, y: 20 });
}

#[test]
fn bookkeeping_events_signal_batches_but_are_not_queued() {
    let mut event_loop = Loop::new();
    assert!(event_loop.process_event(NativeEvent::NewEvents).is_empty());
    assert_eq!(
        event_loop.process_event(NativeEvent::MainEventsCleared),
        vec![LoopAction::SignalMainEventsCleared]
    );
    assert_eq!(
        event_loop.process_event(NativeEvent::RedrawEventsCleared),
        vec![LoopAction::SignalMainEventsCleared]
    );
    assert!(event_loop.process_event(NativeEvent::RedrawRequested(1)).is_empty());
    assert!(event_loop.process_event(NativeEvent::DeviceEvent).is_empty());
    assert_eq!(event_loop.poll(), None);
}

#[test]
fn user_events_are_queued_and_signalled() {
    let mut event_loop = Loop::new();
    let actions = event_loop.process_event(NativeEvent::UserEvent(WinitUserEvent::WakeUp));
    assert_eq!(actions, vec![LoopAction::SignalSemaphore]);
    let queued = event_loop.poll().unwrap();
    assert_eq!(queued.event_type, WinitEventType::UserEvent);
    assert_eq!(queued.user_event.event, WinitUserEvent::WakeUp);
}

#[test]
fn ime_commit_queues_one_character_each() {
    let mut event_loop = Loop::new();
    let event = NativeEvent::WindowEvent {
        window_id: 4,
        event: NativeWindowEvent::ImeCommit(vec!['a', 'é']),
    };
    let actions = event_loop.process_event(event);
    assert_eq!(actions, vec![LoopAction::SignalSemaphore, LoopAction::SignalSemaphore]);
    let first = event_loop.poll().unwrap();
    assert_eq!(first.event_type, WinitEventType::WindowEventReceivedCharacter);
    assert_eq!(first.window_id, 4);
    assert_eq!((first.received_character.length, first.received_character.byte_1), (1, b'a'));
    let second = event_loop.poll().unwrap();
    assert_eq!(second.received_character.length, 2);
    assert_eq!((second.received_character.byte_1, second.received_character.byte_2), (0xC3, 0xA9));
    assert_eq!(event_loop.poll(), None);
}

#[test]
fn with_window_mut_updates_mirror() {
    let mut event_loop = Loop::new();
    open_window(&mut event_loop, 11, "M", 10, 10);
    let result = event_loop.with_window_mut(11, |window, mut mirror| {
        mirror.set_inner_size(PhysicalSize { width: 30, height: 40 });
        mirror.set_outer_position(PhysicalPosition { x: -1, y: -2 });
        Ok((mirror, window.title.len()))
    });
    assert_eq!(result, Ok(1));
    let mirror = event_loop.window_ref(11).unwrap();
    assert_eq!(mirror.inner_size(), PhysicalSize { width: 30, height: 40 });
    assert_eq!(mirror.outer_position(), PhysicalPosition { x: -1, y: -2 });
    let failed: Result<(), WinitError> =
        event_loop.with_window_mut(11, |_, _| Err(WinitError::PoisonError));
    assert_eq!(failed, Err(WinitError::PoisonError));
    assert_eq!(event_loop.window_ref(11), Ok(mirror));
    let missing: Result<(), WinitError> = event_loop.with_window_mut(12, |_, m| Ok((m, ())));
    assert_eq!(missing, Err(WinitError::WindowNotFound(12)));
}

#[test]
fn end_to_end_resize_scenario() {
    let mut event_loop = Loop::new();
    event_loop.begin_dispatch();
    let created = event_loop
        .create_window(|| Ok(native(100, "T", 800, 600)))
        .unwrap();
    event_loop.end_dispatch();
    assert_eq!(event_loop.window_ref(100).unwrap().inner_size(), PhysicalSize { width: 800, height: 600 });
    assert_eq!(created.inner_size(), PhysicalSize { width: 800, height: 600 });
    event_loop.add_resize_listener(100, "listener");

    let actions = event_loop.process_event(resized(100, 1024, 768));
    assert_eq!(event_loop.window_ref(100).unwrap().inner_size(), PhysicalSize { width: 1024, height: 768 });
    let notified = actions.iter().position(|a| {
        *a == LoopAction::NotifyResizeListener { window_id: 100, width: 1024, height: 768 }
    });
    let redraw = actions.iter().position(|a| *a == LoopAction::RequestRedraw { window_id: 100 });
    assert!(notified.is_some());
    assert!(redraw.is_some());
    assert!(notified < redraw);
    let queued = event_loop.poll().unwrap();
    assert_eq!(queued.event_type, WinitEventType::WindowEventResized);
    assert_eq!(queued.window_id, 100);
    assert_eq!((queued.window_resized.width, queued.window_resized.height), (1024, 768));

    // The native loop answers the redraw request after the resize.
    event_loop.add_redraw_listener(100, "redraw");
    let actions = event_loop.process_event(NativeEvent::RedrawRequested(100));
    assert_eq!(actions, vec![LoopAction::NotifyRedrawListener { window_id: 100 }]);
    assert_eq!(event_loop.window_ref(100).unwrap().inner_size(), PhysicalSize { width: 1024, height: 768 });
    assert_eq!(event_loop.poll(), None);
}

#[test]
fn wake_before_run_succeeds() {
    let mut waker: WinitEventLoopWaker<u32> = WinitEventLoopWaker::new();
    assert!(!waker.is_armed());
    let mut calls = 0;
    let result = waker.wake(WinitUserEvent::WakeUp, |_, _| {
        calls += 1;
        true
    });
    assert_eq!(result, Ok(()));
    assert_eq!(calls, 0);
}

#[test]
fn wake_sends_through_installed_proxy() {
    let mut waker: WinitEventLoopWaker<u32> = WinitEventLoopWaker::new();
    waker.proxy(5);
    assert!(waker.is_armed());
    let mut seen = None;
    let result = waker.wake(WinitUserEvent::WakeUp, |proxy, event| {
        seen = Some((*proxy, event));
        true
    });
    assert_eq!(result, Ok(()));
    assert_eq!(seen, Some((5, WinitUserEvent::WakeUp)));
}

#[test]
fn wake_on_closed_loop_fails() {
    let mut waker: WinitEventLoopWaker<u32> = WinitEventLoopWaker::new();
    waker.proxy(5);
    assert_eq!(waker.wake(WinitUserEvent::WakeUp, |_, _| false), Err(WinitError::EventLoopClosed));
    assert!(!waker.is_armed());
    assert_eq!(waker.wake(WinitUserEvent::WakeUp, |_, _| true), Err(WinitError::EventLoopClosed));
}

#[test]
fn control_flow_defaults_and_sticky_exit() {
    assert_eq!(next_control_flow(LoopControl::Wait, false, None), LoopControl::Wait);
    assert_eq!(next_control_flow(LoopControl::Wait, true, None), LoopControl::Poll);
    assert_eq!(
        next_control_flow(LoopControl::Poll, true, Some(WinitControlFlow::Wait)),
        LoopControl::WaitMillis(RUN_RETURN_WAIT_MILLIS)
    );
    assert_eq!(RUN_RETURN_WAIT_MILLIS, 50);
    assert_eq!(next_control_flow(LoopControl::Poll, false, Some(WinitControlFlow::Wait)), LoopControl::Wait);
    assert_eq!(next_control_flow(LoopControl::Wait, true, Some(WinitControlFlow::Poll)), LoopControl::Poll);
    assert_eq!(next_control_flow(LoopControl::Poll, true, Some(WinitControlFlow::Exit)), LoopControl::Exit);
    assert_eq!(next_control_flow(LoopControl::Exit, true, Some(WinitControlFlow::Poll)), LoopControl::Exit);
    assert_eq!(next_control_flow(LoopControl::Exit, false, None), LoopControl::Exit);
}
