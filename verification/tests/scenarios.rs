use button_leds::controller::{Led, LedCommand, LedController};
use button_leds::monitor::ButtonMonitor;
use button_leds::{ButtonEvent, EventQueue};

/// One sampling round of a monitor: a reported press goes into the queue.
fn poll(monitor: &mut ButtonMonitor, high: bool, queue: &mut EventQueue) {
    if let Some(event) = monitor.sample(high) {
        assert_eq!(queue.try_enqueue(event), Ok(()));
    }
}

/// The controller takes every waiting event and applies it.
fn drain(queue: &mut EventQueue, controller: &mut LedController) -> Vec<LedCommand> {
    let mut commands = Vec::new();
    while let Some(event) = queue.try_dequeue() {
        commands.push(controller.apply(event));
    }
    commands
}

#[test]
fn one_button_pressed_twice_toggles_its_led_off_and_on() {
    let mut button = ButtonMonitor::new(ButtonEvent::Button3Pressed);
    let mut queue = EventQueue::new();
    let mut controller = LedController::new();

    poll(&mut button, false, &mut queue);
    assert_eq!(queue.len(), 0);
    poll(&mut button, true, &mut queue);
    assert_eq!(queue.len(), 1);
    assert_eq!(
        drain(&mut queue, &mut controller),
        vec![LedCommand { led: Led::Led3, on: false }]
    );
    assert!(!controller.is_on(Led::Led3));
    assert_eq!(queue.len(), 0);

    poll(&mut button, true, &mut queue);
    assert_eq!(queue.len(), 0);
    poll(&mut button, false, &mut queue);
    assert_eq!(queue.len(), 0);

    poll(&mut button, true, &mut queue);
    assert_eq!(queue.len(), 1);
    assert_eq!(
        drain(&mut queue, &mut controller),
        vec![LedCommand { led: Led::Led3, on: true }]
    );
    assert!(controller.is_on(Led::Led3));
    assert!(controller.is_on(Led::Led2));
    assert!(controller.is_on(Led::Led4));
}

#[test]
fn two_buttons_pressed_together_toggle_both_leds_once() {
    for a_first in [true, false] {
        let mut a = ButtonMonitor::new(ButtonEvent::Button2Pressed);
        let mut b = ButtonMonitor::new(ButtonEvent::Button4Pressed);
        let mut queue = EventQueue::new();
        let mut controller = LedController::new();

        if a_first {
            poll(&mut a, true, &mut queue);
            poll(&mut b, true, &mut queue);
        } else {
            poll(&mut b, true, &mut queue);
            poll(&mut a, true, &mut queue);
        }
        assert_eq!(queue.len(), 2);

        let commands = drain(&mut queue, &mut controller);
        assert_eq!(commands.len(), 2);
        assert!(commands.contains(&LedCommand { led: Led::Led2, on: false }));
        assert!(commands.contains(&LedCommand { led: Led::Led4, on: false }));
        assert!(!controller.is_on(Led::Led2));
        assert!(controller.is_on(Led::Led3));
        assert!(!controller.is_on(Led::Led4));

        poll(&mut a, true, &mut queue);
        poll(&mut b, true, &mut queue);
        assert_eq!(queue.len(), 0);
        assert_eq!(drain(&mut queue, &mut controller), vec![]);
    }
}

#[test]
fn a_producer_held_back_by_a_full_queue_loses_nothing() {
    let mut buttons = [
        ButtonMonitor::new(ButtonEvent::Button2Pressed),
        ButtonMonitor::new(ButtonEvent::Button3Pressed),
        ButtonMonitor::new(ButtonEvent::Button4Pressed),
        ButtonMonitor::new(ButtonEvent::Button3Pressed),
    ];
    let mut queue = EventQueue::new();
    let mut controller = LedController::new();

    let mut held_back = Vec::new();
    for button in buttons.iter_mut() {
        if let Some(event) = button.sample(true) {
            if let Err(event) = queue.try_enqueue(event) {
                held_back.push(event);
            }
        }
    }
    assert_eq!(queue.len(), 3);
    assert_eq!(held_back, vec![ButtonEvent::Button3Pressed]);

    let first = queue.try_dequeue().map(|event| controller.apply(event));
    assert_eq!(first, Some(LedCommand { led: Led::Led2, on: false }));
    assert_eq!(queue.try_enqueue(held_back[0]), Ok(()));

    assert_eq!(
        drain(&mut queue, &mut controller),
        vec![
            LedCommand { led: Led::Led3, on: false },
            LedCommand { led: Led::Led4, on: false },
            LedCommand { led: Led::Led3, on: true },
        ]
    );
    assert!(!controller.is_on(Led::Led2));
    assert!(controller.is_on(Led::Led3));
    assert!(!controller.is_on(Led::Led4));
}
