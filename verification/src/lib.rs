//! Debounced push-buttons driving toggling LEDs through a bounded event queue.
//!
//! Three pieces make up the control loop: a [`monitor::ButtonMonitor`] per
//! button turns sampled line levels into press events, an
//! [`queue::EventQueue`] hands them over in arrival order, and a
//! [`controller::LedController`] inverts the LED that belongs to each event.

pub mod channel;
pub mod controller;
pub mod event;
pub mod monitor;
pub mod queue;

pub use channel::QUEUE_CAPACITY;
pub use event::ButtonEvent;
pub use queue::EventQueue;
