//! OpenHarmony backend logic of a windowing library: key mapping, input
//! state tracking, event-loop dispatch decisions and window state mirrors.
pub mod keyboard;
pub mod keycodes;
pub mod event;
pub mod input;
pub mod want;
pub mod event_loop;
pub mod window;
pub mod monitor;
