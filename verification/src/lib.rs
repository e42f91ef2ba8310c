//! A safe bridge between an application and an event-driven native SDK:
//! fixed-capacity text buffers, status codes, typed events and their queues.

pub mod achievement;
pub mod callback;
pub mod channels;
pub mod charbuf;
pub mod discord;
pub mod event;
pub mod input_mode;
pub mod overlay;
pub mod status;
pub mod storage;
