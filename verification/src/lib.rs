//! Enhanced ShockBurst (ESB) for the nRF52 series: the protocol core.
//!
//! The crate holds the decisions of an ESB stack and nothing of its hardware:
//! packet buffers, the PTX and PRX state machines, the split transport, and
//! the timeslot layer that shares the radio with a Bluetooth controller.
//! Functions that drive a peripheral append register operations to a log, and
//! functions that read one take the sampled values as an argument, so that
//! every step of the protocol has a contract over plain values.

pub mod addresses;
pub mod air_laws;
pub mod att;
pub mod ble;
pub mod bytes;
pub mod config;
pub mod error;
pub mod event_sender;
pub mod header;
pub mod hid;
pub mod hw;
pub mod isr;
pub mod keymap;
pub mod link_laws;
pub mod matrix;
pub mod mpsl_common;
pub mod mpsl_profile;
pub mod mpsl_radio;
pub mod mpsl_schedule;
pub mod mpsl_timeslot;
pub mod payload;
pub mod prx;
pub mod prx_laws;
pub mod prx_session;
pub mod ptx;
pub mod ptx_laws;
pub mod ptx_schedule;
pub mod ptx_session;
pub mod radio;
pub mod radio_model;
pub mod right_half;
pub mod rx_queue;
pub mod session_laws;
pub mod slot_air_laws;
pub mod slot_laws;
pub mod slot_prx;
pub mod slot_ptx;
pub mod smp;
pub mod state_machine;
pub mod suspend;
pub mod tasks;
pub mod timer;
pub mod transport;
