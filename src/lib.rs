//! A relay that carries MIDI events between a local device and one remote
//! peer over a datagram transport.
//!
//! The library holds the wire framing, the keepalive schedule and the
//! per-role session state, as a state machine from events to actions. The
//! program around it owns the socket, the device channels and the clock.
use vstd::prelude::*;

pub mod codec;
pub mod endpoint;
pub mod keepalive;
pub mod relay;
