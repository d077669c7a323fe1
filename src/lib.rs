//! Fan speed control for a single-board computer: the temperature sensors'
//! text formats, the temperature-to-duty policy, the wire packet sent to a
//! remote fan controller, and the local PWM actuator with its one-time
//! hardware initialisation.

pub mod error;
pub mod fan;
pub mod monitor;
pub mod packet;
pub mod sensor;
pub mod speed;
pub mod text;
