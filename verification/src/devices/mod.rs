//! Messages for particular devices.

pub mod beatstep;
pub mod dw6000;
