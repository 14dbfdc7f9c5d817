//! Verified core of the Constance RTOS pieces: timestamps, task
//! configuration, and the decisions of the Arm-M port.

pub mod cssidr;
pub mod port_arm_m;
pub mod task_cfg;
pub mod time;
