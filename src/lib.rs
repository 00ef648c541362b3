//! Resistive touch panel driver for the XPT2046 controller: sample filtering,
//! the touch lifecycle state machine and three-point affine calibration.

pub mod bitbang;
pub mod calibration;
pub mod heart_rate;
pub mod lifecycle;
pub mod menu;
pub mod protocol;
pub mod samples;
pub mod touch;
pub mod xpt2046;

pub use bitbang::{BitBang, BitOrder, ClockStep, Error, Mode, Phase, Polarity};
pub use calibration::{
    calibration_math, solve, CalibrationCapture, CalibrationData, CalibrationError,
    CalibrationPoint, CalibrationSet, CaptureStage, CaptureStep,
};
pub use heart_rate::{MonitorStatus, SimulatedMonitor};
pub use menu::{MainMenu, SlideshowLength};
pub use samples::RawSample;
pub use touch::{Point, TouchEvent, TouchKind, TouchScreen, Transport};
pub use xpt2046::{out_of_range, TouchFilter, Xpt2046};
