//! Protocol engine for the Powenetics v2 power-measurement instrument.
//!
//! The engine never touches a serial port itself. It tells its owner which
//! transport operation to perform next ([`Request`]) and is told what came of
//! it ([`Response`]); between the two it frames and validates measurement
//! packets, runs the calibration handshake, integrates power into energy and
//! notifies the registered subscribers.

pub mod channel;
pub mod data;
pub mod driver;
pub mod error;
pub mod export;
pub mod frame;
pub mod message;
pub mod theorems;
pub mod time;
pub mod transport;

pub use crate::channel::Channel;
pub use crate::channel::ChannelView;
pub use crate::channel::CHANNEL_COUNT;
pub use crate::channel::POWENETICS_CHANNELS;
pub use crate::data::DataView;
pub use crate::data::PoweneticsData;
pub use crate::driver::after_dispatch;
pub use crate::driver::new;
pub use crate::driver::tally;
pub use crate::driver::DriverView;
pub use crate::driver::Powenetics;
pub use crate::driver::PoweneticsSubscriber;
pub use crate::driver::Stage;
pub use crate::driver::Turn;
pub use crate::error::ErrorView;
pub use crate::error::PoweneticsError;
pub use crate::export::CsvError;
pub use crate::time::Timestamp;
pub use crate::transport::Request;
pub use crate::transport::RequestView;
pub use crate::transport::Response;
pub use crate::transport::ResponseView;
pub use crate::transport::POWENETICS_USB_PID;
pub use crate::transport::POWENETICS_USB_VID;
