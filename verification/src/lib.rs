//! A backend for the `log` facade that forwards records to the Windows
//! Event Log. The crate computes everything a report needs — the severity
//! filter, the event type and message-resource ID for each level, and the
//! nul-terminated UTF-16 strings the OS expects — and states each step as a
//! contract. The thin layer that owns the OS calls themselves (registering
//! the event source, reporting an event, touching the registry) sits outside
//! this library and consumes the values prepared here.

pub mod errors;
pub mod eventmsgs;
pub mod level;
pub mod logger;
pub mod msggen;
pub mod registration;
pub mod wide;

pub use crate::errors::Error;
pub use crate::errors::InitError;
pub use crate::level::Level;
pub use crate::logger::EventLog;
pub use crate::logger::InitRequest;
pub use crate::logger::Report;
pub use crate::logger::init;
pub use crate::msggen::McDefine;
pub use crate::msggen::contains_str;
pub use crate::msggen::gen_rust;
pub use crate::msggen::hash_line;
pub use crate::msggen::parse_define;
pub use crate::msggen::should_regenerate;
pub use crate::registration::DeregistrationRequest;
pub use crate::registration::REG_BASEKEY;
pub use crate::registration::RegistrationRequest;
pub use crate::registration::deregister;
pub use crate::registration::register;
pub use crate::wide::win_string;
