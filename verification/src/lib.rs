//! Client-side admission control for a remote service that imposes a
//! dynamically discovered rate limit.
//!
//! Many concurrent logical requests share one limit that no caller knows in
//! advance. The core is a throttle — a capacity counter with two
//! calibration latches — consulted by every dispatch attempt, a timer
//! process that resets the throttle on a schedule the service reports, and a
//! per-request dispatch loop that retries throttled attempts. All decisions
//! are made here, over plain values, and carry contracts; the surrounding
//! runtime only performs the I/O and delivers the commands and events these
//! functions exchange.

pub mod dispatch;
pub mod error;
pub mod headers;
pub mod rank;
pub mod reply;
pub mod throttler;
pub mod timer;

pub use error::ErrorReply;
pub use error::HypixelApiError;
pub use rank::ColorCodes;
pub use rank::MonthlyPackageRank;
pub use rank::PackageRank;
pub use rank::StaffLevel;
pub use reply::KeyData;
pub use reply::KeyReply;
pub use reply::PlayerData;
pub use reply::PlayerReply;
pub use reply::SessionData;
pub use reply::StatusData;
pub use reply::StatusReply;
pub use throttler::RequestThrottler;
pub use throttler::TimerCommand;
