//! Value types shared by the speech and audio layers.

pub mod cancellation_reason;
pub mod property_collection;

pub use self::cancellation_reason::CancellationReason;
pub use self::property_collection::PropertyCollection;
