//! Verified decision logic for safe handles over libvlc's media discoverer:
//! handle ownership and release, status codes, and service enumeration.

pub mod media_discoverer;

pub use media_discoverer::{
    MediaDiscoverer, MediaDiscovererCategory, MediaDiscovererDescription, MediaList,
    RawDescription,
};
