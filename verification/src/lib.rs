//! Protocol logic for reading input from a *Nintendo GameCube Controller
//! Adapter for Wii U* USB device (and compatible clones in "PC mode").
//!
//! This crate holds the verified core of the protocol: identifying the
//! adapter by its descriptors, selecting the interface and endpoint pair to
//! claim, the session lifecycle (including the driver-reattach obligation on
//! teardown), and decoding the fixed 37-byte state packet into four typed
//! controller snapshots. The USB transport itself (enumeration, open, claim,
//! interrupt transfers) is left to an unverified shell built on `libusb`.

pub mod error;
pub mod packet;
pub mod descriptor;
pub mod session;

pub use error::Error;
pub use error::UsbErrorCode;
pub use packet::Controller;
pub use packet::ControllerKind;
pub use descriptor::AltSetting;
pub use descriptor::ConfigDesc;
pub use descriptor::DeviceId;
pub use descriptor::Direction;
pub use descriptor::EndpointDesc;
pub use descriptor::InterfaceDesc;
pub use descriptor::Selection;
pub use session::Session;
