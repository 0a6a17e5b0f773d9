//! Desktop (USB) setup for EmberConnect dongles: the decisions of the
//! out-of-box flow. A dongle plugged into this computer exposes a serial
//! port next to its flash-drive volume; over it the app scans WiFi, tries
//! credentials live, names the machine, pre-pairs this bridge and pushes
//! firmware. This surface is deliberately not on the localhost API.
pub mod link;
pub mod setup;
