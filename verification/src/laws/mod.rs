//! What the operations are for, said of their inputs and results.
pub mod devices;
pub mod imports;
pub mod packets;
pub mod scripts;
pub mod texts;
pub mod values;
pub mod windows;
pub mod workers;
