//! Registration of font files with an egui context, driven as a small
//! state machine: the caller performs the file-system work that the machine
//! asks for and hands the outcome back as an event.

pub mod font;
pub mod loader;
pub mod laws;
mod toolkit;

pub use font::{FontDescriptor, LoadFontError, LoaderFontData};
pub use loader::{FontLoader, LoadAction, LoadEvent, Stage};
