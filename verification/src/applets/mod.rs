//! System applets: programs of the console that an application launches and
//! that hand back a result.

pub mod error;
pub mod mii_selector;
pub mod swkbd;
