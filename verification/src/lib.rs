//! Verified core of the Nintendo 3DS system library: the decoding, packing,
//! bookkeeping and validation logic behind the console's services.

pub mod applets;
pub mod bits;
pub mod console;
pub mod error;
pub mod mii;
pub mod sdmc;
pub mod sealed;
pub mod services;
pub mod smdh;
pub mod srv;
pub mod os;
pub mod text;
pub mod utf16;
