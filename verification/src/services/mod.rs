//! OS services: the logic behind the console's system services.

pub mod ac;
pub mod am;
pub mod apt;
pub mod cam;
pub mod cfgu;
pub mod fs;
pub mod gfx;
pub mod gspgpu;
pub mod hid;
pub mod ir_user;
pub mod ndsp;
pub mod ps;
pub mod ptm;
pub mod reference;
pub mod romfs;
pub mod soc;
pub mod sslc;
pub mod svc;
pub mod uds;
