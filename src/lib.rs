//! Frame pipeline of a JPEG camera: locating frames in capture buffers,
//! publishing them, scheduling captures and framing them for HTTP clients.

pub mod extract;
pub mod store;
pub mod capture;
pub mod pingpong;
pub mod wire;
pub mod mjpeg;
pub mod http;
pub mod sensor;
pub mod link;
