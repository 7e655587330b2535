//! Verified core of a small instanced-mesh scene renderer: the input and
//! motion decisions of the orbit camera controller, the instance grid, the
//! byte layouts of the vertex streams, and the resize / render state machine
//! that gates GPU work. Floating-point math and the GPU calls live with the
//! caller.
pub mod camera;
pub mod instance;
pub mod vertex;
pub mod texture;
pub mod state;
