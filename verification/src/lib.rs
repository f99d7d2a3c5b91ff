//! A GPU slime mold (Physarum) simulation, as far as the CPU decides it.
//!
//! The library says what is to be done on the GPU: which buffers, layouts,
//! bind groups and pipelines there are, what each step and each frame records,
//! what the shader files must hold, and what each window event does. It hands
//! these out as plain values, and a program around it carries them out.

pub mod agent;
pub mod camera;
pub mod dispatch;
pub mod gpu;
pub mod layout;
pub mod params;
pub mod pipeline;
pub mod renderer;
pub mod resources;
pub mod shader;
pub mod sim;
pub mod single;
pub mod state;
pub mod wire;
pub mod world;

pub use agent::Agent;
pub use camera::Camera;
pub use dispatch::{dispatch_2d, DIFFUSE_WORKGROUP, MAX_WORKGROUPS_PER_DIM, WORKGROUP_SIZE};
pub use gpu::{GpuContext, SetupError};
pub use params::SimParams;
pub use pipeline::{
    ShaderFile, COMPUTE_SHADER, DIFFUSE_SHADER, INIT_SHADER, RENDER_SHADER, TRAIL_SHADER,
};
pub use renderer::Renderer;
pub use resources::TRAIL_CHANNELS;
pub use sim::Sim;
pub use single::Single;
pub use state::{App, State};
