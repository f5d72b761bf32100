pub mod vk;
pub mod util;
pub mod swapchain;
pub mod suitable_device;
pub mod layers;
pub mod frames;
pub mod mesh;
pub mod imgui_frames;
pub mod cube;
pub mod video_state;
pub mod vertex_input;
pub mod shader;
pub mod texture;
pub mod gizmo_renderer;
