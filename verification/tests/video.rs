use std::cell::Cell;
use std::cell::RefCell;

use ash::vk;

use ris_engine::ris_error::new_err;
use ris_engine::ris_error::RisResult;
use ris_engine::video::cube::color_channels;
use ris_engine::video::cube::cube_corners;
use ris_engine::video::cube::cube_indices;
use ris_engine::video::cube::FaceColor;
use ris_engine::video::frames::Frames;
use ris_engine::video::gizmo_renderer::GizmoRenderer;
use ris_engine::video::imgui_frames;
use ris_engine::video::layers::callback_log_text;
use ris_engine::video::layers::find_layers;
use ris_engine::video::layers::log_level_for_severity;
use ris_engine::video::layers::message_type_name;
use ris_engine::video::layers::required_instance_layers;
use ris_engine::video::layers::LogLevel;
use ris_engine::video::mesh::GizmoSegmentMesh;
use ris_engine::video::mesh::prepare_frame_mesh;
use ris_engine::video::mesh::Mesh;
use ris_engine::video::shader::shader_code;
use ris_engine::video::suitable_device::choose_queue_families;
use ris_engine::video::suitable_device::find_suitable_device;
use ris_engine::video::suitable_device::rate_device;
use ris_engine::video::suitable_device::select_physical_device;
use ris_engine::video::suitable_device::suitability;
use ris_engine::video::suitable_device::supports_required_extensions;
use ris_engine::video::suitable_device::unique_queue_families;
use ris_engine::video::suitable_device::DeviceCandidate;
use ris_engine::video::suitable_device::PhysicalDeviceInfo;
use ris_engine::video::suitable_device::QueueFamilySupport;
use ris_engine::video::swapchain::choose_extent;
use ris_engine::video::swapchain::choose_image_count;
use ris_engine::video::swapchain::choose_present_mode;
use ris_engine::video::swapchain::choose_sharing;
use ris_engine::video::swapchain::choose_surface_format;
use ris_engine::video::swapchain::clamp;
use ris_engine::video::swapchain::swapchain_settings;
use ris_engine::video::swapchain::Extent2D;
use ris_engine::video::swapchain::SurfaceCapabilities;
use ris_engine::video::swapchain::SurfaceFormat;
use ris_engine::video::texture::check_pixels_rgba;
use ris_engine::video::util::find_depth_format;
use ris_engine::video::util::find_memory_type;
use ris_engine::video::util::find_supported_format;
use ris_engine::video::util::has_stencil_component;
use ris_engine::video::util::FormatProperties;
use ris_engine::video::util::VkStr;
use ris_engine::video::vertex_input::imgui_vertex_attributes;
use ris_engine::video::vertex_input::imgui_vertex_binding;
use ris_engine::video::vertex_input::vertex3d_attributes;
use ris_engine::video::vertex_input::vertex3d_binding;
use ris_engine::video::vertex_input::VERTEX_INPUT_RATE_VERTEX;
use ris_engine::video::video_state::FlushOutcome;
use ris_engine::video::video_state::RecreatePlan;
use ris_engine::video::video_state::VideoState;
use ris_engine::video::vk as consts;

fn strings(items: &[&str]) -> Vec<String> {
    items.iter().map(|s| String::from(*s)).collect()
}

#[test]
fn constants_match_ash() {
    assert_eq!(consts::FORMAT_R8G8B8A8_SRGB, vk::Format::R8G8B8A8_SRGB.as_raw());
    assert_eq!(consts::FORMAT_B8G8R8A8_SRGB, vk::Format::B8G8R8A8_SRGB.as_raw());
    assert_eq!(consts::FORMAT_R32_UINT, vk::Format::R32_UINT.as_raw());
    assert_eq!(consts::FORMAT_R32G32_SFLOAT, vk::Format::R32G32_SFLOAT.as_raw());
    assert_eq!(consts::FORMAT_R32G32B32_SFLOAT, vk::Format::R32G32B32_SFLOAT.as_raw());
    assert_eq!(consts::FORMAT_D32_SFLOAT, vk::Format::D32_SFLOAT.as_raw());
    assert_eq!(consts::FORMAT_D24_UNORM_S8_UINT, vk::Format::D24_UNORM_S8_UINT.as_raw());
    assert_eq!(consts::FORMAT_D32_SFLOAT_S8_UINT, vk::Format::D32_SFLOAT_S8_UINT.as_raw());
    assert_eq!(consts::COLOR_SPACE_SRGB_NONLINEAR, vk::ColorSpaceKHR::SRGB_NONLINEAR.as_raw());
    assert_eq!(consts::PRESENT_MODE_IMMEDIATE, vk::PresentModeKHR::IMMEDIATE.as_raw());
    assert_eq!(consts::PRESENT_MODE_MAILBOX, vk::PresentModeKHR::MAILBOX.as_raw());
    assert_eq!(consts::PRESENT_MODE_FIFO, vk::PresentModeKHR::FIFO.as_raw());
    assert_eq!(consts::IMAGE_TILING_OPTIMAL, vk::ImageTiling::OPTIMAL.as_raw());
    assert_eq!(consts::IMAGE_TILING_LINEAR, vk::ImageTiling::LINEAR.as_raw());
    assert_eq!(consts::SHARING_MODE_EXCLUSIVE, vk::SharingMode::EXCLUSIVE.as_raw());
    assert_eq!(consts::SHARING_MODE_CONCURRENT, vk::SharingMode::CONCURRENT.as_raw());
    assert_eq!(consts::PHYSICAL_DEVICE_TYPE_OTHER, vk::PhysicalDeviceType::OTHER.as_raw());
    assert_eq!(
        consts::PHYSICAL_DEVICE_TYPE_INTEGRATED_GPU,
        vk::PhysicalDeviceType::INTEGRATED_GPU.as_raw()
    );
    assert_eq!(
        consts::PHYSICAL_DEVICE_TYPE_DISCRETE_GPU,
        vk::PhysicalDeviceType::DISCRETE_GPU.as_raw()
    );
    assert_eq!(
        consts::PHYSICAL_DEVICE_TYPE_VIRTUAL_GPU,
        vk::PhysicalDeviceType::VIRTUAL_GPU.as_raw()
    );
    assert_eq!(consts::PHYSICAL_DEVICE_TYPE_CPU, vk::PhysicalDeviceType::CPU.as_raw());
    assert_eq!(consts::MEMORY_PROPERTY_DEVICE_LOCAL, vk::MemoryPropertyFlags::DEVICE_LOCAL.as_raw());
    assert_eq!(consts::MEMORY_PROPERTY_HOST_VISIBLE, vk::MemoryPropertyFlags::HOST_VISIBLE.as_raw());
    assert_eq!(consts::MEMORY_PROPERTY_HOST_COHERENT, vk::MemoryPropertyFlags::HOST_COHERENT.as_raw());
    assert_eq!(consts::QUEUE_GRAPHICS, vk::QueueFlags::GRAPHICS.as_raw());
    assert_eq!(
        consts::FORMAT_FEATURE_DEPTH_STENCIL_ATTACHMENT,
        vk::FormatFeatureFlags::DEPTH_STENCIL_ATTACHMENT.as_raw()
    );
    assert_eq!(
        consts::DEBUG_SEVERITY_VERBOSE,
        vk::DebugUtilsMessageSeverityFlagsEXT::VERBOSE.as_raw()
    );
    assert_eq!(consts::DEBUG_SEVERITY_INFO, vk::DebugUtilsMessageSeverityFlagsEXT::INFO.as_raw());
    assert_eq!(
        consts::DEBUG_SEVERITY_WARNING,
        vk::DebugUtilsMessageSeverityFlagsEXT::WARNING.as_raw()
    );
    assert_eq!(consts::DEBUG_SEVERITY_ERROR, vk::DebugUtilsMessageSeverityFlagsEXT::ERROR.as_raw());
    assert_eq!(consts::DEBUG_TYPE_GENERAL, vk::DebugUtilsMessageTypeFlagsEXT::GENERAL.as_raw());
    assert_eq!(consts::DEBUG_TYPE_VALIDATION, vk::DebugUtilsMessageTypeFlagsEXT::VALIDATION.as_raw());
    assert_eq!(
        consts::DEBUG_TYPE_PERFORMANCE,
        vk::DebugUtilsMessageTypeFlagsEXT::PERFORMANCE.as_raw()
    );
    assert_eq!(VERTEX_INPUT_RATE_VERTEX, vk::VertexInputRate::VERTEX.as_raw());
}

#[test]
fn contains_flags_matches_ash() {
    let cases = [(0b111u32, 0b101u32), (0b100, 0b101), (0, 0), (0x1f, 0x10), (0x2, 0x6)];
    for (flags, wanted) in cases {
        let expected = vk::MemoryPropertyFlags::from_raw(flags)
            .contains(vk::MemoryPropertyFlags::from_raw(wanted));
        assert_eq!(consts::contains_flags(flags, wanted), expected);
    }
}

#[test]
fn vk_str_reads_up_to_nul() {
    let raw: Vec<i8> = "VK_LAYER_KHRONOS_validation\0junk".bytes().map(|b| b as i8).collect();
    let s = VkStr::from(&raw, String::from("u.rs"), 1).ok().unwrap();
    assert_eq!(s.as_str(), "VK_LAYER_KHRONOS_validation");
    let empty = VkStr::from(&[0i8, 65], String::from("u.rs"), 2).ok().unwrap();
    assert_eq!(empty.as_str(), "");
    let bad = VkStr::from(&[-1i8, 0], String::from("u.rs"), 3).err().unwrap();
    assert_eq!(bad.message(), "C string is not valid UTF-8");
    assert!(bad.source().is_some());
}

#[test]
fn memory_type_is_first_allowed_and_capable() {
    let types = [0x1u32, 0x6, 0x7, 0x6];
    let host = consts::MEMORY_PROPERTY_HOST_VISIBLE | consts::MEMORY_PROPERTY_HOST_COHERENT;
    assert_eq!(find_memory_type(0b1111, host, &types).ok(), Some(Some(1)));
    assert_eq!(find_memory_type(0b1101, host, &types).ok(), Some(Some(2)));
    assert_eq!(find_memory_type(0b0001, host, &types).ok(), Some(None));
    assert_eq!(find_memory_type(0b1111, 0x8, &types).ok(), Some(None));
}

#[test]
fn depth_formats() {
    let none = FormatProperties { linear_tiling_features: 0, optimal_tiling_features: 0 };
    let depth = FormatProperties {
        linear_tiling_features: 0,
        optimal_tiling_features: consts::FORMAT_FEATURE_DEPTH_STENCIL_ATTACHMENT,
    };
    let linear_only = FormatProperties {
        linear_tiling_features: consts::FORMAT_FEATURE_DEPTH_STENCIL_ATTACHMENT,
        optimal_tiling_features: 0,
    };
    assert_eq!(
        find_depth_format(&[none, depth, depth], String::from("d.rs"), 1).ok(),
        Some(consts::FORMAT_D32_SFLOAT_S8_UINT)
    );
    assert_eq!(
        find_depth_format(&[depth, none, none], String::from("d.rs"), 1).ok(),
        Some(consts::FORMAT_D32_SFLOAT)
    );
    let e = find_depth_format(&[linear_only, none, none], String::from("d.rs"), 7).err().unwrap();
    assert_eq!(e.message(), "failed to find supported format");
    assert_eq!(
        find_supported_format(
            &[10, 20],
            &[none, linear_only],
            consts::IMAGE_TILING_LINEAR,
            consts::FORMAT_FEATURE_DEPTH_STENCIL_ATTACHMENT,
            String::from("d.rs"),
            2,
        )
        .ok(),
        Some(20)
    );
    assert!(has_stencil_component(consts::FORMAT_D24_UNORM_S8_UINT));
    assert!(has_stencil_component(consts::FORMAT_D32_SFLOAT_S8_UINT));
    assert!(!has_stencil_component(consts::FORMAT_D32_SFLOAT));
}

fn caps(min: u32, max: u32, current: (u32, u32)) -> SurfaceCapabilities {
    SurfaceCapabilities {
        min_image_count: min,
        max_image_count: max,
        current_extent: Extent2D { width: current.0, height: current.1 },
        min_image_extent: Extent2D { width: 100, height: 50 },
        max_image_extent: Extent2D { width: 1920, height: 1080 },
    }
}

#[test]
fn swapchain_choices() {
    let preferred = SurfaceFormat {
        format: consts::FORMAT_B8G8R8A8_SRGB,
        color_space: consts::COLOR_SPACE_SRGB_NONLINEAR,
    };
    let other = SurfaceFormat { format: consts::FORMAT_R8G8B8A8_SRGB, color_space: 0 };
    assert_eq!(choose_surface_format(&[other, preferred]), preferred);
    assert_eq!(choose_surface_format(&[other]), other);
    assert_eq!(
        choose_present_mode(&[consts::PRESENT_MODE_FIFO, consts::PRESENT_MODE_IMMEDIATE]),
        consts::PRESENT_MODE_IMMEDIATE
    );
    assert_eq!(
        choose_present_mode(&[consts::PRESENT_MODE_MAILBOX, consts::PRESENT_MODE_FIFO]),
        consts::PRESENT_MODE_MAILBOX
    );
    assert_eq!(clamp(5, 10, 20), 10);
    assert_eq!(clamp(25, 10, 20), 20);
    assert_eq!(clamp(15, 10, 20), 15);
    assert_eq!(choose_extent(&caps(2, 3, (800, 600)), (10, 10)), Extent2D { width: 800, height: 600 });
    assert_eq!(
        choose_extent(&caps(2, 3, (u32::MAX, u32::MAX)), (3000, 10)),
        Extent2D { width: 1920, height: 50 }
    );
    assert_eq!(choose_image_count(&caps(2, 0, (1, 1))), 3);
    assert_eq!(choose_image_count(&caps(2, 2, (1, 1))), 2);
    assert_eq!(choose_image_count(&caps(2, 8, (1, 1))), 3);
    let shared = choose_sharing(0, 1);
    assert_eq!(shared.image_sharing_mode, consts::SHARING_MODE_CONCURRENT);
    assert_eq!(shared.queue_family_index_count, 2);
    assert_eq!(shared.queue_family_indices, vec![0, 1]);
    let owned = choose_sharing(2, 2);
    assert_eq!(owned.image_sharing_mode, consts::SHARING_MODE_EXCLUSIVE);
    assert_eq!(owned.queue_family_index_count, 0);
    assert!(owned.queue_family_indices.is_empty());
    let s = swapchain_settings(
        &caps(1, 0, (u32::MAX, u32::MAX)),
        &[other],
        &[consts::PRESENT_MODE_FIFO],
        (640, 480),
        3,
        3,
    );
    assert_eq!(s.format, other);
    assert_eq!(s.present_mode, consts::PRESENT_MODE_FIFO);
    assert_eq!(s.extent, Extent2D { width: 640, height: 480 });
    assert_eq!(s.image_count, 2);
    assert_eq!(s.sharing.image_sharing_mode, consts::SHARING_MODE_EXCLUSIVE);
}

fn family(queue_count: u32, graphics: bool, present: bool) -> QueueFamilySupport {
    QueueFamilySupport { queue_count, graphics, present }
}

#[test]
fn queue_families() {
    assert_eq!(
        choose_queue_families(&[family(1, true, false), family(1, true, true), family(1, true, true)]),
        Some((1, 1))
    );
    assert_eq!(
        choose_queue_families(&[family(1, true, false), family(1, false, true), family(1, true, false)]),
        Some((2, 1))
    );
    assert_eq!(choose_queue_families(&[family(0, true, true), family(1, true, false)]), None);
    assert_eq!(choose_queue_families(&[]), None);
    assert_eq!(unique_queue_families(1, 1), vec![1]);
    assert_eq!(unique_queue_families(1, 2), vec![1, 2]);
}

fn device(device_type: i32, extensions: bool, families: Vec<QueueFamilySupport>) -> PhysicalDeviceInfo {
    PhysicalDeviceInfo {
        device_type,
        supports_required_extensions: extensions,
        surface_format_count: 1,
        present_mode_count: 1,
        queue_families: families,
    }
}

#[test]
fn device_rating_and_choice() {
    assert_eq!(suitability(consts::PHYSICAL_DEVICE_TYPE_DISCRETE_GPU), Some(0));
    assert_eq!(suitability(consts::PHYSICAL_DEVICE_TYPE_INTEGRATED_GPU), Some(1));
    assert_eq!(suitability(consts::PHYSICAL_DEVICE_TYPE_VIRTUAL_GPU), Some(2));
    assert_eq!(suitability(consts::PHYSICAL_DEVICE_TYPE_CPU), Some(3));
    assert_eq!(suitability(consts::PHYSICAL_DEVICE_TYPE_OTHER), Some(4));
    assert_eq!(suitability(77), None);
    let integrated = device(consts::PHYSICAL_DEVICE_TYPE_INTEGRATED_GPU, true, vec![family(1, true, true)]);
    let rated = rate_device(&integrated, 4).unwrap();
    assert_eq!(rated.suitability, 1);
    assert_eq!(rated.device_index, 4);
    assert_eq!((rated.graphics_queue_family, rated.present_queue_family), (0, 0));
    let no_ext = device(consts::PHYSICAL_DEVICE_TYPE_DISCRETE_GPU, false, vec![family(1, true, true)]);
    assert!(rate_device(&no_ext, 0).is_none());
    let devices = vec![
        device(consts::PHYSICAL_DEVICE_TYPE_CPU, true, vec![family(1, true, true)]),
        no_ext,
        device(consts::PHYSICAL_DEVICE_TYPE_INTEGRATED_GPU, true, vec![family(1, false, true), family(2, true, false)]),
        device(consts::PHYSICAL_DEVICE_TYPE_INTEGRATED_GPU, true, vec![family(1, true, true)]),
    ];
    let best = find_suitable_device(&devices, String::from("p.rs"), 1).ok().unwrap();
    assert_eq!(best.device_index, 2);
    assert_eq!((best.graphics_queue_family, best.present_queue_family), (1, 0));
    let unusable = vec![device(77, true, vec![family(1, true, true)])];
    let e = find_suitable_device(&unusable, String::from("p.rs"), 9).err().unwrap();
    assert_eq!(e.message(), "no suitable hardware found to initialize vulkan renderer");
    assert!(supports_required_extensions(
        &strings(&["VK_KHR_swapchain"]),
        &strings(&["VK_EXT_a", "VK_KHR_swapchain"])
    ));
    assert!(!supports_required_extensions(&strings(&["VK_KHR_swapchain"]), &strings(&["VK_EXT_a"])));
}

#[test]
fn vulkano_device_selection() {
    let devices = vec![
        DeviceCandidate {
            device_type: consts::PHYSICAL_DEVICE_TYPE_CPU,
            supports_extensions: true,
            queue_families: vec![(true, true)],
        },
        DeviceCandidate {
            device_type: consts::PHYSICAL_DEVICE_TYPE_DISCRETE_GPU,
            supports_extensions: false,
            queue_families: vec![(true, true)],
        },
        DeviceCandidate {
            device_type: consts::PHYSICAL_DEVICE_TYPE_INTEGRATED_GPU,
            supports_extensions: true,
            queue_families: vec![(true, false), (true, true)],
        },
    ];
    assert_eq!(select_physical_device(&devices), Some((2, 1)));
    let cpu_only = vec![DeviceCandidate {
        device_type: consts::PHYSICAL_DEVICE_TYPE_CPU,
        supports_extensions: true,
        queue_families: vec![(false, true), (true, true)],
    }];
    assert_eq!(select_physical_device(&cpu_only), Some((0, 1)));
    assert_eq!(select_physical_device(&Vec::new()), None);
}

#[test]
fn validation_layers_and_logging() {
    assert_eq!(required_instance_layers(), strings(&["VK_LAYER_KHRONOS_validation"]));
    let found = find_layers(
        &strings(&["VK_LAYER_KHRONOS_validation", "VK_LAYER_missing"]),
        &strings(&["VK_LAYER_a", "VK_LAYER_KHRONOS_validation"]),
    );
    assert_eq!(found, vec![Some(1), None]);
    assert_eq!(log_level_for_severity(consts::DEBUG_SEVERITY_VERBOSE), LogLevel::Trace);
    assert_eq!(log_level_for_severity(consts::DEBUG_SEVERITY_INFO), LogLevel::Info);
    assert_eq!(log_level_for_severity(consts::DEBUG_SEVERITY_WARNING), LogLevel::Warning);
    assert_eq!(log_level_for_severity(consts::DEBUG_SEVERITY_ERROR), LogLevel::Error);
    assert_eq!(log_level_for_severity(0x3), LogLevel::Debug);
    assert_eq!(message_type_name(consts::DEBUG_TYPE_GENERAL), "GENERAL");
    assert_eq!(message_type_name(consts::DEBUG_TYPE_PERFORMANCE), "PERFORMANCE");
    assert_eq!(message_type_name(consts::DEBUG_TYPE_VALIDATION), "VALIDATION");
    assert_eq!(message_type_name(0x8), "unknown");
    assert_eq!(
        callback_log_text(consts::DEBUG_TYPE_VALIDATION, "bad usage"),
        "VULKAN VALIDATION | bad usage"
    );
}

#[test]
fn frames_ring_goes_round() {
    let made = Cell::new(0u32);
    let mut frames = Frames::allocate(3, || {
        made.set(made.get() + 1);
        Ok(made.get())
    })
    .ok()
    .unwrap();
    assert_eq!(frames.frames(), &vec![1, 2, 3]);
    let mut seen = Vec::new();
    for _ in 0..7 {
        let f = frames.acquire_next();
        seen.push(*f);
        *f += 10;
    }
    assert_eq!(seen, vec![1, 2, 3, 11, 12, 13, 21]);
    assert_eq!(frames.frames(), &vec![31, 22, 23]);
}

#[test]
fn frames_allocation_stops_at_first_failure() {
    let made = Cell::new(0u32);
    let result = Frames::allocate(5, || {
        made.set(made.get() + 1);
        if made.get() == 3 {
            Err(new_err(String::from("out of memory"), String::from("f.rs"), 1))
        } else {
            Ok(made.get())
        }
    });
    assert_eq!(result.err().unwrap().message(), "out of memory");
    assert_eq!(made.get(), 3);
    let empty: Frames<u32> = Frames::allocate(0, || Ok(1)).ok().unwrap();
    assert!(empty.frames().is_empty());
}

#[test]
fn imgui_frames_ring() {
    let mut frames = imgui_frames::Frames::allocate(2, || Ok(String::from("mesh"))).ok().unwrap();
    assert_eq!(frames.meshes().len(), 2);
    frames.acquire_next_mesh().push('0');
    frames.acquire_next_mesh().push('1');
    frames.acquire_next_mesh().push('2');
    assert_eq!(frames.meshes(), &vec![String::from("mesh02"), String::from("mesh1")]);
}

#[test]
fn gizmo_mesh_grows_only_when_needed() {
    let log = RefCell::new(Vec::new());
    let alloc = |v: &[u8]| -> RisResult<usize> {
        log.borrow_mut().push(format!("alloc {}", v.len()));
        Ok(v.len() * 100)
    };
    let free = |b: usize| log.borrow_mut().push(format!("free {}", b));
    let write = |b: &usize, v: &[u8]| -> RisResult<()> {
        log.borrow_mut().push(format!("write {} {}", b, v.len()));
        Ok(())
    };
    let mut mesh = GizmoSegmentMesh::allocate(&[1, 2], &alloc, &write).ok().unwrap();
    assert_eq!((mesh.vertices, mesh.vertex_count), (200, 2));
    mesh.update(&[1], &alloc, &free, &write).ok().unwrap();
    assert_eq!((mesh.vertices, mesh.vertex_count), (200, 2));
    mesh.update(&[1, 2, 3], &alloc, &free, &write).ok().unwrap();
    assert_eq!((mesh.vertices, mesh.vertex_count), (300, 3));
    assert_eq!(
        *log.borrow(),
        vec!["alloc 2", "write 200 2", "write 200 1", "alloc 3", "free 200", "write 300 3"]
    );
}

#[test]
fn scene_mesh_allocates_and_updates() {
    let log = RefCell::new(Vec::new());
    let alloc_v = |v: &[u16]| -> RisResult<String> { Ok(format!("v{}", v.len())) };
    let alloc_i_for_vertices = |v: &[u16]| -> RisResult<String> { Ok(format!("i{}", v.len())) };
    let alloc_i = |i: &[u32]| -> RisResult<String> { Ok(format!("i{}", i.len())) };
    let free = |b: String| log.borrow_mut().push(format!("free {}", b));
    let write_v = |b: &String, v: &[u16]| -> RisResult<()> {
        log.borrow_mut().push(format!("write {} {}", b, v.len()));
        Ok(())
    };
    let write_i = |b: &String, i: &[u32]| -> RisResult<()> {
        log.borrow_mut().push(format!("write {} {}", b, i.len()));
        Ok(())
    };
    let mut mesh = Mesh::allocate(&[1, 2, 3], &[0, 1, 2, 0], &alloc_v, &alloc_i_for_vertices, &write_v, &write_i)
        .ok()
        .unwrap();
    assert_eq!(mesh.vertices, "v3");
    assert_eq!(mesh.vertex_count, 3);
    assert_eq!(mesh.indices, "i3");
    assert_eq!(mesh.index_count, 4);
    mesh.update(&[1, 2, 3, 4], &[0, 1], &alloc_v, &alloc_i, &free, &write_v, &write_i)
        .ok()
        .unwrap();
    assert_eq!((mesh.vertices.as_str(), mesh.vertex_count), ("v4", 4));
    assert_eq!((mesh.indices.as_str(), mesh.index_count), ("i3", 4));
    let failing_write = |_: &String, _: &[u16]| -> RisResult<()> {
        Err(new_err(String::from("write failed"), String::from("m.rs"), 1))
    };
    let e = mesh
        .update(&[1], &[0, 1, 2, 3, 4, 5], &alloc_v, &alloc_i, &free, &failing_write, &write_i)
        .err()
        .unwrap();
    assert_eq!(e.message(), "write failed");
    assert_eq!((mesh.indices.as_str(), mesh.index_count), ("i3", 4));
    assert_eq!(
        *log.borrow(),
        vec!["write v3 3", "write i3 4", "free v3", "write v4 4", "write i3 2"]
    );
}

#[test]
fn video_state_plans_and_fences() {
    let mut state: VideoState<&str> = VideoState::new(3);
    assert!(state.image_fence(0).is_none());
    assert!(state.previous_fence().is_none());
    let nothing = RecreatePlan { reload_shaders: false, recreate_viewport: false, recreate_swapchain: false };
    assert_eq!(state.recreate_renderer(), nothing);

    state.acquired(true);
    assert_eq!(
        state.recreate_renderer(),
        RecreatePlan { reload_shaders: false, recreate_viewport: false, recreate_swapchain: true }
    );
    assert_eq!(state.recreate_renderer(), nothing);

    state.acquire_out_of_date();
    state.recreate_viewport(true);
    assert_eq!(
        state.recreate_renderer(),
        RecreatePlan { reload_shaders: true, recreate_viewport: true, recreate_swapchain: false }
    );
    assert_eq!(state.recreate_renderer(), nothing);

    state.acquired(false);
    state.finish_frame(1, FlushOutcome::Fence("f1"));
    assert_eq!(state.image_fence(1), Some(&"f1"));
    assert_eq!(state.previous_fence(), Some(&"f1"));
    assert_eq!(state.recreate_renderer(), nothing);

    state.finish_frame(2, FlushOutcome::OutOfDate);
    assert!(state.image_fence(2).is_none());
    assert!(state.previous_fence().is_none());
    assert_eq!(
        state.recreate_renderer(),
        RecreatePlan { reload_shaders: false, recreate_viewport: false, recreate_swapchain: true }
    );

    state.finish_frame(1, FlushOutcome::Failed);
    assert!(state.image_fence(1).is_none());
    assert_eq!(state.recreate_renderer(), nothing);
}

#[test]
fn vertex_layouts() {
    let b = vertex3d_binding();
    assert_eq!((b.binding, b.stride, b.input_rate), (0, 24, VERTEX_INPUT_RATE_VERTEX));
    let a = vertex3d_attributes();
    assert_eq!(a.len(), 2);
    assert_eq!((a[1].location, a[1].format, a[1].offset), (1, consts::FORMAT_R32G32B32_SFLOAT, 12));
    let b = imgui_vertex_binding();
    assert_eq!(b.stride, 20);
    let a = imgui_vertex_attributes();
    assert_eq!(
        a.iter().map(|x| (x.location, x.format, x.offset)).collect::<Vec<_>>(),
        vec![
            (0, consts::FORMAT_R32G32_SFLOAT, 0),
            (1, consts::FORMAT_R32G32_SFLOAT, 8),
            (2, consts::FORMAT_R32_UINT, 16)
        ]
    );
    assert_eq!(std::mem::size_of::<[f32; 6]>() as u32, vertex3d_binding().stride);
}

#[test]
fn shader_words() {
    let bytes = [0x03u8, 0x02, 0x23, 0x07, 0x00, 0x00, 0x01, 0x00];
    let words = shader_code(&bytes, String::from("s.rs"), 1).ok().unwrap();
    assert_eq!(words, vec![0x07230203, 0x00010000]);
    assert_eq!(words[0], u32::from_le_bytes([0x03, 0x02, 0x23, 0x07]));
    assert!(shader_code(&[], String::from("s.rs"), 1).ok().unwrap().is_empty());
    let e = shader_code(&bytes[..6], String::from("s.rs"), 2).err().unwrap();
    assert_eq!(e.message(), "shader code is not a multiple of 4 bytes long");
}

#[test]
fn texture_pixels() {
    assert!(check_pixels_rgba(2, 3, 24, String::from("t.rs"), 1).is_ok());
    let e = check_pixels_rgba(2, 3, 23, String::from("t.rs"), 2).err().unwrap();
    assert_eq!(e.message(), "pixel data does not match the texture size");
    assert!(check_pixels_rgba(0, 5, 0, String::from("t.rs"), 3).is_ok());
}

#[test]
fn gizmo_renderer_does_nothing_yet() {
    let mut r = GizmoRenderer::init().ok().unwrap();
    assert!(r.draw().is_ok());
}

#[test]
fn demo_cubes() {
    let corners = cube_corners();
    assert_eq!(corners.len(), 48);
    let first: Vec<(u8, i8, i8, i8, FaceColor)> =
        corners[..4].iter().map(|c| (c.cube, c.x, c.y, c.z, c.color)).collect();
    assert_eq!(
        first,
        vec![
            (0, -1, -1, -1, FaceColor::Magenta),
            (0, 1, -1, -1, FaceColor::Magenta),
            (0, -1, -1, 1, FaceColor::Magenta),
            (0, 1, -1, 1, FaceColor::Magenta),
        ]
    );
    let red: Vec<(i8, i8, i8)> = corners[20..24].iter().map(|c| (c.x, c.y, c.z)).collect();
    assert_eq!(red, vec![(1, -1, -1), (1, 1, -1), (1, -1, 1), (1, 1, 1)]);
    assert_eq!((corners[24].cube, corners[24].color), (1, FaceColor::Magenta));
    assert_eq!((corners[47].cube, corners[47].color), (1, FaceColor::Red));
    assert_eq!(color_channels(FaceColor::Cyan), (0, 1, 1));
    assert_eq!(color_channels(FaceColor::Yellow), (1, 1, 0));

    let indices = cube_indices();
    assert_eq!(indices.len(), 72);
    assert_eq!(&indices[..12], &[0, 1, 2, 3, 2, 1, 4, 5, 6, 7, 6, 5]);
    assert_eq!(&indices[66..], &[44, 45, 46, 47, 46, 45]);
    assert!(indices.iter().all(|&i| i < 48));
}

#[test]
fn frame_mesh_is_allocated_once_then_updated() {
    let log = RefCell::new(Vec::new());
    let alloc_v = |v: &[u16]| -> RisResult<String> {
        log.borrow_mut().push(format!("alloc v{}", v.len()));
        Ok(format!("v{}", v.len()))
    };
    let alloc_first_i = |v: &[u16]| -> RisResult<String> {
        log.borrow_mut().push(format!("alloc i for {} vertices", v.len()));
        Ok(format!("i{}", v.len()))
    };
    let alloc_i = |i: &[u32]| -> RisResult<String> {
        log.borrow_mut().push(format!("alloc i{}", i.len()));
        Ok(format!("i{}", i.len()))
    };
    let free = |b: String| log.borrow_mut().push(format!("free {}", b));
    let write_v = |_: &String, _: &[u16]| -> RisResult<()> { Ok(()) };
    let write_i = |_: &String, _: &[u32]| -> RisResult<()> { Ok(()) };

    let mut slot: Option<Mesh<String>> = None;
    prepare_frame_mesh(&mut slot, &[1, 2], &[0, 1, 1], &alloc_v, &alloc_first_i, &alloc_i, &free, &write_v, &write_i)
        .ok()
        .unwrap();
    assert_eq!(slot.as_ref().map(|m| (m.vertex_count, m.index_count)), Some((2, 3)));
    prepare_frame_mesh(&mut slot, &[1, 2], &[0, 1, 1, 0, 1], &alloc_v, &alloc_first_i, &alloc_i, &free, &write_v, &write_i)
        .ok()
        .unwrap();
    assert_eq!(slot.as_ref().map(|m| m.indices.clone()), Some(String::from("i5")));
    assert_eq!(
        *log.borrow(),
        vec!["alloc v2", "alloc i for 2 vertices", "alloc i5", "free i2"]
    );

    let failing = |_: &[u16]| -> RisResult<String> {
        Err(new_err(String::from("no memory"), String::from("m.rs"), 1))
    };
    let mut empty: Option<Mesh<String>> = None;
    let e = prepare_frame_mesh(&mut empty, &[1], &[0], &failing, &alloc_first_i, &alloc_i, &free, &write_v, &write_i)
        .err()
        .unwrap();
    assert_eq!(e.message(), "no memory");
    assert!(empty.is_none());
}

#[test]
fn frames_free_visits_each_frame_in_order() {
    let made = Cell::new(0u32);
    let frames = Frames::allocate(3, || {
        made.set(made.get() + 1);
        Ok(made.get())
    })
    .ok()
    .unwrap();
    let freed = RefCell::new(Vec::new());
    frames.free(|f: &u32| freed.borrow_mut().push(*f));
    assert_eq!(*freed.borrow(), vec![1, 2, 3]);

    let meshes = imgui_frames::Frames::allocate(2, || Ok(7u8)).ok().unwrap();
    let count = Cell::new(0);
    meshes.free(|_: &u8| count.set(count.get() + 1));
    assert_eq!(count.get(), 2);
}

#[test]
fn frames_accept_a_closure_with_its_own_state() {
    let mut next = 0u32;
    let frames = Frames::allocate(4, move || {
        next += 5;
        Ok(next)
    })
    .ok()
    .unwrap();
    assert_eq!(frames.frames(), &vec![5, 10, 15, 20]);

    let mut made = 0;
    let meshes = imgui_frames::Frames::allocate(3, || {
        made += 1;
        Ok(made)
    })
    .ok()
    .unwrap();
    assert_eq!(meshes.meshes(), &vec![1, 2, 3]);
}

#[test]
fn vk_str_text_encodes_back_to_its_bytes() {
    let text = "Grafik für Übung ✓";
    let mut raw: Vec<i8> = text.bytes().map(|b| b as i8).collect();
    raw.push(0);
    raw.push(42);
    let s = VkStr::from(&raw, String::from("u.rs"), 1).ok().unwrap();
    assert_eq!(s.as_str(), text);
    let bytes: Vec<u8> = raw[..raw.len() - 2].iter().map(|&c| c as u8).collect();
    assert_eq!(s.as_str().as_bytes(), &bytes[..]);
}

#[test]
fn frame_start_skips_while_minimized() {
    let mut state: VideoState<&str> = VideoState::new(2);
    state.acquired(true);
    assert_eq!(state.begin_frame(true), None);
    assert_eq!(
        state.begin_frame(false),
        Some(RecreatePlan { reload_shaders: false, recreate_viewport: false, recreate_swapchain: true })
    );
    assert_eq!(
        state.begin_frame(false),
        Some(RecreatePlan { reload_shaders: false, recreate_viewport: false, recreate_swapchain: false })
    );
}
