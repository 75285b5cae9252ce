use ash_sandbox::swapchain::{
    choose_extent, choose_image_count, is_srgb, plan_swapchain, rank_surface_format,
    select_present_mode, select_surface_format, srgb_flag, PixelFormat, PresentMode, SurfaceCaps,
    SurfaceFormat,
};

#[test]
fn image_count_prefers_three_when_unbounded() {
    assert_eq!(choose_image_count(2, 0), 3);
}

#[test]
fn image_count_prefers_three_within_bounds() {
    assert_eq!(choose_image_count(2, 8), 3);
}

#[test]
fn image_count_floor_dominates() {
    assert_eq!(choose_image_count(4, 8), 4);
    assert_eq!(choose_image_count(4, 0), 4);
}

#[test]
fn image_count_ceiling_dominates() {
    assert_eq!(choose_image_count(1, 2), 2);
    assert_eq!(choose_image_count(2, 2), 2);
}

#[test]
fn format_rank_values() {
    let ten_bit = SurfaceFormat { format: PixelFormat::A2B10G10R10UnormPack32, color_space: 0 };
    let srgb = SurfaceFormat { format: PixelFormat::B8G8R8A8Srgb, color_space: 0 };
    let other = SurfaceFormat { format: PixelFormat::Other(44), color_space: 0 };
    assert_eq!(rank_surface_format(&ten_bit), 0);
    assert_eq!(rank_surface_format(&srgb), 1);
    assert_eq!(rank_surface_format(&other), usize::MAX);
}

#[test]
fn ten_bit_beats_srgb() {
    let formats = vec![
        SurfaceFormat { format: PixelFormat::B8G8R8A8Srgb, color_space: 1 },
        SurfaceFormat { format: PixelFormat::A2R10G10B10UnormPack32, color_space: 2 },
    ];
    let chosen = select_surface_format(&formats).unwrap();
    assert_eq!(chosen.format, PixelFormat::A2R10G10B10UnormPack32);
    assert_eq!(chosen.color_space, 2);
}

#[test]
fn srgb_beats_unrelated() {
    let formats = vec![
        SurfaceFormat { format: PixelFormat::Other(9), color_space: 0 },
        SurfaceFormat { format: PixelFormat::R8G8B8A8Srgb, color_space: 0 },
    ];
    let chosen = select_surface_format(&formats).unwrap();
    assert_eq!(chosen.format, PixelFormat::R8G8B8A8Srgb);
}

#[test]
fn first_of_equal_rank_wins() {
    let formats = vec![
        SurfaceFormat { format: PixelFormat::R8G8B8A8Srgb, color_space: 7 },
        SurfaceFormat { format: PixelFormat::B8G8R8A8Srgb, color_space: 8 },
    ];
    let chosen = select_surface_format(&formats).unwrap();
    assert_eq!(chosen.format, PixelFormat::R8G8B8A8Srgb);
    assert_eq!(chosen.color_space, 7);
}

#[test]
fn no_formats_is_an_error() {
    assert!(select_surface_format(&vec![]).is_none());
}

#[test]
fn immediate_mode_is_found() {
    let modes = vec![PresentMode::Fifo, PresentMode::Mailbox, PresentMode::Immediate];
    assert_eq!(select_present_mode(&modes), Some(PresentMode::Immediate));
}

#[test]
fn missing_immediate_mode_is_an_error() {
    let modes = vec![PresentMode::Fifo, PresentMode::FifoRelaxed];
    assert!(select_present_mode(&modes).is_none());
}

#[test]
fn defined_extent_is_kept() {
    assert_eq!(choose_extent(800, 600, 1024, 512), (800, 600));
}

#[test]
fn undefined_extent_uses_window_size() {
    assert_eq!(choose_extent(u32::MAX, u32::MAX, 1024, 512), (1024, 512));
}

#[test]
fn half_undefined_extent_is_kept() {
    assert_eq!(choose_extent(u32::MAX, 600, 1024, 512), (u32::MAX, 600));
}

#[test]
fn srgb_formats_are_recognized() {
    assert!(is_srgb(PixelFormat::B8G8R8A8Srgb));
    assert!(is_srgb(PixelFormat::Astc12x12SrgbBlock));
    assert!(is_srgb(PixelFormat::Etc2R8G8B8A1SrgbBlock));
    assert!(!is_srgb(PixelFormat::A2B10G10R10UnormPack32));
    assert!(!is_srgb(PixelFormat::Other(3)));
}

#[test]
fn srgb_flag_packs_one_or_zero() {
    assert_eq!(srgb_flag(PixelFormat::R8G8B8A8Srgb), 1);
    assert_eq!(srgb_flag(PixelFormat::A2B10G10R10UnormPack32), 0);
}

#[test]
fn full_plan_is_assembled() {
    let caps = SurfaceCaps {
        min_image_count: 2,
        max_image_count: 8,
        current_width: u32::MAX,
        current_height: u32::MAX,
    };
    let formats = vec![
        SurfaceFormat { format: PixelFormat::B8G8R8A8Srgb, color_space: 5 },
        SurfaceFormat { format: PixelFormat::A2B10G10R10UnormPack32, color_space: 6 },
    ];
    let modes = vec![PresentMode::Fifo, PresentMode::Immediate];
    let plan = plan_swapchain(&caps, &formats, &modes, 1024, 512).unwrap();
    assert_eq!(plan.format, PixelFormat::A2B10G10R10UnormPack32);
    assert_eq!(plan.color_space, 6);
    assert_eq!(plan.width, 1024);
    assert_eq!(plan.height, 512);
    assert_eq!(plan.image_count, 3);
    assert_eq!(plan.present_mode, PresentMode::Immediate);
}

#[test]
fn plan_fails_without_immediate_mode() {
    let caps = SurfaceCaps {
        min_image_count: 2,
        max_image_count: 0,
        current_width: 640,
        current_height: 480,
    };
    let formats = vec![SurfaceFormat { format: PixelFormat::B8G8R8A8Srgb, color_space: 0 }];
    let modes = vec![PresentMode::Fifo];
    assert!(plan_swapchain(&caps, &formats, &modes, 640, 480).is_none());
}

#[test]
fn plan_fails_without_formats() {
    let caps = SurfaceCaps {
        min_image_count: 2,
        max_image_count: 0,
        current_width: 640,
        current_height: 480,
    };
    let modes = vec![PresentMode::Immediate];
    assert!(plan_swapchain(&caps, &vec![], &modes, 640, 480).is_none());
}
