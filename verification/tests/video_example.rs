use pony_renderer::video::Resolution;
use pony_renderer::video_example::{generate_quad, VideoExample};

#[test]
fn the_quad_is_a_scaled_full_hd_picture() {
    let quad = generate_quad();
    let positions: Vec<[i32; 4]> = quad.vertex_data.iter().map(|v| v.pos).collect();
    let coords: Vec<[i8; 2]> = quad.vertex_data.iter().map(|v| v.tex_coord).collect();
    assert_eq!(positions, vec![[3, -54, 96, 1], [3, 54, 96, 1], [3, 54, -96, 1], [3, -54, -96, 1]]);
    assert_eq!(coords, vec![[1, 1], [1, 0], [0, 0], [0, 1]]);
    assert_eq!(quad.index_data, vec![0, 1, 2, 2, 3, 0]);
}

#[test]
fn textures_are_remade_only_for_a_new_size() {
    let mut screen = VideoExample::create();
    assert_eq!((screen.width, screen.height), (512, 512));
    assert_eq!(screen.check_resize(Resolution { width: 512, height: 512 }), None);
    assert_eq!(screen.check_resize(Resolution { width: 1920, height: 1080 }), Some((1920, 1080)));
    assert_eq!((screen.width, screen.height), (1920, 1080));
    assert_eq!(screen.check_resize(Resolution { width: 1920, height: 1080 }), None);
    assert_eq!(screen.check_resize(Resolution { width: 1920, height: 1088 }), Some((1920, 1088)));
}
