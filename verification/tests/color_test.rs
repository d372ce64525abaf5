use myowndesk::color::{bgra_to_yuv420p, rgb24_to_argb, YuvPicture};

#[test]
fn an_image_becomes_three_planes() {
    // Blue, green, red and alpha of two by two pixels.
    let bgra = vec![
        0, 0, 255, 255, 0, 255, 0, 255, //
        200, 0, 0, 255, 255, 255, 255, 255,
    ];
    let yuv = bgra_to_yuv420p(&bgra, 2, 2);
    // Luma of red, green, a blue and white; then the chroma of their average.
    assert_eq!(yuv, vec![77, 149, 23, 255, 121, 129]);
}

#[test]
fn chroma_is_sampled_once_per_block() {
    let mut bgra = vec![0u8; 4 * 2 * 4];
    for pixel in [2, 3, 6, 7] {
        for c in 0..4 {
            bgra[4 * pixel + c] = 255;
        }
    }
    let yuv = bgra_to_yuv420p(&bgra, 4, 2);
    assert_eq!(yuv, vec![0, 0, 255, 255, 0, 0, 255, 255, 128, 128, 128, 128]);
}

#[test]
fn pure_colours_have_the_largest_chroma() {
    let blue = [255, 0, 0, 0].repeat(4);
    assert_eq!(bgra_to_yuv420p(&blue, 2, 2), vec![29, 29, 29, 29, 255, 107]);
    let red = [0, 0, 255, 255].repeat(4);
    assert_eq!(bgra_to_yuv420p(&red, 2, 2), vec![77, 77, 77, 77, 85, 255]);
}

#[test]
fn no_image_has_no_planes() {
    assert!(bgra_to_yuv420p(&[], 0, 0).is_empty());
}

fn picture(y: u8, u: u8, v: u8) -> YuvPicture {
    YuvPicture { y: vec![y], u: vec![u], v: vec![v], width: 1, height: 1, y_stride: 1, uv_stride: 1 }
}

#[test]
fn samples_become_colours() {
    assert_eq!(picture(100, 128, 128).to_rgb(), vec![100, 100, 100]);
    assert_eq!(picture(100, 128, 138).to_rgb(), vec![114, 93, 100]);
    assert_eq!(picture(100, 118, 128).to_rgb(), vec![100, 104, 82]);
    assert_eq!(picture(100, 128, 127).to_rgb(), vec![98, 101, 100]);
}

#[test]
fn colours_are_limited_to_a_byte() {
    assert_eq!(picture(255, 255, 255).to_rgb(), vec![255, 121, 255]);
    assert_eq!(picture(0, 0, 0).to_rgb(), vec![0, 136, 0]);
}

#[test]
fn padding_is_left_out() {
    let p = YuvPicture {
        y: vec![1, 2, 99, 3, 4, 99],
        u: vec![128, 99],
        v: vec![128, 99],
        width: 2,
        height: 2,
        y_stride: 3,
        uv_stride: 2,
    };
    assert!(p.is_displayable());
    assert_eq!(p.to_rgb(), vec![1, 1, 1, 2, 2, 2, 3, 3, 3, 4, 4, 4]);
}

#[test]
fn a_picture_needs_all_its_samples() {
    let mut p = picture(1, 2, 3);
    assert!(p.is_displayable());
    p.y_stride = 0;
    assert!(p.is_displayable());
    p.height = 2;
    assert!(p.is_displayable());
    p.y_stride = 1;
    assert!(!p.is_displayable());
    p.width = usize::MAX;
    assert!(!p.is_displayable());
    p.width = 0;
    assert!(p.is_displayable());
    let mut q = picture(1, 2, 3);
    q.u.clear();
    assert!(!q.is_displayable());
}

#[test]
fn window_pixels_are_red_green_blue() {
    let mut buffer = vec![9u32; 3];
    rgb24_to_argb(&[1, 2, 3, 255, 254, 253], 2, 1, &mut buffer);
    assert_eq!(buffer, vec![0x010203, 0xfffefd, 9]);
}

#[test]
fn grey_comes_back() {
    for v in 0..=255u8 {
        let yuv = bgra_to_yuv420p(&vec![v; 16], 2, 2);
        assert_eq!(yuv, vec![v, v, v, v, 128, 128]);
        assert_eq!(picture(v, 128, 128).to_rgb(), vec![v, v, v]);
    }
}

#[test]
fn the_last_alpha_byte_may_be_missing() {
    let yuv = bgra_to_yuv420p(&vec![100; 15], 2, 2);
    assert_eq!(yuv, vec![100, 100, 100, 100, 128, 128]);
}
