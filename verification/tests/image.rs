use rustracer_core::graphics::image::{pack_rgb, unpack_rgb, Rgb};

fn rgb(r: u8, g: u8, b: u8) -> Rgb {
    Rgb { r, g, b }
}

#[test]
fn pack_of_nothing_is_empty() {
    assert_eq!(pack_rgb(&vec![]), Vec::<u8>::new());
}

#[test]
fn pack_interleaves_the_samples() {
    let pixels = vec![rgb(1, 2, 3), rgb(4, 5, 6), rgb(255, 0, 127)];
    assert_eq!(pack_rgb(&pixels), vec![1, 2, 3, 4, 5, 6, 255, 0, 127]);
}

#[test]
fn unpack_reads_three_by_three() {
    let bytes = vec![9, 8, 7, 6, 5, 4];
    assert_eq!(unpack_rgb(&bytes), Some(vec![rgb(9, 8, 7), rgb(6, 5, 4)]));
}

#[test]
fn unpack_of_nothing_is_no_pixels() {
    assert_eq!(unpack_rgb(&vec![]), Some(vec![]));
}

#[test]
fn unpack_refuses_a_ragged_run() {
    assert_eq!(unpack_rgb(&vec![1]), None);
    assert_eq!(unpack_rgb(&vec![1, 2]), None);
    assert_eq!(unpack_rgb(&vec![1, 2, 3, 4]), None);
    assert_eq!(unpack_rgb(&vec![1, 2, 3, 4, 5]), None);
}

#[test]
fn unpack_undoes_pack() {
    let mut pixels = Vec::new();
    for k in 0..200u32 {
        pixels.push(rgb((k * 7 % 256) as u8, (k * 13 % 256) as u8, (k * 29 % 256) as u8));
    }
    let bytes = pack_rgb(&pixels);
    assert_eq!(bytes.len(), 600);
    assert_eq!(unpack_rgb(&bytes), Some(pixels));
}

#[test]
fn pack_undoes_unpack() {
    let bytes: Vec<u8> = (0..99u8).collect();
    let pixels = unpack_rgb(&bytes).unwrap();
    assert_eq!(pixels.len(), 33);
    assert_eq!(pack_rgb(&pixels), bytes);
}
