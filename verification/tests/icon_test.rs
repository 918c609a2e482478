use keyboard_rs::icon::{keyboard_icon_rgba, rgba_to_argb};

fn pixel(data: &[u8], x: usize, y: usize) -> [u8; 4] {
    let i = (y * 64 + x) * 4;
    [data[i], data[i + 1], data[i + 2], data[i + 3]]
}

#[test]
fn icon_pixels() {
    let data = keyboard_icon_rgba();
    assert_eq!(data.len(), 64 * 64 * 4);
    assert_eq!(pixel(&data, 0, 0), [0, 0, 0, 0]);
    assert_eq!(pixel(&data, 4, 6), [64, 82, 100, 255]);
    assert_eq!(pixel(&data, 5, 8), [44, 62, 80, 255]);
    assert_eq!(pixel(&data, 8, 10), [189, 195, 199, 255]);
    assert_eq!(pixel(&data, 12, 10), [44, 62, 80, 255]);
    assert_eq!(pixel(&data, 9, 35), [52, 152, 219, 255]);
    assert_eq!(pixel(&data, 20, 36), [189, 195, 199, 255]);
    assert_eq!(pixel(&data, 62, 30), [189, 195, 199, 255]);
    assert_eq!(pixel(&data, 63, 30), [0, 0, 0, 0]);
}

#[test]
fn argb_order() {
    let out = rgba_to_argb(&vec![1, 2, 3, 4, 5, 6, 7, 8]);
    assert_eq!(out, vec![4, 1, 2, 3, 8, 5, 6, 7]);
}
