use pathtracer::film::{flatten, pixel_at, pixel_count, Rgb};

#[test]
fn pixel_at_numbers_along_the_rows() {
    assert_eq!(pixel_at(0, 800), (0, 0));
    assert_eq!(pixel_at(799, 800), (799, 0));
    assert_eq!(pixel_at(800, 800), (0, 1));
    assert_eq!(pixel_at(1605, 800), (5, 2));
    assert_eq!(pixel_at(639_999, 800), (799, 799));
    assert_eq!(pixel_at(7, 1), (0, 7));
    assert_eq!(pixel_at(7, 3), (1, 2));
}

#[test]
fn pixel_count_is_width_times_height() {
    assert_eq!(pixel_count(800, 800), Some(640_000));
    assert_eq!(pixel_count(0, 5), Some(0));
    assert_eq!(pixel_count(5, 0), Some(0));
    assert_eq!(pixel_count(1, 1), Some(1));
    assert_eq!(pixel_count(3, 2), Some(6));
}

#[test]
fn pixel_count_refuses_what_cannot_be_counted() {
    assert_eq!(pixel_count(usize::MAX, 2), None);
    assert_eq!(pixel_count(usize::MAX, 1), None);
    assert_eq!(pixel_count(usize::MAX / 3, 1), Some(usize::MAX / 3));
    assert_eq!(pixel_count(usize::MAX / 3 + 1, 1), None);
    assert_eq!(pixel_count(usize::MAX, usize::MAX), None);
}

#[test]
fn flatten_writes_three_bytes_for_each_pixel() {
    let pixels = vec![
        Rgb { r: 1, g: 2, b: 3 },
        Rgb { r: 4, g: 5, b: 6 },
        Rgb { r: 255, g: 0, b: 128 },
    ];
    assert_eq!(flatten(&pixels), vec![1, 2, 3, 4, 5, 6, 255, 0, 128]);
    assert_eq!(flatten(&vec![]), Vec::<u8>::new());
}

#[test]
fn flatten_is_row_major() {
    let (w, h) = (4usize, 3usize);
    let n = pixel_count(w, h).unwrap();
    let pixels: Vec<Rgb> = (0..n)
        .map(|i| {
            let (x, y) = pixel_at(i, w);
            Rgb { r: x as u8, g: y as u8, b: 9 }
        })
        .collect();
    let bytes = flatten(&pixels);
    assert_eq!(bytes.len(), w * h * 3);
    for y in 0..h {
        for x in 0..w {
            let at = 3 * (y * w + x);
            assert_eq!(bytes[at], x as u8);
            assert_eq!(bytes[at + 1], y as u8);
            assert_eq!(bytes[at + 2], 9);
        }
    }
}

#[test]
fn a_picture_of_one_colour_repeats_its_three_bytes() {
    let colour = Rgb { r: 255, g: 128, b: 7 };
    let n = pixel_count(5, 4).unwrap();
    let bytes = flatten(&vec![colour; n]);
    assert_eq!(bytes.len(), 60);
    for (k, byte) in bytes.iter().enumerate() {
        assert_eq!(*byte, [255, 128, 7][k % 3]);
    }
}
