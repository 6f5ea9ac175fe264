use wave_sim::image::column_of;
use wave_sim::image::ImageBuffer;
use wave_sim::padded::PaddedArray;
use wave_sim::state::in_damping_border;
use wave_sim::state::BORDER_WIDTH;

#[test]
fn create_fills_everything_with_zero() {
    let a: PaddedArray<f64> = PaddedArray::create(4, 0.0);
    assert_eq!(a.len(), 4);
    for i in -1..=4i64 {
        assert_eq!(a.get(i as isize), 0.0);
    }
}

#[test]
fn from_sequence_keeps_values_and_zero_guards() {
    let values = vec![1.5, -2.0, 3.25];
    let a = PaddedArray::create_from_sequence(&values, 0.0);
    assert_eq!(a.len(), 3);
    assert_eq!(a.get(-1), 0.0);
    assert_eq!(a.get(3), 0.0);
    for i in 0..3 {
        assert_eq!(a.get_cell(i), values[i]);
    }
}

#[test]
fn generator_fills_logical_cells() {
    let a = PaddedArray::create_from_generator(5, 0.0, |i| i as f64 * 2.0);
    assert_eq!(a.len(), 5);
    assert_eq!(a.get(-1), 0.0);
    assert_eq!(a.get(5), 0.0);
    for i in 0..5usize {
        assert_eq!(a.get_cell(i), i as f64 * 2.0);
    }
}

#[test]
fn set_and_get_reach_the_guards() {
    let mut a: PaddedArray<f64> = PaddedArray::create(2, 0.0);
    a.set(-1, 7.0);
    a.set(0, 1.0);
    a.set(2, -3.0);
    assert_eq!(a.get(-1), 7.0);
    assert_eq!(a.get(0), 1.0);
    assert_eq!(a.get(1), 0.0);
    assert_eq!(a.get(2), -3.0);
}

#[test]
fn stencil_reads_left_mid_right() {
    let values = vec![1.0, 2.0, 3.0, 4.0];
    let a = PaddedArray::create_from_sequence(&values, 0.0);
    assert_eq!(a.stencil(0), (0.0, 1.0, 2.0));
    assert_eq!(a.stencil(2), (2.0, 3.0, 4.0));
    assert_eq!(a.stencil(3), (3.0, 4.0, 0.0));
}

#[test]
fn laplace_of_constant_vanishes_in_the_interior() {
    let size = 10usize;
    let a = PaddedArray::create_from_generator(size, 0.0, |_| 4.2);
    for i in 1..=size - 2 {
        let (l, m, r) = a.stencil(i);
        assert_eq!(l - 2.0 * m + r, 0.0);
    }
}

#[test]
fn laplace_of_ramp_vanishes_only_in_the_interior() {
    let size = 6usize;
    let a = PaddedArray::create_from_generator(size, 0.0, |i| i as f64);
    for i in 1..=size - 2 {
        let (l, m, r) = a.stencil(i);
        assert_eq!(l - 2.0 * m + r, 0.0);
    }
    // At the edges the fixed-zero guard cells show through: a boundary
    // artifact of the scheme, reproduced on purpose.
    let (l, m, r) = a.stencil(0);
    assert_eq!(l - 2.0 * m + r, 1.0);
    let (l, m, r) = a.stencil(size - 1);
    assert_eq!(l - 2.0 * m + r, -6.0);
}

#[test]
fn duplicate_copies_every_cell() {
    let mut a = PaddedArray::create_from_sequence(&vec![9.0, 8.0, 7.0], 0.0);
    a.set(-1, 5.0);
    let b = a.duplicate();
    assert_eq!(b.len(), 3);
    for i in -1..=3i64 {
        assert_eq!(b.get(i as isize), a.get(i as isize));
    }
}

#[test]
fn image_put_writes_one_rgba_pixel() {
    let mut img = ImageBuffer::new(4, 3);
    img.put(2, 1, 35, 190, 216);
    let base = 4 * (1 * 4 + 2);
    for (j, byte) in img.bytes.iter().enumerate() {
        if j == base {
            assert_eq!(*byte, 35);
        } else if j == base + 1 {
            assert_eq!(*byte, 190);
        } else if j == base + 2 {
            assert_eq!(*byte, 216);
        } else if j == base + 3 {
            assert_eq!(*byte, 255);
        } else {
            assert_eq!(*byte, 0);
        }
    }
}

#[test]
fn image_put_discards_out_of_bounds() {
    let mut img = ImageBuffer::new(4, 3);
    img.put(-1, 0, 1, 2, 3);
    img.put(0, -7, 1, 2, 3);
    img.put(4, 0, 1, 2, 3);
    img.put(0, 3, 1, 2, 3);
    for byte in img.bytes.iter() {
        assert_eq!(*byte, 0);
    }
}

#[test]
fn image_clear_zeroes_every_byte() {
    let mut img = ImageBuffer::new(3, 2);
    img.put(0, 0, 9, 9, 9);
    img.put(2, 1, 9, 9, 9);
    img.clear();
    assert_eq!(img.width, 3);
    assert_eq!(img.height, 2);
    assert_eq!(img.bytes.len(), 24);
    for byte in img.bytes.iter() {
        assert_eq!(*byte, 0);
    }
}

#[test]
fn column_mapping_is_floor_of_scaled_index() {
    assert_eq!(column_of(0, 10, 640), 0);
    assert_eq!(column_of(3, 10, 640), 192);
    assert_eq!(column_of(9, 10, 640), 576);
    assert_eq!(column_of(1, 3, 100), 33);
}

#[test]
fn damping_border_covers_both_edges() {
    assert_eq!(BORDER_WIDTH, 32);
    assert!(in_damping_border(0, 100));
    assert!(in_damping_border(31, 100));
    assert!(!in_damping_border(32, 100));
    assert!(!in_damping_border(68, 100));
    assert!(in_damping_border(69, 100));
    assert!(in_damping_border(99, 100));
}

#[test]
fn damping_border_swallows_small_domains() {
    for i in 0..10 {
        assert!(in_damping_border(i, 10));
    }
}
