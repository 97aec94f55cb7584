use gpu_bench::lanes::{GpuMinMax, I32ScalarSwizzle, U32ScalarSwizzle};
use gpu_bench::noise::{noise_bits, uhash};

#[test]
fn uhash_of_zero_is_zero() {
    assert_eq!(uhash(0, 0), 0);
}

#[test]
fn uhash_known_values() {
    assert_eq!(uhash(1, 0), 579038751);
    assert_eq!(uhash(0, 1), 4040494424);
}

#[test]
fn uhash_is_deterministic() {
    assert_eq!(uhash(123, 456), uhash(123, 456));
    assert_ne!(uhash(123, 456), uhash(456, 123));
}

#[test]
fn noise_bits_hashes_row_and_frame() {
    assert_eq!(noise_bits(7, 3, 9), 3275219030);
    assert_eq!(noise_bits(7, 3, 9), uhash(7, (3 << 11) + 9));
}

#[test]
fn noise_bits_wraps_the_key() {
    assert_eq!(noise_bits(5, 0xFFFF_FFFF, 2048), 618779131);
    assert_eq!(noise_bits(5, 0xFFFF_FFFF, 2048), uhash(5, 0));
}

#[test]
fn min_max_of_signed() {
    assert_eq!((-3i32).minv(2), -3);
    assert_eq!((-3i32).maxv(2), 2);
    assert_eq!(4i32.minv(4), 4);
}

#[test]
fn min_max_of_unsigned() {
    assert_eq!(7u32.minv(9), 7);
    assert_eq!(7u32.maxv(9), 9);
    assert_eq!(u32::MAX.minv(0), 0);
}

#[test]
fn swizzles_broadcast() {
    assert_eq!(5u32.xxxx(), [5, 5, 5, 5]);
    assert_eq!(5u32.xxx(), [5, 5, 5]);
    assert_eq!(5u32.xx(), [5, 5]);
    assert_eq!((-2i32).xxxx(), [-2, -2, -2, -2]);
    assert_eq!((-2i32).xxx(), [-2, -2, -2]);
    assert_eq!((-2i32).xx(), [-2, -2]);
}
