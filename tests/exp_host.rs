use integer_exponent_opencl::exp_cpu;
use integer_exponent_opencl::exp_host::exp_modulo;

#[test]
fn exp_cpu_0() {
    let x: Vec<u32> = vec![1, 2, 3, 4, 5, 6];
    let q = 10;
    let n = 0;
    let y = exp_cpu(&x, n, q);
    let exp_x = vec![1, 1, 1, 1, 1, 1];
    for (a, b) in y.iter().zip(exp_x.iter()) {
        assert_eq!(a, b);
    }
}

#[test]
fn exp_cpu_1() {
    let x: Vec<u32> = vec![1, 2, 3, 4, 5, 6];
    let q = 10;
    let n = 1;
    let y = exp_cpu(&x, n, q);
    let exp_x = vec![1, 2, 3, 4, 5, 6];
    for (a, b) in y.iter().zip(exp_x.iter()) {
        assert_eq!(a, b);
    }
}

#[test]
fn exp_cpu_2() {
    let x: Vec<u32> = vec![1, 2, 3, 4, 5, 6];
    let q = 10;
    let n = 2;
    let y = exp_cpu(&x, n, q);
    let exp_x = vec![1, 4, 9, 6, 5, 6];
    for (a, b) in y.iter().zip(exp_x.iter()) {
        assert_eq!(a, b);
    }
}

#[test]
fn exp_cpu_3() {
    let x: Vec<u32> = vec![1, 2, 3, 4, 5, 6];
    let q = 10;
    let n = 3;
    let y = exp_cpu(&x, n, q);
    let exp_x = vec![1, 8, 7, 4, 5, 6];
    for (a, b) in y.iter().zip(exp_x.iter()) {
        assert_eq!(a, b);
    }
}

#[test]
fn squares_mod_ten() {
    let x: Vec<u32> = (0..10).collect();
    assert_eq!(exp_cpu(&x, 2, 10u32), vec![0, 1, 4, 9, 6, 5, 6, 9, 4, 1]);
}

#[test]
fn power_zero_gives_ones() {
    let x: Vec<u64> = vec![0, 7, 123456789, u64::MAX, 10];
    assert_eq!(exp_cpu(&x, 0, 10u64), vec![1u64; 5]);
}

#[test]
fn power_zero_with_zero_modulus() {
    let x: Vec<u32> = vec![0, 3, 9];
    assert_eq!(exp_cpu(&x, 0, 0u32), vec![1, 1, 1]);
}

#[test]
fn power_one_is_remainder() {
    let x: Vec<u32> = (0..10).collect();
    assert_eq!(exp_cpu(&x, 1, 10u32), x);
    let z: Vec<u32> = vec![15, 27, 100];
    assert_eq!(exp_cpu(&z, 1, 10u32), vec![5, 7, 0]);
}

#[test]
fn empty_input() {
    let x: Vec<i64> = Vec::new();
    assert_eq!(exp_cpu(&x, 5, 0i64), Vec::<i64>::new());
}

#[test]
fn large_exponent() {
    let x: Vec<u32> = vec![2, 3, 7];
    // 2^10 = 1024 = 1 mod 1023 and 400000 is a multiple of 10
    assert_eq!(exp_cpu(&x, 400000, 1023u32)[0], 1);
    let y = exp_cpu(&x, 400000, 2022u32);
    for i in 0..x.len() {
        assert_eq!(y[i], exp_modulo(x[i], 400000, 2022u32));
    }
}

#[test]
fn cubes_mod_seven() {
    assert_eq!(exp_modulo(3u8, 3, 7), 6);
    assert_eq!(exp_modulo(5usize, 4, 13), 1);
    assert_eq!(exp_modulo(10u128, 20, 7), 2);
}

#[test]
fn signed_remainder_truncates() {
    let x: Vec<i32> = vec![-3, -7, 4];
    assert_eq!(exp_cpu(&x, 1, 10i32), vec![-3, -7, 4]);
    assert_eq!(exp_cpu(&x, 2, 10i32), vec![9, 9, 6]);
    assert_eq!(exp_cpu(&x, 3, 10i32), vec![-7, -3, 4]);
}

#[test]
fn wrapping_multiplication() {
    // 16 * 16 = 256 wraps to 0 in u8
    assert_eq!(exp_modulo(16u8, 2, 255), 0);
    // i8::MIN % -1 overflows and gives 0
    assert_eq!(exp_cpu(&[i8::MIN], 1, -1i8), vec![0]);
    assert_eq!(exp_modulo(-2i16, 3, 100), -8);
    assert_eq!(exp_modulo(3isize, 2, 5), 4);
}
