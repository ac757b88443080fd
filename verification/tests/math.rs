use sen_otc_prog::errors::ErrorCode;
use sen_otc_prog::math::scale;

#[test]
fn scale_small_values() {
    assert_eq!(scale(500, 2000, 1000), Ok(1000));
    assert_eq!(scale(1, 3, 2), Ok(1));
    assert_eq!(scale(7, 1, 3), Ok(2));
    assert_eq!(scale(0, 123, 7), Ok(0));
    assert_eq!(scale(10, 0, 7), Ok(0));
}

#[test]
fn scale_zero_divisor_is_overflow() {
    assert_eq!(scale(5, 5, 0), Err(ErrorCode::Overflow));
    assert_eq!(scale(0, 0, 0), Err(ErrorCode::Overflow));
}

#[test]
fn scale_truncates_toward_zero() {
    assert_eq!(scale(1, 1, 2), Ok(0));
    assert_eq!(scale(999, 999, 1000), Ok(998));
    assert_eq!(scale(3, 2000, 3000), Ok(2));
}

#[test]
fn scale_near_max_values() {
    assert_eq!(scale(u64::MAX, 1, 1), Ok(u64::MAX));
    assert_eq!(scale(u64::MAX, 2, 2), Ok(u64::MAX));
    assert_eq!(scale(u64::MAX, 2, 1), Err(ErrorCode::Overflow));
    assert_eq!(scale(u64::MAX, u64::MAX, u64::MAX), Ok(u64::MAX));
    assert_eq!(scale(1 << 63, 4, 2), Err(ErrorCode::Overflow));
    assert_eq!(scale(1 << 63, 4, 4), Ok(1 << 63));
    assert_eq!(scale(u64::MAX, u64::MAX, 1), Err(ErrorCode::Overflow));
}

#[test]
fn scale_matches_wide_reference() {
    // Deterministic pseudo-random operands, compared leg by leg against a
    // 128-bit reference computation.
    let mut x: u64 = 0x9E37_79B9_7F4A_7C15;
    let mut vals: Vec<u64> = vec![0, 1, 2, u64::MAX, u64::MAX - 1, 1 << 63];
    for _ in 0..300 {
        x = x.wrapping_mul(6364136223846793005).wrapping_add(1442695040888963407);
        vals.push(x);
    }
    for w in vals.windows(3) {
        let (y, m, d) = (w[0], w[1], w[2]);
        let got = scale(y, m, d);
        if d == 0 {
            assert_eq!(got, Err(ErrorCode::Overflow));
        } else {
            let wide = (y as u128) * (m as u128) / (d as u128);
            if wide > u64::MAX as u128 {
                assert_eq!(got, Err(ErrorCode::Overflow));
            } else {
                assert_eq!(got, Ok(wide as u64));
            }
        }
    }
}
