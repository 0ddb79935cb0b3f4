use cgmath::{cast, CastTo, NumCast, Primitive};

#[test]
fn cast_to_own_kind_round_trips() {
    for x in [0u8, 1, 127, 128, 255] {
        assert_eq!(<u8 as NumCast>::from(x.cast::<u8>()), x);
    }
    for x in [i8::MIN, -1, 0, 1, i8::MAX] {
        assert_eq!(<i8 as NumCast>::from(x.cast::<i8>()), x);
    }
    for x in [0u16, 300, u16::MAX] {
        assert_eq!(<u16 as NumCast>::from(x.cast::<u16>()), x);
    }
    for x in [i16::MIN, -300, 0, i16::MAX] {
        assert_eq!(<i16 as NumCast>::from(x.cast::<i16>()), x);
    }
    for x in [0u32, 70000, u32::MAX] {
        assert_eq!(<u32 as NumCast>::from(x.cast::<u32>()), x);
    }
    for x in [i32::MIN, -70000, 0, i32::MAX] {
        assert_eq!(<i32 as NumCast>::from(x.cast::<i32>()), x);
    }
    for x in [0u64, 1 << 40, u64::MAX] {
        assert_eq!(<u64 as NumCast>::from(x.cast::<u64>()), x);
    }
    for x in [i64::MIN, -(1 << 40), 0, i64::MAX] {
        assert_eq!(<i64 as NumCast>::from(x.cast::<i64>()), x);
    }
    for x in [0usize, 12345, usize::MAX] {
        assert_eq!(<usize as NumCast>::from(x.cast::<usize>()), x);
    }
    for x in [isize::MIN, -12345, 0, isize::MAX] {
        assert_eq!(<isize as NumCast>::from(x.cast::<isize>()), x);
    }
}

#[test]
fn widening_keeps_value() {
    assert_eq!(255u8.cast::<u32>(), 255u32);
    assert_eq!(255u8.cast::<i16>(), 255i16);
    assert_eq!(u16::MAX.to_u64(), 65535u64);
    assert_eq!(u32::MAX.to_i64(), 4294967295i64);
    assert_eq!((-1i8).cast::<i64>(), -1i64);
    assert_eq!(i16::MIN.to_i32(), -32768i32);
    assert_eq!(i32::MIN.to_i64(), -2147483648i64);
    assert_eq!(200u8.to_uint(), 200usize);
    assert_eq!((-100i8).to_int(), -100isize);
}

#[test]
fn widening_then_back_gives_source() {
    let x: u8 = 201;
    let wide: u64 = x.cast();
    assert_eq!(<u8 as NumCast>::from(wide), x);
    let y: i16 = -12000;
    let wide: i64 = y.cast();
    assert_eq!(<i16 as NumCast>::from(wide), y);
}

#[test]
fn narrowing_truncates_unsigned() {
    assert_eq!(300u16.to_u8(), 44u8);
    assert_eq!(256u32.to_u8(), 0u8);
    assert_eq!(70000u32.to_u16(), 4464u16);
    assert_eq!((1u64 << 32 | 7).to_u32(), 7u32);
    assert_eq!(u64::MAX.to_u8(), 255u8);
}

#[test]
fn narrowing_reinterprets_sign() {
    assert_eq!(128u8.to_i8(), -128i8);
    assert_eq!(255u8.to_i8(), -1i8);
    assert_eq!(u16::MAX.to_i8(), -1i8);
    assert_eq!((-1i8).to_u8(), 255u8);
    assert_eq!((-1i32).to_u32(), u32::MAX);
    assert_eq!((-1i64).to_u16(), 65535u16);
    assert_eq!((-2i16).to_u64(), u64::MAX - 1);
    assert_eq!(70000i32.to_i16(), 4464i16);
    assert_eq!(40000i32.to_i16(), -25536i16);
    assert_eq!(i64::MIN.to_i32(), 0i32);
    assert_eq!(u32::MAX.to_i32(), -1i32);
    assert_eq!((-1isize).to_uint(), usize::MAX);
    assert_eq!(usize::MAX.to_int(), -1isize);
}

#[test]
fn from_matches_to_methods() {
    assert_eq!(<u8 as NumCast>::from(300u16), 300u16.to_u8());
    assert_eq!(<i8 as NumCast>::from(200u8), 200u8.to_i8());
    assert_eq!(<u16 as NumCast>::from(-1i32), 65535u16);
    assert_eq!(<i16 as NumCast>::from(40000u32), -25536i16);
    assert_eq!(<u32 as NumCast>::from(-1i8), u32::MAX);
    assert_eq!(<i32 as NumCast>::from(u64::MAX), -1i32);
    assert_eq!(<u64 as NumCast>::from(-1i64), u64::MAX);
    assert_eq!(<i64 as NumCast>::from(u64::MAX), -1i64);
    assert_eq!(<usize as NumCast>::from(7u8), 7usize);
    assert_eq!(<isize as NumCast>::from(-7i8), -7isize);
}

#[test]
fn free_cast_agrees_with_method() {
    let a: u8 = cast(300u16);
    assert_eq!(a, 44u8);
    let b: i32 = cast(-5i8);
    assert_eq!(b, -5i32);
    let c: u16 = cast(-1i64);
    assert_eq!(c, 65535u16);
    let d: i8 = cast(0x1_80u32);
    assert_eq!(d, -128i8);
    let e: u64 = cast(12usize);
    assert_eq!(e, 12u64.cast::<u64>());
}

#[test]
fn every_target_from_one_source() {
    let x: i32 = -129;
    assert_eq!(x.to_u8(), 127u8);
    assert_eq!(x.to_u16(), 65407u16);
    assert_eq!(x.to_u32(), 4294967167u32);
    assert_eq!(x.to_u64(), 18446744073709551487u64);
    assert_eq!(x.to_i8(), 127i8);
    assert_eq!(x.to_i16(), -129i16);
    assert_eq!(x.to_i32(), -129i32);
    assert_eq!(x.to_i64(), -129i64);
    assert_eq!(x.to_int(), -129isize);
    assert_eq!(x.to_uint(), usize::MAX - 128);
}

fn low_byte<T: Primitive>(x: T) -> u8 {
    x.to_u8()
}

#[test]
fn primitive_trait_is_usable_generically() {
    assert_eq!(low_byte(0x1234u16), 0x34u8);
    assert_eq!(low_byte(-1i64), 255u8);
    assert_eq!(low_byte(0xABCD_EF01u32), 0x01u8);
}

#[test]
fn narrowing_in_steps_matches_direct_cast() {
    for x in [0u32, 255, 256, 300, 40000, 70000, 0x8000_0080, u32::MAX] {
        let direct: u8 = x.cast();
        let via_i16: u8 = x.cast::<i16>().cast();
        let via_u16: u8 = x.cast::<u16>().cast();
        assert_eq!(direct, via_i16);
        assert_eq!(direct, via_u16);
    }
    for x in [i64::MIN, -70000, -129, -1, 0, 127, 128, 40000, i64::MAX] {
        let direct: i8 = x.cast();
        let via_u32: i8 = x.cast::<u32>().cast();
        let via_i16: i8 = x.cast::<i16>().cast();
        assert_eq!(direct, via_u32);
        assert_eq!(direct, via_i16);
    }
}

#[test]
fn cast_keeps_low_bits() {
    let x: i64 = -300;
    let r: u16 = x.cast();
    assert_eq!((r as i64 - x) % 65536, 0);
    assert_eq!(r, 65236u16);
    let y: u64 = 0x1234_5678_9ABC_DEF0;
    assert_eq!(y.to_u32(), 0x9ABC_DEF0u32);
    assert_eq!(y.to_u16(), 0xDEF0u16);
    assert_eq!(y.to_i16(), 0xDEF0u16 as i16);
    assert_eq!(y.to_i8(), -16i8);
}
