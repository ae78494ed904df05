use lin::Numeric;

fn identities_hold<N: Numeric + Copy + std::fmt::Debug>(x: N) {
    assert_eq!(x + N::zero(), x);
    assert_eq!(x * N::one(), x);
    assert_eq!(x - N::zero(), x);
    assert_eq!(x / N::one(), x);
}

#[test]
fn test_zero_and_one() {
    assert_eq!(<u8 as Numeric>::zero(), 0);
    assert_eq!(<u8 as Numeric>::one(), 1);
    assert_eq!(<u16 as Numeric>::zero(), 0);
    assert_eq!(<u16 as Numeric>::one(), 1);
    assert_eq!(<u32 as Numeric>::zero(), 0);
    assert_eq!(<u32 as Numeric>::one(), 1);
    assert_eq!(<u64 as Numeric>::zero(), 0);
    assert_eq!(<u64 as Numeric>::one(), 1);
    assert_eq!(<usize as Numeric>::zero(), 0);
    assert_eq!(<usize as Numeric>::one(), 1);
    assert_eq!(<i8 as Numeric>::zero(), 0);
    assert_eq!(<i8 as Numeric>::one(), 1);
    assert_eq!(<i16 as Numeric>::zero(), 0);
    assert_eq!(<i16 as Numeric>::one(), 1);
    assert_eq!(<i32 as Numeric>::zero(), 0);
    assert_eq!(<i32 as Numeric>::one(), 1);
    assert_eq!(<i64 as Numeric>::zero(), 0);
    assert_eq!(<i64 as Numeric>::one(), 1);
    assert_eq!(<isize as Numeric>::zero(), 0);
    assert_eq!(<isize as Numeric>::one(), 1);
}

#[test]
fn test_identities_at_the_limits() {
    identities_hold(u8::MAX);
    identities_hold(u64::MAX);
    identities_hold(usize::MAX);
    identities_hold(i8::MIN);
    identities_hold(i8::MAX);
    identities_hold(i32::MIN);
    identities_hold(i64::MAX);
    identities_hold(isize::MIN);
    identities_hold(0u16);
    identities_hold(-1i16);
    identities_hold(7u32);
}
