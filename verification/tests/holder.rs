use maybe_option::AbsentValueError;
use maybe_option::MaybeOption;

#[test]
fn test_value() {
    let mut mb: MaybeOption<usize, false> = 1.into();
    *mb.value_mut() += 1;
    assert_eq!(*mb.value(), 2);
}

#[test]
fn test_option() {
    let mut mb: MaybeOption<usize, true> = Some(1).into();
    if let Some(ref mut v) = *mb.option_mut() {
        *v += 1
    }
    assert_eq!(*mb.option(), Some(2));
}

#[test]
fn plain_reads_back_exactly() {
    let mb: MaybeOption<String, false> = MaybeOption::from(String::from("held"));
    assert_eq!(mb.value(), "held");
}

#[test]
fn optional_reads_back_present() {
    let mb: MaybeOption<u32, true> = MaybeOption::from(Some(5u32));
    assert_eq!(*mb.option(), Some(5));
}

#[test]
fn optional_reads_back_absent() {
    let mb: MaybeOption<u32, true> = MaybeOption::from(None::<u32>);
    assert_eq!(*mb.option(), None);
}

#[test]
fn plain_to_optional_is_present() {
    let plain: MaybeOption<i64, false> = MaybeOption::from(-3i64);
    let opt: MaybeOption<i64, true> = MaybeOption::from(plain);
    assert_eq!(*opt.option(), Some(-3));
}

#[test]
fn present_optional_to_plain_succeeds() {
    let opt: MaybeOption<u8, true> = MaybeOption::from(Some(200u8));
    let plain = MaybeOption::<u8, false>::try_from(opt).unwrap();
    assert_eq!(*plain.value(), 200);
}

#[test]
fn absent_optional_to_plain_fails() {
    let opt: MaybeOption<u8, true> = MaybeOption::from(None::<u8>);
    let res = MaybeOption::<u8, false>::try_from(opt);
    assert_eq!(res.err(), Some(AbsentValueError));
}

#[test]
fn round_trip_preserves_value() {
    let plain: MaybeOption<u64, false> = MaybeOption::from(42u64);
    let opt: MaybeOption<u64, true> = MaybeOption::from(plain);
    let back = MaybeOption::<u64, false>::try_from(opt).unwrap();
    assert_eq!(*back.value(), 42);
}

#[test]
fn optional_mutation_can_toggle_presence() {
    let mut mb: MaybeOption<u32, true> = MaybeOption::from(Some(7u32));
    *mb.option_mut() = None;
    assert_eq!(*mb.option(), None);
    *mb.option_mut() = Some(9);
    assert_eq!(*mb.option(), Some(9));
}

#[test]
fn plain_mutation_replaces_value() {
    let mut mb: MaybeOption<String, false> = MaybeOption::from(String::from("before"));
    *mb.value_mut() = String::from("after");
    assert_eq!(mb.value(), "after");
}

#[test]
fn clone_keeps_plain_value() {
    let mb: MaybeOption<u64, false> = MaybeOption::from(11u64);
    let copy = mb.clone();
    assert_eq!(*copy.value(), 11);
    assert_eq!(*mb.value(), 11);
}

#[test]
fn clone_keeps_optional_contents() {
    let present: MaybeOption<u64, true> = MaybeOption::from(Some(4u64));
    assert_eq!(*present.clone().option(), Some(4));
    let absent: MaybeOption<u64, true> = MaybeOption::from(None::<u64>);
    assert_eq!(*absent.clone().option(), None);
}

#[test]
fn copy_duplicates_the_holder() {
    let mb: MaybeOption<u8, false> = MaybeOption::from(3u8);
    let dup = mb;
    assert_eq!(*mb.value(), 3);
    assert_eq!(*dup.value(), 3);
}
