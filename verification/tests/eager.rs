use err_or::OptionExt;

#[test]
fn err_or_present_is_err() {
    let x = Some("foo");
    assert_eq!(x.err_or(0), Err("foo"));
}

#[test]
fn err_or_absent_is_ok() {
    let x: Option<&str> = None;
    assert_eq!(x.err_or(0), Ok(0));
}

#[test]
fn err_or_ignores_the_offered_value_when_present() {
    assert_eq!(Some(1u8).err_or("a"), Err(1u8));
    assert_eq!(Some(1u8).err_or("b"), Err(1u8));
    assert_eq!(Some(1u8).err_or(()), Err(1u8));
}

#[test]
fn err_or_hands_back_exactly_the_offered_value_when_absent() {
    let none: Option<u8> = None;
    assert_eq!(none.err_or(u64::MAX), Ok(u64::MAX));
    assert_eq!(none.err_or(-3i32), Ok(-3i32));
    assert_eq!(none.err_or(()), Ok(()));
    assert_eq!(none.err_or(vec![1, 2, 3]), Ok(vec![1, 2, 3]));
}

#[test]
fn err_or_moves_owned_payloads() {
    let payload = String::from("disk full");
    let res: Result<Vec<u8>, String> = Some(payload).err_or(vec![9u8]);
    assert_eq!(res, Err(String::from("disk full")));

    let none: Option<String> = None;
    let res = none.err_or(String::from("fine"));
    assert_eq!(res, Ok(String::from("fine")));
}

#[test]
fn err_or_leaves_a_copied_option_as_it_was() {
    let present = Some(5i64);
    let absent: Option<i64> = None;
    assert_eq!(present.err_or('x'), Err(5i64));
    assert_eq!(absent.err_or('x'), Ok('x'));
    assert_eq!(present, Some(5i64));
    assert_eq!(absent, None);
    // A second conversion of the same value gives the same result.
    assert_eq!(present.err_or('x'), Err(5i64));
    assert_eq!(absent.err_or('x'), Ok('x'));
}

#[test]
fn err_or_error_side_gives_the_option_back() {
    let present = Some(17u16);
    let absent: Option<u16> = None;
    assert_eq!(present.err_or(0u8).err(), present);
    assert_eq!(absent.err_or(0u8).err(), absent);
    assert!(present.err_or(0u8).is_err());
    assert!(absent.err_or(0u8).is_ok());
}

#[test]
fn err_or_treats_a_nested_option_as_one_value() {
    let inner_absent: Option<Option<u8>> = Some(None);
    assert_eq!(inner_absent.err_or(1u8), Err(None));
    let inner_present: Option<Option<u8>> = Some(Some(2));
    assert_eq!(inner_present.err_or(1u8), Err(Some(2)));
    let outer_absent: Option<Option<u8>> = None;
    assert_eq!(outer_absent.err_or(1u8), Ok(1u8));
}

#[test]
fn err_or_can_offer_an_option_or_a_result() {
    let none: Option<u8> = None;
    let offered: Option<u8> = None;
    assert_eq!(none.err_or(offered), Ok(None));
    let offered: Result<u8, u8> = Err(4);
    assert_eq!(Some(3u8).err_or(offered), Err(3u8));
    assert_eq!(none.err_or(offered), Ok(Err(4)));
}

#[test]
fn err_or_works_through_the_trait_alone() {
    fn flip<X: OptionExt>(x: X) -> Result<u8, X::Item> {
        x.err_or(1u8)
    }
    assert_eq!(flip(Some('e')), Err('e'));
    assert_eq!(flip(None::<char>), Ok(1u8));
}
