use get_checked::GetChecked;
use get_checked::GetCheckedSliceIndex;
use get_checked::IndexErrorKind;

#[test]
fn bounds_message_interpolation_order() {
    // Distinct index and length values pin the interpolation order: the
    // first interpolated value is the requested index, the second the
    // length.
    let v = vec![1, 2, 3];
    let err = v.get_checked(5).unwrap_err();
    assert_eq!(err.message(), "index out of bounds: the len is 5 but the index is 3");
}

#[test]
fn kind_reports_bounds_operands() {
    let v = vec![1, 2, 3];
    let err = v.get_checked(5).unwrap_err();
    assert_eq!(*err.kind(), IndexErrorKind::Bounds(5, 3));
}

#[test]
fn kind_reports_order_operands() {
    let v = vec![1, 2, 3];
    let err = v.get_checked(2..1).unwrap_err();
    assert_eq!(*err.kind(), IndexErrorKind::Order(2, 1));
}

#[test]
fn kind_reports_start_range_operands() {
    let v = vec![1, 2, 3];
    let err = v.get_checked(4..).unwrap_err();
    assert_eq!(*err.kind(), IndexErrorKind::StartRange(4, 3));
}

#[test]
fn kind_reports_end_range_operands() {
    let v = vec![1, 2, 3];
    let err = v.get_checked(..4).unwrap_err();
    assert_eq!(*err.kind(), IndexErrorKind::EndRange(4, 3));
}

#[test]
fn kind_reports_end_overflow() {
    let v = vec![1, 2, 3];
    let err = v.get_checked(..=usize::MAX).unwrap_err();
    assert_eq!(*err.kind(), IndexErrorKind::EndOverflow());
}

#[test]
fn overflow_beats_order_and_length() {
    // Even with a start bound far past both the end and the length, the
    // inclusive end bound at usize::MAX is reported first.
    let v = vec![1, 2, 3];
    let err = v.get_checked(100..=usize::MAX).unwrap_err();
    assert_eq!(*err.kind(), IndexErrorKind::EndOverflow());
}

#[test]
fn order_beats_end_range() {
    // Both the order and the length check fail; the order violation wins.
    let v = vec![1, 2, 3];
    let err = v.get_checked(9..7).unwrap_err();
    assert_eq!(*err.kind(), IndexErrorKind::Order(9, 7));
}

#[test]
fn multi_digit_messages() {
    let v: Vec<u8> = Vec::new();
    let err = v.get_checked(1234567890).unwrap_err();
    assert_eq!(err.message(), "index out of bounds: the len is 1234567890 but the index is 0");
}

#[test]
fn zero_operand_messages() {
    let v: Vec<u8> = Vec::new();
    let err = v.get_checked(0).unwrap_err();
    assert_eq!(err.message(), "index out of bounds: the len is 0 but the index is 0");
}

#[test]
fn errors_compare_by_fields() {
    let v = vec![1, 2, 3];
    let a = v.get_checked(5).unwrap_err();
    let b = v.get_checked(5).unwrap_err();
    let c = v.get_checked(6).unwrap_err();
    assert_eq!(a, b);
    assert_ne!(a, c);
}

#[test]
fn empty_sequence_full_range() {
    let v: Vec<u8> = Vec::new();
    let ret = v.get_checked(..).unwrap();
    assert_eq!(ret.len(), 0);
}

#[test]
fn empty_sequence_empty_range() {
    let v: Vec<u8> = Vec::new();
    let ret = v.get_checked(0..0).unwrap();
    assert_eq!(ret.len(), 0);
    let err = v.get_checked(0..1).unwrap_err();
    assert_eq!(*err.kind(), IndexErrorKind::EndRange(1, 0));
}

#[test]
fn inclusive_empty_range_is_accepted() {
    // 5..=4 normalizes to 5..5, which is in order and in bounds.
    let v = vec![1, 2, 3, 4, 5, 6];
    let ret = v.get_checked(5..=4).unwrap();
    assert_eq!(ret.len(), 0);
}

#[test]
fn index_side_trait_calls() {
    let v = vec![10, 40, 30];
    assert_eq!(Ok(&40), 1.get_checked(&v));
    assert_eq!(Ok(&[10, 40][..]), (0..2).get_checked(&v));
    let err = 3.get_checked(&v).unwrap_err();
    assert_eq!(*err.kind(), IndexErrorKind::Bounds(3, 3));
}

#[test]
fn mut_view_writes_land_in_range() {
    let mut v = vec![0, 1, 2, 3, 4, 5];
    {
        let sub = v.get_checked_mut(2..4).unwrap();
        sub[0] = 20;
        sub[1] = 30;
    }
    assert_eq!(v, vec![0, 1, 20, 30, 4, 5]);
}

#[test]
fn mut_element_write_lands_at_position() {
    let mut v = vec![0, 1, 2];
    {
        let element = v.get_checked_mut(1).unwrap();
        *element = 42;
    }
    assert_eq!(v, vec![0, 42, 2]);
}

#[test]
fn mut_full_range_view_is_whole() {
    let mut v = vec![7, 8];
    {
        let all = v.get_checked_mut(..).unwrap();
        all[0] = 9;
    }
    assert_eq!(v, vec![9, 8]);
}

struct MyError {
    details: String,
}

impl From<get_checked::IndexError> for MyError {
    fn from(err: get_checked::IndexError) -> MyError {
        MyError { details: err.message() }
    }
}

fn fetch(v: &[i32]) -> Result<i32, MyError> {
    let x = v.get_checked(4)?;
    Ok(*x)
}

#[test]
fn wrapping_into_custom_error() {
    let v = [1, 2, 3];
    let e = fetch(&v).unwrap_err();
    assert_eq!(e.details, "index out of bounds: the len is 4 but the index is 3");
}
