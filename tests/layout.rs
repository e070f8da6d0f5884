use lune_std_ffi::{CArr, CPtr, CStruct, CVoidInfo, FfiError};

#[test]
fn array_offsets_are_multiples_of_element_size() {
    let a = CArr::new(8, 3);
    assert_eq!(a.size(), 24);
    assert_eq!(a.length(), 3);
    assert_eq!(a.field_size(), 8);
    assert_eq!(a.offset(0), Ok(0));
    assert_eq!(a.offset(1), Ok(8));
    assert_eq!(a.offset(2), Ok(16));
}

#[test]
fn array_offset_past_length_is_index_error() {
    let a = CArr::new(8, 3);
    assert_eq!(a.offset(3), Err(FfiError::IndexError));
    assert_eq!(a.offset(100), Err(FfiError::IndexError));
    assert_eq!(a.offset(-1), Err(FfiError::IndexError));
}

#[test]
fn zero_length_array_has_no_offsets() {
    let a = CArr::new(4, 0);
    assert_eq!(a.size(), 0);
    assert_eq!(a.offset(0), Err(FfiError::IndexError));
}

#[test]
fn array_renders_inner_and_length() {
    let a = CArr::new(4, 12);
    assert_eq!(a.stringify("int"), " int ; 12 ");
    let b = CArr::new(4, 0);
    assert_eq!(b.stringify("int"), " int ; 0 ");
}

#[test]
fn struct_of_two_ints() {
    let s = CStruct::new(vec![4, 4], vec![0, 4], 8).unwrap();
    assert_eq!(s.len(), 2);
    assert_eq!(s.size(), 8);
    assert_eq!(s.offset(0), Ok(0));
    assert_eq!(s.offset(1), Ok(4));
    assert_eq!(s.offset(2), Err(FfiError::IndexError));
}

#[test]
fn struct_with_padding() {
    // a char followed by an int, padded to the int's alignment
    let s = CStruct::new(vec![1, 4], vec![0, 4], 8).unwrap();
    assert_eq!(s.offset(1), Ok(4));
    assert_eq!(s.size(), 8);
}

#[test]
fn struct_layout_must_be_sound() {
    assert!(CStruct::new(vec![4, 4], vec![0], 8).is_none());
    assert!(CStruct::new(vec![4, 4], vec![4, 0], 8).is_none());
    assert!(CStruct::new(vec![4, 4], vec![0, 4], 7).is_none());
    assert!(CStruct::new(vec![usize::MAX], vec![1], usize::MAX).is_none());
    assert!(CStruct::new(vec![], vec![], 0).is_some());
}

#[test]
fn struct_renders_members_and_size() {
    let s = CStruct::new(vec![1, 4], vec![0, 4], 8).unwrap();
    let names = vec![String::from("u8"), String::from("i32")];
    assert_eq!(s.stringify(Some(&names)), " u8, i32, size = 8 ");
    assert_eq!(s.stringify(None), "unnamed");
    let empty = CStruct::new(vec![], vec![], 0).unwrap();
    assert_eq!(empty.stringify(Some(&vec![])), " size = 0 ");
}

#[test]
fn pointer_renders_inner() {
    assert_eq!(CPtr::stringify("CStruct", " int, size = 4 "), " <CStruct( int, size = 4 )> ");
    assert_eq!(CPtr::new().size(), std::mem::size_of::<usize>());
}

#[test]
fn void_has_no_size_or_sign() {
    let v = CVoidInfo::new();
    assert_eq!(v.get_size(), 0);
    assert!(!v.get_signedness());
}
