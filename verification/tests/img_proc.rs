use kerbo::img_proc::MemImage;

#[test]
fn test_image_sub() {
    let mut a = MemImage { size: (3, 3), data: vec![9, 8, 7, 8, 7, 6, 7, 6, 5], stride: 3 };
    let b = MemImage { size: (3, 3), data: vec![1, 2, 3, 4, 5, 6, 7, 8, 9], stride: 3 };
    a.subtract(b);
    assert_eq!(a.data, vec![8, 6, 4, 4, 2, 0, 0, -2, -4]);
}

#[test]
fn test_from_iterator() {
    let v: Vec<u8> = vec![1, 2, 3, 4, 5, 6, 7, 8, 9];
    let i = v.into_iter();
    let m = MemImage::from_iterator(i, (3, 3));
    assert_eq!(m.data, vec![1, 2, 3, 4, 5, 6, 7, 8, 9]);
    assert_eq!(m.stride, 3);
    assert_eq!(m.size, (3, 3));
}

#[test]
fn subtract_stops_at_the_shorter_image() {
    let mut a = MemImage { size: (1, 4), data: vec![10u16, 20, 30, 40], stride: 4 };
    let b = MemImage { size: (1, 2), data: vec![1u16, 2], stride: 2 };
    a.subtract(b);
    assert_eq!(a.data, vec![9, 18, 30, 40]);
    assert_eq!(a.size, (1, 4));
    assert_eq!(a.stride, 4);
}

#[test]
fn subtract_ignores_what_the_other_image_has_more() {
    let mut a = MemImage { size: (1, 2), data: vec![5i32, 5], stride: 2 };
    let b = MemImage { size: (1, 3), data: vec![1i32, 7, 100], stride: 3 };
    a.subtract(b);
    assert_eq!(a.data, vec![4, -2]);
}

#[test]
fn from_iterator_of_nothing_is_empty() {
    let v: Vec<i32> = Vec::new();
    let m = MemImage::from_iterator(v.into_iter(), (0, 0));
    assert!(m.data.is_empty());
    assert_eq!(m.stride, 0);
}
