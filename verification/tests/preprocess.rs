use kerbo::preprocess::{strip_chroma_yuyv, subtract};

#[test]
fn test_chroma_stripper_u8() {
    let data = vec![1 as u8, 2, 1, 2, 1, 2, 1, 2];
    let mut i = strip_chroma_yuyv(data.iter());
    assert_eq!(i.next(), Some(&1));
    assert_eq!(i.next(), Some(&1));
    assert_eq!(i.next(), Some(&1));
    assert_eq!(i.next(), Some(&1));
    assert_eq!(i.next(), None);
}

#[test]
fn test_chroma_stripper_i32() {
    let data = vec![1 as i32, 2, 1, 2, 1, 2, 1, 2];
    let mut i = strip_chroma_yuyv(data.iter());
    assert_eq!(i.next(), Some(&1));
    assert_eq!(i.next(), Some(&1));
    assert_eq!(i.next(), Some(&1));
    assert_eq!(i.next(), Some(&1));
    assert_eq!(i.next(), None);
}

#[test]
fn test_subtract_u8() {
    let d1 = vec![10 as u8, 9, 8, 7, 6, 5];
    let d2 = vec![4 as u8, 5, 6, 7, 8, 9];
    let mut i = subtract(d1.iter(), d2.iter());
    assert_eq!(i.next(), Some(6));
    assert_eq!(i.next(), Some(4));
    assert_eq!(i.next(), Some(2));
    assert_eq!(i.next(), Some(0));
    assert_eq!(i.next(), Some(0));
    assert_eq!(i.next(), Some(0));
    assert_eq!(i.next(), None);
}

#[test]
fn test_subtract_i32() {
    let d1 = vec![10 as i32, 9, 8, 7, 6, 5];
    let d2 = vec![4 as i32, 5, 6, 7, 8, 9];
    let mut i = subtract(d1.iter(), d2.iter());
    assert_eq!(i.next(), Some(6));
    assert_eq!(i.next(), Some(4));
    assert_eq!(i.next(), Some(2));
    assert_eq!(i.next(), Some(0));
    assert_eq!(i.next(), Some(0));
    assert_eq!(i.next(), Some(0));
    assert_eq!(i.next(), None);
}

#[test]
fn chroma_strip_keeps_the_even_places() {
    let data = vec![10u16, 11, 20, 21];
    let mut i = strip_chroma_yuyv(data.iter());
    assert_eq!(i.next(), Some(&10));
    assert_eq!(i.next(), Some(&20));
    assert_eq!(i.next(), None);
    assert_eq!(i.next(), None);
}

#[test]
fn chroma_strip_of_nothing_is_empty() {
    let data: Vec<u8> = Vec::new();
    let mut i = strip_chroma_yuyv(data.iter());
    assert_eq!(i.next(), None);
}

#[test]
fn chroma_strip_of_odd_length_keeps_the_last_sample() {
    let data = vec![7u8, 8, 9];
    let mut i = strip_chroma_yuyv(data.iter());
    assert_eq!(i.next(), Some(&7));
    assert_eq!(i.next(), Some(&9));
    assert_eq!(i.next(), None);
}

#[test]
fn subtract_zeros_changes_nothing() {
    let x = vec![0u8, 1, 127, 255];
    let zeros = vec![0u8; 4];
    let mut i = subtract(x.iter(), zeros.iter());
    assert_eq!(i.next(), Some(0));
    assert_eq!(i.next(), Some(1));
    assert_eq!(i.next(), Some(127));
    assert_eq!(i.next(), Some(255));
    assert_eq!(i.next(), None);
}

#[test]
fn subtract_clamps_at_zero() {
    let m = vec![3u8];
    let s = vec![5u8];
    let mut i = subtract(m.iter(), s.iter());
    assert_eq!(i.next(), Some(0));
    assert_eq!(i.next(), None);
}

#[test]
fn subtract_stops_at_the_shorter_source() {
    let m = vec![9u32, 9, 9];
    let s = vec![1u32];
    let mut i = subtract(m.iter(), s.iter());
    assert_eq!(i.next(), Some(8));
    assert_eq!(i.next(), None);
}

#[test]
fn subtract_of_a_negative_sample_and_zero_is_zero() {
    let m = vec![-3i32];
    let s = vec![0i32];
    let mut i = subtract(m.iter(), s.iter());
    assert_eq!(i.next(), Some(0));
}

#[test]
fn subtract_stays_at_the_ceiling_of_a_signed_type() {
    let m = vec![i8::MAX, 100i8, i8::MIN];
    let s = vec![-1i8, -100, i8::MAX];
    let mut i = subtract(m.iter(), s.iter());
    assert_eq!(i.next(), Some(i8::MAX));
    assert_eq!(i.next(), Some(i8::MAX));
    assert_eq!(i.next(), Some(0));
    assert_eq!(i.next(), None);
    let m = vec![i64::MAX, 5i64];
    let s = vec![-1i64, 2];
    let mut i = subtract(m.iter(), s.iter());
    assert_eq!(i.next(), Some(i64::MAX));
    assert_eq!(i.next(), Some(3));
}
