use rtlsdr::buffer::SharedBuffer;
use rtlsdr::error::SdrError;
use rtlsdr::sample::Sample;

fn s(re: i16, im: i16) -> Sample {
    Sample { re, im }
}

#[test]
fn fifo_order() {
    let mut b = SharedBuffer::new(8);
    for k in 0..5 {
        assert_eq!(b.push(s(k, -k)), Ok(()));
    }
    assert_eq!(b.len(), 5);
    for k in 0..5 {
        assert_eq!(b.pop(), Ok(s(k, -k)));
    }
    assert_eq!(b.pop(), Err(SdrError::Empty));
}

#[test]
fn overflow_is_reported_and_keeps_contents() {
    let mut b = SharedBuffer::new(2);
    assert_eq!(b.capacity(), 2);
    assert_eq!(b.push(s(1, 1)), Ok(()));
    assert_eq!(b.push(s(2, 2)), Ok(()));
    assert_eq!(b.free(), 0);
    assert_eq!(b.push(s(3, 3)), Err(SdrError::Overflow));
    assert_eq!(b.len(), 2);
    assert_eq!(b.pop(), Ok(s(1, 1)));
    assert_eq!(b.pop(), Ok(s(2, 2)));
    assert_eq!(b.pop(), Err(SdrError::Empty));
}

#[test]
fn push_all_is_all_or_nothing() {
    let mut b = SharedBuffer::new(3);
    assert_eq!(b.push_all(&vec![s(1, 0), s(2, 0)]), Ok(()));
    assert_eq!(b.push_all(&vec![s(3, 0), s(4, 0)]), Err(SdrError::Overflow));
    assert_eq!(b.len(), 2);
    assert_eq!(b.push_all(&vec![s(3, 0)]), Ok(()));
    assert_eq!(b.pop(), Ok(s(1, 0)));
    assert_eq!(b.pop(), Ok(s(2, 0)));
    assert_eq!(b.pop(), Ok(s(3, 0)));
}

#[test]
fn interleaved_push_and_pop() {
    let mut b = SharedBuffer::new(2);
    assert_eq!(b.push(s(1, 0)), Ok(()));
    assert_eq!(b.push(s(2, 0)), Ok(()));
    assert_eq!(b.pop(), Ok(s(1, 0)));
    assert_eq!(b.push(s(3, 0)), Ok(()));
    assert_eq!(b.pop(), Ok(s(2, 0)));
    assert_eq!(b.pop(), Ok(s(3, 0)));
}

#[test]
fn largest_capacity() {
    let mut b = SharedBuffer::new(1000);
    for k in 0..1000 {
        assert_eq!(b.push(s((k % 200) as i16, 0)), Ok(()));
    }
    assert_eq!(b.push(s(0, 0)), Err(SdrError::Overflow));
    assert_eq!(b.pop(), Ok(s(0, 0)));
    assert_eq!(b.pop(), Ok(s(1, 0)));
}
