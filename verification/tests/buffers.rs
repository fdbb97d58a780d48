use abstractions::buffer::{Buffer, BufferError};
use abstractions::growable_buffer::Buffer as GrowableBuffer;
use abstractions::unix_app::{Buffer as SizedBuffer, BufferPool};

#[test]
fn buffer_new_has_zero_bytes_and_no_data() {
    let mut b = Buffer::new(8);
    assert_eq!(b.get_data_len(), 0);
    assert_eq!(b.get_offset(), 0);
    assert_eq!(b.as_free_slice(), &[0u8; 8][..]);
    assert!(b.capacity() >= 8);
}

#[test]
fn buffer_from_vec_holds_all_as_data() {
    let b = Buffer::from_vec(vec![1, 2, 3]);
    assert_eq!(b.as_data_slice(), &[1, 2, 3][..]);
    assert_eq!(b.get_data_len(), 3);
}

#[test]
fn buffer_from_text_and_string() {
    let a = Buffer::from_text("abc");
    assert_eq!(a.as_data_slice(), b"abc");
    let b = Buffer::from_string(String::from("xy"));
    assert_eq!(b.as_data_slice(), b"xy");
}

#[test]
fn buffer_consume_part_then_all() {
    let mut b = Buffer::from_vec(vec![1, 2, 3, 4]);
    b.consume(1);
    assert_eq!(b.get_offset(), 1);
    assert_eq!(b.as_data_slice(), &[2, 3, 4][..]);
    b.consume(3);
    assert_eq!(b.get_offset(), 0);
    assert_eq!(b.get_data_len(), 0);
}

#[test]
fn buffer_set_data_len_refuses_beyond_bytes() {
    let mut b = Buffer::new(4);
    assert!(b.set_data_len(4).is_ok());
    assert_eq!(b.get_data_len(), 4);
    let e = b.set_data_len(5).unwrap_err();
    assert_eq!(e, "data_len (5) exceeds physical buffer size (4)");
    assert_eq!(b.get_data_len(), 4);
}

#[test]
fn buffer_grow_data_len_extends_data() {
    let mut b = Buffer::new(10);
    b.set_data_len(2).unwrap();
    b.grow_data_len(3).unwrap();
    assert_eq!(b.get_data_len(), 5);
    let e = b.grow_data_len(6).unwrap_err();
    assert_eq!(e, "data_len (11) exceeds physical buffer size (10)");
}

#[test]
fn buffer_free_slice_write_then_grow() {
    let mut b = Buffer::new(4);
    {
        let free = b.as_mut_free_slice();
        free[0] = 7;
        free[1] = 8;
    }
    b.grow_data_len(2).unwrap();
    assert_eq!(b.as_data_slice(), &[7, 8][..]);
    b.as_mut_data_slice()[0] = 9;
    assert_eq!(b.as_data_slice(), &[9, 8][..]);
}

#[test]
fn buffer_resize_keeps_prefix_and_zero_fills() {
    let mut b = Buffer::from_vec(vec![5, 6]);
    b.resize(4);
    b.set_data_len(4).unwrap();
    assert_eq!(b.as_data_slice(), &[5, 6, 0, 0][..]);
    b.resize(1);
    b.clear();
    assert_eq!(b.as_free_slice(), &[5][..]);
}

#[test]
fn buffer_error_variants_carry_fields() {
    let e = BufferError::DataLenIsLessReadableType { required: 128, available: 4, structure: String::from("siginfo") };
    match e {
        BufferError::DataLenIsLessReadableType { required, available, .. } => {
            assert_eq!(required, 128);
            assert_eq!(available, 4);
        }
        _ => panic!("wrong variant"),
    }
}

#[test]
fn sized_buffer_reallocate_grows_and_shrinks() {
    let mut b = SizedBuffer::new(4);
    assert_eq!(b.get_buffer_len(), 4);
    b.set_data_len(3);
    b.get_mut_buffer_slice()[0] = 1;
    b.reallocate(8);
    assert_eq!(b.get_buffer_len(), 8);
    assert_eq!(b.get_setting_len(), 8);
    assert_eq!(b.get_data_len(), 3);
    assert_eq!(b.get_data_slice(), &[1, 0, 0][..]);
    b.reallocate(2);
    assert_eq!(b.get_buffer_len(), 2);
    assert_eq!(b.get_data_len(), 0);
}

#[test]
fn sized_buffer_try_new_zero_and_huge() {
    let mut b = SizedBuffer::try_new(0).unwrap();
    assert_eq!(b.get_buffer_len(), 0);
    assert!(SizedBuffer::try_new(usize::MAX).is_err());
    let mut c = SizedBuffer::try_new(16).unwrap();
    assert_eq!(c.get_buffer_len(), 16);
    assert_eq!(c.get_setting_len(), 16);
}

#[test]
fn sized_buffer_mut_data_slice() {
    let mut b = SizedBuffer::new(4);
    b.set_data_len(2);
    b.get_mut_data_slice()[1] = 42;
    assert_eq!(b.get_data_slice(), &[0, 42][..]);
}

#[test]
fn buffer_pool_keeps_up_to_max() {
    let mut p = BufferPool::try_new(2, 16).unwrap();
    assert!(p.get_next_buffer().is_none());
    let b = p.try_allocate_buffer().unwrap().unwrap();
    p.try_add_buffer(b).unwrap();
    p.try_add_buffer(SizedBuffer::new(1)).unwrap();
    p.try_add_buffer(SizedBuffer::new(2)).unwrap();
    assert!(p.try_allocate_buffer().unwrap().is_none());
    let mut last = p.get_next_buffer().unwrap();
    assert_eq!(last.get_buffer_len(), 1);
    let mut first = p.get_next_buffer().unwrap();
    assert_eq!(first.get_buffer_len(), 16);
    assert!(p.get_next_buffer().is_none());
}

#[test]
fn growable_new_and_max_capacity() {
    let b = GrowableBuffer::new(4).unwrap();
    assert_eq!(b.get_capacity(), 4);
    assert_eq!(b.get_max_capacity(), 40);
    assert_eq!(b.get_setup_len(), 4);
    assert!(b.is_empty_capacity() == false);
    let e = GrowableBuffer::new_empty(100);
    assert!(e.is_empty_capacity());
    assert_eq!(e.get_max_capacity(), 100);
}

#[test]
fn growable_offsets_and_free_space() {
    let mut b = GrowableBuffer::with_max_capacity(8, 16).unwrap();
    assert!(b.set_data_len(6));
    assert!(!b.set_data_len(9));
    assert!(b.set_offset(2));
    assert!(!b.set_offset(3));
    assert_eq!(b.free_space(), 0);
    assert!(!b.has_free_space());
    assert!(b.advance_offset(2));
    assert_eq!(b.get_offset(), 4);
    assert_eq!(b.get_data_len(), 4);
    assert!(!b.advance_offset(5));
    assert!(b.should_compact());
    b.reset();
    assert_eq!(b.get_offset(), 0);
    assert_eq!(b.get_data_len(), 0);
}

#[test]
fn growable_try_grow_moves_data_and_caps_at_max() {
    let mut b = GrowableBuffer::with_max_capacity(4, 6).unwrap();
    b.get_mut_free_slice().copy_from_slice(&[1, 2, 3, 4]);
    assert!(b.set_data_len(3));
    assert!(b.advance_offset(1));
    assert!(b.try_grow(3));
    assert_eq!(b.get_capacity(), 4);
    assert!(b.try_grow(100));
    assert_eq!(b.get_capacity(), 6);
    assert_eq!(b.get_offset(), 0);
    assert_eq!(b.get_data_slice(), &[2, 3][..]);
    assert!(!b.try_grow(100));
    assert!(b.is_at_max_capacity());
}

#[test]
fn growable_reallocate_cuts_data() {
    let mut b = GrowableBuffer::with_max_capacity(4, 8).unwrap();
    b.get_mut_free_slice().copy_from_slice(&[1, 2, 3, 4]);
    assert!(b.set_data_len(4));
    b.reallocate(2);
    assert_eq!(b.get_capacity(), 2);
    assert_eq!(b.get_data_slice(), &[1, 2][..]);
    b.reallocate(0);
    assert_eq!(b.get_capacity(), 0);
    assert_eq!(b.get_data_len(), 0);
}

#[test]
fn growable_compact_moves_data_to_front() {
    let mut b = GrowableBuffer::with_max_capacity(5, 5).unwrap();
    b.get_mut_free_slice().copy_from_slice(&[9, 8, 7, 6, 5]);
    assert!(b.set_offset(2));
    assert!(b.set_data_len(2));
    b.compact();
    assert_eq!(b.get_offset(), 0);
    assert_eq!(b.get_data_slice(), &[7, 6][..]);
    let raw = b.create_raw();
    assert_eq!(raw.capacity, 5);
    assert_eq!(b.as_raw().data_len, 2);
    b.as_raw_mut().data_len = 1;
    assert_eq!(b.get_data_len(), 1);
}

#[test]
fn growable_clone_copies_data_to_front() {
    let mut b = GrowableBuffer::with_max_capacity(4, 9).unwrap();
    b.get_mut_free_slice().copy_from_slice(&[1, 2, 3, 4]);
    assert!(b.set_offset(1));
    assert!(b.set_data_len(2));
    let c = b.clone();
    assert_eq!(c.get_offset(), 0);
    assert_eq!(c.get_capacity(), 4);
    assert_eq!(c.get_max_capacity(), 9);
    assert_eq!(c.get_data_slice(), &[2, 3][..]);
    b.get_mut_data_slice()[0] = 0;
    assert_eq!(c.get_data_slice(), &[2, 3][..]);
}

#[test]
fn check_read_struct_refuses_short_then_misaligned() {
    let mut b = Buffer::from_vec(vec![1, 2, 3, 4, 5, 6]);
    b.consume(2);
    match b.check_read_struct(8, 4, true, "Rec") {
        Err(BufferError::DataLenIsLessReadableType { required, available, structure }) => {
            assert_eq!(required, 8);
            assert_eq!(available, 4);
            assert_eq!(structure, "Rec");
        }
        other => panic!("unexpected {:?}", other),
    }
    match b.check_read_struct(4, 8, false, "Rec") {
        Err(BufferError::AlignError { required, structure }) => {
            assert_eq!(required, 8);
            assert_eq!(structure, "Rec");
        }
        other => panic!("unexpected {:?}", other),
    }
    assert!(b.check_read_struct(4, 8, true, "Rec").is_ok());
}

#[test]
fn growable_take_struct_aligns_and_consumes() {
    let mut b = GrowableBuffer::with_max_capacity(8, 16).unwrap();
    b.get_mut_free_slice().copy_from_slice(&[1, 2, 3, 4, 5, 6, 7, 8]);
    assert!(b.set_data_len(8));
    assert!(b.advance_offset(1));
    // The structure starts at the next multiple of 4: bytes 4..6.
    assert_eq!(b.take_struct(2, 4), Some(vec![5, 6]));
    assert_eq!(b.get_offset(), 6);
    assert_eq!(b.get_data_len(), 2);
    assert_eq!(b.take_struct(0, 8), Some(vec![]));
    assert_eq!(b.get_offset(), 6);
    assert_eq!(b.take_struct(4, 1), None);
    assert_eq!(b.get_offset(), 6);
    assert_eq!(b.take_struct(2, 2), Some(vec![7, 8]));
    assert_eq!(b.get_data_len(), 0);
}

#[test]
fn growable_push_struct_aligns_and_grows() {
    let mut b = GrowableBuffer::with_max_capacity(8, 16).unwrap();
    b.get_mut_free_slice()[..3].copy_from_slice(&[1, 2, 3]);
    assert!(b.set_data_len(3));
    // Written at the next multiple of 4 after the 3 bytes of data.
    assert!(b.push_struct(&[9, 9], 4));
    assert_eq!(b.get_data_len(), 6);
    assert_eq!(&b.get_data_slice()[4..6], &[9, 9]);
    assert!(b.push_struct(&[], 8));
    assert_eq!(b.get_data_len(), 6);
    // Past the capacity: the buffer grows to the end of the structure.
    assert!(b.push_struct(&[7, 7, 7, 7], 4));
    assert_eq!(b.get_capacity(), 12);
    assert_eq!(b.get_data_len(), 12);
    assert_eq!(&b.get_data_slice()[8..12], &[7, 7, 7, 7]);
    // At its largest it cannot grow.
    let mut full = GrowableBuffer::with_max_capacity(4, 4).unwrap();
    assert!(full.set_data_len(4));
    assert!(!full.push_struct(&[1], 1));
    assert_eq!(full.get_data_len(), 4);
}

#[test]
fn growable_read_struct_in_place() {
    let mut b = GrowableBuffer::with_max_capacity(6, 12).unwrap();
    b.get_mut_free_slice().copy_from_slice(&[1, 2, 3, 4, 5, 6]);
    assert!(b.set_data_len(2));
    assert!(b.advance_offset(1));
    assert_eq!(b.read_struct(4), Some(&[2u8, 3, 4, 5][..]));
    assert_eq!(b.read_struct(6), None);
    if let Some(s) = b.read_struct_mut(2) {
        s[0] = 20;
    }
    assert_eq!(b.read_struct(2), Some(&[20u8, 3][..]));
    assert!(b.read_struct_mut(9).is_none());
}

#[test]
fn try_read_struct_gives_the_front_bytes() {
    let mut b = Buffer::from_vec(vec![1, 2, 3, 4, 5, 6]);
    b.consume(1);
    assert_eq!(b.try_read_struct(3, 1, true, "Rec").unwrap(), &[2, 3, 4]);
    assert!(matches!(b.try_read_struct(6, 1, true, "Rec"), Err(BufferError::DataLenIsLessReadableType { .. })));
    assert!(matches!(b.try_read_struct(2, 4, false, "Rec"), Err(BufferError::AlignError { .. })));
}
