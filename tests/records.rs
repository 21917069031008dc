use rocks_lz4::batch::Batch;
use rocks_lz4::decimal::{numbered, push_decimal};
use rocks_lz4::options::{
    Compression, StoreOptions, TUNED_BACKGROUND_JOBS, TUNED_MAX_WRITE_BUFFERS,
    TUNED_TARGET_FILE_SIZE, TUNED_WRITE_BUFFER_SIZE,
};

#[test]
fn numbered_appends_decimal() {
    assert_eq!(numbered("batch_key_", 7), b"batch_key_7".to_vec());
    assert_eq!(numbered("batch_key_", 0), b"batch_key_0".to_vec());
    assert_eq!(numbered("perf_value_", 99), b"perf_value_99".to_vec());
    assert_eq!(numbered("", 4_294_967_295), b"4294967295".to_vec());
}

#[test]
fn push_decimal_keeps_existing_bytes() {
    let mut out = b"x=".to_vec();
    push_decimal(&mut out, 1050);
    assert_eq!(out, b"x=1050".to_vec());
}

#[test]
fn empty_batch_has_no_puts() {
    assert_eq!(Batch::new().len(), 0);
}

#[test]
fn batch_keeps_puts_in_order() {
    let mut b = Batch::new();
    b.put(b"key1", b"value1");
    b.put(b"key2", "测试中文数据".as_bytes());
    b.put(b"key1", b"value3");
    assert_eq!(b.len(), 3);
    assert_eq!(b.entry(0), (&b"key1"[..], &b"value1"[..]));
    assert_eq!(b.entry(1), (&b"key2"[..], "测试中文数据".as_bytes()));
    assert_eq!(b.entry(2), (&b"key1"[..], &b"value3"[..]));
}

#[test]
fn numbered_batch_holds_ten_records() {
    let b = Batch::numbered("batch_key_", "batch_value_", 10);
    assert_eq!(b.len(), 10);
    for i in 0..10usize {
        let (k, v) = b.entry(i);
        assert_eq!(k, format!("batch_key_{}", i).as_bytes());
        assert_eq!(v, format!("batch_value_{}", i).as_bytes());
    }
}

#[test]
fn numbered_batch_of_zero_is_empty() {
    assert_eq!(Batch::numbered("k", "v", 0).len(), 0);
}

#[test]
fn lz4_options_leave_knobs_at_default() {
    let o = StoreOptions::lz4();
    assert!(o.create_if_missing);
    assert_eq!(o.compression, Compression::Lz4);
    assert_eq!(o.write_buffer_size, None);
    assert_eq!(o.max_write_buffer_number, None);
    assert_eq!(o.target_file_size_base, None);
    assert_eq!(o.max_background_jobs, None);
}

#[test]
fn tuned_options_set_every_knob() {
    let o = StoreOptions::tuned();
    assert!(o.create_if_missing);
    assert_eq!(o.compression, Compression::Lz4);
    assert_eq!(o.write_buffer_size, Some(67_108_864));
    assert_eq!(o.max_write_buffer_number, Some(3));
    assert_eq!(o.target_file_size_base, Some(67_108_864));
    assert_eq!(o.max_background_jobs, Some(4));
    assert_eq!(TUNED_WRITE_BUFFER_SIZE, 64 * 1024 * 1024);
    assert_eq!(TUNED_TARGET_FILE_SIZE, 64 * 1024 * 1024);
    assert_eq!(TUNED_MAX_WRITE_BUFFERS, 3);
    assert_eq!(TUNED_BACKGROUND_JOBS, 4);
}
