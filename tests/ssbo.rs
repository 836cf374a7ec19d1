use rusty_gl::vector::Vector2;
use rusty_gl::{DeviceBuffer, GpuSsbo, SSBO};

fn le_words(words: &[u32]) -> Vec<u8> {
    let mut out = Vec::new();
    for w in words {
        out.extend_from_slice(&w.to_le_bytes());
    }
    out
}

fn le_ints(words: &[i32]) -> Vec<u8> {
    let mut out = Vec::new();
    for w in words {
        out.extend_from_slice(&w.to_le_bytes());
    }
    out
}

#[test]
fn ssbo_test() {
    let resolution_struct = Vector2::new(200u32, 200u32);
    let mut ssbo = SSBO::create_from(0, resolution_struct, gl::STATIC_DRAW);

    let target_resolution = Vector2::new(200u32, 200u32);
    ssbo.load();
    assert_eq!((*ssbo).x, target_resolution.x);
    assert_eq!((*ssbo).y, target_resolution.y);

    (*ssbo).x = 350;
    (*ssbo).y = 350;
    ssbo.update();
    ssbo.load();
    let target = Vector2::new(350u32, 350u32);
    assert_eq!((*ssbo).x, target.x);
    assert_eq!((*ssbo).y, target.y);

    // The compute shader writes 400 into both fields.
    ssbo.buffer.record_device_write(0, &le_words(&[400, 400]));
    let verify_resolution = Vector2::new(400u32, 400u32);
    ssbo.load();
    assert_eq!((*ssbo).x, verify_resolution.x);
    assert_eq!((*ssbo).y, verify_resolution.y);
}

#[test]
fn compute_shader_test() {
    let vec = vec![0 as u32; 10];
    let mut ssbo = SSBO::create_from(1, vec, gl::STATIC_DRAW);

    let vec_on_gpu = vec![0 as u32; 10];
    ssbo.load();
    assert_eq!(*ssbo, vec_on_gpu);

    // Ten invocations each write the uniform value 123.
    ssbo.buffer.record_device_write(0, &le_words(&[123; 10]));
    ssbo.load();
    assert_eq!(*ssbo, vec![123 as u32; 10]);
}

#[test]
fn compute_shader_test_ssbo() {
    let vec = vec![0 as u32; 10];
    let mut ssbo = DeviceBuffer::create_from(0, &vec, gl::DYNAMIC_DRAW);

    // Ten invocations each write 10.
    ssbo.record_device_write(0, &le_words(&[10; 10]));

    let mut cmp_vec: Vec<u32> = vec![0; 10];
    cmp_vec.load_from(&ssbo, 0);
    assert_eq!(cmp_vec, vec![10 as u32; 10]);
}

#[test]
fn ssbo_test_ssbo() {
    let test_resolution = Vector2::new(100i32, 200i32);
    let mut ssbo = DeviceBuffer::create_from(1, &test_resolution, gl::STATIC_DRAW);
    let mut unchanged_resolution = Vector2::new(0i32, 0i32);
    unchanged_resolution.load_from(&ssbo, 0);
    assert_eq!(test_resolution.x, unchanged_resolution.x);
    assert_eq!(test_resolution.y, unchanged_resolution.y);

    // The compute shader writes 400 into both fields.
    ssbo.record_device_write(0, &le_ints(&[400, 400]));
    let mut changed_resolution = Vector2::new(0i32, 0i32);
    changed_resolution.load_from(&ssbo, 0);
    assert_eq!(400, changed_resolution.x);
    assert_eq!(400, changed_resolution.y);
}

#[test]
fn struct_overwritten_on_device_reads_back_new_values() {
    let mut ssbo = SSBO::create_from(0, Vector2::new(200u32, 200u32), gl::STATIC_DRAW);
    assert_eq!(ssbo.buffer.binding(), 0);
    ssbo.buffer.record_device_write(0, &le_words(&[400, 400]));
    ssbo.load();
    assert_eq!(ssbo.content, Vector2::new(400u32, 400u32));
    assert_ne!(ssbo.content, Vector2::new(200u32, 200u32));
}

#[test]
fn sequence_mutated_on_device_downloads_new_values() {
    let mut ssbo = SSBO::create_from(1, vec![0u32; 10], gl::STATIC_DRAW);
    let sent = ssbo.update();
    assert_eq!(sent.offset, 0);
    assert_eq!(sent.bytes, vec![0u8; 40]);
    ssbo.buffer.record_device_write(0, &le_words(&[123; 10]));
    ssbo.load();
    assert_eq!(ssbo.content, vec![123u32; 10]);
}

#[test]
fn round_trip_returns_the_same_bytes() {
    let v: Vec<u32> = vec![1, 2, 0xdead_beef, u32::MAX];
    let mut buf = DeviceBuffer::create_empty(3, 16, gl::DYNAMIC_DRAW);
    buf.upload(&v, 0);
    let mut v2: Vec<u32> = vec![0; 4];
    buf.download(&mut v2, 0);
    assert_eq!(v2, v);
    assert_eq!(v2.raw(), v.raw());

    let p = (-5i32, 7u32);
    let mut pb = DeviceBuffer::create_empty(0, 8, gl::STATIC_DRAW);
    pb.upload(&p, 0);
    let mut p2 = (0i32, 0u32);
    pb.download(&mut p2, 0);
    assert_eq!(p2, p);
}

#[test]
fn sequence_transfers_element_bytes_only() {
    let v: Vec<u32> = vec![7; 3];
    assert_eq!(v.raw().len(), 12);
    let empty: Vec<u32> = Vec::new();
    assert_eq!(empty.raw().len(), 0);

    let mut buf = DeviceBuffer::create_from(0, &vec![0xffu8; 20], gl::STATIC_DRAW);
    let t = buf.upload(&v, 4);
    assert_eq!(t.offset, 4);
    assert_eq!(t.bytes.len(), 12);
    let bytes = buf.bytes();
    assert_eq!(&bytes[0..4], &[0xff; 4]);
    assert_eq!(&bytes[4..16], &le_words(&[7, 7, 7])[..]);
    assert_eq!(&bytes[16..20], &[0xff; 4]);
}

#[test]
fn adjacent_uploads_do_not_overlap() {
    let a = Vector2::new(11u32, 22u32);
    let b: Vec<i32> = vec![-1, -2, -3];
    let mut buf = DeviceBuffer::create_empty(2, 8 + 12, gl::STATIC_DRAW);
    assert_eq!(buf.capacity(), 20);
    buf.upload(&a, 0);
    buf.upload(&b, 8);
    let mut a2 = Vector2::new(0u32, 0u32);
    let mut b2: Vec<i32> = vec![0; 3];
    buf.download(&mut a2, 0);
    buf.download(&mut b2, 8);
    assert_eq!(a2, a);
    assert_eq!(b2, b);
}

#[test]
fn repeated_downloads_are_identical() {
    let buf = DeviceBuffer::create_from(0, &vec![5u32, 6, 7], gl::STATIC_DRAW);
    let mut first: Vec<u32> = vec![0; 3];
    let mut second: Vec<u32> = vec![9; 3];
    buf.download(&mut first, 0);
    buf.download(&mut second, 0);
    assert_eq!(first, second);
    assert_eq!(first.raw(), second.raw());
    assert_eq!(first, vec![5, 6, 7]);
}

#[test]
fn download_at_offset_reads_the_right_span() {
    let buf = DeviceBuffer::create_from(0, &vec![1u32, 2, 3, 4], gl::STATIC_DRAW);
    let mut v = 0u32;
    buf.download(&mut v, 8);
    assert_eq!(v, 3);
    let mut pair = Vector2::new(0u32, 0u32);
    pair.load_from(&buf, 4);
    assert_eq!(pair, Vector2::new(2, 3));
}

#[test]
fn save_to_and_create_ssbo() {
    let v: Vec<u32> = vec![1; 10];
    let mut buf = v.create_ssbo(1, gl::STATIC_DRAW);
    assert_eq!(buf.binding(), 1);
    assert_eq!(buf.usage(), gl::STATIC_DRAW);
    assert_eq!(buf.bytes(), &le_words(&[1; 10])[..]);
    let v2: Vec<u32> = vec![2; 10];
    let t = v2.save_to(&mut buf, 0);
    assert_eq!(t.bytes, le_words(&[2; 10]));
    assert_eq!(buf.bytes(), &le_words(&[2; 10])[..]);
}

#[test]
fn write_returns_the_transfer() {
    let mut buf = DeviceBuffer::create_from(4, &vec![0u8; 6], gl::STREAM_DRAW);
    let t = buf.write(2, vec![9, 8, 7]);
    assert_eq!(t.offset, 2);
    assert_eq!(t.bytes, vec![9, 8, 7]);
    assert_eq!(buf.bytes(), &[0, 0, 9, 8, 7, 0]);
    assert_eq!(buf.usage(), gl::STREAM_DRAW);
    let fresh = DeviceBuffer::from_bytes(1, vec![3, 4], gl::STATIC_DRAW);
    assert_eq!(fresh.bytes(), &[3, 4]);
}

#[test]
fn layouts_are_little_endian_and_packed() {
    assert_eq!(0x0403_0201u32.raw(), vec![1, 2, 3, 4]);
    assert_eq!((-2i32).raw(), vec![0xfe, 0xff, 0xff, 0xff]);
    assert_eq!(7u8.raw(), vec![7]);
    assert_eq!((1u8, 2u32).raw(), vec![1, 2, 0, 0, 0]);
    let v4 = rusty_gl::vector::Vector4::new(1u8, 2, 3, 4);
    assert_eq!(v4.raw(), vec![1, 2, 3, 4]);
    let v3 = rusty_gl::vector::Vector3::new(1u32, 2, 3);
    assert_eq!(v3.raw(), le_words(&[1, 2, 3]));
}

#[test]
fn negative_integers_round_trip() {
    let v: Vec<i32> = vec![i32::MIN, -1, 0, i32::MAX];
    let buf = v.create_ssbo(0, gl::STATIC_DRAW);
    let mut back: Vec<i32> = vec![0; 4];
    back.load_from(&buf, 0);
    assert_eq!(back, v);
}
