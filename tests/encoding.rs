use interlaced_renderer::frame::Slot;
use interlaced_renderer::interlaced::{composite_bindings, index_bytes, quad_indices, CompositeBinding};
use interlaced_renderer::uniform::{UniformData, UNIFORM_SIZE};
use interlaced_renderer::utils::{number_bindings, select_prefered_presentmode, PresentMode};

#[test]
fn uniform_bytes_are_little_endian() {
    let u = UniformData { width: 640, height: 480 };
    assert_eq!(u.to_bytes(), vec![0x80, 0x02, 0, 0, 0xe0, 0x01, 0, 0]);
    let big = UniformData { width: 0x01020304, height: u32::MAX };
    assert_eq!(big.to_bytes(), vec![4, 3, 2, 1, 255, 255, 255, 255]);
    assert_eq!(big.to_bytes().len(), UNIFORM_SIZE);
}

#[test]
fn uniform_round_trip() {
    for (w, h) in [(1u32, 2u32), (640, 480), (u32::MAX, 0x8000_0000), (65536, 256)] {
        let u = UniformData { width: w, height: h };
        assert_eq!(UniformData::from_bytes(&u.to_bytes()), Some(u));
    }
}

#[test]
fn uniform_from_wrong_length_is_none() {
    assert_eq!(UniformData::from_bytes(&[1, 2, 3]), None);
    assert_eq!(UniformData::from_bytes(&[0; 9]), None);
    assert_eq!(UniformData::from_bytes(&[]), None);
    assert_eq!(
        UniformData::from_bytes(&[1, 0, 0, 0, 0, 1, 0, 0]),
        Some(UniformData { width: 1, height: 256 })
    );
}

#[test]
fn quad_index_buffer_contents() {
    let q = quad_indices();
    assert_eq!(q, vec![0, 1, 2, 2, 1, 3]);
    assert_eq!(index_bytes(&q), vec![0, 0, 1, 0, 2, 0, 2, 0, 1, 0, 3, 0]);
    assert_eq!(index_bytes(&vec![0x1234, 0xffff]), vec![0x34, 0x12, 0xff, 0xff]);
    assert_eq!(index_bytes(&vec![]), Vec::<u8>::new());
}

#[test]
fn present_mode_first_desired_supported() {
    let supported = vec![PresentMode::Fifo, PresentMode::Immediate, PresentMode::Mailbox];
    let desired = vec![PresentMode::Mailbox, PresentMode::Fifo];
    assert_eq!(select_prefered_presentmode(&supported, &desired), Some(PresentMode::Mailbox));
}

#[test]
fn present_mode_falls_back_in_desired_order() {
    let supported = vec![PresentMode::Fifo, PresentMode::AutoVsync];
    let desired = vec![PresentMode::Mailbox, PresentMode::Immediate, PresentMode::Fifo];
    assert_eq!(select_prefered_presentmode(&supported, &desired), Some(PresentMode::Fifo));
}

#[test]
fn present_mode_none_when_nothing_matches() {
    let supported = vec![PresentMode::Fifo];
    assert_eq!(select_prefered_presentmode(&supported, &vec![PresentMode::Mailbox]), None);
    assert_eq!(select_prefered_presentmode(&supported, &vec![]), None);
    assert_eq!(select_prefered_presentmode(&vec![], &vec![PresentMode::Fifo]), None);
}

#[test]
fn bindings_numbered_from_zero() {
    let numbered = number_bindings(vec!["uniform", "slot1", "slot2"]);
    assert_eq!(numbered, vec![(0, "uniform"), (1, "slot1"), (2, "slot2")]);
    assert_eq!(number_bindings(Vec::<u8>::new()), vec![]);
}

#[test]
fn composite_bindings_in_shader_order() {
    assert_eq!(
        composite_bindings(),
        vec![
            (0, CompositeBinding::Uniform),
            (1, CompositeBinding::SlotView(Slot::First)),
            (2, CompositeBinding::SlotView(Slot::Second)),
        ]
    );
}
