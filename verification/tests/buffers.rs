use evm_result::buffer::{ByteBuffer, HostBuffer};

#[test]
fn bridge_keeps_length_and_bytes() {
    let content: Vec<u8> = (0u8..10).collect();
    let buffer = ByteBuffer::from_vec(content.clone());
    assert_eq!(buffer.len(), 10);
    assert_eq!(buffer.as_bytes(), &content);

    let view = HostBuffer::bridge(buffer);
    assert_eq!(view.len(), 10);
    assert_eq!(view.as_bytes(), &content);
    assert!(!view.released());
}

#[test]
fn bridge_handles_the_empty_buffer() {
    let view = HostBuffer::bridge(ByteBuffer::from_vec(vec![]));
    assert_eq!(view.len(), 0);
    assert!(view.as_bytes().is_empty());
    assert!(!view.released());
}

#[test]
fn release_fires_exactly_once() {
    let mut view = HostBuffer::bridge(ByteBuffer::from_vec(vec![7, 7, 7]));
    assert!(!view.released());
    assert!(view.release());
    assert!(view.released());
    assert!(!view.release());
    assert!(view.released());
}
