use oxy::inner::{frame, FrameAssembler, FRAME_SIZE, MAX_BUFFERED_FRAMES};

#[test]
fn empty_data_gives_no_frame() {
    assert!(frame(&[]).is_empty());
}

#[test]
fn frames_carry_length_chunk_and_padding() {
    let data: Vec<u8> = (0..300u32).map(|i| (i % 200) as u8 + 1).collect();
    let frames = frame(&data);
    assert_eq!(frames.len(), 2);
    assert!(frames.iter().all(|f| f.len() == FRAME_SIZE));
    assert_eq!(frames[0][0], 255);
    assert_eq!(&frames[0][1..], &data[..255]);
    assert_eq!(frames[1][0], 45);
    assert_eq!(&frames[1][1..46], &data[255..]);
    assert!(frames[1][46..].iter().all(|b| *b == 0));
}

#[test]
fn reassembly_gives_back_the_message() {
    let data: Vec<u8> = (0..1000u32).map(|i| (i * 7 % 256) as u8).collect();
    let frames = frame(&data);
    assert_eq!(frames.len(), 4);
    let mut assembler = FrameAssembler::new();
    for f in &frames[..3] {
        assert_eq!(assembler.recv_inner(f), None);
    }
    assert_eq!(assembler.buffered_frames(), 3);
    assert_eq!(assembler.recv_inner(&frames[3]), Some(data));
    assert_eq!(assembler.buffered_frames(), 0);
}

#[test]
fn short_message_is_one_frame() {
    let frames = frame(b"hi");
    assert_eq!(frames.len(), 1);
    let mut assembler = FrameAssembler::new();
    assert_eq!(assembler.recv_inner(&frames[0]), Some(b"hi".to_vec()));
}

#[test]
fn message_of_exactly_one_chunk_is_never_delivered() {
    let data = vec![9u8; 255];
    let frames = frame(&data);
    assert_eq!(frames.len(), 1);
    assert_eq!(frames[0][0], 255);
    let mut assembler = FrameAssembler::new();
    assert_eq!(assembler.recv_inner(&frames[0]), None);
    assert_eq!(assembler.buffered_frames(), 1);
}

#[test]
fn largest_message_fits_the_buffer() {
    let data = vec![1u8; 64 * 255 + 254];
    let frames = frame(&data);
    assert_eq!(frames.len(), MAX_BUFFERED_FRAMES + 1);
    let mut assembler = FrameAssembler::new();
    for f in &frames[..MAX_BUFFERED_FRAMES] {
        assert_eq!(assembler.recv_inner(f), None);
    }
    assert_eq!(assembler.buffered_frames(), MAX_BUFFERED_FRAMES);
    assert_eq!(assembler.recv_inner(&frames[MAX_BUFFERED_FRAMES]), Some(data));
}
