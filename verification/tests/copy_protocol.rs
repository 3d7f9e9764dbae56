use oxy::copy::{
    copy_mode, decode_chunk, encode_chunk, CopyMode, FileReceiver, FileSender, RecvAction,
    SendAction, END_OF_TRANSFER, PAGE_SIZE,
};

#[test]
fn chunk_starts_with_big_endian_file_number() {
    let m = encode_chunk(0x0102_0304_0506_0708, b"abc");
    assert_eq!(m, vec![1, 2, 3, 4, 5, 6, 7, 8, b'a', b'b', b'c']);
    assert_eq!(decode_chunk(&m), (0x0102_0304_0506_0708, b"abc".to_vec()));
}

#[test]
fn sender_streams_files_then_ends() {
    let mut sender = FileSender::new();
    assert_eq!(sender.next_action(2), SendAction::OpenFile(0));
    assert_eq!(sender.next_action(2), SendAction::ReadPage);
    let full = vec![7u8; PAGE_SIZE];
    let m = sender.page_read(Some(&full)).unwrap();
    assert_eq!(&m[..8], &[0, 0, 0, 0, 0, 0, 0, 0]);
    assert_eq!(m.len(), 8 + PAGE_SIZE);
    assert_eq!(sender.next_action(2), SendAction::ReadPage);
    let m = sender.page_read(Some(b"tail")).unwrap();
    assert_eq!(m, encode_chunk(0, b"tail"));
    assert_eq!(sender.next_action(2), SendAction::OpenFile(1));
    assert_eq!(sender.page_read(None), None);
    match sender.next_action(2) {
        SendAction::SendEnd(m) => assert_eq!(m, vec![0xff; 8]),
        other => panic!("expected the end of the transfer, got {:?}", other),
    }
    assert_eq!(sender.next_action(2), SendAction::Idle);
}

#[test]
fn receiver_creates_files_and_exits() {
    let mut receiver = FileReceiver::new();
    assert_eq!(
        receiver.recv_message(&encode_chunk(0, b"one")),
        RecvAction::CreateFile { number: 0, data: b"one".to_vec() }
    );
    assert_eq!(receiver.recv_message(&encode_chunk(0, b"more")), RecvAction::Ignore);
    assert_eq!(
        receiver.recv_message(&encode_chunk(1, b"two")),
        RecvAction::CreateFile { number: 1, data: b"two".to_vec() }
    );
    assert_eq!(receiver.recv_message(&encode_chunk(END_OF_TRANSFER, b"")), RecvAction::Exit);
}

#[test]
fn copy_mode_follows_which_peers_are_named() {
    assert_eq!(copy_mode("a:1", "b:2"), CopyMode::RemoteToRemote);
    assert_eq!(copy_mode("a:1", ""), CopyMode::FromRemote);
    assert_eq!(copy_mode("", "b:2"), CopyMode::ToRemote);
    assert_eq!(copy_mode("", ""), CopyMode::Local);
}

#[test]
fn sender_ends_once_and_then_stays_idle() {
    let mut sender = FileSender::new();
    let mut ends = 0;
    let mut opened = Vec::new();
    for _ in 0..20 {
        match sender.next_action(3) {
            SendAction::OpenFile(id) => {
                opened.push(id);
                let m = sender.page_read(Some(b"short")).unwrap();
                assert_eq!(m, encode_chunk(id, b"short"));
            }
            SendAction::SendEnd(m) => {
                assert_eq!(m, encode_chunk(END_OF_TRANSFER, b""));
                ends += 1;
            }
            SendAction::Idle => {}
            SendAction::ReadPage => panic!("no file is open"),
        }
    }
    assert_eq!(opened, vec![0, 1, 2]);
    assert_eq!(ends, 1);

    let mut empty = FileSender::new();
    assert!(matches!(empty.next_action(0), SendAction::SendEnd(_)));
    assert_eq!(empty.next_action(0), SendAction::Idle);
}
