use bytes::Bytes;
use rpc_it::pipe::{FrameRead, InMemoryPipe, SendReadiness};

fn frame(r: FrameRead) -> Option<Vec<u8>> {
    match r {
        FrameRead::Frame(b) => Some(b.to_vec()),
        _ => None,
    }
}

#[test]
fn frames_come_out_in_order() {
    let mut p = InMemoryPipe::new(2);
    assert_eq!(p.poll_ready(), SendReadiness::Ready);
    p.start_send(Bytes::from_static(b"a"));
    assert_eq!(p.poll_ready(), SendReadiness::Ready);
    p.start_send(Bytes::from_static(b"b"));
    assert_eq!(p.poll_ready(), SendReadiness::Full);
    assert_eq!(frame(p.poll_read_frame()), Some(b"a".to_vec()));
    assert_eq!(p.poll_ready(), SendReadiness::Ready);
    assert_eq!(frame(p.poll_read_frame()), Some(b"b".to_vec()));
    assert!(matches!(p.poll_read_frame(), FrameRead::Pending));
}

#[test]
fn closed_pipe_drains_then_ends() {
    let mut p = InMemoryPipe::new(1);
    p.start_send(Bytes::from_static(b"last"));
    p.close();
    assert_eq!(p.poll_ready(), SendReadiness::Closed);
    assert_eq!(frame(p.poll_read_frame()), Some(b"last".to_vec()));
    assert!(matches!(p.poll_read_frame(), FrameRead::Closed));
}
