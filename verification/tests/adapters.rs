use rpc_it::ext_futures;
use rpc_it::ext_tokio::{ReadAdapter, WriteAdapter};
use rpc_it::transports::{ToAsyncRead, ToWriteFrame};

#[test]
fn adapters_wrap_their_streams() {
    let r = ReadAdapter::boxed(vec![1u8, 2]);
    assert_eq!(r.0, vec![1, 2]);
    let w = WriteAdapter::boxed(String::from("w"));
    assert_eq!(w.0, "w");
    let f = ext_futures::ReadAdapter(3u8);
    assert_eq!(f.0, 3);
    let g = ext_futures::WriteAdapter(4u8);
    assert_eq!(g.0, 4);
}

#[test]
fn wrappers_hold_their_streams() {
    let w = 5u32.to_write_frame();
    assert_eq!(w.inner, 5);
    let r = "stream".to_async_read();
    assert_eq!(r.inner, "stream");
}
