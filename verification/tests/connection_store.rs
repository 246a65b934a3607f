use mihomo_tui::connections::{sorted_order, ConnectionRecord, Connections, CONNS_BUFFER_SIZE};
use mihomo_tui::stream::{stream_step, ws_scheme, StreamAction, StreamEvent, StreamState};

fn rec(id: &str, upload: u64, download: u64) -> ConnectionRecord {
    ConnectionRecord { id: id.to_string(), upload, download, upload_rate: 0, download_rate: 0 }
}

#[test]
fn rates_are_counts_since_the_last_update() {
    let mut c = Connections::new();
    c.push(false, vec![rec("a", 100, 1000), rec("b", 50, 50)]);
    assert_eq!(c.buffer.len(), 2);
    assert_eq!((c.buffer[0].upload_rate, c.buffer[0].download_rate), (0, 0));
    c.push(false, vec![rec("a", 160, 1500), rec("b", 40, 60), rec("c", 7, 7)]);
    assert_eq!(c.buffer.len(), 3);
    assert_eq!((c.buffer[0].upload_rate, c.buffer[0].download_rate), (60, 500));
    assert_eq!((c.buffer[1].upload_rate, c.buffer[1].download_rate), (0, 10));
    assert_eq!((c.buffer[2].upload_rate, c.buffer[2].download_rate), (0, 0));
    assert_eq!(c.last_bytes.len(), 3);
}

#[test]
fn capture_mode_keeps_rows_up_to_the_buffer_size() {
    let mut c = Connections::new();
    c.push(true, vec![rec("a", 1, 1)]);
    c.push(true, vec![rec("b", 1, 1)]);
    assert_eq!(c.buffer.len(), 2);
    let many: Vec<ConnectionRecord> = (0..CONNS_BUFFER_SIZE).map(|i| rec(&format!("x{i}"), 0, 0)).collect();
    c.push(true, many);
    assert_eq!(c.buffer.len(), CONNS_BUFFER_SIZE);
    assert_eq!(c.buffer[0].id, "x0");
    c.push(false, vec![rec("z", 0, 0)]);
    assert_eq!(c.buffer.len(), 1);
}

#[test]
fn sort_is_stable_both_ways() {
    let keys = vec![5, 1, 5, 3, 1];
    assert_eq!(sorted_order(&keys, false), vec![1, 4, 3, 0, 2]);
    assert_eq!(sorted_order(&keys, true), vec![0, 2, 3, 1, 4]);
    assert_eq!(sorted_order(&Vec::new(), true), Vec::<usize>::new());
}

#[test]
fn stream_reconnects_after_failures() {
    let (s, a) = stream_step(StreamState::Disconnected, StreamEvent::Polled);
    assert_eq!((s, a), (StreamState::Disconnected, StreamAction::Connect));
    let (s, a) = stream_step(s, StreamEvent::ConnectFailed);
    assert_eq!((s, a), (StreamState::Disconnected, StreamAction::WaitThenConnect));
    let (s, a) = stream_step(s, StreamEvent::ConnectOk);
    assert_eq!((s, a), (StreamState::Connected, StreamAction::Read));
    let (s, a) = stream_step(s, StreamEvent::OtherMessage);
    assert_eq!((s, a), (StreamState::Connected, StreamAction::Read));
    let (s, a) = stream_step(s, StreamEvent::Text("{}".to_string()));
    assert_eq!((s, a), (StreamState::Connected, StreamAction::Emit("{}".to_string())));
    for e in [StreamEvent::Closed, StreamEvent::ReadFailed, StreamEvent::Ended] {
        assert_eq!(stream_step(StreamState::Connected, e), (StreamState::Disconnected, StreamAction::WaitThenConnect));
    }
    assert_eq!(ws_scheme(&"https".to_string()), "wss");
    assert_eq!(ws_scheme(&"http".to_string()), "ws");
}
