use screencap::packet_buffer::{BufferedPacket, PacketBuffer, RETENTION_PTS};

fn pts_of(buffer: &PacketBuffer<u32>) -> Vec<i64> {
    buffer.packets.iter().map(|p| p.pts).collect()
}

#[test]
fn keeps_thirty_seconds() {
    assert_eq!(RETENTION_PTS, 1800);
    let mut buffer = PacketBuffer::new();
    for (i, pts) in [0i64, 600, 1200, 1800].iter().enumerate() {
        buffer.push(BufferedPacket { payload: i as u32, pts: *pts });
    }
    assert_eq!(pts_of(&buffer), vec![0, 600, 1200, 1800]);
    // 1801 - 0 > 1800: the first packet goes, the one at 600 stays.
    buffer.push(BufferedPacket { payload: 4, pts: 1801 });
    assert_eq!(pts_of(&buffer), vec![600, 1200, 1800, 1801]);
    // A jump far ahead drops everything but the newest packet.
    buffer.push(BufferedPacket { payload: 5, pts: 10_000 });
    assert_eq!(pts_of(&buffer), vec![10_000]);
    assert_eq!(buffer.packets[0].payload, 5);
}

#[test]
fn stops_at_the_first_recent_packet() {
    let mut buffer = PacketBuffer::new();
    buffer.push(BufferedPacket { payload: 0u32, pts: 5000 });
    buffer.push(BufferedPacket { payload: 1, pts: 100 });
    // The front packet is recent, so the stale one behind it stays.
    buffer.push(BufferedPacket { payload: 2, pts: 5100 });
    assert_eq!(pts_of(&buffer), vec![5000, 100, 5100]);
}

#[test]
fn extreme_timestamps_do_not_overflow() {
    let mut buffer = PacketBuffer::new();
    buffer.push(BufferedPacket { payload: 0u32, pts: i64::MIN });
    buffer.push(BufferedPacket { payload: 1, pts: i64::MAX });
    assert_eq!(pts_of(&buffer), vec![i64::MAX]);
}
