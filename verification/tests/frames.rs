use vpx::encoder::{FramesIter, PacketKind, RawPacket, SessionState};

fn packet<'a>(kind: u32, data: &'a [u8], flags: u32) -> RawPacket<'a> {
    RawPacket { kind, data, pts: 42, duration: 3, flags, partition_id: -1 }
}

#[test]
fn frame_packet_is_handed_out_with_its_fields() {
    let data: Vec<u8> = vec![0x9d, 0x01, 0x2a, 0x40];
    let mut session = SessionState::Active;
    let mut iter = FramesIter::new(&mut session);
    let item = iter.next(Some(RawPacket {
        kind: 0,
        data: &data,
        pts: 7,
        duration: 2,
        flags: 0x5,
        partition_id: 3,
    }));
    match item {
        Some(PacketKind::EncodedFrame(frame)) => {
            assert_eq!(frame.data(), &[0x9du8, 0x01, 0x2a, 0x40][..]);
            assert_eq!(frame.pts(), 7);
            assert_eq!(frame.duration(), 2);
            assert_eq!(frame.partition(), 3);
            assert!(frame.is_keyframe());
            assert!(!frame.is_droppable());
            assert!(frame.is_invisible());
            assert!(!frame.is_fragment());
        }
        _ => panic!("a frame packet must come out as a frame"),
    }
    assert!(!iter.is_exhausted());
}

#[test]
fn frame_flags_are_read_bit_by_bit() {
    let data: Vec<u8> = Vec::new();
    for flags in 0u32..16 {
        let mut session = SessionState::Active;
        let mut iter = FramesIter::new(&mut session);
        match iter.next(Some(packet(0, &data, flags))) {
            Some(PacketKind::EncodedFrame(frame)) => {
                assert_eq!(frame.is_keyframe(), flags & 1 != 0);
                assert_eq!(frame.is_droppable(), flags & 2 != 0);
                assert_eq!(frame.is_invisible(), flags & 4 != 0);
                assert_eq!(frame.is_fragment(), flags & 8 != 0);
            }
            _ => panic!("a frame packet must come out as a frame"),
        }
    }
}

#[test]
fn higher_flag_bits_do_not_make_a_keyframe() {
    let data: Vec<u8> = Vec::new();
    let mut session = SessionState::Active;
    let mut iter = FramesIter::new(&mut session);
    match iter.next(Some(packet(0, &data, 0xffff_fff0))) {
        Some(PacketKind::EncodedFrame(frame)) => {
            assert!(!frame.is_keyframe());
            assert!(!frame.is_droppable());
            assert!(!frame.is_invisible());
            assert!(!frame.is_fragment());
        }
        _ => panic!("a frame packet must come out as a frame"),
    }
}

#[test]
fn statistics_packets_come_out_by_kind() {
    let data: Vec<u8> = vec![1, 2, 3];
    let mut session = SessionState::Active;
    let mut iter = FramesIter::new(&mut session);
    assert!(matches!(iter.next(Some(packet(1, &data, 1))), Some(PacketKind::Stats)));
    assert!(matches!(iter.next(Some(packet(2, &data, 1))), Some(PacketKind::FPMB)));
    assert!(matches!(iter.next(Some(packet(3, &data, 1))), Some(PacketKind::PSNR)));
}

#[test]
fn other_kinds_are_unknown() {
    let data: Vec<u8> = vec![1, 2, 3];
    let mut session = SessionState::Active;
    let mut iter = FramesIter::new(&mut session);
    assert!(matches!(iter.next(Some(packet(4, &data, 0))), Some(PacketKind::Unknown)));
    assert!(matches!(iter.next(Some(packet(5, &data, 0))), Some(PacketKind::Unknown)));
    assert!(matches!(iter.next(Some(packet(256, &data, 0))), Some(PacketKind::Unknown)));
    assert!(matches!(iter.next(Some(packet(u32::MAX, &data, 0))), Some(PacketKind::Unknown)));
}

#[test]
fn fresh_cursor_is_at_the_head_and_not_exhausted() {
    let mut session = SessionState::Active;
    let iter = FramesIter::new(&mut session);
    assert!(iter.is_at_start());
    assert!(!iter.is_exhausted());
}

#[test]
fn cursor_leaves_the_head_with_its_first_packet() {
    let data: Vec<u8> = vec![1];
    let mut session = SessionState::Active;
    let mut iter = FramesIter::new(&mut session);
    assert!(iter.next(Some(packet(1, &data, 0))).is_some());
    assert!(!iter.is_at_start());
    assert!(iter.next(Some(packet(0, &data, 0))).is_some());
    assert!(!iter.is_at_start());
    assert!(iter.next(None).is_none());
    assert!(!iter.is_at_start());
}

#[test]
fn cursor_over_an_empty_queue_stays_at_the_head() {
    let mut session = SessionState::Active;
    let mut iter = FramesIter::new(&mut session);
    assert!(iter.next(None).is_none());
    assert!(iter.is_at_start());
    assert!(iter.is_exhausted());
}

#[test]
fn cursor_gives_the_session_back_unchanged() {
    let mut session = SessionState::Active;
    {
        let mut iter = FramesIter::new(&mut session);
        assert!(iter.next(None).is_none());
    }
    assert_eq!(session, SessionState::Active);
}

#[test]
fn packet_kind_is_read_without_a_cursor() {
    let data: Vec<u8> = vec![5, 6];
    assert!(matches!(PacketKind::new(packet(0, &data, 0)), PacketKind::EncodedFrame(_)));
    assert!(matches!(PacketKind::new(packet(1, &data, 0)), PacketKind::Stats));
    assert!(matches!(PacketKind::new(packet(2, &data, 0)), PacketKind::FPMB));
    assert!(matches!(PacketKind::new(packet(3, &data, 0)), PacketKind::PSNR));
    assert!(matches!(PacketKind::new(packet(77, &data, 0)), PacketKind::Unknown));
}

#[test]
fn end_of_queue_exhausts_the_cursor() {
    let mut session = SessionState::Active;
    let mut iter = FramesIter::new(&mut session);
    assert!(iter.next(None).is_none());
    assert!(iter.is_exhausted());
}

#[test]
fn exhausted_cursor_hands_out_nothing_more() {
    let data: Vec<u8> = vec![1];
    let mut session = SessionState::Active;
    let mut iter = FramesIter::new(&mut session);
    assert!(iter.next(Some(packet(0, &data, 0))).is_some());
    assert!(iter.next(None).is_none());
    assert!(iter.next(Some(packet(0, &data, 0))).is_none());
    assert!(iter.next(None).is_none());
    assert!(iter.is_exhausted());
}

#[test]
fn cursor_hands_out_as_many_items_as_the_engine_gave() {
    let data: Vec<u8> = vec![1, 2];
    let kinds = [0u32, 3, 0, 1, 0, 9];
    let mut session = SessionState::Active;
    let mut iter = FramesIter::new(&mut session);
    let mut frames = 0;
    let mut others = 0;
    for kind in kinds {
        match iter.next(Some(packet(kind, &data, 0))) {
            Some(PacketKind::EncodedFrame(_)) => frames += 1,
            Some(_) => others += 1,
            None => panic!("the queue has not ended"),
        }
    }
    assert!(iter.next(None).is_none());
    assert_eq!(frames, 3);
    assert_eq!(others, 3);
}
