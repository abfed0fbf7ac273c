use xiaoxin_esp32::audio::queue::BoundedPacketQueue;
use xiaoxin_esp32::audio::{AudioStreamPacket, MAX_AUDIO_PACKETS_IN_QUEUE};

fn packet(tag: u8) -> AudioStreamPacket {
    AudioStreamPacket { sample_rate: 16000, frame_duration: 60, timestamp: 0, payload: vec![tag, tag] }
}

#[test]
fn push_keeps_order() {
    let mut queue = BoundedPacketQueue::new(3);
    assert!(queue.push(packet(1)));
    assert!(queue.push(packet(2)));
    let drained = queue.drain_all();
    assert_eq!(drained.len(), 2);
    assert_eq!(drained[0].payload, vec![1, 1]);
    assert_eq!(drained[1].payload, vec![2, 2]);
    assert_eq!(queue.len(), 0);
}

#[test]
fn full_queue_drops_newest() {
    let mut queue = BoundedPacketQueue::new(MAX_AUDIO_PACKETS_IN_QUEUE);
    assert_eq!(queue.capacity(), 40);
    for i in 0..40u8 {
        assert!(queue.push(packet(i)));
    }
    assert_eq!(queue.len(), 40);
    assert!(!queue.push(packet(99)));
    assert_eq!(queue.len(), 40);
    let drained = queue.drain_all();
    assert_eq!(drained.len(), 40);
    assert_eq!(drained[39].payload, vec![39, 39]);
    assert_eq!(drained[0].payload, vec![0, 0]);
}

#[test]
fn overflow_refuses_exactly_the_excess() {
    let mut queue = BoundedPacketQueue::new(5);
    let mut refused = 0;
    for i in 0..12u8 {
        if !queue.push(packet(i)) {
            refused += 1;
        }
        assert!(queue.len() <= 5);
    }
    assert_eq!(refused, 7);
    assert_eq!(queue.len(), 5);
}

#[test]
fn zero_capacity_accepts_nothing() {
    let mut queue = BoundedPacketQueue::new(0);
    assert!(!queue.push(packet(1)));
    assert_eq!(queue.drain_all().len(), 0);
}

#[test]
fn interleaved_drains_hand_out_every_accepted_packet_once() {
    let mut queue = BoundedPacketQueue::new(3);
    let mut accepted: Vec<u8> = Vec::new();
    let mut drained: Vec<u8> = Vec::new();
    for round in 0..10u8 {
        for k in 0..(round % 5) {
            let tag = round * 10 + k;
            if queue.push(packet(tag)) {
                accepted.push(tag);
            }
        }
        if round % 3 == 2 {
            for p in queue.drain_all() {
                assert_eq!(p.payload.len(), 2);
                assert_eq!(p.payload[0], p.payload[1]);
                drained.push(p.payload[0]);
            }
            assert_eq!(queue.len(), 0);
        }
    }
    for p in queue.drain_all() {
        drained.push(p.payload[0]);
    }
    assert_eq!(drained, accepted);
}

#[test]
fn drain_before_and_after_a_push() {
    let mut first = BoundedPacketQueue::new(4);
    assert!(first.push(packet(1)));
    assert!(first.push(packet(2)));
    let with = first.drain_all();
    assert_eq!(with.len(), 2);
    assert_eq!(first.len(), 0);

    let mut second = BoundedPacketQueue::new(4);
    assert!(second.push(packet(1)));
    let without = second.drain_all();
    assert!(second.push(packet(2)));
    assert_eq!(without.len(), 1);
    assert_eq!(second.len(), 1);
    assert_eq!(second.drain_all()[0].payload, vec![2, 2]);
}

#[test]
fn capacity_follows_from_the_window() {
    let queue = BoundedPacketQueue::with_window(2400, 60).unwrap();
    assert_eq!(queue.capacity(), 40);
    assert_eq!(queue.len(), 0);
    assert_eq!(BoundedPacketQueue::with_window(2400, 7).unwrap().capacity(), 342);
    assert_eq!(BoundedPacketQueue::with_window(59, 60).unwrap().capacity(), 0);
    assert!(BoundedPacketQueue::with_window(2400, 0).is_none());
}
