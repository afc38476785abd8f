use xdpscan::codec::encode_probe;
use xdpscan::recv::should_wakeup;
use xdpscan::recv::RecvEngine;
use xdpscan::scan::is_pow2;
use xdpscan::scan::plan_scan;
use xdpscan::scan::split_descs;
use xdpscan::scan::ScanConfig;
use xdpscan::send::check_submission;
use xdpscan::send::encode_targets;
use xdpscan::send::tx_batch;
use xdpscan::FramePool;
use xdpscan::IpAddr;
use xdpscan::ScanError;
use xdpscan::SrcConfig;
use xdpscan::Target;

fn scanner() -> SrcConfig {
    SrcConfig {
        src_mac: [0xf6, 0xe0, 0xf6, 0xc9, 0x60, 0x0a],
        dst_mac: [0x4a, 0xf1, 0x30, 0xeb, 0x0d, 0x31],
        src_ip: IpAddr::V4([192, 168, 69, 1]),
        src_port: 4321,
    }
}

fn small_config() -> ScanConfig {
    ScanConfig {
        rx_q_size: 4,
        tx_q_size: 4,
        comp_q_size: 4,
        fill_q_size: 8,
        frame_size: 2048,
        frame_count: 8,
        poll_ms_timeout: 100,
        wait_time_secs: 1,
    }
}

#[test]
fn pow2_checks() {
    assert!(is_pow2(1));
    assert!(is_pow2(2));
    assert!(is_pow2(4096));
    assert!(!is_pow2(0));
    assert!(!is_pow2(3));
    assert!(!is_pow2(4097));
}

#[test]
fn default_config_is_valid() {
    let c = ScanConfig::default_config();
    assert!(c.validate().is_ok());
    assert_eq!(c.frame_count, 8192);
    assert_eq!(c.frame_size, 2048);
}

#[test]
fn bad_configs_rejected() {
    let mut c = small_config();
    c.fill_q_size = 2; // cannot take the whole receive set at arming
    assert_eq!(c.validate(), Err(ScanError::BadConfig));

    let mut c = small_config();
    c.rx_q_size = 3; // not a power of two
    assert_eq!(c.validate(), Err(ScanError::BadConfig));

    let mut c = small_config();
    c.frame_count = 9; // does not match the ring sizes
    assert_eq!(c.validate(), Err(ScanError::BadConfig));

    let mut c = small_config();
    c.frame_size = 64; // too small for the longest probe
    assert_eq!(c.validate(), Err(ScanError::BadConfig));
}

#[test]
fn plan_splits_pool_in_half() {
    let p = plan_scan(&small_config(), 3).expect("3 targets fit 4 transmit frames");
    assert_eq!(p.n_tx_frames, 4);
    assert_eq!(p.n_rx_frames, 4);
}

#[test]
fn plan_rejects_too_many_targets() {
    // Batch completeness is owed only when the transmit set is large
    // enough; anything bigger is refused up front, never truncated.
    let e = plan_scan(&small_config(), 5).unwrap_err();
    assert_eq!(e, ScanError::PoolTooSmall { targets: 5, capacity: 4 });
}

#[test]
fn plan_rejects_bad_config_first() {
    let mut c = small_config();
    c.rx_q_size = 3;
    assert_eq!(plan_scan(&c, 1).unwrap_err(), ScanError::BadConfig);
}

#[test]
fn pool_write_and_read_back() {
    let pool = FramePool::new(8, 256);
    let mut descs = pool.descriptors();
    assert_eq!(descs.len(), 8);
    for (i, d) in descs.iter().enumerate() {
        assert_eq!(d.addr, i * 256);
        assert_eq!(d.len, 0);
    }
    let mut pool = pool;
    let payload = vec![7u8, 8, 9];
    let mut d = descs[3];
    pool.write_frame(&mut d, &payload).expect("payload fits a frame");
    descs[3] = d;
    assert_eq!(descs[3].len, 3);
    assert_eq!(pool.read_frame(&descs[3]), payload);
    // The neighbouring frames are untouched.
    assert_eq!(pool.read(2 * 256, 256), vec![0u8; 256]);
    assert_eq!(pool.read(4 * 256, 256), vec![0u8; 256]);
}

#[test]
fn pool_rejects_oversized_payload() {
    let mut pool = FramePool::new(2, 128);
    let mut descs = pool.descriptors();
    let too_long = vec![1u8; 129];
    let mut d = descs[0];
    let e = pool.write_frame(&mut d, &too_long).unwrap_err();
    assert_eq!(e, ScanError::FrameTooLong { len: 129, frame_size: 128 });
    // Nothing changed.
    descs[0] = d;
    assert_eq!(descs[0].len, 0);
    assert_eq!(pool.read(0, 128), vec![0u8; 128]);
}

#[test]
fn split_is_a_disjoint_partition() {
    let pool = FramePool::new(8, 256);
    let descs = pool.descriptors();
    let (tx, rx) = split_descs(descs, 4);
    assert_eq!(tx.len(), 4);
    assert_eq!(rx.len(), 4);
    for t in &tx {
        for r in &rx {
            assert_ne!(t.addr, r.addr);
        }
    }
}

#[test]
fn encode_targets_fills_one_frame_per_target() {
    // Every transmit descriptor used for target i carries exactly the
    // encoded length of that target's probe.
    let mut pool = FramePool::new(8, 2048);
    let descs = pool.descriptors();
    let (mut tx, rx) = split_descs(descs, 4);
    let targets = vec![
        Target { ip: IpAddr::V4([192, 168, 69, 2]), port: 1234 },
        Target {
            ip: IpAddr::V6([0x20, 0x01, 0x0d, 0xb8, 0, 0, 0, 0, 0, 0, 0, 0, 0, 0, 0, 9]),
            port: 443,
        },
    ];
    encode_targets(&mut pool, &mut tx, &scanner(), &targets);
    assert_eq!(tx[0].len, 54);
    assert_eq!(tx[1].len, 74);
    assert_eq!(tx[2].len, 0);
    assert_eq!(tx[3].len, 0);
    assert_eq!(pool.read_frame(&tx[0]), encode_probe(&scanner(), &targets[0]));
    assert_eq!(pool.read_frame(&tx[1]), encode_probe(&scanner(), &targets[1]));
    // The receive half of the pool is untouched.
    for d in &rx {
        assert_eq!(pool.read(d.addr, 2048), vec![0u8; 2048]);
    }
}

#[test]
fn batch_holds_exactly_one_frame_per_target() {
    let mut pool = FramePool::new(8, 2048);
    let (mut tx, _rx) = split_descs(pool.descriptors(), 4);
    let targets = vec![
        Target { ip: IpAddr::V4([10, 0, 0, 1]), port: 1 },
        Target { ip: IpAddr::V4([10, 0, 0, 2]), port: 2 },
        Target { ip: IpAddr::V4([10, 0, 0, 3]), port: 3 },
    ];
    encode_targets(&mut pool, &mut tx, &scanner(), &targets);
    let batch = tx_batch(&tx, targets.len());
    assert_eq!(batch.len(), targets.len());
    for (i, d) in batch.iter().enumerate() {
        assert_eq!(d.addr, tx[i].addr);
        assert_eq!(d.len, 54);
    }
}

#[test]
fn short_submission_is_fatal() {
    assert!(check_submission(3, 3).is_ok());
    assert_eq!(
        check_submission(3, 1).unwrap_err(),
        ScanError::ShortSubmission { expected: 3, accepted: 1 }
    );
}

#[test]
fn arm_requires_full_acceptance() {
    let mut engine = RecvEngine::new(4);
    let e = engine.arm(3).unwrap_err();
    assert_eq!(e, ScanError::ShortSubmission { expected: 4, accepted: 3 });
    let mut engine = RecvEngine::new(4);
    engine.arm(4).expect("full acceptance arms");
    assert_eq!(engine.state_counts(), (0, 4, 0));
}

#[test]
fn wakeup_only_when_idle_and_requested() {
    assert!(should_wakeup(0, true));
    assert!(!should_wakeup(0, false));
    assert!(!should_wakeup(2, true));
    assert!(!should_wakeup(2, false));
}

#[test]
fn fill_ring_conservation_across_batches() {
    // Every descriptor a poll removes from the receive ring is back in
    // the fill queue before the next poll: the counts return to where
    // they were, across several iterations and whatever the frames held.
    let mut pool = FramePool::new(8, 2048);
    let (_tx, mut rx) = split_descs(pool.descriptors(), 4);
    let mut engine = RecvEngine::new(4);
    engine.arm(4).expect("arms");
    assert_eq!(engine.state_counts(), (0, 4, 0));

    // First batch: two frames, one a real answer, one noise.
    let synack = xdpscan::codec::encode_tcp_frame_v4(
        &[1, 2, 3, 4, 5, 6],
        &[6, 5, 4, 3, 2, 1],
        &[192, 168, 69, 2],
        &[192, 168, 69, 1],
        1234,
        4321,
        0,
        1,
        true,
        true,
        0,
        20,
    );
    let noise = vec![0xaau8; 60];
    let mut d0 = rx[0];
    let mut d1 = rx[1];
    pool.write_frame(&mut d0, &synack).expect("fits");
    pool.write_frame(&mut d1, &noise).expect("fits");
    rx[0] = d0;
    rx[1] = d1;
    let returned = vec![rx[0], rx[1]];
    let idxs = vec![0usize, 1];
    engine.process_batch(&pool, &returned, 2, &idxs);
    assert_eq!(engine.state_counts(), (0, 4, 0));

    // Second batch reuses a recycled frame.
    let returned = vec![rx[0]];
    let idxs = vec![0usize];
    engine.process_batch(&pool, &returned, 1, &idxs);
    assert_eq!(engine.state_counts(), (0, 4, 0));

    let responders = engine.into_responders();
    assert_eq!(responders.len(), 2);
    assert_eq!(responders[0], Target { ip: IpAddr::V4([192, 168, 69, 2]), port: 1234 });
    assert_eq!(responders[1], Target { ip: IpAddr::V4([192, 168, 69, 2]), port: 1234 });
}
