//! The whole scan run against a simulated driver: the test plays the
//! kernel's side of the rings, delivering frames in and out of the
//! shared pool, while every decision is the library's.

use xdpscan::codec::decode_response;
use xdpscan::codec::encode_tcp_frame_v4;
use xdpscan::recv::should_wakeup;
use xdpscan::recv::RecvEngine;
use xdpscan::scan::plan_scan;
use xdpscan::scan::split_descs;
use xdpscan::scan::ScanConfig;
use xdpscan::send::check_submission;
use xdpscan::send::encode_targets;
use xdpscan::send::tx_batch;
use xdpscan::FrameDesc;
use xdpscan::FramePool;
use xdpscan::IpAddr;
use xdpscan::SrcConfig;
use xdpscan::Target;

fn small_config() -> ScanConfig {
    ScanConfig {
        rx_q_size: 4,
        tx_q_size: 4,
        comp_q_size: 4,
        fill_q_size: 8,
        frame_size: 2048,
        frame_count: 8,
        poll_ms_timeout: 100,
        wait_time_secs: 1,
    }
}

fn scanner() -> SrcConfig {
    SrcConfig {
        src_mac: [0xf6, 0xe0, 0xf6, 0xc9, 0x60, 0x0a],
        dst_mac: [0x4a, 0xf1, 0x30, 0xeb, 0x0d, 0x31],
        src_ip: IpAddr::V4([192, 168, 69, 1]),
        src_port: 4321,
    }
}

/// Runs one scan over a simulated wire.  `replies` decides whether the
/// probed host answers; the returned list is what the scan reports.
fn run_scan(replies: bool) -> Vec<Target> {
    let config = small_config();
    let targets = vec![Target { ip: IpAddr::V4([192, 168, 69, 2]), port: 1234 }];
    let plan = plan_scan(&config, targets.len()).expect("the plan fits");

    let mut pool = FramePool::new(config.frame_count as usize, config.frame_size as usize);
    let descs = pool.descriptors();
    let (mut tx_descs, rx_descs) = split_descs(descs, plan.n_tx_frames);

    // Receive side arms first: the whole receive set goes to the fill
    // ring, and the simulated ring accepts all of it.
    let mut engine = RecvEngine::new(rx_descs.len());
    let mut fill_queue: Vec<FrameDesc> = rx_descs.clone();
    engine.arm(fill_queue.len()).expect("the fill ring was sized to take the whole set");

    // Send side: encode every target and submit the batch in one go.
    encode_targets(&mut pool, &mut tx_descs, &scanner(), &targets);
    let batch = tx_batch(&tx_descs, targets.len());
    // The simulated transmit ring accepts the whole batch.
    let accepted = batch.len();
    check_submission(targets.len(), accepted).expect("the ring was sized to exceed the batch");

    // The simulated host reads each transmitted probe off the wire and,
    // if it replies, a SYN-ACK lands in a fill-queue frame.
    let mut delivered: Vec<FrameDesc> = Vec::new();
    if replies {
        for d in &batch {
            let probe_bytes = pool.read_frame(d);
            let probe = decode_response(&probe_bytes).expect("the probe is well-formed");
            assert_eq!(probe.ip, IpAddr::V4([192, 168, 69, 1]));
            let synack = encode_tcp_frame_v4(
                &[0x4a, 0xf1, 0x30, 0xeb, 0x0d, 0x31],
                &[0xf6, 0xe0, 0xf6, 0xc9, 0x60, 0x0a],
                &[192, 168, 69, 2],
                &[192, 168, 69, 1],
                1234,
                probe.port,
                0,
                1,
                true,
                true,
                0,
                20,
            );
            let mut frame = fill_queue.remove(0);
            pool.write_frame(&mut frame, &synack).expect("a SYN-ACK fits a frame");
            delivered.push(frame);
        }
    }

    // The receive loop: poll, decode, recycle, until the termination
    // signal; the grace period is modelled as a bounded number of polls.
    let n_tx_frames = plan.n_tx_frames;
    let mut done = false;
    let mut polls = 0;
    while !done {
        let k = delivered.len();
        if k == 0 {
            // Nothing consumed: wake the driver if it asked for it.
            let fill_needs_wakeup = polls % 2 == 0;
            if should_wakeup(k, fill_needs_wakeup) {
                // The simulated driver has nothing to deliver anyway.
            }
        } else {
            let mut idxs: Vec<usize> = Vec::new();
            for d in &delivered {
                idxs.push(pool.frame_index_of(d) - n_tx_frames);
            }
            engine.process_batch(&pool, &delivered, k, &idxs);
            // process_batch put every frame back in the fill queue.
            for d in delivered.drain(..) {
                fill_queue.push(d);
            }
            assert_eq!(engine.state_counts(), (0, 4, 0));
        }
        polls += 1;
        if polls >= 3 {
            done = true;
        }
    }

    engine.into_responders()
}

#[test]
fn replying_host_yields_exactly_one_responder() {
    let responders = run_scan(true);
    assert_eq!(responders, vec![Target { ip: IpAddr::V4([192, 168, 69, 2]), port: 1234 }]);
}

#[test]
fn silent_host_yields_no_responders() {
    let responders = run_scan(false);
    assert!(responders.is_empty());
}
