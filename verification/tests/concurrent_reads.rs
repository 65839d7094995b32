//! Concurrency behaviour of the bridge: many workers reading at once each
//! get their own content with no duplicated or lost host invocation, and a
//! worker pool of size one survives a host reader that itself performs a
//! nested blocking round trip, because the worker pool is disjoint from the
//! host's own I/O pool.

use css_bridge::awaiter::{deliver_host_value, HostValue};
use css_bridge::bridge::{fetch_read, BridgeError, ReadRequest, SourceBridge};
use css_bridge::channel::create_gateway;
use css_bridge::rendezvous::Rendezvous;
use css_bridge::runner::{CompletionBranch, CompletionGate};

#[test]
fn n_concurrent_reads_each_get_their_own_content() {
    const N: usize = 8;
    let (gateway, host_rx) = create_gateway::<ReadRequest>();
    let (count_tx, count_rx) = crossbeam_channel::unbounded::<usize>();
    let host = rayon::ThreadPoolBuilder::new().num_threads(1).build().unwrap();
    host.spawn(move || {
        let mut calls: usize = 0;
        while let Ok(msg) = host_rx.recv() {
            calls += 1;
            let text = format!("content-of-{}", msg.path);
            deliver_host_value(&msg.reply_to, HostValue::Text(text));
        }
        count_tx.send(calls).unwrap();
    });

    let workers = rayon::ThreadPoolBuilder::new().num_threads(N).build().unwrap();
    let (result_tx, result_rx) = crossbeam_channel::unbounded::<(usize, String)>();
    workers.scope(|s| {
        for i in 0..N {
            let gateway = &gateway;
            let result_tx = result_tx.clone();
            s.spawn(move |_| {
                let ch = Rendezvous::new();
                let path = format!("file-{}.css", i);
                let got = fetch_read(gateway, &ch, &path).unwrap();
                result_tx.send((i, got)).unwrap();
            });
        }
    });
    drop(result_tx);

    let mut seen = vec![false; N];
    while let Ok((i, got)) = result_rx.recv() {
        assert_eq!(got, format!("content-of-file-{}.css", i));
        assert!(!seen[i]);
        seen[i] = true;
    }
    assert!(seen.iter().all(|&s| s));

    // the host context observed exactly N invocations
    drop(gateway);
    assert_eq!(count_rx.recv().unwrap(), N);
}

#[test]
fn single_worker_survives_nested_host_io() {
    // a separate pool standing for the host runtime's own bounded I/O pool
    let (io_tx, io_rx) =
        crossbeam_channel::unbounded::<(String, crossbeam_channel::Sender<String>)>();
    let io_pool = rayon::ThreadPoolBuilder::new().num_threads(1).build().unwrap();
    io_pool.spawn(move || {
        while let Ok((path, back)) = io_rx.recv() {
            back.send(format!("content-of-{}", path)).unwrap();
        }
    });

    let (gateway, host_rx) = create_gateway::<ReadRequest>();
    let host = rayon::ThreadPoolBuilder::new().num_threads(1).build().unwrap();
    host.spawn(move || {
        while let Ok(msg) = host_rx.recv() {
            // the host reader itself blocks on a round trip into the host's
            // I/O pool before it can answer
            let (back_tx, back_rx) = crossbeam_channel::unbounded::<String>();
            io_tx.send((msg.path.clone(), back_tx)).unwrap();
            let text = back_rx.recv().unwrap();
            deliver_host_value(&msg.reply_to, HostValue::Text(text));
        }
    });

    // the transformation runs on a disjoint pool as small as one worker
    let workers = rayon::ThreadPoolBuilder::new().num_threads(1).build().unwrap();
    let result: Result<Vec<String>, BridgeError> = workers.install(|| {
        let ch = Rendezvous::new();
        let mut contents = Vec::new();
        for i in 0..5 {
            let path = format!("part-{}.css", i);
            contents.push(fetch_read(&gateway, &ch, &path)?);
        }
        Ok(contents)
    });

    let mut gate = CompletionGate::new();
    let branch = gate.settle(&result);
    assert!(matches!(branch, CompletionBranch::Fulfill));
    assert!(gate.is_settled());
    let contents = result.unwrap();
    for (i, text) in contents.iter().enumerate() {
        assert_eq!(text, &format!("content-of-part-{}.css", i));
    }
    drop(gateway);
}

#[test]
fn read_through_bridge_caches_and_tags_failures() {
    let (gateway, host_rx) = create_gateway::<ReadRequest>();
    let host = rayon::ThreadPoolBuilder::new().num_threads(1).build().unwrap();
    host.spawn(move || {
        while let Ok(msg) = host_rx.recv() {
            if msg.path.ends_with(".css") {
                let text = format!("content-of-{}", msg.path);
                deliver_host_value(&msg.reply_to, HostValue::Text(text));
            } else {
                deliver_host_value(&msg.reply_to, HostValue::Unexpected);
            }
        }
    });

    let mut bridge = SourceBridge::new(None, Some(gateway));
    assert!(bridge.has_reader());
    let ch = Rendezvous::new();

    let first = bridge.read(&ch, "one.css").unwrap();
    let second = bridge.read(&ch, "two.css").unwrap();
    assert_eq!(first, 0);
    assert_eq!(second, 1);
    assert_eq!(bridge.cache_len(), 2);
    assert_eq!(bridge.contents(first), "content-of-one.css");
    assert_eq!(bridge.contents(second), "content-of-two.css");

    let err = bridge.read(&ch, "broken.txt").unwrap_err();
    match err {
        BridgeError::ReadFailed { path, .. } => assert_eq!(path, "broken.txt"),
        other => panic!("expected a read error, got {:?}", other),
    }
    // a failed read caches nothing
    assert_eq!(bridge.cache_len(), 2);
}
