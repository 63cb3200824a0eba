use multithreaded_server::channel::{Received, WorkChannel};
use multithreaded_server::pool::{submit, Lifecycle, Phase, PoolError, ShutdownStep};

#[test]
fn should_create_successfully() {
    let life = match Lifecycle::new(4) {
        Ok(l) => l,
        Err(_) => panic!("didn't create the pool"),
    };
    assert_eq!(life.size(), 4);
    assert_eq!(life.phase(), Phase::Running);
    for id in 0..4 {
        assert!(life.has_handle(id));
    }
    assert!(!life.has_handle(4));
}

#[test]
fn zero_workers_is_refused() {
    assert!(matches!(Lifecycle::new(0), Err(PoolError::ZeroSize)));
}

#[test]
fn one_worker_is_enough() {
    let life = Lifecycle::new(1).unwrap();
    assert_eq!(life.size(), 1);
    assert!(life.has_handle(0));
}

#[test]
fn running_pool_accepts_jobs() {
    let life = Lifecycle::new(2).unwrap();
    assert_eq!(life.check_submit(), Ok(()));
    let mut ch = WorkChannel::new(2);
    assert_eq!(submit(&life, &mut ch, 11u32), Ok(()));
    assert_eq!(ch.len(), 1);
}

#[test]
fn shutdown_closes_once_then_joins_each_worker_in_order() {
    let mut life = Lifecycle::new(3).unwrap();
    let steps = life.shutdown_all();
    assert_eq!(
        steps,
        vec![
            ShutdownStep::CloseChannel,
            ShutdownStep::Join(0),
            ShutdownStep::Join(1),
            ShutdownStep::Join(2),
            ShutdownStep::Done,
        ]
    );
    assert_eq!(life.phase(), Phase::Terminated);
    for id in 0..3 {
        assert!(!life.has_handle(id));
    }
}

#[test]
fn shutdown_steps_one_at_a_time() {
    let mut life = Lifecycle::new(2).unwrap();
    assert_eq!(life.shutdown_step(), ShutdownStep::CloseChannel);
    assert_eq!(life.phase(), Phase::Closing);
    assert!(life.has_handle(0));
    assert_eq!(life.shutdown_step(), ShutdownStep::Join(0));
    assert!(!life.has_handle(0));
    assert!(life.has_handle(1));
    assert_eq!(life.shutdown_step(), ShutdownStep::Join(1));
    assert_eq!(life.shutdown_step(), ShutdownStep::Done);
    assert_eq!(life.phase(), Phase::Terminated);
}

#[test]
fn terminated_pool_stays_terminated() {
    let mut life = Lifecycle::new(1).unwrap();
    life.shutdown_all();
    assert_eq!(life.shutdown_step(), ShutdownStep::Done);
    assert_eq!(life.phase(), Phase::Terminated);
    assert_eq!(life.shutdown_all(), vec![ShutdownStep::Done]);
}

#[test]
fn submit_after_shutdown_fails() {
    let mut life = Lifecycle::new(2).unwrap();
    let mut ch = WorkChannel::new(2);
    for step in life.shutdown_all() {
        if step == ShutdownStep::CloseChannel {
            ch.close();
        }
    }
    assert_eq!(life.check_submit(), Err(PoolError::ShutDown));
    assert_eq!(submit(&life, &mut ch, 1u32), Err(PoolError::ShutDown));
    assert_eq!(ch.len(), 0);
}

#[test]
fn submit_while_closing_fails() {
    let mut life = Lifecycle::new(2).unwrap();
    assert_eq!(life.shutdown_step(), ShutdownStep::CloseChannel);
    let mut ch = WorkChannel::new(2);
    assert_eq!(submit(&life, &mut ch, 1u32), Err(PoolError::ShutDown));
}

#[test]
fn submit_to_closed_channel_fails_even_while_running() {
    let life = Lifecycle::new(2).unwrap();
    let mut ch = WorkChannel::new(2);
    ch.close();
    assert_eq!(submit(&life, &mut ch, 1u32), Err(PoolError::ShutDown));
}

#[test]
fn submit_with_every_worker_gone_fails() {
    let life = Lifecycle::new(2).unwrap();
    let mut ch = WorkChannel::new(2);
    ch.detach_receiver();
    ch.detach_receiver();
    assert_eq!(submit(&life, &mut ch, 1u32), Err(PoolError::Disconnected));
}

#[test]
fn jobs_queued_before_shutdown_all_run() {
    let mut life = Lifecycle::new(2).unwrap();
    let mut ch = WorkChannel::new(2);
    let n = 50u32;
    for i in 0..n {
        assert_eq!(submit(&life, &mut ch, i), Ok(()));
    }
    let mut count = 0u32;
    for step in life.shutdown_all() {
        match step {
            ShutdownStep::CloseChannel => {
                ch.close();
            }
            ShutdownStep::Join(_) => loop {
                match ch.receive() {
                    Received::Job(_) => count += 1,
                    Received::Empty => panic!("a closed channel asked to wait"),
                    Received::Closed => break,
                }
            },
            ShutdownStep::Done => {}
        }
    }
    assert_eq!(count, n);
}
