use wasm_watchdog::{Sentinel, ThreadPool};

type Job = Box<dyn FnOnce() + Send>;

#[test]
fn test_active() {
    let thread_num = 5;
    let mut pool: ThreadPool<Job> = ThreadPool::new(thread_num, None, None);
    for _job in 0..thread_num {
        pool.execute(Box::new(|| {}));
    }
    // every worker takes one job and is still running it
    let mut running = Vec::new();
    for _worker in 0..thread_num {
        running.push(pool.get_job().unwrap());
    }

    assert_eq!(thread_num, pool.thread_num());
    assert_eq!(thread_num, pool.active_thread_num());
    assert_eq!(0, pool.queued_job_num());
    assert_eq!(0, pool.panicked_thread_num());

    for job in running {
        job();
        pool.finish_job();
    }
}

#[test]
fn test_empty() {
    let thread_num = 10;
    let pool: ThreadPool<Job> = ThreadPool::new(thread_num, None, None);
    assert_eq!(thread_num, pool.thread_num());
    assert_eq!(0, pool.panicked_thread_num());
    assert_eq!(0, pool.active_thread_num());
    assert_eq!(0, pool.queued_job_num());

    assert!(pool.join());
}

/// Runs the head job on behalf of an idle worker, as a worker thread does.
fn run_one(pool: &mut ThreadPool<Job>) -> bool {
    match pool.get_job() {
        Some(job) => {
            job();
            pool.finish_job();
            true
        }
        None => false,
    }
}

#[test]
fn test_expand() {
    let mut pool: ThreadPool<u32> = ThreadPool::new(1, Some("w".to_string()), Some(4096));
    for j in 0..5 {
        pool.execute(j);
    }
    // the one worker takes the first job
    assert_eq!(pool.get_job(), Some(0));
    assert_eq!(1, pool.thread_num());
    assert_eq!(1, pool.active_thread_num());
    assert_eq!(4, pool.queued_job_num());

    assert_eq!(pool.set_thread_num(5), 4);
    for j in 1..5 {
        assert_eq!(pool.get_job(), Some(j));
    }
    assert_eq!(5, pool.thread_num());
    assert_eq!(5, pool.active_thread_num());
    assert!(!pool.join());
    for _ in 0..4 {
        assert!(!pool.finish_job());
    }
    assert!(pool.finish_job());
    assert!(pool.join());
    assert_eq!(pool.live_thread_num(), pool.thread_num());
    assert_eq!(pool.get_thread_name(), &Some("w".to_string()));
    assert_eq!(pool.get_stack_size(), Some(4096));
}

#[test]
fn test_panic() {
    let thread_num = 5;
    let mut pool: ThreadPool<bool> = ThreadPool::new(thread_num, Some("thread_name".to_string()), None);
    for _job in 0..thread_num {
        pool.execute(true);
    }
    for _job in 0..thread_num {
        pool.execute(false);
    }
    let mut exec_num = 0;
    while let Some(panics) = pool.get_job() {
        if panics {
            let sentinel = Sentinel::new();
            let (_, respawn) = pool.worker_exit(&sentinel);
            assert!(respawn);
        } else {
            exec_num += 1;
            pool.finish_job();
        }
    }
    assert!(pool.join());
    assert_eq!(thread_num, pool.thread_num());
    assert_eq!(0, pool.active_thread_num());
    assert_eq!(0, pool.queued_job_num());
    assert_eq!(thread_num, pool.panicked_thread_num());
    assert_eq!(thread_num, pool.live_thread_num());
    assert_eq!(thread_num, exec_num);
}

#[test]
fn test_shrink() {
    let before = 10;
    let after = 2;
    let mut pool: ThreadPool<Job> = ThreadPool::new(before, None, None);
    for _job in 0..before {
        pool.execute(Box::new(|| assert_eq!(1, 1)));
    }
    while run_one(&mut pool) {}

    pool.set_thread_num(after);
    for _job in 0..(after * 2) {
        pool.execute(Box::new(|| {}));
    }
    assert_eq!(after, pool.thread_num());
    assert_eq!(0, pool.panicked_thread_num());
}

#[test]
fn test_join() {
    let thread_num = 10;
    let test_num: usize = 50;
    let mut pool: ThreadPool<usize> = ThreadPool::new(thread_num, None, None);
    let mut exec_num = 0;
    for job in 0..test_num {
        pool.execute(job);
    }
    while let Some(_) = pool.get_job() {
        exec_num += 1;
        pool.finish_job();
    }
    assert!(pool.join());
    assert_eq!(test_num, exec_num);
    for job in 0..test_num {
        pool.execute(job);
    }
    assert!(!pool.join());
    while let Some(_) = pool.get_job() {
        exec_num += 1;
        pool.finish_job();
    }
    assert!(pool.join());
    assert_eq!(test_num * 2, exec_num);
}

#[test]
fn panicked_worker_is_counted_and_replaced() {
    let mut pool: ThreadPool<u32> = ThreadPool::new(2, None, None);
    pool.execute(1);
    pool.execute(2);
    let sentinel = Sentinel::new();
    assert_eq!(pool.get_job(), Some(1));
    // the job panics: the worker leaves without cancelling its sentinel
    assert_eq!(pool.worker_exit(&sentinel), (false, true));
    assert_eq!(pool.panicked_thread_num(), 1);
    assert_eq!(pool.live_thread_num(), 2);
    assert_eq!(pool.get_job(), Some(2));
    assert!(pool.finish_job());
    assert!(pool.join());
    assert_eq!(pool.active_thread_num(), 0);
    assert_eq!(pool.thread_num(), 2);
}

#[test]
fn shrinking_is_lazy() {
    let mut pool: ThreadPool<u32> = ThreadPool::new(3, None, None);
    assert_eq!(pool.set_thread_num(1), 0);
    assert_eq!(pool.thread_num(), 1);
    assert!(!pool.should_shrink());
    pool.execute(1);
    pool.execute(2);
    pool.get_job();
    pool.get_job();
    assert!(pool.should_shrink());
    let mut sentinel = Sentinel::new();
    sentinel.cancel();
    assert_eq!(pool.worker_exit(&sentinel), (false, false));
    assert_eq!(pool.live_thread_num(), 2);
    assert_eq!(pool.get_job(), None);
}
