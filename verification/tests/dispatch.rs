use hello_server::dispatch::Job;
use hello_server::dispatch::ThreadPool;
use hello_server::dispatch::Worker;

#[test]
fn fresh_pool_is_empty() {
    let pool = ThreadPool::new(4);
    assert_eq!(pool.size(), 4);
    assert_eq!(pool.pending_count(), 0);
}

#[test]
fn fifo_dequeue_order() {
    let mut pool = ThreadPool::new(2);
    let jobs = [Job { conn: 11 }, Job { conn: 22 }, Job { conn: 33 }];
    for j in jobs {
        pool.execute(j);
    }
    assert_eq!(pool.pending_count(), 3);
    assert_eq!(pool.take_job(), Some(jobs[0]));
    assert_eq!(pool.take_job(), Some(jobs[1]));
    assert_eq!(pool.take_job(), Some(jobs[2]));
    assert_eq!(pool.take_job(), None);
}

#[test]
fn every_job_taken_exactly_once() {
    let mut pool = ThreadPool::new(3);
    for conn in 0..10u64 {
        pool.execute(Job { conn });
    }
    let mut seen = vec![0usize; 10];
    while let Some(job) = pool.take_job() {
        seen[job.conn as usize] += 1;
    }
    assert!(seen.iter().all(|&count| count == 1));
    assert_eq!(pool.pending_count(), 0);
    assert_eq!(pool.take_job(), None);
}

#[test]
fn idle_pool_yields_nothing() {
    let mut pool = ThreadPool::new(1);
    assert_eq!(pool.take_job(), None);
    assert_eq!(pool.take_job(), None);
    assert_eq!(pool.pending_count(), 0);
}

#[test]
fn one_submission_wakes_one_worker() {
    let mut pool = ThreadPool::new(2);
    let mut first = Worker::new(0);
    let mut second = Worker::new(1);
    assert_eq!(first.fetch_job(&mut pool), None);
    assert!(first.idle());

    pool.execute(Job { conn: 7 });
    assert_eq!(first.fetch_job(&mut pool), Some(Job { conn: 7 }));
    assert!(!first.idle());
    assert_eq!(second.fetch_job(&mut pool), None);
    assert!(second.idle());
}

#[test]
fn worker_runs_one_job_to_completion() {
    let mut pool = ThreadPool::new(1);
    let mut worker = Worker::new(0);
    pool.execute(Job { conn: 1 });
    pool.execute(Job { conn: 2 });

    let job = worker.fetch_job(&mut pool).unwrap();
    assert_eq!(job, Job { conn: 1 });
    // the second job waits in the queue while the single worker is busy
    assert_eq!(pool.pending_count(), 1);
    assert!(!worker.idle());

    assert_eq!(worker.complete(), Job { conn: 1 });
    assert!(worker.idle());
    assert_eq!(worker.fetch_job(&mut pool), Some(Job { conn: 2 }));
}
