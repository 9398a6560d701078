use ironcladserver::pool::{JobQueue, PoolCreationError, WorkerStep};

#[test]
fn pool_of_size_zero_is_refused() {
    let r: Result<JobQueue<u32>, PoolCreationError> = JobQueue::new(0);
    assert!(matches!(r, Err(PoolCreationError::InvalidPoolSize)));
}

#[test]
fn jobs_leave_in_order_one_per_worker() {
    let mut q: JobQueue<u32> = JobQueue::new(2).unwrap();
    assert_eq!(q.pool_size(), 2);
    for j in 1..=3 {
        assert!(q.submit(j).is_ok());
    }
    assert!(matches!(q.next_job(0), WorkerStep::Run(1)));
    assert!(matches!(q.next_job(1), WorkerStep::Run(2)));
    assert_eq!(q.running_jobs(), 2);
    q.finish(1);
    assert!(matches!(q.next_job(1), WorkerStep::Run(3)));
    q.finish(1);
    assert!(matches!(q.next_job(1), WorkerStep::Wait));
    q.finish(0);
    assert_eq!(q.running_jobs(), 0);
}

#[test]
fn closed_queue_refuses_jobs_and_drains() {
    let mut q: JobQueue<u32> = JobQueue::new(1).unwrap();
    assert!(q.submit(10).is_ok());
    q.close();
    assert!(matches!(q.submit(11), Err(11)));
    assert!(!q.is_drained());
    assert!(matches!(q.next_job(0), WorkerStep::Run(10)));
    assert!(!q.is_drained());
    q.finish(0);
    assert!(q.is_drained());
    assert!(matches!(q.next_job(0), WorkerStep::Exit));
}

#[test]
fn four_workers_run_eight_jobs_in_two_rounds() {
    let mut q: JobQueue<u32> = JobQueue::new(4).unwrap();
    for j in 0..8 {
        assert!(q.submit(j).is_ok());
    }
    q.close();
    let mut rounds = 0;
    let mut done = Vec::new();
    loop {
        let mut ran = Vec::new();
        for w in 0..4 {
            if let WorkerStep::Run(j) = q.next_job(w) {
                ran.push((w, j));
            }
        }
        if ran.is_empty() {
            break;
        }
        assert!(q.running_jobs() <= 4);
        rounds += 1;
        for (w, j) in ran {
            done.push(j);
            q.finish(w);
        }
    }
    assert_eq!(rounds, 2);
    assert_eq!(done, (0..8).collect::<Vec<u32>>());
    assert!(q.is_drained());
}
