use rust_tutorial_webserver::{Fetch, Phase, ThreadPool};
use std::sync::{Arc, Mutex};

type Job = Box<dyn FnOnce() + Send + 'static>;

fn recorder<T: Send + 'static>(log: &Arc<Mutex<Vec<T>>>, entry: T) -> Job {
    let log = Arc::clone(log);
    Box::new(move || log.lock().unwrap().push(entry))
}

/// Lets worker `id` do what its thread does until it has to wait or ends.
fn work(pool: &mut ThreadPool<Job>, id: usize) {
    while pool.can_fetch(id) {
        match pool.fetch(id) {
            Fetch::Job(job) => {
                job();
                pool.finish(id);
            }
            Fetch::Wait | Fetch::Closed => break,
        }
    }
}

/// Disposes of the pool: closes it and joins every worker in order, each
/// after it has worked until the end.
fn dispose(pool: &mut ThreadPool<Job>) -> usize {
    let mut joins = 0;
    pool.close();
    while let Some(id) = pool.next_join() {
        work(pool, id);
        assert!(pool.can_join(id));
        pool.join(id);
        joins += 1;
    }
    joins
}

#[test]
fn ten_jobs_on_two_workers_run_once_each() {
    let log = Arc::new(Mutex::new(Vec::new()));
    let mut pool = ThreadPool::<Job>::new(2);
    for index in 0..10usize {
        pool.execute(recorder(&log, index));
    }
    dispose(&mut pool);
    assert!(pool.is_disposed());
    let mut seen = log.lock().unwrap().clone();
    assert_eq!(10, seen.len());
    seen.sort();
    assert_eq!((0..10).collect::<Vec<usize>>(), seen);
}

#[test]
fn ten_jobs_on_two_workers_taking_turns() {
    let log = Arc::new(Mutex::new(Vec::new()));
    let mut pool = ThreadPool::<Job>::new(2);
    for index in 0..10usize {
        pool.execute(recorder(&log, index));
    }
    let mut in_flight: Vec<Option<Job>> = vec![None, None];
    let mut turn = 0;
    while pool.pending() > 0 || in_flight.iter().any(|job| job.is_some()) {
        match in_flight[turn].take() {
            Some(job) => {
                job();
                pool.finish(turn);
            }
            None => {
                if let Fetch::Job(job) = pool.fetch(turn) {
                    in_flight[turn] = Some(job);
                }
            }
        }
        turn = if turn == 0 { if pool.pending() % 3 == 0 { 0 } else { 1 } } else { 0 };
    }
    assert_eq!(2, dispose(&mut pool));
    let mut seen = log.lock().unwrap().clone();
    seen.sort();
    assert_eq!((0..10).collect::<Vec<usize>>(), seen);
}

#[test]
fn one_worker_runs_jobs_in_the_order_of_submission() {
    let log = Arc::new(Mutex::new(Vec::new()));
    let mut pool = ThreadPool::<Job>::new(1);
    pool.execute(recorder(&log, "A"));
    let slow = match pool.fetch(0) {
        Fetch::Job(job) => job,
        _ => panic!("the worker found no job"),
    };
    pool.execute(recorder(&log, "B"));
    pool.close();
    assert_eq!(Some(0), pool.next_join());
    assert!(!pool.can_join(0));
    slow();
    pool.finish(0);
    assert_eq!(1, dispose(&mut pool));
    assert_eq!(vec!["A", "B"], *log.lock().unwrap());
}

#[test]
fn every_job_runs_once_whatever_the_size() {
    for size in 1..=5usize {
        for jobs in 0..=12usize {
            let log = Arc::new(Mutex::new(Vec::new()));
            let mut pool = ThreadPool::<Job>::build(size).unwrap();
            for index in 0..jobs {
                pool.execute(recorder(&log, index));
                if index % 2 == 1 {
                    work(&mut pool, index % size);
                }
            }
            assert_eq!(size, dispose(&mut pool));
            assert!(pool.is_disposed());
            assert_eq!(0, pool.pending());
            let mut seen = log.lock().unwrap().clone();
            seen.sort();
            assert_eq!((0..jobs).collect::<Vec<usize>>(), seen);
        }
    }
}

#[test]
fn disposal_waits_for_a_job_in_flight() {
    let log = Arc::new(Mutex::new(Vec::new()));
    let mut pool = ThreadPool::<Job>::new(2);
    pool.execute(recorder(&log, 1));
    pool.execute(recorder(&log, 2));
    let in_flight = match pool.fetch(1) {
        Fetch::Job(job) => job,
        _ => panic!("the worker found no job"),
    };
    pool.close();
    work(&mut pool, 0);
    assert_eq!(Phase::Terminated, pool.workers()[0].phase());
    pool.join(0);
    assert_eq!(Some(1), pool.next_join());
    assert_eq!(Phase::Running, pool.workers()[1].phase());
    assert!(!pool.can_join(1));
    assert!(!pool.can_fetch(1));
    assert!(!pool.is_disposed());
    in_flight();
    pool.finish(1);
    assert!(matches!(pool.fetch(1), Fetch::Closed));
    assert!(pool.can_join(1));
    pool.join(1);
    assert!(pool.is_disposed());
    let mut seen = log.lock().unwrap().clone();
    seen.sort();
    assert_eq!(vec![1, 2], seen);
}

#[test]
fn two_submissions_in_either_order_are_both_run() {
    for first in [7usize, 8usize] {
        let second = 15 - first;
        let log = Arc::new(Mutex::new(Vec::new()));
        let mut pool = ThreadPool::<Job>::new(2);
        pool.execute(recorder(&log, first));
        pool.execute(recorder(&log, second));
        assert_eq!(2, pool.pending());
        dispose(&mut pool);
        assert_eq!(vec![first, second], *log.lock().unwrap());
    }
}

#[test]
fn shutdown_takes_as_many_steps_as_are_owed() {
    // Two queued jobs (two steps each), one running worker (three steps),
    // one idle worker (two steps).
    let mut pool = ThreadPool::<u32>::new(2);
    pool.execute(1);
    pool.execute(2);
    pool.execute(3);
    assert_eq!(Fetch::Job(1), pool.fetch(1));
    pool.close();
    let mut steps = 0;
    while let Some(id) = pool.next_join() {
        if pool.can_finish(id) {
            pool.finish(id);
        } else if pool.can_fetch(id) {
            pool.fetch(id);
        } else {
            pool.join(id);
        }
        steps += 1;
    }
    assert_eq!(2 * 2 + 3 + 2, steps);
    assert!(pool.is_disposed());
    assert_eq!(0, pool.pending());
}

#[test]
fn a_worker_that_never_finishes_keeps_no_other_from_working() {
    let mut pool = ThreadPool::<u32>::new(2);
    for job in 1..=4 {
        pool.execute(job);
    }
    assert_eq!(Fetch::Job(1), pool.fetch(0));
    assert_eq!(Fetch::Job(2), pool.fetch(1));
    pool.finish(1);
    assert_eq!(Fetch::Job(3), pool.fetch(1));
    pool.finish(1);
    assert_eq!(Fetch::Job(4), pool.fetch(1));
    pool.finish(1);
    pool.close();
    assert_eq!(Fetch::Closed, pool.fetch(1));
    assert_eq!(Phase::Running, pool.workers()[0].phase());
    assert_eq!(Some(0), pool.next_join());
    assert!(!pool.can_join(0));
    assert!(!pool.can_join(1));
    assert!(!pool.is_disposed());
}
