use queue_sim::request::Request;
use queue_sim::worker::Worker;
use std::collections::VecDeque;

#[test]
fn request_new_sets_both_counters() {
    let r = Request::new(7, 11);
    assert_eq!(r.remaining_work_ticks, 7);
    assert_eq!(r.remaining_timeout_ticks, 11);
    assert!(!r.is_done());
    assert!(!r.is_timed_out());
}

#[test]
fn waiting_tick_only_moves_the_deadline() {
    let mut r = Request::new(7, 11);
    r.waiting_tick();
    assert_eq!(r, Request { remaining_work_ticks: 7, remaining_timeout_ticks: 10 });
}

#[test]
fn waiting_tick_stays_at_zero() {
    let mut r = Request::new(3, 1);
    r.waiting_tick();
    assert!(r.is_timed_out());
    r.waiting_tick();
    assert_eq!(r, Request { remaining_work_ticks: 3, remaining_timeout_ticks: 0 });
}

#[test]
fn working_tick_moves_both_counters() {
    let mut r = Request::new(7, 11);
    r.working_tick();
    assert_eq!(r, Request { remaining_work_ticks: 6, remaining_timeout_ticks: 10 });
}

#[test]
fn working_tick_stays_at_zero() {
    let mut r = Request::new(0, 0);
    r.working_tick();
    assert_eq!(r, Request { remaining_work_ticks: 0, remaining_timeout_ticks: 0 });
    let mut s = Request::new(2, 0);
    s.working_tick();
    assert_eq!(s, Request { remaining_work_ticks: 1, remaining_timeout_ticks: 0 });
    let mut t = Request::new(0, 2);
    t.working_tick();
    assert_eq!(t, Request { remaining_work_ticks: 0, remaining_timeout_ticks: 1 });
}

#[test]
fn counters_never_grow_over_many_ticks() {
    let mut r = Request::new(5, 3);
    let mut last = r;
    for step in 0..10 {
        if step % 2 == 0 {
            r.waiting_tick();
        } else {
            r.working_tick();
        }
        assert!(r.remaining_work_ticks <= last.remaining_work_ticks);
        assert!(r.remaining_timeout_ticks <= last.remaining_timeout_ticks);
        last = r;
    }
    assert_eq!(r, Request { remaining_work_ticks: 0, remaining_timeout_ticks: 0 });
}

#[test]
fn largest_counters_count_down_by_one() {
    let mut r = Request::new(u32::MAX, u32::MAX);
    r.working_tick();
    assert_eq!(r.remaining_work_ticks, u32::MAX - 1);
    assert_eq!(r.remaining_timeout_ticks, u32::MAX - 1);
}

#[test]
fn new_worker_is_free() {
    let w = Worker::new();
    assert!(w.is_free());
    assert_eq!(w.current_request, None);
}

#[test]
fn take_makes_the_worker_busy() {
    let mut w = Worker::new();
    w.take(Request::new(4, 9));
    assert!(!w.is_free());
    assert_eq!(w.current_request, Some(Request::new(4, 9)));
}

#[test]
fn busy_worker_advances_its_request() {
    let mut w = Worker::new();
    w.take(Request::new(4, 9));
    let mut queue: VecDeque<Request> = VecDeque::new();
    queue.push_back(Request::new(1, 1));
    let finished = w.tick(&mut queue, false);
    assert_eq!(finished, None);
    assert_eq!(w.current_request, Some(Request::new(3, 8)));
    assert_eq!(queue.len(), 1);
}

#[test]
fn busy_worker_hands_back_a_finished_request() {
    let mut w = Worker::new();
    w.take(Request::new(1, 9));
    let mut queue: VecDeque<Request> = VecDeque::new();
    queue.push_back(Request::new(5, 5));
    let finished = w.tick(&mut queue, false);
    assert_eq!(finished, Some(Request::new(0, 8)));
    assert!(w.is_free());
    // The worker is free from the next tick on: it draws nothing in this one.
    assert_eq!(queue.len(), 1);
}

#[test]
fn request_without_work_finishes_at_its_first_tick() {
    let mut w = Worker::new();
    w.take(Request::new(0, 9));
    let mut queue: VecDeque<Request> = VecDeque::new();
    let finished = w.tick(&mut queue, true);
    assert_eq!(finished, Some(Request::new(0, 8)));
    assert!(w.is_free());
}

#[test]
fn finished_request_may_have_timed_out() {
    let mut w = Worker::new();
    w.take(Request::new(1, 1));
    let mut queue: VecDeque<Request> = VecDeque::new();
    let finished = w.tick(&mut queue, false);
    assert_eq!(finished, Some(Request::new(0, 0)));
    assert!(finished.unwrap().is_timed_out());
}

#[test]
fn timed_out_request_is_still_worked_on() {
    let mut w = Worker::new();
    w.take(Request::new(3, 0));
    let mut queue: VecDeque<Request> = VecDeque::new();
    assert_eq!(w.tick(&mut queue, false), None);
    assert_eq!(w.current_request, Some(Request::new(2, 0)));
}

#[test]
fn idle_worker_draws_the_oldest_under_fifo() {
    let mut w = Worker::new();
    let mut queue: VecDeque<Request> = VecDeque::new();
    queue.push_back(Request::new(1, 10));
    queue.push_back(Request::new(2, 20));
    queue.push_back(Request::new(3, 30));
    let finished = w.tick(&mut queue, false);
    assert_eq!(finished, None);
    // No work is done on it in the tick that draws it.
    assert_eq!(w.current_request, Some(Request::new(1, 10)));
    assert_eq!(queue.len(), 2);
    assert_eq!(queue[0], Request::new(2, 20));
    assert_eq!(queue[1], Request::new(3, 30));
}

#[test]
fn idle_worker_draws_the_newest_under_lifo() {
    let mut w = Worker::new();
    let mut queue: VecDeque<Request> = VecDeque::new();
    queue.push_back(Request::new(1, 10));
    queue.push_back(Request::new(2, 20));
    queue.push_back(Request::new(3, 30));
    let finished = w.tick(&mut queue, true);
    assert_eq!(finished, None);
    assert_eq!(w.current_request, Some(Request::new(3, 30)));
    assert_eq!(queue.len(), 2);
    assert_eq!(queue[0], Request::new(1, 10));
    assert_eq!(queue[1], Request::new(2, 20));
}

#[test]
fn idle_worker_stays_idle_on_an_empty_queue() {
    let mut w = Worker::new();
    let mut queue: VecDeque<Request> = VecDeque::new();
    assert_eq!(w.tick(&mut queue, false), None);
    assert!(w.is_free());
    assert_eq!(w.tick(&mut queue, true), None);
    assert!(w.is_free());
    assert!(queue.is_empty());
}
