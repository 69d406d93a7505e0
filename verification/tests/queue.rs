use music_player::action::Action;
use music_player::queue::CommandQueue;
use std::path::PathBuf;

#[test]
fn new_queue_is_empty() {
    let mut queue = CommandQueue::new();
    assert!(queue.is_empty());
    assert_eq!(queue.try_pop(), None);
    assert!(queue.is_empty());
}

#[test]
fn commands_leave_in_the_order_they_came() {
    let mut queue = CommandQueue::new();
    queue.push(Action::Load(PathBuf::from("a.mp3")));
    queue.push(Action::Stop);
    assert!(!queue.is_empty());
    assert_eq!(queue.try_pop(), Some(Action::Load(PathBuf::from("a.mp3"))));
    assert_eq!(queue.try_pop(), Some(Action::Stop));
    assert_eq!(queue.try_pop(), None);
    assert!(queue.is_empty());
}

#[test]
fn queue_takes_more_than_one_segment() {
    let mut queue = CommandQueue::new();
    let mut i = 0;
    while i < 200 {
        queue.push(Action::Load(PathBuf::from(format!("track-{}.mp3", i))));
        queue.push(Action::Stop);
        i += 1;
    }
    let mut j = 0;
    while j < 200 {
        assert_eq!(
            queue.try_pop(),
            Some(Action::Load(PathBuf::from(format!("track-{}.mp3", j))))
        );
        assert_eq!(queue.try_pop(), Some(Action::Stop));
        j += 1;
    }
    assert_eq!(queue.try_pop(), None);
}
