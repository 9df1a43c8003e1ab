use transcribe::state::{begin_task, is_cancelled, TranscribeState};

fn is_v4_text(s: &str) -> bool {
    let cs: Vec<char> = s.chars().collect();
    cs.len() == 36
        && [8, 13, 18, 23].iter().all(|&i| cs[i] == '-')
        && cs
            .iter()
            .enumerate()
            .filter(|(i, _)| ![8, 13, 18, 23].contains(i))
            .all(|(_, c)| c.is_ascii_digit() || ('a'..='f').contains(c))
        && cs[14] == '4'
        && ['8', '9', 'a', 'b'].contains(&cs[19])
}

#[test]
fn fresh_state_cancels_nothing() {
    let s = TranscribeState::new();
    assert!(!is_cancelled(&s, "anything"));
    let d = TranscribeState::default();
    assert!(!is_cancelled(&d, ""));
}

#[test]
fn begin_task_gives_a_v4_uuid_that_is_not_cancelled() {
    let mut s = TranscribeState::new();
    let a = begin_task(&mut s);
    let b = begin_task(&mut s);
    assert!(is_v4_text(&a), "{a}");
    assert!(is_v4_text(&b), "{b}");
    assert_ne!(a, b);
    assert!(!is_cancelled(&s, &a));
    assert!(!is_cancelled(&s, &b));
}

#[test]
fn cancel_is_read_back_and_leaves_other_tasks_alone() {
    let mut s = TranscribeState::new();
    s.set_flag("t1".to_string(), false);
    s.set_flag("t2".to_string(), false);
    s.cancel("t1".to_string());
    assert!(is_cancelled(&s, "t1"));
    assert!(!is_cancelled(&s, "t2"));
    assert!(!is_cancelled(&s, "t3"));
}

#[test]
fn cancel_before_start_then_restart_clears() {
    let mut s = TranscribeState::new();
    s.cancel("job".to_string());
    assert!(is_cancelled(&s, "job"));
    s.set_flag("job".to_string(), false);
    assert!(!is_cancelled(&s, "job"));
}

#[test]
fn removed_task_is_not_cancelled() {
    let mut s = TranscribeState::new();
    s.cancel("a".to_string());
    s.cancel("b".to_string());
    s.remove_task("a");
    assert!(!is_cancelled(&s, "a"));
    assert!(is_cancelled(&s, "b"));
    s.remove_task("missing");
    assert!(is_cancelled(&s, "b"));
    s.remove_task("b");
    assert!(!is_cancelled(&s, "b"));
}

#[test]
fn task_ids_compare_by_text() {
    let mut s = TranscribeState::new();
    s.cancel("é-1".to_string());
    assert!(is_cancelled(&s, "é-1"));
    assert!(!is_cancelled(&s, "e-1"));
    assert!(!is_cancelled(&s, "é-"));
}
