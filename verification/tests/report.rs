use crud::report::{decimal_text, task_line};
use crud::task::{Task, TaskList};

#[test]
fn decimal_text_of_small_numbers() {
    assert_eq!(decimal_text(0), "0");
    assert_eq!(decimal_text(7), "7");
    assert_eq!(decimal_text(9), "9");
    assert_eq!(decimal_text(10), "10");
    assert_eq!(decimal_text(11), "11");
    assert_eq!(decimal_text(100), "100");
    assert_eq!(decimal_text(1234567890), "1234567890");
}

#[test]
fn decimal_text_of_the_largest_number() {
    assert_eq!(decimal_text(usize::MAX), format!("{}", usize::MAX));
}

#[test]
fn line_of_an_open_task() {
    let task = Task::new(String::from("a"), String::from("buy milk"));
    assert_eq!(task_line(1, &task), "1. [ ] buy milk");
}

#[test]
fn line_of_a_done_task() {
    let task = Task { id: String::from("a"), description: String::from("pay rent"), done: true };
    assert_eq!(task_line(12, &task), "12. [x] pay rent");
}

#[test]
fn line_of_an_empty_description() {
    let task = Task::new(String::from("a"), String::new());
    assert_eq!(task_line(3, &task), "3. [ ] ");
}

#[test]
fn report_of_the_empty_list_has_no_line() {
    assert!(TaskList::new().report().is_empty());
}

#[test]
fn report_numbers_from_one() {
    let mut list = TaskList::new();
    list.push(String::from("a"), String::from("buy milk"));
    list.push(String::from("b"), String::from("pay rent"));
    list.push(String::from("c"), String::from("d\u{e9}j\u{e0} vu"));
    list.complete(2);
    assert_eq!(
        list.report(),
        vec![
            String::from("1. [ ] buy milk"),
            String::from("2. [x] pay rent"),
            String::from("3. [ ] d\u{e9}j\u{e0} vu"),
        ]
    );
}

#[test]
fn report_reaches_two_digits() {
    let mut list = TaskList::new();
    for n in 0..11 {
        list.push(format!("id{}", n), format!("t{}", n));
    }
    let lines = list.report();
    assert_eq!(lines.len(), 11);
    assert_eq!(lines[8], "9. [ ] t8");
    assert_eq!(lines[9], "10. [ ] t9");
    assert_eq!(lines[10], "11. [ ] t10");
}

#[test]
fn report_leaves_the_list_as_it_was() {
    let mut list = TaskList::new();
    list.push(String::from("a"), String::from("buy milk"));
    let before = list.clone();
    let _ = list.report();
    assert_eq!(list, before);
}
