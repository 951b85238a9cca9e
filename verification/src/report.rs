//! The listing of a task list: one line per task, numbered from 1.

use crate::task::{Task, TaskList, TaskView};
use vstd::prelude::*;
use vstd::string::StringExecFns;

verus! {

/// The character of a decimal digit.
pub open spec fn digit(d: nat) -> char
    recommends
        d < 10,
{
    seq!['0', '1', '2', '3', '4', '5', '6', '7', '8', '9'][d as int]
}

/// A number in decimal, without leading zeros.
pub open spec fn decimal(n: nat) -> Seq<char>
    decreases n,
{
    if n < 10 {
        seq![digit(n)]
    } else {
        decimal(n / 10).push(digit(n % 10))
    }
}

/// The completion marker of a line.
pub open spec fn marker(done: bool) -> Seq<char> {
    if done {
        "x"@
    } else {
        " "@
    }
}

/// The line for the task at a position: the position, the marker in square
/// brackets, the description.
pub open spec fn line_of(position: nat, task: TaskView) -> Seq<char> {
    decimal(position) + ". ["@ + marker(task.done) + "] "@ + task.description
}

/// The listing of a list: the line of each task, in order, positions from 1.
pub open spec fn report_of(list: Seq<TaskView>) -> Seq<Seq<char>> {
    Seq::new(list.len(), |i: int| line_of((i + 1) as nat, list[i]))
}

/// What a sequence of strings reads as.
pub open spec fn texts(lines: Seq<String>) -> Seq<Seq<char>> {
    lines.map_values(|line: String| line@)
}

/// One decimal digit as text.
fn digit_text(d: usize) -> (text: &'static str)
    requires
        d < 10,
    ensures
        text@ == seq![digit(d as nat)],
{
    proof {
        reveal_strlit("0");
        reveal_strlit("1");
        reveal_strlit("2");
        reveal_strlit("3");
        reveal_strlit("4");
        reveal_strlit("5");
        reveal_strlit("6");
        reveal_strlit("7");
        reveal_strlit("8");
        reveal_strlit("9");
    }
    let text = match d {
        0 => "0",
        1 => "1",
        2 => "2",
        3 => "3",
        4 => "4",
        5 => "5",
        6 => "6",
        7 => "7",
        8 => "8",
        _ => "9",
    };
    assert(text@ =~= seq![digit(d as nat)]);
    text
}

/// Prints a number in decimal.
pub fn decimal_text(n: usize) -> (text: String)
    ensures
        text@ == decimal(n as nat),
    decreases n,
{
    if n < 10 {
        digit_text(n).to_owned()
    } else {
        let mut text = decimal_text(n / 10);
        text.append(digit_text(n % 10));
        assert(text@ =~= decimal(n as nat));
        text
    }
}

/// Prints the line for a task at a position.
pub fn task_line(position: usize, task: &Task) -> (text: String)
    ensures
        text@ == line_of(position as nat, task@),
{
    let mut text = decimal_text(position);
    text.append(". [");
    text.append(if task.done { "x" } else { " " });
    text.append("] ");
    text.append(task.description.as_str());
    text
}

impl TaskList {
    /// The listing: one line per task, in order, numbered from 1. An empty
    /// list gives no line.
    pub fn report(&self) -> (lines: Vec<String>)
        ensures
            texts(lines@) == report_of(self@),
    {
        let mut lines: Vec<String> = Vec::new();
        let mut i: usize = 0;
        while i < self.tasks.len()
            invariant
                i <= self.tasks.len(),
                lines@.len() == i,
                forall|j: int|
                    0 <= j < i ==> (#[trigger] lines@[j])@ == line_of((j + 1) as nat, self@[j]),
            decreases self.tasks.len() - i,
        {
            lines.push(task_line(i + 1, &self.tasks[i]));
            i += 1;
        }
        assert(texts(lines@) =~= report_of(self@));
        lines
    }
}

} // verus!
