//! The JSON text of a task list.
//!
//! Identifiers are printed by the `uuid` crate and strings are quoted by
//! `serde_json`; the shape around them (objects, keys, commas, brackets) is
//! written here.

use vstd::prelude::*;
use vstd::string::StringExecFns;
use crate::model::{Task, TaskStatus, TaskView, task_views};

verus! {

/// The error type of `serde_json`, known to the library only as an opaque
/// value.
#[verifier::external_type_specification]
#[verifier::external_body]
pub struct ExJsonError(serde_json::Error);

/// The lower-case hexadecimal digit of a value from 0 to 15.
pub open spec fn hex_digit(value: int) -> char {
    "0123456789abcdef"@[value]
}

/// Which of the 32 digits of an identifier, counted from the most
/// significant, stands at index `i` of its text. The text has hyphens at the
/// indices 8, 13, 18 and 23.
pub open spec fn digit_place(i: int) -> int {
    if i < 8 {
        i
    } else if i < 13 {
        i - 1
    } else if i < 18 {
        i - 2
    } else if i < 23 {
        i - 3
    } else {
        i - 4
    }
}

/// The canonical text of the identifier with the 128-bit value `id`: its 32
/// hexadecimal digits in lower case, most significant first, in groups of 8,
/// 4, 4, 4 and 12 with a hyphen between each two.
pub open spec fn uuid_text(id: u128) -> Seq<char> {
    Seq::new(
        36,
        |i: int|
            if i == 8 || i == 13 || i == 18 || i == 23 {
                '-'
            } else {
                hex_digit((id as int / vstd::arithmetic::power::pow(16, (31 - digit_place(i)) as nat)) % 16)
            },
    )
}

/// What stands for the character `c` inside a JSON string literal: a
/// backslash before a double quote or a backslash; the short escapes for
/// backspace, tab, line feed, form feed and carriage return; `\u00` and two
/// hexadecimal digits for every other character below the space; and `c`
/// itself otherwise.
pub open spec fn escaped_char(c: char) -> Seq<char> {
    if c == '"' {
        seq!['\\', '"']
    } else if c == '\\' {
        seq!['\\', '\\']
    } else if c == '\u{8}' {
        seq!['\\', 'b']
    } else if c == '\t' {
        seq!['\\', 't']
    } else if c == '\n' {
        seq!['\\', 'n']
    } else if c == '\u{c}' {
        seq!['\\', 'f']
    } else if c == '\r' {
        seq!['\\', 'r']
    } else if (c as int) < 32 {
        seq!['\\', 'u', '0', '0', hex_digit(c as int / 16), hex_digit(c as int % 16)]
    } else {
        seq![c]
    }
}

/// The characters of `s`, each as it stands inside a JSON string literal.
pub open spec fn escaped_text(s: Seq<char>) -> Seq<char>
    decreases s.len(),
{
    if s.len() == 0 {
        Seq::empty()
    } else {
        escaped_text(s.drop_last()) + escaped_char(s.last())
    }
}

/// The JSON string literal of `s`: its escaped characters between double
/// quotes.
pub open spec fn json_string_text(s: Seq<char>) -> Seq<char> {
    seq!['"'] + escaped_text(s) + seq!['"']
}

/// Calls `uuid::Uuid::from_u128` and prints the identifier with its
/// `Display` impl. Trusted: the result is the hyphenated lower-case text
/// that [`uuid_text`] spells out.
#[verifier::external_body]
pub(crate) fn uuid_to_text(id: u128) -> (text: String)
    ensures
        text@ == uuid_text(id),
{
    uuid::Uuid::from_u128(id).to_string()
}

/// Calls `serde_json::to_string` on a string slice. Trusted: the call
/// succeeds, and the result is the literal that [`json_string_text`] spells
/// out. For a string slice the serializer's only error is an I/O error of
/// its writer, and the writer is a `Vec<u8>`, which takes every write.
#[verifier::external_body]
pub(crate) fn json_string(s: &str) -> (r: Result<String, serde_json::Error>)
    ensures
        r is Ok,
        r matches Ok(text) ==> text@ == json_string_text(s@),
{
    serde_json::to_string(s)
}

impl TaskStatus {
    /// The word that stands for this status in JSON.
    pub open spec fn name_text(self) -> Seq<char> {
        match self {
            TaskStatus::Pending => "Pending"@,
            TaskStatus::InProgress => "InProgress"@,
            TaskStatus::Done => "Done"@,
        }
    }

    /// The word that stands for this status in JSON.
    pub fn name(self) -> (word: &'static str)
        ensures
            word@ == self.name_text(),
    {
        match self {
            TaskStatus::Pending => "Pending",
            TaskStatus::InProgress => "InProgress",
            TaskStatus::Done => "Done",
        }
    }
}

/// The JSON object of one task, given the literals of its identifier and of
/// its name: the keys `id`, `name` and `status`, in this order, without
/// white space.
pub open spec fn task_object_text(id_literal: Seq<char>, name_literal: Seq<char>, status: TaskStatus) -> Seq<char> {
    "{\"id\":"@ + id_literal + ",\"name\":"@ + name_literal + ",\"status\":\""@
        + status.name_text() + "\"}"@
}

/// The JSON object of one task.
pub open spec fn task_text(task: TaskView) -> Seq<char> {
    task_object_text(
        json_string_text(uuid_text(task.id)),
        json_string_text(task.name),
        task.status,
    )
}

/// The JSON objects of the tasks, in order, with a comma between each two.
pub open spec fn task_list_items_text(tasks: Seq<TaskView>) -> Seq<char>
    decreases tasks.len(),
{
    if tasks.len() == 0 {
        Seq::empty()
    } else if tasks.len() == 1 {
        task_text(tasks[0])
    } else {
        task_list_items_text(tasks.drop_last()) + ","@ + task_text(tasks.last())
    }
}

/// The JSON array of a task list.
pub open spec fn task_list_text(tasks: Seq<TaskView>) -> Seq<char> {
    "["@ + task_list_items_text(tasks) + "]"@
}

/// Writes the JSON object of one task from the literals of its identifier and
/// of its name.
pub fn task_object(id_literal: &str, name_literal: &str, status: TaskStatus) -> (text: String)
    ensures
        text@ == task_object_text(id_literal@, name_literal@, status),
{
    let mut text = String::from_str("{\"id\":");
    text.append(id_literal);
    text.append(",\"name\":");
    text.append(name_literal);
    text.append(",\"status\":\"");
    text.append(status.name());
    text.append("\"}");
    text
}

/// Writes the JSON array of a task list.
///
/// Every list has its text, so the result is always `Ok`; an empty list
/// gives `[]`. Each identifier and each name is quoted by `serde_json`, whose
/// error type is mapped to `Err(k)`, the index of the task it refused: a
/// string slice is never refused, so no input gives it.
pub fn tasks_json(tasks: &Vec<Task>) -> (r: Result<String, usize>)
    ensures
        r matches Ok(text) && text@ == task_list_text(task_views(tasks@)),
{
    let ghost views = task_views(tasks@);
    let mut text = String::from_str("[");
    let mut i: usize = 0;
    while i < tasks.len()
        invariant
            0 <= i <= tasks.len(),
            views == task_views(tasks@),
            text@ == "["@ + task_list_items_text(views.take(i as int)),
        decreases tasks.len() - i,
    {
        let id_text = uuid_to_text(tasks[i].id);
        let id_literal = match json_string(id_text.as_str()) {
            Ok(literal) => literal,
            Err(_) => {
                return Err(i);
            },
        };
        let name_literal = match json_string(tasks[i].name.as_str()) {
            Ok(literal) => literal,
            Err(_) => {
                return Err(i);
            },
        };
        let object = task_object(id_literal.as_str(), name_literal.as_str(), tasks[i].status);
        proof {
            let before = views.take(i as int);
            let after = views.take(i + 1);
            assert(after.drop_last() =~= before);
            assert(after.last() == views[i as int]);
            assert(object@ == task_text(views[i as int]));
            if i == 0 {
                assert(task_list_items_text(before) =~= Seq::<char>::empty());
                assert(task_list_items_text(after) == object@);
                assert(text@ + object@ =~= "["@ + task_list_items_text(after));
            } else {
                assert(text@ + ","@ + object@ =~= "["@ + task_list_items_text(after));
            }
        }
        if i > 0 {
            text.append(",");
        }
        text.append(object.as_str());
        i = i + 1;
    }
    proof {
        assert(views.take(i as int) =~= views);
    }
    text.append("]");
    Ok(text)
}

} // verus!
