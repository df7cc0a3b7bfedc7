use vstd::prelude::*;
use vstd::string::StringExecFns;

verus! {

/// Rows the server list shows at once.
pub const SERVER_LIST_ROWS: usize = 10;

/// Why no choice came out of a selection.
#[derive(Debug, Clone, Copy, PartialEq, Eq, Structural)]
pub enum SelectionError {
    /// There was nothing to choose from.
    Empty,
    /// The operator left the prompt.
    Cancelled,
    /// The answer names no item of the list.
    OutOfRange,
}

/// How one fuzzy-select prompt is shown.
pub struct Prompt {
    pub label: String,
    /// The item selected before the operator moves.
    pub default_index: usize,
    /// How many rows the list shows at once; `None` leaves it to the terminal.
    pub max_rows: Option<usize>,
    /// Whether the screen is cleared before the prompt is shown.
    pub clear_screen: bool,
}

impl Prompt {
    /// The first prompt, for the environment, on a fresh screen.
    pub fn environment() -> (r: Prompt)
        ensures
            r.label@ == "Select an environment"@,
            r.default_index == 0,
            r.max_rows is None,
            r.clear_screen,
    {
        Prompt {
            label: String::from_str("Select an environment"),
            default_index: 0,
            max_rows: None,
            clear_screen: true,
        }
    }

    /// The second prompt, for the server, ten rows at a time.
    pub fn server() -> (r: Prompt)
        ensures
            r.label@ == "Select a server"@,
            r.default_index == 0,
            r.max_rows == Some(SERVER_LIST_ROWS),
            !r.clear_screen,
    {
        Prompt {
            label: String::from_str("Select a server"),
            default_index: 0,
            max_rows: Some(SERVER_LIST_ROWS),
            clear_screen: false,
        }
    }
}

/// Refuses a selection over an empty list before any prompt is shown.
pub fn ensure_choices(count: usize) -> (r: Result<(), SelectionError>)
    ensures
        r is Err <==> count == 0,
        r is Err ==> r->Err_0 == SelectionError::Empty,
{
    if count == 0 {
        Err(SelectionError::Empty)
    } else {
        Ok(())
    }
}

/// The index that a prompt over `count` items settles on, given the operator's
/// answer (`None` when the prompt was left).
pub fn confirm_choice(count: usize, answer: Option<usize>) -> (r: Result<usize, SelectionError>)
    ensures
        count == 0 ==> r == Err::<usize, SelectionError>(SelectionError::Empty),
        count > 0 && answer is None ==> r == Err::<usize, SelectionError>(SelectionError::Cancelled),
        count > 0 && answer is Some && answer->Some_0 >= count ==> r == Err::<usize, SelectionError>(
            SelectionError::OutOfRange,
        ),
        count > 0 && answer is Some && answer->Some_0 < count ==> r == Ok::<usize, SelectionError>(
            answer->Some_0,
        ),
{
    if count == 0 {
        return Err(SelectionError::Empty);
    }
    match answer {
        None => Err(SelectionError::Cancelled),
        Some(i) => if i < count {
            Ok(i)
        } else {
            Err(SelectionError::OutOfRange)
        },
    }
}

} // verus!
