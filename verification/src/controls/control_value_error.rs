use vstd::prelude::*;

verus! {

/// Why the current value of a control could not be taken from the device.
#[derive(Debug, PartialEq, Eq)]
pub struct ControlValueError {
    pub message: String,
}

impl View for ControlValueError {
    type V = Seq<char>;

    /// The error's message, as a sequence of characters.
    open spec fn view(&self) -> Seq<char> {
        self.message@
    }
}

/// What a result that may fail with a [`ControlValueError`] stands for: the
/// value, or the error's message.
pub open spec fn result_view<T>(result: Result<T, ControlValueError>) -> Result<T, Seq<char>> {
    match result {
        Ok(value) => Ok(value),
        Err(e) => Err(e@),
    }
}

impl ControlValueError {
    /// An error that carries `message`.
    pub fn new(message: String) -> (err: ControlValueError)
        ensures
            err@ == message@,
    {
        ControlValueError { message }
    }

    /// The message, as text.
    pub fn to_string(&self) -> (text: String)
        ensures
            text@ == self@,
    {
        self.message.clone()
    }
}

impl Clone for ControlValueError {
    fn clone(&self) -> (err: ControlValueError)
        ensures
            err@ == self@,
    {
        ControlValueError { message: self.message.clone() }
    }
}

} // verus!
