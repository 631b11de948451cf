//! The error that a rejected command line or an unusable wallet reply is answered with.

use vstd::prelude::*;

verus! {

/// An input that the opener cannot use, with the sentence that tells the operator why.
#[derive(Debug)]
pub struct InputError {
    pub message: String,
}

impl View for InputError {
    type V = Seq<char>;

    open spec fn view(&self) -> Seq<char> {
        self.message@
    }
}

/// Makes the error that carries `message`.
pub fn input_error(message: String) -> (error: InputError)
    ensures
        error.message == message,
{
    InputError { message }
}

} // verus!
