//! The bot's error type.
use vstd::prelude::*;

verus! {

/// An error that can describe itself in words.
pub trait Error {
    fn to_string(&self) -> String;
}

/// An error of the bot, in words.
#[derive(Debug)]
pub struct BotError {
    pub(crate) msg: String,
}

impl BotError {
    /// The words of the error.
    pub closed spec fn spec_msg(&self) -> Seq<char> {
        self.msg@
    }
}

impl From<String> for BotError {
    /// An error with the words `value`.
    fn from(value: String) -> (r: BotError)
        ensures
            r.spec_msg() == value@,
    {
        BotError { msg: value }
    }
}

impl vstd::std_specs::convert::FromSpecImpl<String> for BotError {
    open spec fn obeys_from_spec() -> bool {
        true
    }

    closed spec fn from_spec(v: String) -> BotError {
        BotError { msg: v }
    }
}

impl Error for BotError {
    /// The words of the error.
    fn to_string(&self) -> (r: String)
        ensures
            r@ == self.spec_msg(),
    {
        self.msg.clone()
    }
}

} // verus!
