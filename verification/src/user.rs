//! The user probe.

use crate::probe::{
    answer_text, known_or_unknown, or_unknown, replies, text_at, variable, Answer, Move, Reply,
    Source, Step,
};
use crate::text::{chars_or_empty, opt_text, string_of, text_or_empty};
use vstd::prelude::*;

verus! {

/// The user, as displayed: the name that the environment gives, or the
/// sentinel where it gives none or an empty one.
pub open spec fn user_text(name: Option<Seq<char>>) -> Seq<char> {
    or_unknown(text_or_empty(name))
}

/// The user, as displayed. `name` is the value of the environment's user
/// variable, `None` where it is not set.
pub fn get_user(name: &Option<String>) -> (user: String)
    ensures
        user@ == user_text(opt_text(*name)),
        user@.len() > 0,
{
    string_of(&known_or_unknown(chars_or_empty(name)))
}

/// What the user probe does after the replies so far: it asks for the
/// environment's user variable, and shows the user once that is answered.
pub open spec fn user_move(replies: Seq<Reply>) -> Move {
    if replies.len() == 0 {
        Move::Ask(Source::Variable { name: "USER"@ })
    } else {
        Move::Done(user_text(text_at(replies, 0)))
    }
}

/// The next step of the user probe, given the answers so far.
pub fn user_step(answers: &Vec<Answer>) -> (step: Step)
    ensures
        step@ == user_move(replies(answers@)),
{
    if answers.len() == 0 {
        Step::Ask(variable("USER"))
    } else {
        Step::Done(get_user(&answer_text(answers, 0)))
    }
}

} // verus!
