use vstd::prelude::*;

pub mod classify;
pub mod dispatch;
pub mod encode;
pub mod json;
pub mod session;
pub mod text;

verus! {

/// A message sink of the view bridge: the host UI consumes these.
pub enum Effect {
    Log(String),
    Console(String),
    Alert(String),
    UpdateEnvironment(String),
}

pub open spec fn is_log(e: Effect, text: Seq<char>) -> bool {
    e matches Effect::Log(m) && m@ == text
}

pub open spec fn is_console(e: Effect, text: Seq<char>) -> bool {
    e matches Effect::Console(m) && m@ == text
}

pub open spec fn is_alert(e: Effect, text: Seq<char>) -> bool {
    e matches Effect::Alert(m) && m@ == text
}

pub open spec fn is_update_environment(e: Effect, text: Seq<char>) -> bool {
    e matches Effect::UpdateEnvironment(m) && m@ == text
}

} // verus!
