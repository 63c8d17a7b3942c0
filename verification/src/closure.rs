//! What a native function answers to the Lua VM: the value count that it
//! returns, or the message of the Lua error that it raises. This holds for the
//! callbacks made by `create_function` and for the entry point of a module.
use vstd::prelude::*;
use vstd::string::*;
use crate::error::Error;

verus! {

/// How a call of a native callback ended.
#[derive(Debug)]
pub enum CallOutcome {
    /// The closure had no upvalue holding the Rust function.
    MissingUpvalue,
    /// Reading the arguments, running the function or pushing its results failed.
    Failed(Error),
    /// The function ran and its results were pushed: `count` values.
    Returned(i32),
    /// The function panicked; the payload's text, when the payload is a string.
    Panicked(Option<String>),
}

/// How the entry point of a module ended.
#[derive(Debug)]
pub enum EntryOutcome {
    /// The module function returned its table.
    Loaded,
    /// The module function returned an error.
    Failed(Error),
    /// The module function panicked; the payload's text, when it is a string.
    Panicked(Option<String>),
}

/// The answer of a native function to the VM.
#[derive(Debug)]
pub enum LuaReply {
    /// Return this many values from the top of the stack.
    Return(i32),
    /// Push this message and raise it as a Lua error.
    Raise(String),
}

/// The text of a panic: `"<context>: <payload>"`, or
/// `"<context> sem mensagem"` when the payload is not a string.
pub open spec fn panic_text(context: Seq<char>, payload: Option<String>) -> Seq<char> {
    match payload {
        Option::Some(s) => context + ": "@ + s@,
        Option::None => context + " sem mensagem"@,
    }
}

fn panic_message(context: &'static str, payload: Option<String>) -> (s: String)
    ensures
        s@ == panic_text(context@, payload),
{
    let mut s = String::from_str(context);
    match payload {
        Option::Some(p) => {
            s.append(": ");
            s.append(p.as_str());
        },
        Option::None => {
            s.append(" sem mensagem");
        },
    }
    s
}

/// What a callback answers for each way its call ended.
pub open spec fn spec_callback_reply(outcome: CallOutcome) -> (Option<i32>, Seq<char>) {
    match outcome {
        CallOutcome::MissingUpvalue => (Option::None, "falha interna: closure sem upvalue"@),
        CallOutcome::Failed(e) => (Option::None, e.message()),
        CallOutcome::Returned(n) => (Option::Some(n), Seq::empty()),
        CallOutcome::Panicked(p) => (Option::None, panic_text("panic em callback nativa"@, p)),
    }
}

/// `reply` answers as `expected` says: a count to return, or else the message
/// of the error to raise.
pub open spec fn reply_is(reply: LuaReply, expected: (Option<i32>, Seq<char>)) -> bool {
    match expected.0 {
        Option::Some(n) => reply == LuaReply::Return(n),
        Option::None => reply matches LuaReply::Raise(m) && m@ == expected.1,
    }
}

/// The answer of a native callback: the count of the values it pushed when
/// it returned, else a Lua error whose message says what went wrong.
pub fn callback_reply(outcome: CallOutcome) -> (reply: LuaReply)
    ensures
        reply_is(reply, spec_callback_reply(outcome)),
        outcome matches CallOutcome::Returned(n) ==> reply == LuaReply::Return(n),
        outcome matches CallOutcome::Failed(e) ==> (reply matches LuaReply::Raise(m) && m@ == e.message()),
        outcome is MissingUpvalue ==> (reply matches LuaReply::Raise(m)
            && m@ == "falha interna: closure sem upvalue"@),
        outcome matches CallOutcome::Panicked(Option::Some(p)) ==> (reply matches LuaReply::Raise(m)
            && m@ == "panic em callback nativa"@ + ": "@ + p@),
        outcome matches CallOutcome::Panicked(Option::None) ==> (reply matches LuaReply::Raise(m)
            && m@ == "panic em callback nativa"@ + " sem mensagem"@),
        reply is Return <==> outcome is Returned,
{
    match outcome {
        CallOutcome::MissingUpvalue => LuaReply::Raise(
            String::from_str("falha interna: closure sem upvalue"),
        ),
        CallOutcome::Failed(e) => LuaReply::Raise(e.to_string()),
        CallOutcome::Returned(n) => LuaReply::Return(n),
        CallOutcome::Panicked(p) => LuaReply::Raise(panic_message("panic em callback nativa", p)),
    }
}

/// What a module entry point answers for each way the module function ended.
pub open spec fn spec_entry_reply(outcome: EntryOutcome) -> (Option<i32>, Seq<char>) {
    match outcome {
        EntryOutcome::Loaded => (Option::Some(1), Seq::empty()),
        EntryOutcome::Failed(e) => (Option::None, e.message()),
        EntryOutcome::Panicked(p) => (Option::None, panic_text("panic no modulo nativo"@, p)),
    }
}

/// The answer of a module entry point: on success the module's table is
/// pushed and one value is returned; an error or a panic is raised as a Lua
/// error with its message.
pub fn entry_reply(outcome: EntryOutcome) -> (reply: LuaReply)
    ensures
        reply_is(reply, spec_entry_reply(outcome)),
        outcome is Loaded ==> reply == LuaReply::Return(1),
        outcome matches EntryOutcome::Failed(e) ==> (reply matches LuaReply::Raise(m) && m@ == e.message()),
        outcome matches EntryOutcome::Panicked(Option::Some(p)) ==> (reply matches LuaReply::Raise(m)
            && m@ == "panic no modulo nativo"@ + ": "@ + p@),
        outcome matches EntryOutcome::Panicked(Option::None) ==> (reply matches LuaReply::Raise(m)
            && m@ == "panic no modulo nativo"@ + " sem mensagem"@),
        reply is Return <==> outcome is Loaded,
{
    match outcome {
        EntryOutcome::Loaded => LuaReply::Return(1),
        EntryOutcome::Failed(e) => LuaReply::Raise(e.to_string()),
        EntryOutcome::Panicked(p) => LuaReply::Raise(panic_message("panic no modulo nativo", p)),
    }
}

/// A callback that returned after pushing `n` values hands exactly `n` to
/// Lua; a callback whose call failed with `e` raises a Lua error whose text
/// is the text of `e`; only a callback that returned hands back a count.
pub proof fn lemma_callback_reply_laws(outcome: CallOutcome)
    ensures
        outcome matches CallOutcome::Returned(n) ==> spec_callback_reply(outcome) == (Option::Some(n), Seq::<char>::empty()),
        outcome matches CallOutcome::Failed(e) ==> spec_callback_reply(outcome).0 is None
            && spec_callback_reply(outcome).1 == e.message(),
        spec_callback_reply(outcome).0 is Some <==> outcome is Returned,
{
}

/// A module whose function returned its table returns one value, the table;
/// a module whose function failed with `e` raises a Lua error whose text is
/// the text of `e`; nothing but a loaded module returns a value.
pub proof fn lemma_entry_reply_laws(outcome: EntryOutcome)
    ensures
        outcome is Loaded ==> spec_entry_reply(outcome) == (Option::Some(1i32), Seq::<char>::empty()),
        outcome matches EntryOutcome::Failed(e) ==> spec_entry_reply(outcome).0 is None
            && spec_entry_reply(outcome).1 == e.message(),
        spec_entry_reply(outcome).0 is Some <==> outcome is Loaded,
{
}

/// The symbol that the runtime loads for the module function `fn_name`.
pub fn entry_point_name(fn_name: &str) -> (s: String)
    ensures
        s@ == "luaopen_"@ + fn_name@,
{
    let mut s = String::from_str("luaopen_");
    s.append(fn_name);
    s
}

} // verus!
