//! Checks on the Lua state, the stack guard and the stack dump text.
//!
//! A `lua_State` is known here by its address (`0` for a null pointer): the
//! reads of the Lua stack happen outside, and hand their results in.
use vstd::prelude::*;
use vstd::string::*;
use crate::error::{Error, Result};
use crate::text::{append_i32, int_decimal, decimal_value, lemma_int_decimal_reads_back};

verus! {

/// The error for a null `lua_State`.
pub open spec fn is_null_state_error(e: Error) -> bool {
    e matches Error::Runtime(msg) && msg@ == "lua_State null"@
}

/// Fails with `Runtime("lua_State null")` exactly when the state is null.
pub fn ensure_state(state: usize) -> (r: Result<()>)
    ensures
        r is Ok <==> state != 0,
        r matches Err(e) ==> is_null_state_error(e),
{
    if state == 0 {
        return Err(Error::Runtime(String::from_str("lua_State null")));
    }
    Ok(())
}

/// Remembers the top of a Lua stack, so that the stack can be put back to it
/// when the guard is dropped.
pub struct StackGuard {
    state: usize,
    top: i32,
}

impl StackGuard {
    #[verifier::type_invariant]
    spec fn state_is_set(self) -> bool {
        self.state != 0
    }

    /// The state the guard belongs to.
    pub closed spec fn spec_state(self) -> usize {
        self.state
    }

    /// The top that the guard restores.
    pub closed spec fn saved_top(self) -> i32 {
        self.top
    }

    /// A guard for `state`, whose stack top is `top` now. Fails on a null state.
    pub fn new(state: usize, top: i32) -> (r: Result<StackGuard>)
        ensures
            r is Ok <==> state != 0,
            r matches Ok(g) ==> g.spec_state() == state && g.saved_top() == top,
            r matches Err(e) ==> is_null_state_error(e),
    {
        ensure_state(state)?;
        Ok(StackGuard { state, top })
    }

    /// The state the guard belongs to; never null.
    pub fn state(&self) -> (s: usize)
        ensures
            s == self.spec_state(),
            s != 0,
    {
        proof { use_type_invariant(self); }
        self.state
    }

    /// The top that the stack is set back to when the guard goes.
    pub fn restore_top(&self) -> (t: i32)
        ensures
            t == self.saved_top(),
    {
        self.top
    }
}

/// The line of the stack dump for slot `index`.
pub open spec fn dump_line(index: int, slot_name: Seq<char>) -> Seq<char> {
    "\n["@ + int_decimal(index) + "] "@ + slot_name
}

/// The lines of the stack dump for the slots `1..=names.len()`.
pub open spec fn dump_lines(names: Seq<Seq<char>>) -> Seq<char>
    decreases names.len(),
{
    if names.len() == 0 {
        Seq::empty()
    } else {
        dump_lines(names.drop_last()) + dump_line(names.len() as int, names.last())
    }
}

/// The whole stack dump: the top, then one line per slot with its type name.
pub open spec fn dump_text(top: int, names: Seq<Seq<char>>) -> Seq<char> {
    "stack_top="@ + int_decimal(top) + dump_lines(names)
}

/// One more slot on the stack adds one line at the end of the dump: the
/// lines of the slots below are kept, and the new line's index reads back
/// as the new slot's number.
pub proof fn lemma_dump_lines_append(names: Seq<Seq<char>>, name: Seq<char>)
    ensures
        dump_lines(names.push(name)) == dump_lines(names) + ("\n["@ + int_decimal(names.len() + 1int)
            + "] "@ + name),
        decimal_value(int_decimal(names.len() + 1int)) == names.len() + 1,
{
    assert(names.push(name).drop_last() =~= names);
    lemma_int_decimal_reads_back(names.len() + 1int);
}

/// The dump starts with the stack top, written so that it reads back as the top.
pub proof fn lemma_dump_text_starts_with_top(top: int, names: Seq<Seq<char>>)
    ensures
        dump_text(top, names) == "stack_top="@ + int_decimal(top) + dump_lines(names),
        decimal_value(int_decimal(top)) == top,
{
    lemma_int_decimal_reads_back(top);
}

/// The views of a list of strings.
pub open spec fn views(v: Seq<String>) -> Seq<Seq<char>> {
    v.map_values(|s: String| s@)
}

/// The number of slots of a stack whose top is `top`.
pub open spec fn slot_count(top: i32) -> int {
    if top > 0 { top as int } else { 0 }
}

/// Writes the stack dump for a stack of `top` slots whose type names are
/// `type_names`, slot 1 first.
pub fn format_stack_dump(top: i32, type_names: &Vec<String>) -> (s: String)
    requires
        type_names.len() == slot_count(top),
    ensures
        s@ == dump_text(top as int, views(type_names@)),
{
    let mut out = String::from_str("stack_top=");
    append_i32(&mut out, top);
    let n = type_names.len();
    let ghost names = views(type_names@);
    let mut i: usize = 0;
    while i < n
        invariant
            n == type_names.len(),
            n == slot_count(top),
            i <= n,
            names == views(type_names@),
            out@ == "stack_top="@ + int_decimal(top as int) + dump_lines(names.take(i as int)),
        decreases n - i,
    {
        out.append("\n[");
        append_i32(&mut out, (i + 1) as i32);
        out.append("] ");
        out.append(type_names[i].as_str());
        proof {
            assert(names.take((i + 1) as int).drop_last() == names.take(i as int));
            assert(names.take((i + 1) as int).last() == type_names@[i as int]@);
        }
        i = i + 1;
    }
    proof {
        assert(names.take(n as int) == names);
    }
    out
}

/// The stack dump of the stack of `state`, whose top is `top` and whose slots
/// have the type names `type_names`. Fails on a null state.
pub fn stack_dump(state: usize, top: i32, type_names: &Vec<String>) -> (r: Result<String>)
    requires
        type_names.len() == slot_count(top),
    ensures
        r is Ok <==> state != 0,
        r matches Ok(s) ==> s@ == dump_text(top as int, views(type_names@)),
        r matches Err(e) ==> is_null_state_error(e),
{
    ensure_state(state)?;
    Ok(format_stack_dump(top, type_names))
}

} // verus!
