//! The metamethods that a userdata type can define, and their Luau names.
use vstd::prelude::*;

verus! {

/// A Luau metamethod.
#[derive(Debug, Clone, Copy, PartialEq, Eq, Structural)]
pub enum MetaMethod {
    Index,
    NewIndex,
    Len,
    ToString,
    Call,
    Add,
    Sub,
    Mul,
    Div,
    Eq,
    Lt,
    Le,
}

impl MetaMethod {
    /// The name under which Luau looks the metamethod up in a metatable.
    pub open spec fn name(self) -> Seq<char> {
        match self {
            MetaMethod::Index => "__index"@,
            MetaMethod::NewIndex => "__newindex"@,
            MetaMethod::Len => "__len"@,
            MetaMethod::ToString => "__tostring"@,
            MetaMethod::Call => "__call"@,
            MetaMethod::Add => "__add"@,
            MetaMethod::Sub => "__sub"@,
            MetaMethod::Mul => "__mul"@,
            MetaMethod::Div => "__div"@,
            MetaMethod::Eq => "__eq"@,
            MetaMethod::Lt => "__lt"@,
            MetaMethod::Le => "__le"@,
        }
    }

    /// The name of the metamethod, such as `"__index"` for `Index`.
    pub fn as_str(&self) -> (s: &'static str)
        ensures
            s@ == self.name(),
    {
        match self {
            MetaMethod::Index => "__index",
            MetaMethod::NewIndex => "__newindex",
            MetaMethod::Len => "__len",
            MetaMethod::ToString => "__tostring",
            MetaMethod::Call => "__call",
            MetaMethod::Add => "__add",
            MetaMethod::Sub => "__sub",
            MetaMethod::Mul => "__mul",
            MetaMethod::Div => "__div",
            MetaMethod::Eq => "__eq",
            MetaMethod::Lt => "__lt",
            MetaMethod::Le => "__le",
        }
    }
}

/// Two metamethods with the same name are the same metamethod: registering
/// one never overwrites another.
pub proof fn lemma_meta_names_distinct(a: MetaMethod, b: MetaMethod)
    ensures
        a.name() == b.name() ==> a == b,
{
    reveal_strlit("__index");
    reveal_strlit("__newindex");
    reveal_strlit("__len");
    reveal_strlit("__tostring");
    reveal_strlit("__call");
    reveal_strlit("__add");
    reveal_strlit("__sub");
    reveal_strlit("__mul");
    reveal_strlit("__div");
    reveal_strlit("__eq");
    reveal_strlit("__lt");
    reveal_strlit("__le");
    if a.name() == b.name() && a != b {
        assert(a.name().len() == b.name().len());
        assert(a.name()[2] == b.name()[2]);
        assert(a.name()[3] == b.name()[3]);
        assert(a.name()[4] == b.name()[4]);
    }
}

/// Every metamethod name starts with two underscores, as Luau requires.
pub proof fn lemma_meta_names_prefixed(m: MetaMethod)
    ensures
        m.name().len() > 2,
        m.name()[0] == '_',
        m.name()[1] == '_',
{
    reveal_strlit("__index");
    reveal_strlit("__newindex");
    reveal_strlit("__len");
    reveal_strlit("__tostring");
    reveal_strlit("__call");
    reveal_strlit("__add");
    reveal_strlit("__sub");
    reveal_strlit("__mul");
    reveal_strlit("__div");
    reveal_strlit("__eq");
    reveal_strlit("__lt");
    reveal_strlit("__le");
}

} // verus!
