//! Names handed to the Luau C API as C strings, and the paths of table fields.
use vstd::prelude::*;
use vstd::string::*;
use crate::error::{Error, Result};
use crate::userdata_methods::{MetaMethod, lemma_meta_names_prefixed};

verus! {

broadcast use vstd::string::group_string_axioms;

/// A name can be made into a C string exactly when it holds no NUL character.
pub open spec fn is_c_name(name: Seq<char>) -> bool {
    !name.contains('\0')
}

/// Checks that `name` can be passed to Luau as a C string; fails with
/// `Runtime(invalid)` when it holds a NUL character.
pub fn check_c_name(name: &str, invalid: &'static str) -> (r: Result<()>)
    ensures
        r is Ok <==> is_c_name(name@),
        r is Ok <==> (forall|j: int| 0 <= j < name@.len() ==> name@[j] != '\0'),
        r matches Err(e) ==> (e matches Error::Runtime(msg) && msg@ == invalid@),
{
    for c in it: name.chars()
        invariant
            it.seq() == name@,
            forall|j: int| 0 <= j < it.index() ==> it.seq()[j] != '\0',
    {
        if c == '\0' {
            assert(name@[it.index() as int] == '\0');
            return Err(Error::Runtime(String::from_str(invalid)));
        }
    }
    assert forall|j: int| 0 <= j < name@.len() implies name@[j] != '\0' by {}
    Ok(())
}

/// A name is refused exactly when one of its characters is NUL.
pub proof fn lemma_c_name_is_nul_free(name: Seq<char>)
    ensures
        is_c_name(name) <==> (forall|j: int| 0 <= j < name.len() ==> name[j] != '\0'),
{
    if !is_c_name(name) {
        let j = choose|j: int| 0 <= j < name.len() && name[j] == '\0';
        assert(name[j] == '\0');
    }
}

/// Every metamethod name can be passed to Luau as a C string.
pub proof fn lemma_meta_names_are_c_names(m: MetaMethod)
    ensures
        is_c_name(m.name()),
{
    lemma_meta_names_prefixed(m);
    reveal_strlit("__index");
    reveal_strlit("__newindex");
    reveal_strlit("__len");
    reveal_strlit("__tostring");
    reveal_strlit("__call");
    reveal_strlit("__add");
    reveal_strlit("__sub");
    reveal_strlit("__mul");
    reveal_strlit("__div");
    reveal_strlit("__eq");
    reveal_strlit("__lt");
    reveal_strlit("__le");
    lemma_c_name_is_nul_free(m.name());
}

/// The path under which `Table::get_field` reports the field `key`.
pub open spec fn field_path_text(key: Seq<char>) -> Seq<char> {
    "table."@ + key
}

/// The path `table.<key>` of the field `key`.
pub fn field_path(key: &str) -> (p: String)
    ensures
        p@ == field_path_text(key@),
{
    let mut p = String::from_str("table.");
    p.append(key);
    p
}

/// The error that reading the field `key` gives when the value read failed
/// with `e`: a type error is reported at `table.<key>`; any other error is
/// kept as it is.
pub fn field_error(e: Error, key: &str) -> (res: Error)
    ensures
        match e {
            Error::Type { expected, got } => res matches Error::TypePath { expected: x, got: g, path }
                && x == expected && g == got && path@ == field_path_text(key@),
            _ => res == e,
        },
        e is Type ==> res.message() == "Erro de tipo em "@ + field_path_text(key@) + ": esperava "@
            + e->Type_expected@ + ", recebeu "@ + e->Type_got@,
{
    e.with_path(field_path(key))
}

} // verus!
