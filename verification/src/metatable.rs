//! Userdata metatables: the plan for registering one per Rust type, the
//! checks that a userdata is of the registered type, and the checks on
//! borrowing the value that a userdata holds.
//!
//! The metatables live in the Luau registry: a table under a fixed key maps
//! the key of each Rust type to its metatable, whose `__index` is itself.
use vstd::prelude::*;
use vstd::string::*;
use crate::error::{Error, Result};
use crate::convert::{LuaType, is_type_error, type_error};

verus! {

/// What `ensure_userdata_metatable` has to create in the registry.
#[derive(Debug, Clone, Copy, PartialEq, Eq, Structural)]
pub struct EnsurePlan {
    /// Create the table of userdata metatables in the registry.
    pub create_registry: bool,
    /// Create the metatable of the type, with `__index` set to itself.
    pub create_metatable: bool,
}

/// What has to be created, given whether the registry table and the type's
/// metatable are there already. A new registry table holds no metatable yet.
pub fn ensure_plan(registry_present: bool, metatable_present: bool) -> (p: EnsurePlan)
    ensures
        p.create_registry == !registry_present,
        p.create_metatable == (!registry_present || !metatable_present),
{
    if !registry_present {
        EnsurePlan { create_registry: true, create_metatable: true }
    } else {
        EnsurePlan { create_registry: false, create_metatable: !metatable_present }
    }
}

/// `e` is a runtime error with the message `msg`.
pub open spec fn is_runtime_error(e: Error, msg: Seq<char>) -> bool {
    e matches Error::Runtime(m) && m@ == msg
}

/// Whether the metatable of a type can be pushed: the registry table and the
/// type's entry in it must both be there.
pub fn registered_metatable(registry_present: bool, metatable_present: bool) -> (r: Result<()>)
    ensures
        r is Ok <==> registry_present && metatable_present,
        !registry_present ==> (r matches Err(e) && is_runtime_error(e, "registro de userdata ausente"@)),
        registry_present && !metatable_present ==> (r matches Err(e)
            && is_runtime_error(e, "metatable de userdata nao registrada"@)),
{
    if !registry_present {
        return Err(Error::Runtime(String::from_str("registro de userdata ausente")));
    }
    if !metatable_present {
        return Err(Error::Runtime(String::from_str("metatable de userdata nao registrada")));
    }
    Ok(())
}

/// The result of `lua_setmetatable`: `0` means that the metatable was not
/// set, and the operation fails with `Runtime(failure)`.
pub fn setmetatable_status(code: i32, failure: &'static str) -> (r: Result<()>)
    ensures
        r is Ok <==> code != 0,
        r matches Err(e) ==> is_runtime_error(e, failure@),
{
    if code == 0 {
        Err(Error::Runtime(String::from_str(failure)))
    } else {
        Ok(())
    }
}

/// Checks that a slot holds a userdata of the registered type. `actual` is the
/// slot's type and `got` its Lua type name; `metatable` is `None` when the
/// userdata has no metatable, else whether it is the registered one.
pub fn check_userdata(actual: LuaType, got: String, metatable: Option<bool>) -> (r: Result<()>)
    ensures
        r is Ok <==> actual == LuaType::UserData && metatable == Some(true),
        actual != LuaType::UserData ==> (r matches Err(e) && is_type_error(e, "userdata"@, got)),
        actual == LuaType::UserData && metatable is None ==> (r matches Err(e)
            && is_runtime_error(e, "userdata sem metatable"@)),
        actual == LuaType::UserData && metatable == Some(false) ==> (r matches Err(e)
            && e matches Error::Type { expected, got: g }
            && expected@ == "userdata do tipo registrado"@
            && g@ == "userdata de outro tipo"@),
{
    if actual != LuaType::UserData {
        return Err(type_error(LuaType::UserData, got));
    }
    match metatable {
        Option::None => Err(Error::Runtime(String::from_str("userdata sem metatable"))),
        Option::Some(same) => {
            if same {
                Ok(())
            } else {
                Err(Error::Type {
                    expected: "userdata do tipo registrado",
                    got: String::from_str("userdata de outro tipo"),
                })
            }
        },
    }
}

/// Whether the value of a userdata can be lent out. `cell_found` is false when
/// the userdata holds no value; `granted` is whether the value's borrow flag
/// lets the borrow through; `exclusive` asks for a mutable borrow.
pub fn userdata_access(cell_found: bool, granted: bool, exclusive: bool) -> (r: Result<()>)
    ensures
        r is Ok <==> cell_found && granted,
        !cell_found ==> (r matches Err(e) && is_runtime_error(e, "userdata invalido"@)),
        cell_found && !granted && exclusive ==> (r matches Err(e)
            && e matches Error::Borrow(m) && m@ == "userdata ja emprestado"@),
        cell_found && !granted && !exclusive ==> (r matches Err(e)
            && e matches Error::Borrow(m) && m@ == "userdata ja mutavelmente emprestado"@),
{
    if !cell_found {
        return Err(Error::Runtime(String::from_str("userdata invalido")));
    }
    if !granted {
        if exclusive {
            return Err(Error::Borrow(String::from_str("userdata ja emprestado")));
        } else {
            return Err(Error::Borrow(String::from_str("userdata ja mutavelmente emprestado")));
        }
    }
    Ok(())
}

} // verus!
