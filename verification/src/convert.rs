//! The Luau type of a stack slot, and the checks that the conversions from
//! Lua values make on it before they read the slot.
use vstd::prelude::*;
use vstd::string::*;
use crate::error::{Error, Result};

verus! {

/// The type of a value on the Luau stack, as `lua_type` reports it.
#[derive(Debug, Clone, Copy, PartialEq, Eq, Structural)]
pub enum LuaType {
    /// No value at the index.
    NoValue,
    Nil,
    Boolean,
    LightUserData,
    Number,
    Integer,
    Vector,
    String,
    Table,
    Function,
    UserData,
    Thread,
    Buffer,
}

impl LuaType {
    /// The types that a conversion asks for by name.
    pub open spec fn is_checked(self) -> bool {
        match self {
            LuaType::Boolean | LuaType::Number | LuaType::String | LuaType::Table
            | LuaType::Function | LuaType::UserData => true,
            _ => false,
        }
    }

    /// The name that a type error gives for an expected type.
    pub open spec fn expected_name(self) -> Seq<char> {
        match self {
            LuaType::Boolean => "boolean"@,
            LuaType::Number => "number"@,
            LuaType::String => "string"@,
            LuaType::Table => "table"@,
            LuaType::Function => "function"@,
            _ => "userdata"@,
        }
    }

    /// The types that convert into a `Value`.
    pub open spec fn is_value(self) -> bool {
        match self {
            LuaType::Nil | LuaType::Boolean | LuaType::Number | LuaType::String
            | LuaType::Table | LuaType::Function | LuaType::UserData => true,
            _ => false,
        }
    }
}

/// `e` is the type error for a value of type `got` where one of type
/// `expected` was asked for.
pub open spec fn is_type_error(e: Error, expected: Seq<char>, got: String) -> bool {
    e matches Error::Type { expected: x, got: g } && x@ == expected && g == got
}

/// The error for a value whose type is named `got` where a value of type
/// `expected` was asked for.
pub fn type_error(expected: LuaType, got: String) -> (e: Error)
    requires
        expected.is_checked(),
    ensures
        is_type_error(e, expected.expected_name(), got),
{
    let name: &'static str = match expected {
        LuaType::Boolean => "boolean",
        LuaType::Number => "number",
        LuaType::String => "string",
        LuaType::Table => "table",
        LuaType::Function => "function",
        _ => "userdata",
    };
    Error::Type { expected: name, got }
}

/// Checks that a slot of type `actual` (whose Lua type name is `got`) holds a
/// value of type `expected`.
pub fn expect_type(actual: LuaType, expected: LuaType, got: String) -> (r: Result<()>)
    requires
        expected.is_checked(),
    ensures
        r is Ok <==> actual == expected,
        r matches Err(e) ==> is_type_error(e, expected.expected_name(), got),
{
    if actual == expected {
        Ok(())
    } else {
        Err(type_error(expected, got))
    }
}

/// The type of a slot that converts into a `Value`; the other types fail with
/// a type error that expects a convertible value.
pub fn classify_value(actual: LuaType, got: String) -> (r: Result<LuaType>)
    ensures
        r is Ok <==> actual.is_value(),
        r matches Ok(t) ==> t == actual,
        r matches Err(e) ==> is_type_error(e, "valor convertivel"@, got),
{
    match actual {
        LuaType::Nil | LuaType::Boolean | LuaType::Number | LuaType::String | LuaType::Table
        | LuaType::Function | LuaType::UserData => Ok(actual),
        _ => Err(Error::Type { expected: "valor convertivel", got }),
    }
}

} // verus!
