use openseal_sdk::closure::{callback_reply, entry_point_name, entry_reply, CallOutcome, EntryOutcome, LuaReply};
use openseal_sdk::convert::{classify_value, expect_type, type_error, LuaType};
use openseal_sdk::metatable::{
    check_userdata, ensure_plan, registered_metatable, setmetatable_status, userdata_access, EnsurePlan,
};
use openseal_sdk::names::{check_c_name, field_error, field_path};
use openseal_sdk::safety::{ensure_state, format_stack_dump, stack_dump, StackGuard};
use openseal_sdk::text::format_i32;
use openseal_sdk::userdata_methods::MetaMethod;
use openseal_sdk::{Error, ABI_VERSION};

fn type_err(expected: &'static str, got: &str) -> Error {
    Error::Type { expected, got: got.to_string() }
}

fn runtime_msg(e: &Error) -> String {
    match e {
        Error::Runtime(m) => m.clone(),
        other => panic!("not a runtime error: {:?}", other),
    }
}

#[test]
fn abi_version_is_one() {
    assert_eq!(ABI_VERSION, 1);
}

#[test]
fn with_path_upgrades_type_error() {
    let e = type_err("number", "string").with_path("table.x".to_string());
    match e {
        Error::TypePath { expected, got, path } => {
            assert_eq!(expected, "number");
            assert_eq!(got, "string");
            assert_eq!(path, "table.x");
        }
        other => panic!("unexpected {:?}", other),
    }
}

#[test]
fn with_path_keeps_other_errors() {
    let e = Error::Runtime("boom".to_string()).with_path("p".to_string());
    assert_eq!(runtime_msg(&e), "boom");
    let b = Error::Borrow("busy".to_string()).with_path("p".to_string());
    assert!(matches!(b, Error::Borrow(ref m) if m == "busy"));
}

#[test]
fn with_path_first_path_wins() {
    let e = type_err("table", "nil")
        .with_path("table.inner".to_string())
        .with_path("table.outer".to_string());
    match e {
        Error::TypePath { path, .. } => assert_eq!(path, "table.inner"),
        other => panic!("unexpected {:?}", other),
    }
}

#[test]
fn error_messages() {
    assert_eq!(Error::Runtime("falhou".to_string()).to_string(), "falhou");
    assert_eq!(type_err("number", "nil").to_string(), "Erro de tipo: esperava number, recebeu nil");
    let tp = Error::TypePath {
        expected: "string",
        got: "boolean".to_string(),
        path: "table.name".to_string(),
    };
    assert_eq!(tp.to_string(), "Erro de tipo em table.name: esperava string, recebeu boolean");
    assert_eq!(Error::Borrow("x".to_string()).to_string(), "Erro de borrow: x");
}

#[test]
fn ensure_state_rejects_null() {
    assert!(ensure_state(0x1000).is_ok());
    let e = ensure_state(0).unwrap_err();
    assert_eq!(runtime_msg(&e), "lua_State null");
}

#[test]
fn stack_guard_restores_saved_top() {
    let g = StackGuard::new(0x1000, 7).unwrap();
    assert_eq!(g.restore_top(), 7);
    assert_eq!(g.state(), 0x1000);
    match StackGuard::new(0, 3) {
        Err(e) => assert_eq!(runtime_msg(&e), "lua_State null"),
        Ok(_) => panic!("guard on a null state"),
    }
}

#[test]
fn decimal_text() {
    assert_eq!(format_i32(0), "0");
    assert_eq!(format_i32(7), "7");
    assert_eq!(format_i32(10), "10");
    assert_eq!(format_i32(-45), "-45");
    assert_eq!(format_i32(i32::MAX), "2147483647");
    assert_eq!(format_i32(i32::MIN), "-2147483648");
}

#[test]
fn stack_dump_text() {
    let names = vec!["table".to_string(), "number".to_string()];
    assert_eq!(format_stack_dump(2, &names), "stack_top=2\n[1] table\n[2] number");
    assert_eq!(format_stack_dump(0, &Vec::new()), "stack_top=0");
    assert_eq!(format_stack_dump(-1, &Vec::new()), "stack_top=-1");
    assert_eq!(stack_dump(0x10, 1, &vec!["nil".to_string()]).unwrap(), "stack_top=1\n[1] nil");
    let e = stack_dump(0, 0, &Vec::new()).unwrap_err();
    assert_eq!(runtime_msg(&e), "lua_State null");
}

#[test]
fn c_names() {
    assert!(check_c_name("version", "chave invalida").is_ok());
    assert!(check_c_name("", "chave invalida").is_ok());
    let e = check_c_name("ver\0sion", "chave invalida").unwrap_err();
    assert_eq!(runtime_msg(&e), "chave invalida");
    let e = check_c_name("\0", "nome de metodo invalido").unwrap_err();
    assert_eq!(runtime_msg(&e), "nome de metodo invalido");
}

#[test]
fn field_paths() {
    assert_eq!(field_path("version"), "table.version");
    let e = field_error(type_err("number", "string"), "version");
    assert_eq!(e.to_string(), "Erro de tipo em table.version: esperava number, recebeu string");
    let r = field_error(Error::Runtime("x".to_string()), "version");
    assert_eq!(runtime_msg(&r), "x");
}

#[test]
fn meta_method_names() {
    let all = [
        (MetaMethod::Index, "__index"),
        (MetaMethod::NewIndex, "__newindex"),
        (MetaMethod::Len, "__len"),
        (MetaMethod::ToString, "__tostring"),
        (MetaMethod::Call, "__call"),
        (MetaMethod::Add, "__add"),
        (MetaMethod::Sub, "__sub"),
        (MetaMethod::Mul, "__mul"),
        (MetaMethod::Div, "__div"),
        (MetaMethod::Eq, "__eq"),
        (MetaMethod::Lt, "__lt"),
        (MetaMethod::Le, "__le"),
    ];
    for (m, name) in all.iter() {
        assert_eq!(m.as_str(), *name);
        assert!(m.as_str().starts_with("__"));
    }
    for (a, _) in all.iter() {
        for (b, _) in all.iter() {
            assert_eq!(a.as_str() == b.as_str(), a == b);
        }
    }
}

#[test]
fn type_checks() {
    assert!(expect_type(LuaType::Number, LuaType::Number, "number".to_string()).is_ok());
    let e = expect_type(LuaType::String, LuaType::Number, "string".to_string()).unwrap_err();
    assert_eq!(e.to_string(), "Erro de tipo: esperava number, recebeu string");
    let e = expect_type(LuaType::Nil, LuaType::Table, "nil".to_string()).unwrap_err();
    assert_eq!(e.to_string(), "Erro de tipo: esperava table, recebeu nil");
    let e = type_error(LuaType::String, "table".to_string());
    assert_eq!(e.to_string(), "Erro de tipo: esperava string, recebeu table");
    let e = type_error(LuaType::Boolean, "nil".to_string());
    assert_eq!(e.to_string(), "Erro de tipo: esperava boolean, recebeu nil");
    let e = type_error(LuaType::Function, "nil".to_string());
    assert_eq!(e.to_string(), "Erro de tipo: esperava function, recebeu nil");
}

#[test]
fn value_classification() {
    for t in [
        LuaType::Nil,
        LuaType::Boolean,
        LuaType::Number,
        LuaType::String,
        LuaType::Table,
        LuaType::Function,
        LuaType::UserData,
    ] {
        assert_eq!(classify_value(t, "x".to_string()).unwrap(), t);
    }
    for t in [
        LuaType::NoValue,
        LuaType::LightUserData,
        LuaType::Integer,
        LuaType::Vector,
        LuaType::Thread,
        LuaType::Buffer,
    ] {
        let e = classify_value(t, "thread".to_string()).unwrap_err();
        assert_eq!(e.to_string(), "Erro de tipo: esperava valor convertivel, recebeu thread");
    }
}

#[test]
fn userdata_checks() {
    assert!(check_userdata(LuaType::UserData, "userdata".to_string(), Some(true)).is_ok());
    let e = check_userdata(LuaType::Table, "table".to_string(), Some(true)).unwrap_err();
    assert_eq!(e.to_string(), "Erro de tipo: esperava userdata, recebeu table");
    let e = check_userdata(LuaType::UserData, "userdata".to_string(), None).unwrap_err();
    assert_eq!(runtime_msg(&e), "userdata sem metatable");
    let e = check_userdata(LuaType::UserData, "userdata".to_string(), Some(false)).unwrap_err();
    assert_eq!(
        e.to_string(),
        "Erro de tipo: esperava userdata do tipo registrado, recebeu userdata de outro tipo"
    );
}

#[test]
fn userdata_borrows() {
    assert!(userdata_access(true, true, false).is_ok());
    assert!(userdata_access(true, true, true).is_ok());
    let e = userdata_access(false, true, false).unwrap_err();
    assert_eq!(runtime_msg(&e), "userdata invalido");
    let e = userdata_access(true, false, false).unwrap_err();
    assert_eq!(e.to_string(), "Erro de borrow: userdata ja mutavelmente emprestado");
    let e = userdata_access(true, false, true).unwrap_err();
    assert_eq!(e.to_string(), "Erro de borrow: userdata ja emprestado");
}

#[test]
fn registry_plans() {
    assert_eq!(ensure_plan(true, true), EnsurePlan { create_registry: false, create_metatable: false });
    assert_eq!(ensure_plan(true, false), EnsurePlan { create_registry: false, create_metatable: true });
    assert_eq!(ensure_plan(false, false), EnsurePlan { create_registry: true, create_metatable: true });
    assert_eq!(ensure_plan(false, true), EnsurePlan { create_registry: true, create_metatable: true });
    assert!(registered_metatable(true, true).is_ok());
    assert_eq!(runtime_msg(&registered_metatable(false, true).unwrap_err()), "registro de userdata ausente");
    assert_eq!(
        runtime_msg(&registered_metatable(true, false).unwrap_err()),
        "metatable de userdata nao registrada"
    );
    assert!(setmetatable_status(1, "falha ao definir metatable").is_ok());
    assert_eq!(
        runtime_msg(&setmetatable_status(0, "falha ao definir metatable").unwrap_err()),
        "falha ao definir metatable"
    );
}

fn raised(r: LuaReply) -> String {
    match r {
        LuaReply::Raise(m) => m,
        LuaReply::Return(n) => panic!("returned {n}"),
    }
}

#[test]
fn callback_replies() {
    assert!(matches!(callback_reply(CallOutcome::Returned(3)), LuaReply::Return(3)));
    assert!(matches!(callback_reply(CallOutcome::Returned(0)), LuaReply::Return(0)));
    assert_eq!(raised(callback_reply(CallOutcome::MissingUpvalue)), "falha interna: closure sem upvalue");
    assert_eq!(
        raised(callback_reply(CallOutcome::Failed(type_err("number", "nil")))),
        "Erro de tipo: esperava number, recebeu nil"
    );
    assert_eq!(
        raised(callback_reply(CallOutcome::Panicked(Some("oops".to_string())))),
        "panic em callback nativa: oops"
    );
    assert_eq!(
        raised(callback_reply(CallOutcome::Panicked(None))),
        "panic em callback nativa sem mensagem"
    );
}

#[test]
fn entry_replies() {
    assert!(matches!(entry_reply(EntryOutcome::Loaded), LuaReply::Return(1)));
    assert_eq!(raised(entry_reply(EntryOutcome::Failed(Error::Runtime("x".to_string())))), "x");
    assert_eq!(
        raised(entry_reply(EntryOutcome::Panicked(Some("bad".to_string())))),
        "panic no modulo nativo: bad"
    );
    assert_eq!(raised(entry_reply(EntryOutcome::Panicked(None))), "panic no modulo nativo sem mensagem");
    assert_eq!(entry_point_name("mymod"), "luaopen_mymod");
}
