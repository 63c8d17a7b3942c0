# openseal_sdk

The SDK for native Luau modules loaded by the OpenSeal runtime, split in two.

- `src/` is the verified core, checked by Verus. It holds every decision the
  SDK makes that does not touch the Lua VM:
  - `error`: the `Error` type, `with_path`, and the text of each error;
  - `text`: decimal text of integers;
  - `safety`: the null check on a `lua_State`, the stack guard, the stack dump text;
  - `names`: which names can become C strings, and the `table.<key>` paths of fields;
  - `convert`: the Luau type of a slot and the type checks of the conversions;
  - `metatable`: the plan for per-type userdata metatables, the userdata type
    check and the borrow checks;
  - `closure`: what a native callback or a module entry point answers to the VM;
  - `userdata_methods`: the metamethods and their names.
- `app/` is the SDK's surface over the Luau C API (`mlua::ffi`): `Lua`, `Table`,
  `Function`, `AnyUserData`, `Value`, the conversion traits, the closures, the
  registry references and the userdata methods. It reads the Lua stack, hands
  plain values to the core, and carries out what the core decides.
