//! A model of the part of the Lua C API that this module uses.

use vstd::prelude::*;

verus! {

/// The table keys and global names that this module reads or writes.
#[derive(Clone, Copy, Debug, PartialEq, Eq)]
pub enum Key {
    ProcessCPUUsage,
    ProcessMemoryUsage,
    SystemCPUUsage,
    SystemMemoryUsage,
    SystemTotalMemory,
    SystemAvailableMemory,
    LogicalCPUs,
    PhysicalCPUs,
    CPUUsage,
    MemoryUsage,
    AvailableMemory,
    System,
    Process,
    Serverstat,
    Realtime,
    Refresh,
    RefreshAsync,
    SetInterval,
}

/// A value on the Lua stack or in a Lua table. Tables are referred to by
/// their identity, as Lua does.
pub enum LuaValue<N, F> {
    Nil,
    Number(N),
    Integer(int),
    Function(F),
    Table(nat),
    /// A function compiled from this source text.
    Chunk(Seq<char>),
}

/// What a call of a Lua value leaves behind: the tables, the globals, the
/// identity of the next new table, and the values it returns.
pub struct CallOutcome<N, F> {
    pub tables: Map<nat, Map<Key, LuaValue<N, F>>>,
    pub globals: Map<Key, LuaValue<N, F>>,
    pub next_table: nat,
    pub results: Seq<LuaValue<N, F>>,
}

/// The state of a Lua instance, as far as this module touches it: the stack,
/// the contents of every table, the globals, the identity the next new table
/// will get, the sources this Lua compiles, what calling a value does, and
/// the calls made so far.
#[verifier::reject_recursive_types(N)]
#[verifier::reject_recursive_types(F)]
pub struct LuaModel<N, F> {
    pub stack: Seq<LuaValue<N, F>>,
    pub tables: Map<nat, Map<Key, LuaValue<N, F>>>,
    pub globals: Map<Key, LuaValue<N, F>>,
    pub next_table: nat,
    /// The source texts that `luaL_loadstring` compiles.
    pub loadable: Set<Seq<char>>,
    /// What calling the first value with the arguments does, from the
    /// tables, globals and next table identity at the call; `None` where the
    /// call raises an error.
    pub callee: spec_fn(
        LuaValue<N, F>,
        Seq<LuaValue<N, F>>,
        Map<nat, Map<Key, LuaValue<N, F>>>,
        Map<Key, LuaValue<N, F>>,
        nat,
    ) -> Option<CallOutcome<N, F>>,
    /// The calls made so far, in order: the value called and its arguments.
    pub calls: Seq<(LuaValue<N, F>, Seq<LuaValue<N, F>>)>,
}

impl Key {
    /// The Lua string of the key.
    pub open spec fn lua_name(self) -> Seq<char> {
        match self {
            Key::ProcessCPUUsage => "ProcessCPUUsage"@,
            Key::ProcessMemoryUsage => "ProcessMemoryUsage"@,
            Key::SystemCPUUsage => "SystemCPUUsage"@,
            Key::SystemMemoryUsage => "SystemMemoryUsage"@,
            Key::SystemTotalMemory => "SystemTotalMemory"@,
            Key::SystemAvailableMemory => "SystemAvailableMemory"@,
            Key::LogicalCPUs => "LogicalCPUs"@,
            Key::PhysicalCPUs => "PhysicalCPUs"@,
            Key::CPUUsage => "CPUUsage"@,
            Key::MemoryUsage => "MemoryUsage"@,
            Key::AvailableMemory => "AvailableMemory"@,
            Key::System => "System"@,
            Key::Process => "Process"@,
            Key::Serverstat => "serverstat"@,
            Key::Realtime => "realtime"@,
            Key::Refresh => "Refresh"@,
            Key::RefreshAsync => "RefreshAsync"@,
            Key::SetInterval => "SetInterval"@,
        }
    }

    /// The Lua string of the key, as the C API takes it.
    pub fn name(&self) -> (s: &'static str)
        ensures
            s@ == self.lua_name(),
    {
        match self {
            Key::ProcessCPUUsage => "ProcessCPUUsage",
            Key::ProcessMemoryUsage => "ProcessMemoryUsage",
            Key::SystemCPUUsage => "SystemCPUUsage",
            Key::SystemMemoryUsage => "SystemMemoryUsage",
            Key::SystemTotalMemory => "SystemTotalMemory",
            Key::SystemAvailableMemory => "SystemAvailableMemory",
            Key::LogicalCPUs => "LogicalCPUs",
            Key::PhysicalCPUs => "PhysicalCPUs",
            Key::CPUUsage => "CPUUsage",
            Key::MemoryUsage => "MemoryUsage",
            Key::AvailableMemory => "AvailableMemory",
            Key::System => "System",
            Key::Process => "Process",
            Key::Serverstat => "serverstat",
            Key::Realtime => "realtime",
            Key::Refresh => "Refresh",
            Key::RefreshAsync => "RefreshAsync",
            Key::SetInterval => "SetInterval",
        }
    }
}

/// The length, first character and seventh character of a key's name:
/// enough to tell the names apart.
spec fn name_signature(k: Key) -> (nat, char, char) {
    match k {
        Key::ProcessCPUUsage => (15, 'P', 's'),
        Key::ProcessMemoryUsage => (18, 'P', 's'),
        Key::SystemCPUUsage => (14, 'S', 'C'),
        Key::SystemMemoryUsage => (17, 'S', 'M'),
        Key::SystemTotalMemory => (17, 'S', 'T'),
        Key::SystemAvailableMemory => (21, 'S', 'A'),
        Key::LogicalCPUs => (11, 'L', 'l'),
        Key::PhysicalCPUs => (12, 'P', 'a'),
        Key::CPUUsage => (8, 'C', 'g'),
        Key::MemoryUsage => (11, 'M', 'U'),
        Key::AvailableMemory => (15, 'A', 'b'),
        Key::System => (6, 'S', ' '),
        Key::Process => (7, 'P', 's'),
        Key::Serverstat => (10, 's', 's'),
        Key::Realtime => (8, 'r', 'm'),
        Key::Refresh => (7, 'R', 'h'),
        Key::RefreshAsync => (12, 'R', 'h'),
        Key::SetInterval => (11, 'S', 'e'),
    }
}

proof fn lemma_name_facts(k: Key)
    ensures
        k.lua_name().len() == name_signature(k).0,
        k.lua_name()[0] == name_signature(k).1,
        k.lua_name().len() > 6 ==> k.lua_name()[6] == name_signature(k).2,
        forall|i: int| 0 <= i < k.lua_name().len() ==> k.lua_name()[i] != '\0',
{
    reveal_strlit("ProcessCPUUsage");
    reveal_strlit("ProcessMemoryUsage");
    reveal_strlit("SystemCPUUsage");
    reveal_strlit("SystemMemoryUsage");
    reveal_strlit("SystemTotalMemory");
    reveal_strlit("SystemAvailableMemory");
    reveal_strlit("LogicalCPUs");
    reveal_strlit("PhysicalCPUs");
    reveal_strlit("CPUUsage");
    reveal_strlit("MemoryUsage");
    reveal_strlit("AvailableMemory");
    reveal_strlit("System");
    reveal_strlit("Process");
    reveal_strlit("serverstat");
    reveal_strlit("realtime");
    reveal_strlit("Refresh");
    reveal_strlit("RefreshAsync");
    reveal_strlit("SetInterval");
}

/// Distinct keys are distinct Lua strings, so keys stand for the strings
/// in the model.
pub proof fn lemma_key_names_distinct(a: Key, b: Key)
    requires
        a != b,
    ensures
        a.lua_name() != b.lua_name(),
{
    lemma_name_facts(a);
    lemma_name_facts(b);
    assert(name_signature(a) != name_signature(b));
}

/// No key's name holds a NUL character, so each can be handed to the C API
/// as a C string.
pub proof fn lemma_key_names_have_no_nul(k: Key)
    ensures
        forall|i: int| 0 <= i < k.lua_name().len() ==> k.lua_name()[i] != '\0',
{
    lemma_name_facts(k);
}

/// One call of the Lua C API.
#[derive(Clone, Copy, Debug, PartialEq)]
pub enum LuaOp<N, F> {
    /// `lua_createtable(L, narr, nrec)`
    CreateTable { narr: i32, nrec: i32 },
    /// `lua_pushnumber(L, n)`
    PushNumber(N),
    /// `lua_pushinteger(L, n)`
    PushInteger(isize),
    /// `lua_pushcclosure(L, f, 0)`
    PushFunction(F),
    /// `lua_pushvalue(L, index)`
    PushValue(i32),
    /// `lua_setfield(L, index, key)`
    SetField { index: i32, key: Key },
    /// `lua_getfield(L, index, key)`
    GetField { index: i32, key: Key },
    /// `lua_setfield(L, LUA_GLOBALSINDEX, key)`
    SetGlobal(Key),
    /// `lua_getfield(L, LUA_GLOBALSINDEX, key)`
    GetGlobal(Key),
    /// `lua_settop(L, -n - 1)`: drops the top `n` values.
    Pop(i32),
    /// `luaL_loadstring(L, source)`, where a failure to compile stops the
    /// caller.
    LoadString(&'static str),
    /// `lua_call(L, nargs, nresults)`
    Call { nargs: i32, nresults: i32 },
}

/// `LUA_MULTRET`: a call keeps all the values that the function returns.
pub const LUA_MULTRET: i32 = -1;

/// The pseudo-index of the registry; indices at or below it are not stack slots.
pub const LUA_REGISTRYINDEX: i32 = -10000;

/// The pseudo-index of the table of globals.
pub const LUA_GLOBALSINDEX: i32 = -10002;

/// The position in a stack of `len` values that a stack index refers to:
/// `1..=len` counts from the bottom, `-1..=-len` from the top.
pub open spec fn stack_slot(len: nat, index: int) -> Option<int> {
    if 0 < index {
        if index <= len { Some(index - 1) } else { None }
    } else if LUA_REGISTRYINDEX < index && index < 0 {
        if -index <= len { Some(len + index) } else { None }
    } else {
        None
    }
}

/// Every identity in `tables` is below `next`.
pub open spec fn fresh_ids<N, F>(tables: Map<nat, Map<Key, LuaValue<N, F>>>, next: nat) -> bool {
    forall|t: nat| tables.contains_key(t) ==> t < next
}

impl<N, F> LuaModel<N, F> {
    /// The state with `v` pushed on the stack.
    pub open spec fn push(self, v: LuaValue<N, F>) -> LuaModel<N, F> {
        LuaModel { stack: self.stack.push(v), ..self }
    }

    /// The state with a new table holding `fields` pushed on the stack.
    pub open spec fn push_new_table(self, fields: Map<Key, LuaValue<N, F>>) -> LuaModel<N, F> {
        LuaModel {
            stack: self.stack.push(LuaValue::Table(self.next_table)),
            tables: self.tables.insert(self.next_table, fields),
            next_table: self.next_table + 1,
            ..self
        }
    }

    /// The table that the value at `index` refers to, if it is a live table.
    pub open spec fn table_at(self, index: int) -> Option<nat> {
        match stack_slot(self.stack.len(), index) {
            Some(i) => match self.stack[i] {
                LuaValue::Table(t) => if self.tables.contains_key(t) { Some(t) } else { None },
                _ => None,
            },
            None => None,
        }
    }

    /// The state after a call of `f` with `args` that stood from stack slot
    /// `base` up: they are replaced by the results, `nresults` of them
    /// (filled with `nil`), or all where `nresults` is `LUA_MULTRET`; the
    /// call is recorded.
    pub open spec fn after_call(
        self,
        base: int,
        f: LuaValue<N, F>,
        args: Seq<LuaValue<N, F>>,
        o: CallOutcome<N, F>,
        nresults: i32,
    ) -> LuaModel<N, F> {
        LuaModel {
            stack: self.stack.take(base) + if nresults == LUA_MULTRET {
                o.results
            } else {
                Seq::new(nresults as nat, |i: int| if i < o.results.len() { o.results[i] } else { LuaValue::Nil })
            },
            tables: o.tables,
            globals: o.globals,
            next_table: o.next_table,
            calls: self.calls.push((f, args)),
            ..self
        }
    }

    /// Every live table has an identity below the next one, and every call
    /// keeps it so: a new table never replaces a live one.
    pub open spec fn wf(self) -> bool {
        &&& fresh_ids(self.tables, self.next_table)
        &&& forall|f, args, tables, globals, n|
            fresh_ids(tables, n) ==> match #[trigger] (self.callee)(f, args, tables, globals, n) {
                Some(o) => fresh_ids(o.tables, o.next_table),
                None => true,
            }
    }

    /// The value of `key` in table `t`, `nil` where it has none.
    pub open spec fn field(self, t: nat, key: Key) -> LuaValue<N, F> {
        if self.tables[t].contains_key(key) { self.tables[t][key] } else { LuaValue::Nil }
    }
}

/// What one call of the C API does to the state; `None` where Lua would raise
/// an error or the call is not defined (a missing stack slot, or a value that
/// is not a table where a table is needed).
pub open spec fn step<N, F>(s: LuaModel<N, F>, op: LuaOp<N, F>) -> Option<LuaModel<N, F>> {
    match op {
        LuaOp::CreateTable { .. } => Some(s.push_new_table(Map::empty())),
        LuaOp::PushNumber(n) => Some(s.push(LuaValue::Number(n))),
        LuaOp::PushInteger(i) => Some(s.push(LuaValue::Integer(i as int))),
        LuaOp::PushFunction(f) => Some(s.push(LuaValue::Function(f))),
        LuaOp::PushValue(index) => match stack_slot(s.stack.len(), index as int) {
            Some(i) => Some(s.push(s.stack[i])),
            None => None,
        },
        LuaOp::SetField { index, key } => match s.table_at(index as int) {
            Some(t) => Some(LuaModel {
                stack: s.stack.drop_last(),
                tables: s.tables.insert(t, s.tables[t].insert(key, s.stack.last())),
                ..s
            }),
            None => None,
        },
        LuaOp::GetField { index, key } => match s.table_at(index as int) {
            Some(t) => Some(s.push(s.field(t, key))),
            None => None,
        },
        LuaOp::SetGlobal(key) => if s.stack.len() > 0 {
            Some(LuaModel {
                stack: s.stack.drop_last(),
                globals: s.globals.insert(key, s.stack.last()),
                ..s
            })
        } else {
            None
        },
        LuaOp::GetGlobal(key) => Some(s.push(
            if s.globals.contains_key(key) { s.globals[key] } else { LuaValue::Nil },
        )),
        LuaOp::Pop(n) => if 0 <= n <= s.stack.len() {
            Some(LuaModel { stack: s.stack.take(s.stack.len() - n), ..s })
        } else {
            None
        },
        LuaOp::LoadString(source) => if s.loadable.contains(source@) {
            Some(s.push(LuaValue::Chunk(source@)))
        } else {
            None
        },
        LuaOp::Call { nargs, nresults } => if 0 <= nargs < s.stack.len() && (nresults >= 0 || nresults == LUA_MULTRET) {
            let base = s.stack.len() - nargs - 1;
            let f = s.stack[base];
            let args = s.stack.subrange(base + 1, s.stack.len() as int);
            match (s.callee)(f, args, s.tables, s.globals, s.next_table) {
                Some(o) => Some(s.after_call(base, f, args, o, nresults)),
                None => None,
            }
        } else {
            None
        },
    }
}

/// Runs `ops[i..]` one after the other from state `s`.
pub open spec fn run_from<N, F>(s: LuaModel<N, F>, ops: Seq<LuaOp<N, F>>, i: int) -> Option<LuaModel<N, F>>
    decreases ops.len() - i,
{
    if i < 0 || i >= ops.len() {
        Some(s)
    } else {
        match step(s, ops[i]) {
            Some(t) => run_from(t, ops, i + 1),
            None => None,
        }
    }
}

/// Runs `ops` one after the other from state `s`: `None` as soon as one of them fails.
pub open spec fn run<N, F>(s: LuaModel<N, F>, ops: Seq<LuaOp<N, F>>) -> Option<LuaModel<N, F>> {
    run_from(s, ops, 0)
}


/// `lua_settop(L, index)`: a non-negative index sets the stack to that many
/// values, filling with `nil`; a negative one `-k` keeps all but the top
/// `k - 1` values.
pub open spec fn set_top<N, F>(s: LuaModel<N, F>, index: int) -> Option<LuaModel<N, F>> {
    if 0 <= index {
        Some(LuaModel {
            stack: Seq::new(index as nat, |i: int| if i < s.stack.len() { s.stack[i] } else { LuaValue::Nil }),
            ..s
        })
    } else if LUA_REGISTRYINDEX < index && -(index + 1) <= s.stack.len() {
        Some(LuaModel { stack: s.stack.take(s.stack.len() + index + 1), ..s })
    } else {
        None
    }
}

/// The index that `pop_n` hands to `lua_settop` to drop the top `count` values.
pub fn pop_n_index(count: i32) -> (index: i32)
    requires
        count > i32::MIN,
    ensures
        index == -count - 1,
{
    -count - 1
}

/// Dropping the top `n` values through `lua_settop(L, -n - 1)` is the
/// operation [`LuaOp::Pop`] with `n`, wherever the stack holds them.
pub proof fn lemma_pop_is_set_top<N, F>(s: LuaModel<N, F>, n: i32)
    requires
        0 <= n <= s.stack.len(),
        n < -LUA_REGISTRYINDEX - 1,
    ensures
        set_top(s, -n - 1) == step(s, LuaOp::Pop(n)),
{
}

/// What `load_string` reports for the status code of `luaL_loadstring`:
/// `0` is success, any other code an error carrying that code.
pub fn load_status(code: i32) -> (r: Result<(), i32>)
    ensures
        r is Ok <==> code == 0,
        r matches Err(e) ==> e == code,
{
    if code == 0 {
        Ok(())
    } else {
        Err(code)
    }
}

/// The value that a push call pushes, `nil` for any other call.
pub open spec fn pushed_value<N, F>(op: LuaOp<N, F>) -> LuaValue<N, F> {
    match op {
        LuaOp::PushNumber(n) => LuaValue::Number(n),
        LuaOp::PushInteger(i) => LuaValue::Integer(i as int),
        LuaOp::PushFunction(f) => LuaValue::Function(f),
        _ => LuaValue::Nil,
    }
}

/// Whether `op` pushes a constant value.
pub open spec fn is_value_push<N, F>(op: LuaOp<N, F>) -> bool {
    op is PushNumber || op is PushInteger || op is PushFunction
}

/// Pushing a value and storing it under `key` in the table at `index`.
pub open spec fn set_field_ops<N, F>(value: LuaOp<N, F>, index: i32, key: Key) -> Seq<LuaOp<N, F>> {
    seq![value, LuaOp::SetField { index, key }]
}

/// Storing each value of `fields` under its key, in order, in the table at `index`.
pub open spec fn field_ops<N, F>(fields: Seq<(LuaOp<N, F>, Key)>, index: i32) -> Seq<LuaOp<N, F>>
    decreases fields.len(),
{
    if fields.len() == 0 {
        Seq::empty()
    } else {
        field_ops(fields.drop_last(), index) + set_field_ops(fields.last().0, index, fields.last().1)
    }
}

/// The table `m` after storing each value of `fields` under its key, in order.
pub open spec fn with_fields<N, F>(m: Map<Key, LuaValue<N, F>>, fields: Seq<(LuaOp<N, F>, Key)>) -> Map<Key, LuaValue<N, F>>
    decreases fields.len(),
{
    if fields.len() == 0 {
        m
    } else {
        with_fields(m, fields.drop_last()).insert(fields.last().1, pushed_value(fields.last().0))
    }
}

/// One more field is two more calls.
pub proof fn lemma_field_ops_push<N, F>(fields: Seq<(LuaOp<N, F>, Key)>, field: (LuaOp<N, F>, Key), index: i32)
    ensures
        field_ops(fields.push(field), index) == field_ops(fields, index) + set_field_ops(field.0, index, field.1),
{
    assert(fields.push(field).drop_last() =~= fields);
}

/// Pushing a value and storing it in the table at `index` (counted before
/// the push) changes that table alone.
pub proof fn lemma_set_field<N, F>(s: LuaModel<N, F>, value: LuaOp<N, F>, index: i32, key: Key)
    requires
        is_value_push(value),
        LUA_REGISTRYINDEX < index < -1,
        s.table_at(index + 1) is Some,
    ensures
        run(s, set_field_ops(value, index, key)) == Some(LuaModel {
            tables: s.tables.insert(
                s.table_at(index + 1)->0,
                s.tables[s.table_at(index + 1)->0].insert(key, pushed_value(value)),
            ),
            ..s
        }),
{
    reveal_with_fuel(run_from, 3);
    let p = s.push(pushed_value(value));
    assert(step(s, value) == Some(p));
    assert(p.table_at(index as int) == s.table_at(index + 1));
    assert(p.stack.drop_last() =~= s.stack);
}

/// Storing a list of values in the table at `index` (counted before the
/// first push) changes that table alone, as [`with_fields`] says.
pub proof fn lemma_field_ops<N, F>(s: LuaModel<N, F>, fields: Seq<(LuaOp<N, F>, Key)>, index: i32)
    requires
        forall|i: int| 0 <= i < fields.len() ==> is_value_push(#[trigger] fields[i].0),
        LUA_REGISTRYINDEX < index < -1,
        s.table_at(index + 1) is Some,
    ensures
        run(s, field_ops(fields, index)) == Some(LuaModel {
            tables: s.tables.insert(
                s.table_at(index + 1)->0,
                with_fields(s.tables[s.table_at(index + 1)->0], fields),
            ),
            ..s
        }),
    decreases fields.len(),
{
    let t = s.table_at(index + 1)->0;
    if fields.len() == 0 {
        reveal_with_fuel(run_from, 1);
        assert(s.tables.insert(t, s.tables[t]) =~= s.tables);
    } else {
        let init = fields.drop_last();
        assert forall|i: int| 0 <= i < init.len() implies is_value_push(#[trigger] init[i].0) by {
            assert(init[i] == fields[i]);
        }
        lemma_field_ops(s, init, index);
        let s1 = LuaModel { tables: s.tables.insert(t, with_fields(s.tables[t], init)), ..s };
        assert(s1.table_at(index + 1) == Some(t));
        assert(is_value_push(fields[fields.len() - 1].0));
        lemma_set_field(s1, fields.last().0, index, fields.last().1);
        lemma_run_concat(s, field_ops(init, index), set_field_ops(fields.last().0, index, fields.last().1));
        assert(s1.tables.insert(t, s1.tables[t].insert(fields.last().1, pushed_value(fields.last().0)))
            =~= s.tables.insert(t, with_fields(s.tables[t], fields)));
    }
}

/// The calls for two lists of fields are the calls for their concatenation.
pub proof fn lemma_field_ops_concat<N, F>(a: Seq<(LuaOp<N, F>, Key)>, b: Seq<(LuaOp<N, F>, Key)>, index: i32)
    ensures
        field_ops(a + b, index) == field_ops(a, index) + field_ops(b, index),
    decreases b.len(),
{
    if b.len() == 0 {
        assert(a + b =~= a);
        assert(field_ops(a, index) + Seq::empty() =~= field_ops(a, index));
    } else {
        lemma_field_ops_concat(a, b.drop_last(), index);
        assert((a + b).drop_last() =~= a + b.drop_last());
        assert((a + b).last() == b.last());
        assert(field_ops(a, index) + field_ops(b.drop_last(), index) + set_field_ops(b.last().0, index, b.last().1)
            =~= field_ops(a, index) + (field_ops(b.drop_last(), index) + set_field_ops(b.last().0, index, b.last().1)));
    }
}

/// A new table with a list of fields is one new table on top of the stack,
/// holding exactly those fields.
pub proof fn lemma_new_table_with_fields<N, F>(
    s: LuaModel<N, F>,
    narr: i32,
    nrec: i32,
    fields: Seq<(LuaOp<N, F>, Key)>,
)
    requires
        forall|i: int| 0 <= i < fields.len() ==> is_value_push(#[trigger] fields[i].0),
    ensures
        run(s, seq![LuaOp::CreateTable { narr, nrec }] + field_ops(fields, -2i32))
            == Some(s.push_new_table(with_fields(Map::empty(), fields))),
{
    let s1 = s.push_new_table(Map::empty());
    reveal_with_fuel(run_from, 2);
    assert(run(s, seq![LuaOp::CreateTable { narr, nrec }]) == Some(s1));
    assert(s1.table_at(-1) == Some(s.next_table));
    lemma_field_ops(s1, fields, -2i32);
    lemma_run_concat(s, seq![LuaOp::CreateTable { narr, nrec }], field_ops(fields, -2i32));
    assert(s1.tables.insert(s.next_table, with_fields(Map::empty(), fields))
        =~= s.tables.insert(s.next_table, with_fields(Map::empty(), fields)));
}

/// Every call of the C API keeps the state well formed: no new table ever
/// takes the identity of a live one.
pub proof fn lemma_step_wf<N, F>(s: LuaModel<N, F>, op: LuaOp<N, F>)
    requires
        s.wf(),
        step(s, op) is Some,
    ensures
        step(s, op)->0.wf(),
{
    let t = step(s, op)->0;
    match op {
        LuaOp::CreateTable { .. } => {
            assert forall|id: nat| t.tables.contains_key(id) implies id < t.next_table by {
                if id != s.next_table {
                    assert(s.tables.contains_key(id));
                }
            }
        },
        LuaOp::SetField { index, key } => {
            let tab = s.table_at(index as int)->0;
            assert forall|id: nat| t.tables.contains_key(id) implies id < t.next_table by {
                assert(s.tables.contains_key(id));
            }
        },
        LuaOp::Call { nargs, nresults } => {
            let base = s.stack.len() - nargs - 1;
            let f = s.stack[base];
            let args = s.stack.subrange(base + 1, s.stack.len() as int);
            assert(fresh_ids(s.tables, s.next_table));
            let o = (s.callee)(f, args, s.tables, s.globals, s.next_table);
            assert(fresh_ids(o->0.tables, o->0.next_table));
        },
        _ => {},
    }
}

proof fn lemma_run_from_wf<N, F>(s: LuaModel<N, F>, ops: Seq<LuaOp<N, F>>, i: int)
    requires
        s.wf(),
        run_from(s, ops, i) is Some,
    ensures
        run_from(s, ops, i)->0.wf(),
    decreases ops.len() - i,
{
    if 0 <= i < ops.len() {
        lemma_step_wf(s, ops[i]);
        lemma_run_from_wf(step(s, ops[i])->0, ops, i + 1);
    }
}

/// Running any list of calls keeps the state well formed.
pub proof fn lemma_run_wf<N, F>(s: LuaModel<N, F>, ops: Seq<LuaOp<N, F>>)
    requires
        s.wf(),
        run(s, ops) is Some,
    ensures
        run(s, ops)->0.wf(),
{
    lemma_run_from_wf(s, ops, 0);
}

proof fn lemma_run_from_suffix<N, F>(t: LuaModel<N, F>, a: Seq<LuaOp<N, F>>, b: Seq<LuaOp<N, F>>, j: int)
    requires
        0 <= j <= b.len(),
    ensures
        run_from(t, a + b, a.len() + j) == run_from(t, b, j),
    decreases b.len() - j,
{
    if j < b.len() {
        assert((a + b)[a.len() + j] == b[j]);
        match step(t, b[j]) {
            Some(u) => lemma_run_from_suffix(u, a, b, j + 1),
            None => {},
        }
    }
}

proof fn lemma_run_from_prefix<N, F>(s: LuaModel<N, F>, a: Seq<LuaOp<N, F>>, b: Seq<LuaOp<N, F>>, i: int)
    requires
        0 <= i <= a.len(),
    ensures
        run_from(s, a + b, i) == match run_from(s, a, i) {
            Some(t) => run_from(t, a + b, a.len() as int),
            None => None,
        },
    decreases a.len() - i,
{
    if i < a.len() {
        assert((a + b)[i] == a[i]);
        match step(s, a[i]) {
            Some(u) => lemma_run_from_prefix(u, a, b, i + 1),
            None => {},
        }
    }
}

/// Running two lists of operations one after the other is running their
/// concatenation.
pub proof fn lemma_run_concat<N, F>(s: LuaModel<N, F>, a: Seq<LuaOp<N, F>>, b: Seq<LuaOp<N, F>>)
    ensures
        run(s, a + b) == match run(s, a) {
            Some(t) => run(t, b),
            None => None,
        },
{
    lemma_run_from_prefix(s, a, b, 0);
    match run(s, a) {
        Some(t) => lemma_run_from_suffix(t, a, b, 0),
        None => {},
    }
}

} // verus!
