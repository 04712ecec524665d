//! The Lua values through which the readings are handed to Lua.
//!
//! Each response appends to a list the Lua C API calls that push it; the
//! laws at the end of the file say which value that leaves on the stack.

use crate::lua::{
    field_ops, lemma_field_ops_concat, lemma_field_ops_push, lemma_new_table_with_fields, run, with_fields, Key,
    LuaModel, LuaOp, LuaValue,
};
use crate::stats::{AllProcess, AllSystem};
use vstd::prelude::*;

verus! {

/// A fractional reading, handed to Lua as a number.
#[derive(Clone, Copy, Debug)]
pub struct Number<N>(pub N);

/// A response that can be handed to Lua. `N` is the type of Lua numbers,
/// `F` that of Lua C functions.
pub trait SysInfoResponseData<N, F> {
    /// The calls that push this response on the stack as one value.
    spec fn lua_ops(&self) -> Seq<LuaOp<N, F>>;

    /// Whether the response is a table whose fields can be written into
    /// another table.
    spec fn has_struct_fields(&self) -> bool;

    /// The calls that write the fields of this response into the table on
    /// top of the stack.
    spec fn struct_field_ops(&self) -> Seq<LuaOp<N, F>>;

    /// Appends to `lua` the calls that push this response; returns the number
    /// of values they push.
    fn push_lua(&self, lua: &mut Vec<LuaOp<N, F>>) -> (pushed: i32)
        ensures
            final(lua)@ == old(lua)@ + self.lua_ops(),
            pushed == 1,
    ;

    /// Appends to `lua` the calls that write the fields of this response into
    /// the table on top of the stack.
    fn push_lua_struct_fields(&self, lua: &mut Vec<LuaOp<N, F>>)
        requires
            self.has_struct_fields(),
        ensures
            final(lua)@ == old(lua)@ + self.struct_field_ops(),
    ;
}

impl<N: Copy, F> SysInfoResponseData<N, F> for Number<N> {
    open spec fn lua_ops(&self) -> Seq<LuaOp<N, F>> {
        seq![LuaOp::PushNumber(self.0)]
    }

    open spec fn has_struct_fields(&self) -> bool {
        false
    }

    open spec fn struct_field_ops(&self) -> Seq<LuaOp<N, F>> {
        Seq::empty()
    }

    fn push_lua(&self, lua: &mut Vec<LuaOp<N, F>>) -> (pushed: i32) {
        lua.push(LuaOp::PushNumber(self.0));
        1
    }

    fn push_lua_struct_fields(&self, lua: &mut Vec<LuaOp<N, F>>) {
    }
}

impl<N, F> SysInfoResponseData<N, F> for u16 {
    open spec fn lua_ops(&self) -> Seq<LuaOp<N, F>> {
        seq![LuaOp::PushInteger(*self as isize)]
    }

    open spec fn has_struct_fields(&self) -> bool {
        false
    }

    open spec fn struct_field_ops(&self) -> Seq<LuaOp<N, F>> {
        Seq::empty()
    }

    fn push_lua(&self, lua: &mut Vec<LuaOp<N, F>>) -> (pushed: i32) {
        lua.push(LuaOp::PushInteger(*self as isize));
        1
    }

    fn push_lua_struct_fields(&self, lua: &mut Vec<LuaOp<N, F>>) {
    }
}

/// Appends `value` and the call that stores it under `key` in the table at
/// `index`, as one more field after `fields`.
pub(crate) fn push_field<N, F>(
    lua: &mut Vec<LuaOp<N, F>>,
    Ghost(base): Ghost<Seq<LuaOp<N, F>>>,
    Ghost(fields): Ghost<Seq<(LuaOp<N, F>, Key)>>,
    value: LuaOp<N, F>,
    index: i32,
    key: Key,
)
    requires
        old(lua)@ == base + field_ops(fields, index),
    ensures
        final(lua)@ == base + field_ops(fields.push((value, key)), index),
{
    lua.push(value);
    lua.push(LuaOp::SetField { index, key });
    proof {
        lemma_field_ops_push(fields, (value, key), index);
        assert(lua@ =~= base + field_ops(fields.push((value, key)), index));
    }
}

impl<N> AllProcess<N> {
    /// The fields of the table, in the order they are written.
    pub open spec fn lua_fields<F>(&self) -> Seq<(LuaOp<N, F>, Key)> {
        seq![
            (LuaOp::PushNumber(self.cpu_usage), Key::ProcessCPUUsage),
            (LuaOp::PushNumber(self.memory_usage), Key::ProcessMemoryUsage),
        ]
    }
}

impl<N: Copy, F> SysInfoResponseData<N, F> for AllProcess<N> {
    open spec fn lua_ops(&self) -> Seq<LuaOp<N, F>> {
        seq![LuaOp::CreateTable { narr: 0i32, nrec: 2i32 }] + self.struct_field_ops()
    }

    open spec fn has_struct_fields(&self) -> bool {
        true
    }

    open spec fn struct_field_ops(&self) -> Seq<LuaOp<N, F>> {
        field_ops(self.lua_fields(), -2i32)
    }

    fn push_lua(&self, lua: &mut Vec<LuaOp<N, F>>) -> (pushed: i32) {
        lua.push(LuaOp::CreateTable { narr: 0, nrec: 2 });
        self.push_lua_struct_fields(lua);
        assert(lua@ =~= old(lua)@ + self.lua_ops());
        1
    }

    fn push_lua_struct_fields(&self, lua: &mut Vec<LuaOp<N, F>>) {
        let ghost base = lua@;
        assert(lua@ =~= base + field_ops(Seq::<(LuaOp<N, F>, Key)>::empty(), -2i32));
        push_field(lua, Ghost(base), Ghost(Seq::empty()), LuaOp::PushNumber(self.cpu_usage), -2, Key::ProcessCPUUsage);
        assert(Seq::<(LuaOp<N, F>, Key)>::empty().push((LuaOp::PushNumber(self.cpu_usage), Key::ProcessCPUUsage)) =~= self.lua_fields::<F>().take(1));
        push_field(lua, Ghost(base), Ghost(self.lua_fields::<F>().take(1)), LuaOp::PushNumber(self.memory_usage), -2, Key::ProcessMemoryUsage);
        assert(self.lua_fields::<F>().take(1).push((LuaOp::PushNumber(self.memory_usage), Key::ProcessMemoryUsage)) =~= self.lua_fields::<F>());
    }
}

impl<N> AllSystem<N> {
    /// The fields of the table, in the order they are written.
    pub open spec fn lua_fields<F>(&self) -> Seq<(LuaOp<N, F>, Key)> {
        seq![
            (LuaOp::PushNumber(self.cpu_usage), Key::SystemCPUUsage),
            (LuaOp::PushNumber(self.memory_usage), Key::SystemMemoryUsage),
            (LuaOp::PushNumber(self.total_memory), Key::SystemTotalMemory),
            (LuaOp::PushNumber(self.available_memory), Key::SystemAvailableMemory),
            (LuaOp::PushInteger(self.logical_cpus as isize), Key::LogicalCPUs),
            (LuaOp::PushInteger(self.physical_cpus as isize), Key::PhysicalCPUs),
        ]
    }
}

impl<N: Copy, F> SysInfoResponseData<N, F> for AllSystem<N> {
    open spec fn lua_ops(&self) -> Seq<LuaOp<N, F>> {
        seq![LuaOp::CreateTable { narr: 0i32, nrec: 6i32 }] + self.struct_field_ops()
    }

    open spec fn has_struct_fields(&self) -> bool {
        true
    }

    open spec fn struct_field_ops(&self) -> Seq<LuaOp<N, F>> {
        field_ops(self.lua_fields(), -2i32)
    }

    fn push_lua(&self, lua: &mut Vec<LuaOp<N, F>>) -> (pushed: i32) {
        lua.push(LuaOp::CreateTable { narr: 0, nrec: 6 });
        self.push_lua_struct_fields(lua);
        assert(lua@ =~= old(lua)@ + self.lua_ops());
        1
    }

    fn push_lua_struct_fields(&self, lua: &mut Vec<LuaOp<N, F>>) {
        let ghost base = lua@;
        assert(lua@ =~= base + field_ops(Seq::<(LuaOp<N, F>, Key)>::empty(), -2i32));
        push_field(lua, Ghost(base), Ghost(Seq::empty()), LuaOp::PushNumber(self.cpu_usage), -2, Key::SystemCPUUsage);
        assert(Seq::<(LuaOp<N, F>, Key)>::empty().push((LuaOp::PushNumber(self.cpu_usage), Key::SystemCPUUsage)) =~= self.lua_fields::<F>().take(1));
        push_field(lua, Ghost(base), Ghost(self.lua_fields::<F>().take(1)), LuaOp::PushNumber(self.memory_usage), -2, Key::SystemMemoryUsage);
        assert(self.lua_fields::<F>().take(1).push((LuaOp::PushNumber(self.memory_usage), Key::SystemMemoryUsage)) =~= self.lua_fields::<F>().take(2));
        push_field(lua, Ghost(base), Ghost(self.lua_fields::<F>().take(2)), LuaOp::PushNumber(self.total_memory), -2, Key::SystemTotalMemory);
        assert(self.lua_fields::<F>().take(2).push((LuaOp::PushNumber(self.total_memory), Key::SystemTotalMemory)) =~= self.lua_fields::<F>().take(3));
        push_field(lua, Ghost(base), Ghost(self.lua_fields::<F>().take(3)), LuaOp::PushNumber(self.available_memory), -2, Key::SystemAvailableMemory);
        assert(self.lua_fields::<F>().take(3).push((LuaOp::PushNumber(self.available_memory), Key::SystemAvailableMemory)) =~= self.lua_fields::<F>().take(4));
        push_field(lua, Ghost(base), Ghost(self.lua_fields::<F>().take(4)), LuaOp::PushInteger(self.logical_cpus as isize), -2, Key::LogicalCPUs);
        assert(self.lua_fields::<F>().take(4).push((LuaOp::PushInteger(self.logical_cpus as isize), Key::LogicalCPUs)) =~= self.lua_fields::<F>().take(5));
        push_field(lua, Ghost(base), Ghost(self.lua_fields::<F>().take(5)), LuaOp::PushInteger(self.physical_cpus as isize), -2, Key::PhysicalCPUs);
        assert(self.lua_fields::<F>().take(5).push((LuaOp::PushInteger(self.physical_cpus as isize), Key::PhysicalCPUs)) =~= self.lua_fields::<F>());
    }
}

impl<N: Copy, F> SysInfoResponseData<N, F> for (AllSystem<N>, AllProcess<N>) {
    open spec fn lua_ops(&self) -> Seq<LuaOp<N, F>> {
        seq![LuaOp::CreateTable { narr: 0i32, nrec: 8i32 }]
            + SysInfoResponseData::<N, F>::struct_field_ops(&self.0)
            + SysInfoResponseData::<N, F>::struct_field_ops(&self.1)
    }

    open spec fn has_struct_fields(&self) -> bool {
        false
    }

    open spec fn struct_field_ops(&self) -> Seq<LuaOp<N, F>> {
        Seq::empty()
    }

    fn push_lua(&self, lua: &mut Vec<LuaOp<N, F>>) -> (pushed: i32) {
        lua.push(LuaOp::CreateTable { narr: 0, nrec: 2 + 6 });
        SysInfoResponseData::<N, F>::push_lua_struct_fields(&self.0, lua);
        SysInfoResponseData::<N, F>::push_lua_struct_fields(&self.1, lua);
        assert(lua@ =~= old(lua)@ + self.lua_ops());
        1
    }

    fn push_lua_struct_fields(&self, lua: &mut Vec<LuaOp<N, F>>) {
    }
}

/// A number pushed for Lua is one number on top of the stack.
pub proof fn lemma_number_pushes_number<N: Copy, F>(s: LuaModel<N, F>, n: Number<N>)
    ensures
        run(s, SysInfoResponseData::<N, F>::lua_ops(&n)) == Some(s.push(LuaValue::Number(n.0))),
{
    reveal_with_fuel(crate::lua::run_from, 2);
}

/// A count pushed for Lua is one integer of the same value on top of the stack.
pub proof fn lemma_count_pushes_integer<N, F>(s: LuaModel<N, F>, n: u16)
    ensures
        run(s, SysInfoResponseData::<N, F>::lua_ops(&n)) == Some(s.push(LuaValue::Integer(n as int))),
{
    reveal_with_fuel(crate::lua::run_from, 2);
}

/// The process readings are pushed as one new table with exactly the fields
/// `ProcessCPUUsage` and `ProcessMemoryUsage`.
pub proof fn lemma_all_process_table<N: Copy, F>(s: LuaModel<N, F>, d: AllProcess<N>)
    ensures
        run(s, SysInfoResponseData::<N, F>::lua_ops(&d)) == Some(s.push_new_table(map![
            Key::ProcessCPUUsage => LuaValue::Number(d.cpu_usage),
            Key::ProcessMemoryUsage => LuaValue::Number(d.memory_usage),
        ])),
{
    lemma_new_table_with_fields(s, 0, 2, d.lua_fields::<F>());
    reveal_with_fuel(with_fields, 3);
}

/// The system readings are pushed as one new table with exactly the six
/// fields of the system.
pub proof fn lemma_all_system_table<N: Copy, F>(s: LuaModel<N, F>, d: AllSystem<N>)
    ensures
        run(s, SysInfoResponseData::<N, F>::lua_ops(&d)) == Some(s.push_new_table(map![
            Key::SystemCPUUsage => LuaValue::Number(d.cpu_usage),
            Key::SystemMemoryUsage => LuaValue::Number(d.memory_usage),
            Key::SystemTotalMemory => LuaValue::Number(d.total_memory),
            Key::SystemAvailableMemory => LuaValue::Number(d.available_memory),
            Key::LogicalCPUs => LuaValue::Integer(d.logical_cpus as int),
            Key::PhysicalCPUs => LuaValue::Integer(d.physical_cpus as int),
        ])),
{
    lemma_new_table_with_fields(s, 0, 6, d.lua_fields::<F>());
    reveal_with_fuel(with_fields, 7);
}

/// All readings together are pushed as one new table with the six fields of
/// the system and the two of the process.
pub proof fn lemma_all_table<N: Copy, F>(s: LuaModel<N, F>, d: (AllSystem<N>, AllProcess<N>))
    ensures
        run(s, SysInfoResponseData::<N, F>::lua_ops(&d)) == Some(s.push_new_table(map![
            Key::SystemCPUUsage => LuaValue::Number(d.0.cpu_usage),
            Key::SystemMemoryUsage => LuaValue::Number(d.0.memory_usage),
            Key::SystemTotalMemory => LuaValue::Number(d.0.total_memory),
            Key::SystemAvailableMemory => LuaValue::Number(d.0.available_memory),
            Key::LogicalCPUs => LuaValue::Integer(d.0.logical_cpus as int),
            Key::PhysicalCPUs => LuaValue::Integer(d.0.physical_cpus as int),
            Key::ProcessCPUUsage => LuaValue::Number(d.1.cpu_usage),
            Key::ProcessMemoryUsage => LuaValue::Number(d.1.memory_usage),
        ])),
{
    let fields = d.0.lua_fields::<F>() + d.1.lua_fields::<F>();
    lemma_field_ops_concat(d.0.lua_fields::<F>(), d.1.lua_fields::<F>(), -2i32);
    assert(SysInfoResponseData::<N, F>::lua_ops(&d)
        =~= seq![LuaOp::CreateTable { narr: 0i32, nrec: 8i32 }] + field_ops(fields, -2i32));
    assert forall|i: int| 0 <= i < fields.len() implies crate::lua::is_value_push(#[trigger] fields[i].0) by {}
    lemma_new_table_with_fields(s, 0, 8, fields);
    assert(fields =~= seq![
        (LuaOp::<N, F>::PushNumber(d.0.cpu_usage), Key::SystemCPUUsage),
        (LuaOp::PushNumber(d.0.memory_usage), Key::SystemMemoryUsage),
        (LuaOp::PushNumber(d.0.total_memory), Key::SystemTotalMemory),
        (LuaOp::PushNumber(d.0.available_memory), Key::SystemAvailableMemory),
        (LuaOp::PushInteger(d.0.logical_cpus as isize), Key::LogicalCPUs),
        (LuaOp::PushInteger(d.0.physical_cpus as isize), Key::PhysicalCPUs),
        (LuaOp::PushNumber(d.1.cpu_usage), Key::ProcessCPUUsage),
        (LuaOp::PushNumber(d.1.memory_usage), Key::ProcessMemoryUsage),
    ]);
    reveal_with_fuel(with_fields, 9);
}

} // verus!
