//! Server statistics for a Garry's Mod binary module: readings taken from the
//! `sysinfo` crate, and the Lua tables through which they are handed to Lua.
//!
//! The Lua side is described as data: every function that would drive the Lua
//! C API returns the list of stack operations it performs ([`lua::LuaOp`]), and
//! [`lua::run`] gives those operations their meaning on a model of the Lua
//! stack, its tables and its globals. The laws of [`export`] and
//! [`realtime`] say what tables the operations build.

pub mod export;
pub mod lua;
pub mod realtime;
pub mod stats;

use crate::lua::{
    field_ops, is_value_push, lemma_new_table_with_fields, lemma_run_concat, run,
    run_from, with_fields, Key, LuaModel, LuaOp, LuaValue,
};
use vstd::prelude::*;

verus! {

/// The Lua C functions that the module exports in its `serverstat` table.
#[derive(Clone, Copy, Debug)]
pub struct ModuleFunctions<F> {
    pub process_cpu_usage: F,
    pub process_memory_usage: F,
    pub system_cpu_usage: F,
    pub system_memory_usage: F,
    pub system_total_memory: F,
    pub system_available_memory: F,
    pub logical_cpus: F,
    pub physical_cpus: F,
}

impl<F> ModuleFunctions<F> {
    /// The fields of the `serverstat` table, in the order they are written.
    pub open spec fn lua_fields<N>(self) -> Seq<(LuaOp<N, F>, Key)> {
        seq![
            (LuaOp::PushFunction(self.process_cpu_usage), Key::ProcessCPUUsage),
            (LuaOp::PushFunction(self.process_memory_usage), Key::ProcessMemoryUsage),
            (LuaOp::PushFunction(self.system_cpu_usage), Key::SystemCPUUsage),
            (LuaOp::PushFunction(self.system_memory_usage), Key::SystemMemoryUsage),
            (LuaOp::PushFunction(self.system_total_memory), Key::SystemTotalMemory),
            (LuaOp::PushFunction(self.system_available_memory), Key::SystemAvailableMemory),
            (LuaOp::PushFunction(self.logical_cpus), Key::LogicalCPUs),
            (LuaOp::PushFunction(self.physical_cpus), Key::PhysicalCPUs),
        ]
    }
}

/// The calls with which the module opens: a new table, each function stored
/// in it under its name, and the table made the global `serverstat`.
pub open spec fn open_module_spec<N, F>(fns: ModuleFunctions<F>) -> Seq<LuaOp<N, F>> {
    seq![LuaOp::CreateTable { narr: 0i32, nrec: 0i32 }] + field_ops(fns.lua_fields(), -2i32) + seq![
        LuaOp::SetGlobal(Key::Serverstat),
    ]
}

/// The calls with which the module opens.
pub fn open_module_ops<N, F: Copy>(fns: &ModuleFunctions<F>) -> (ops: Vec<LuaOp<N, F>>)
    ensures
        ops@ == open_module_spec::<N, F>(*fns),
{
    let mut ops: Vec<LuaOp<N, F>> = Vec::new();
    ops.push(LuaOp::CreateTable { narr: 0, nrec: 0 });
    let ghost base = ops@;
    let ghost fields = fns.lua_fields::<N>();
    assert(ops@ =~= base + field_ops(fields.take(0), -2i32));
    export::push_field(&mut ops, Ghost(base), Ghost(fields.take(0)), LuaOp::PushFunction(fns.process_cpu_usage), -2, Key::ProcessCPUUsage);
    assert(fields.take(0).push(fields[0]) =~= fields.take(1));
    export::push_field(&mut ops, Ghost(base), Ghost(fields.take(1)), LuaOp::PushFunction(fns.process_memory_usage), -2, Key::ProcessMemoryUsage);
    assert(fields.take(1).push(fields[1]) =~= fields.take(2));
    export::push_field(&mut ops, Ghost(base), Ghost(fields.take(2)), LuaOp::PushFunction(fns.system_cpu_usage), -2, Key::SystemCPUUsage);
    assert(fields.take(2).push(fields[2]) =~= fields.take(3));
    export::push_field(&mut ops, Ghost(base), Ghost(fields.take(3)), LuaOp::PushFunction(fns.system_memory_usage), -2, Key::SystemMemoryUsage);
    assert(fields.take(3).push(fields[3]) =~= fields.take(4));
    export::push_field(&mut ops, Ghost(base), Ghost(fields.take(4)), LuaOp::PushFunction(fns.system_total_memory), -2, Key::SystemTotalMemory);
    assert(fields.take(4).push(fields[4]) =~= fields.take(5));
    export::push_field(&mut ops, Ghost(base), Ghost(fields.take(5)), LuaOp::PushFunction(fns.system_available_memory), -2, Key::SystemAvailableMemory);
    assert(fields.take(5).push(fields[5]) =~= fields.take(6));
    export::push_field(&mut ops, Ghost(base), Ghost(fields.take(6)), LuaOp::PushFunction(fns.logical_cpus), -2, Key::LogicalCPUs);
    assert(fields.take(6).push(fields[6]) =~= fields.take(7));
    export::push_field(&mut ops, Ghost(base), Ghost(fields.take(7)), LuaOp::PushFunction(fns.physical_cpus), -2, Key::PhysicalCPUs);
    assert(fields.take(7).push(fields[7]) =~= fields);
    ops.push(LuaOp::SetGlobal(Key::Serverstat));
    assert(ops@ =~= open_module_spec::<N, F>(*fns));
    ops
}

/// Opening the module makes the global `serverstat` a new table holding
/// exactly the eight functions, each under its own name, and leaves the
/// stack as it was.
pub proof fn lemma_open_module<N, F>(s: LuaModel<N, F>, fns: ModuleFunctions<F>)
    ensures
        run(s, open_module_spec(fns)) == Some(LuaModel {
            stack: s.stack,
            tables: s.tables.insert(s.next_table, map![
                Key::ProcessCPUUsage => LuaValue::Function(fns.process_cpu_usage),
                Key::ProcessMemoryUsage => LuaValue::Function(fns.process_memory_usage),
                Key::SystemCPUUsage => LuaValue::Function(fns.system_cpu_usage),
                Key::SystemMemoryUsage => LuaValue::Function(fns.system_memory_usage),
                Key::SystemTotalMemory => LuaValue::Function(fns.system_total_memory),
                Key::SystemAvailableMemory => LuaValue::Function(fns.system_available_memory),
                Key::LogicalCPUs => LuaValue::Function(fns.logical_cpus),
                Key::PhysicalCPUs => LuaValue::Function(fns.physical_cpus),
            ]),
            globals: s.globals.insert(Key::Serverstat, LuaValue::Table(s.next_table)),
            next_table: s.next_table + 1,
            ..s
        }),
{
    let fields = fns.lua_fields::<N>();
    let head = seq![LuaOp::<N, F>::CreateTable { narr: 0i32, nrec: 0i32 }] + field_ops(fields, -2i32);
    let tail = seq![LuaOp::<N, F>::SetGlobal(Key::Serverstat)];
    assert forall|i: int| 0 <= i < fields.len() implies is_value_push(#[trigger] fields[i].0) by {}
    lemma_new_table_with_fields(s, 0, 0, fields);
    lemma_run_concat(s, head, tail);
    reveal_with_fuel(run_from, 2);
    reveal_with_fuel(with_fields, 9);
    let t = s.push_new_table(with_fields(Map::empty(), fields));
    assert(run(t, tail)->0.stack =~= s.stack);
}

} // verus!
