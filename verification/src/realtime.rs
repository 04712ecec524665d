//! The realtime interface: the `serverstat.realtime` table that a Lua script
//! keeps up to date, and the functions that fill it.

use crate::export::{push_field, SysInfoResponseData};
use crate::lua::{
    step,
    field_ops, is_value_push, lemma_field_ops, lemma_run_concat, run, run_from,
    with_fields, Key, LuaModel, LuaOp, LuaValue,
};
use crate::stats::RealtimeData;
use vstd::prelude::*;

verus! {

impl<N> RealtimeData<N> {
    /// The fields of the `System` table, in the order they are written.
    pub open spec fn system_fields<F>(&self) -> Seq<(LuaOp<N, F>, Key)> {
        seq![
            (LuaOp::PushNumber(self.system_cpu_usage), Key::CPUUsage),
            (LuaOp::PushNumber(self.system_memory_usage), Key::MemoryUsage),
            (LuaOp::PushNumber(self.system_available_memory), Key::AvailableMemory),
        ]
    }

    /// The fields of the `Process` table, in the order they are written.
    pub open spec fn process_fields<F>(&self) -> Seq<(LuaOp<N, F>, Key)> {
        seq![
            (LuaOp::PushNumber(self.process_cpu_usage), Key::CPUUsage),
            (LuaOp::PushNumber(self.process_memory_usage), Key::MemoryUsage),
        ]
    }
}

impl<N: Copy, F> SysInfoResponseData<N, F> for RealtimeData<N> {
    /// A table holding a `Process` and a `System` table: three new tables,
    /// the fields written into the two inner ones while they lie on the
    /// stack, then the inner ones stored in the outer one.
    open spec fn lua_ops(&self) -> Seq<LuaOp<N, F>> {
        seq![
            LuaOp::CreateTable { narr: 0i32, nrec: 2i32 },
            LuaOp::CreateTable { narr: 0i32, nrec: 2i32 },
            LuaOp::CreateTable { narr: 0i32, nrec: 3i32 },
        ] + self.struct_field_ops() + seq![
            LuaOp::SetField { index: -3i32, key: Key::System },
            LuaOp::SetField { index: -2i32, key: Key::Process },
        ]
    }

    open spec fn has_struct_fields(&self) -> bool {
        true
    }

    /// The `System` fields into the table on top of the stack, the `Process`
    /// fields into the one below it.
    open spec fn struct_field_ops(&self) -> Seq<LuaOp<N, F>> {
        field_ops(self.system_fields(), -2i32) + field_ops(self.process_fields(), -3i32)
    }

    fn push_lua(&self, lua: &mut Vec<LuaOp<N, F>>) -> (pushed: i32) {
        lua.push(LuaOp::CreateTable { narr: 0, nrec: 2 });  // Process
        lua.push(LuaOp::CreateTable { narr: 0, nrec: 2 });
        lua.push(LuaOp::CreateTable { narr: 0, nrec: 3 });  // System
        self.push_lua_struct_fields(lua);
        lua.push(LuaOp::SetField { index: -3, key: Key::System });
        lua.push(LuaOp::SetField { index: -2, key: Key::Process });
        assert(lua@ =~= old(lua)@ + self.lua_ops());
        1
    }

    fn push_lua_struct_fields(&self, lua: &mut Vec<LuaOp<N, F>>) {
        let ghost base = lua@;
        push_field(lua, Ghost(base), Ghost(Seq::empty()), LuaOp::PushNumber(self.system_cpu_usage), -2, Key::CPUUsage);
        assert(Seq::<(LuaOp<N, F>, Key)>::empty().push((LuaOp::PushNumber(self.system_cpu_usage), Key::CPUUsage)) =~= self.system_fields::<F>().take(1));
        push_field(lua, Ghost(base), Ghost(self.system_fields::<F>().take(1)), LuaOp::PushNumber(self.system_memory_usage), -2, Key::MemoryUsage);
        assert(self.system_fields::<F>().take(1).push((LuaOp::PushNumber(self.system_memory_usage), Key::MemoryUsage)) =~= self.system_fields::<F>().take(2));
        push_field(lua, Ghost(base), Ghost(self.system_fields::<F>().take(2)), LuaOp::PushNumber(self.system_available_memory), -2, Key::AvailableMemory);
        assert(self.system_fields::<F>().take(2).push((LuaOp::PushNumber(self.system_available_memory), Key::AvailableMemory)) =~= self.system_fields::<F>());
        let ghost base2 = lua@;
        assert(lua@ =~= base2 + field_ops(Seq::<(LuaOp<N, F>, Key)>::empty(), -3i32));
        push_field(lua, Ghost(base2), Ghost(Seq::empty()), LuaOp::PushNumber(self.process_cpu_usage), -3, Key::CPUUsage);
        assert(Seq::<(LuaOp<N, F>, Key)>::empty().push((LuaOp::PushNumber(self.process_cpu_usage), Key::CPUUsage)) =~= self.process_fields::<F>().take(1));
        push_field(lua, Ghost(base2), Ghost(self.process_fields::<F>().take(1)), LuaOp::PushNumber(self.process_memory_usage), -3, Key::MemoryUsage);
        assert(self.process_fields::<F>().take(1).push((LuaOp::PushNumber(self.process_memory_usage), Key::MemoryUsage)) =~= self.process_fields::<F>());
        assert(lua@ =~= old(lua)@ + self.struct_field_ops());
    }
}

/// The state after pushing the realtime readings `d`: one new table whose
/// `System` and `Process` fields are two more new tables, holding the
/// system's CPU usage, memory usage and available memory, and the process's
/// CPU and memory usage.
pub open spec fn realtime_pushed<N, F>(s: LuaModel<N, F>, d: RealtimeData<N>) -> LuaModel<N, F> {
    LuaModel {
        stack: s.stack.push(LuaValue::Table(s.next_table)),
        tables: s.tables.insert(s.next_table, map![
            Key::System => LuaValue::Table(s.next_table + 2),
            Key::Process => LuaValue::Table(s.next_table + 1),
        ]).insert(s.next_table + 1, map![
            Key::CPUUsage => LuaValue::Number(d.process_cpu_usage),
            Key::MemoryUsage => LuaValue::Number(d.process_memory_usage),
        ]).insert(s.next_table + 2, map![
            Key::CPUUsage => LuaValue::Number(d.system_cpu_usage),
            Key::MemoryUsage => LuaValue::Number(d.system_memory_usage),
            Key::AvailableMemory => LuaValue::Number(d.system_available_memory),
        ]),
        next_table: s.next_table + 3,
        ..s
    }
}

/// The realtime readings are pushed as [`realtime_pushed`] says, from any state.
pub proof fn lemma_realtime_tables<N: Copy, F>(s: LuaModel<N, F>, d: RealtimeData<N>)
    ensures
        run(s, SysInfoResponseData::<N, F>::lua_ops(&d)) == Some(realtime_pushed(s, d)),
{
    let n = s.next_table;
    let creates = seq![
        LuaOp::<N, F>::CreateTable { narr: 0i32, nrec: 2i32 },
        LuaOp::CreateTable { narr: 0i32, nrec: 2i32 },
        LuaOp::CreateTable { narr: 0i32, nrec: 3i32 },
    ];
    let sys = d.system_fields::<F>();
    let pro = d.process_fields::<F>();
    let f1 = field_ops(sys, -2i32);
    let f2 = field_ops(pro, -3i32);
    let tail = seq![
        LuaOp::<N, F>::SetField { index: -3i32, key: Key::System },
        LuaOp::SetField { index: -2i32, key: Key::Process },
    ];
    assert(SysInfoResponseData::<N, F>::lua_ops(&d) == (creates + (f1 + f2)) + tail);

    let s3 = s.push_new_table(Map::empty()).push_new_table(Map::empty()).push_new_table(Map::empty());
    reveal_with_fuel(run_from, 4);
    assert(run(s, creates) == Some(s3));

    assert(s3.table_at(-1) == Some(n + 2));
    assert forall|i: int| 0 <= i < sys.len() implies is_value_push(#[trigger] sys[i].0) by {}
    lemma_field_ops(s3, sys, -2i32);
    let s4 = LuaModel { tables: s3.tables.insert(n + 2, with_fields(Map::empty(), sys)), ..s3 };

    assert(s4.table_at(-2) == Some(n + 1));
    assert forall|i: int| 0 <= i < pro.len() implies is_value_push(#[trigger] pro[i].0) by {}
    lemma_field_ops(s4, pro, -3i32);
    let s5 = LuaModel { tables: s4.tables.insert(n + 1, with_fields(Map::empty(), pro)), ..s4 };

    lemma_run_concat(s3, f1, f2);
    lemma_run_concat(s, creates, f1 + f2);
    lemma_run_concat(s, creates + (f1 + f2), tail);

    reveal_with_fuel(with_fields, 4);
    assert(s5.table_at(-3) == Some(n));
    let s6 = LuaModel {
        stack: s5.stack.drop_last(),
        tables: s5.tables.insert(n, s5.tables[n].insert(Key::System, LuaValue::Table(n + 2))),
        ..s5
    };
    assert(run(s5, tail) == run(s6, seq![LuaOp::<N, F>::SetField { index: -2i32, key: Key::Process }]));
    assert(s6.table_at(-2) == Some(n));
    let s7 = LuaModel {
        stack: s6.stack.drop_last(),
        tables: s6.tables.insert(n, s6.tables[n].insert(Key::Process, LuaValue::Table(n + 1))),
        ..s6
    };
    assert(run(s5, tail) == Some(s7));
    assert(s7.stack =~= s.stack.push(LuaValue::Table(n)));
    assert(s7.tables =~= s.tables.insert(n, map![
        Key::System => LuaValue::Table(n + 2),
        Key::Process => LuaValue::Table(n + 1),
    ]).insert(n + 1, map![
        Key::CPUUsage => LuaValue::Number(d.process_cpu_usage),
        Key::MemoryUsage => LuaValue::Number(d.process_memory_usage),
    ]).insert(n + 2, map![
        Key::CPUUsage => LuaValue::Number(d.system_cpu_usage),
        Key::MemoryUsage => LuaValue::Number(d.system_memory_usage),
        Key::AvailableMemory => LuaValue::Number(d.system_available_memory),
    ]));
}

/// The Lua C functions that `start` installs in `serverstat.realtime`.
#[derive(Clone, Copy, Debug)]
pub struct RealtimeFunctions<F> {
    pub refresh: F,
    pub refresh_async: F,
}

/// The tables `serverstat` and `serverstat.realtime`, where both exist.
pub open spec fn realtime_tables<N, F>(s: LuaModel<N, F>) -> Option<(nat, nat)> {
    if s.globals.contains_key(Key::Serverstat) {
        match s.globals[Key::Serverstat] {
            LuaValue::Table(a) => if s.tables.contains_key(a) {
                match s.field(a, Key::Realtime) {
                    LuaValue::Table(b) => if s.tables.contains_key(b) { Some((a, b)) } else { None },
                    _ => None,
                }
            } else {
                None
            },
            _ => None,
        }
    } else {
        None
    }
}

/// The fields that `start` writes into `serverstat.realtime`.
pub open spec fn start_fields<N, F>(fns: RealtimeFunctions<F>) -> Seq<(LuaOp<N, F>, Key)> {
    seq![
        (LuaOp::PushFunction(fns.refresh), Key::Refresh),
        (LuaOp::PushFunction(fns.refresh_async), Key::RefreshAsync),
    ]
}

/// The calls with which `start` installs its functions: fetch `serverstat`,
/// then its `realtime` table, store `Refresh` and `RefreshAsync` in it, and
/// pop it.
pub open spec fn install_spec<N, F>(fns: RealtimeFunctions<F>) -> Seq<LuaOp<N, F>> {
    seq![LuaOp::GetGlobal(Key::Serverstat), LuaOp::GetField { index: -1i32, key: Key::Realtime }]
        + field_ops(start_fields(fns), -2i32) + seq![LuaOp::Pop(1i32)]
}

/// The calls of `start`: install the functions, then compile the daemon
/// script and call it with no arguments and no results.
pub open spec fn start_spec<N, F>(fns: RealtimeFunctions<F>, script: &'static str) -> Seq<LuaOp<N, F>> {
    install_spec(fns) + seq![LuaOp::LoadString(script), LuaOp::Call { nargs: 0i32, nresults: 0i32 }]
}

/// The calls of `start`, with `script` the source of the daemon script.
pub fn start_ops<N, F: Copy>(fns: &RealtimeFunctions<F>, script: &'static str) -> (ops: Vec<LuaOp<N, F>>)
    ensures
        ops@ == start_spec::<N, F>(*fns, script),
{
    let mut ops: Vec<LuaOp<N, F>> = Vec::new();
    ops.push(LuaOp::GetGlobal(Key::Serverstat));
    ops.push(LuaOp::GetField { index: -1, key: Key::Realtime });
    ops.push(LuaOp::PushFunction(fns.refresh));
    ops.push(LuaOp::SetField { index: -2, key: Key::Refresh });
    ops.push(LuaOp::PushFunction(fns.refresh_async));
    ops.push(LuaOp::SetField { index: -2, key: Key::RefreshAsync });
    ops.push(LuaOp::Pop(1));
    ops.push(LuaOp::LoadString(script));
    ops.push(LuaOp::Call { nargs: 0, nresults: 0 });
    proof {
        reveal_with_fuel(field_ops, 3);
        assert(ops@ =~= start_spec::<N, F>(*fns, script));
    }
    ops
}

/// The state after `start` has installed its functions, where `serverstat`
/// is table `a` and `serverstat.realtime` table `b`: `Refresh` and
/// `RefreshAsync` stored in `b`, and `a` left on the stack.
pub open spec fn after_install<N, F>(s: LuaModel<N, F>, fns: RealtimeFunctions<F>, a: nat, b: nat) -> LuaModel<N, F> {
    LuaModel {
        stack: s.stack.push(LuaValue::Table(a)),
        tables: s.tables.insert(
            b,
            s.tables[b].insert(Key::Refresh, LuaValue::Function(fns.refresh)).insert(
                Key::RefreshAsync,
                LuaValue::Function(fns.refresh_async),
            ),
        ),
        ..s
    }
}

/// Installing succeeds exactly where `serverstat.realtime` is a table. It
/// stores `Refresh` and `RefreshAsync` in that table, and leaves the
/// `serverstat` table on the stack: it pops `realtime` but not `serverstat`.
pub proof fn lemma_install<N, F>(s: LuaModel<N, F>, fns: RealtimeFunctions<F>)
    ensures
        run(s, install_spec(fns)) == match realtime_tables(s) {
            Some((a, b)) => Some(after_install(s, fns, a, b)),
            None => None,
        },
{
    reveal_with_fuel(field_ops, 3);
    assert(install_spec::<N, F>(fns) =~= seq![
        LuaOp::GetGlobal(Key::Serverstat),
        LuaOp::GetField { index: -1i32, key: Key::Realtime },
        LuaOp::PushFunction(fns.refresh),
        LuaOp::SetField { index: -2i32, key: Key::Refresh },
        LuaOp::PushFunction(fns.refresh_async),
        LuaOp::SetField { index: -2i32, key: Key::RefreshAsync },
        LuaOp::Pop(1i32),
    ]);
    reveal_with_fuel(run_from, 8);
    if let Some((a, b)) = realtime_tables(s) {
        let t = run(s, install_spec(fns))->0;
        assert(t.stack =~= s.stack.push(LuaValue::Table(a)));
        assert(t.tables =~= s.tables.insert(
            b,
            s.tables[b].insert(Key::Refresh, LuaValue::Function(fns.refresh)).insert(
                Key::RefreshAsync,
                LuaValue::Function(fns.refresh_async),
            ),
        ));
    }
}

/// The state after the call of the compiled daemon script, from state `t`
/// (the functions installed): what the script does, the call recorded, and
/// the stack as it was before the script was compiled.
pub open spec fn after_script<N, F>(t: LuaModel<N, F>, script: &'static str) -> Option<LuaModel<N, F>> {
    let chunk = LuaValue::<N, F>::Chunk(script@);
    match (t.callee)(chunk, Seq::empty(), t.tables, t.globals, t.next_table) {
        Some(o) => Some(t.push(chunk).after_call(t.stack.len() as int, chunk, Seq::empty(), o, 0i32)),
        None => None,
    }
}

/// `start` installs `Refresh` and `RefreshAsync` where `serverstat.realtime`
/// is a table, then compiles the daemon script, which must compile, and
/// calls it once, with no arguments and no results. Nothing else is called.
pub proof fn lemma_start<N, F>(s: LuaModel<N, F>, fns: RealtimeFunctions<F>, script: &'static str)
    ensures
        run(s, start_spec(fns, script)) == match realtime_tables(s) {
            Some((a, b)) => if s.loadable.contains(script@) {
                after_script(after_install(s, fns, a, b), script)
            } else {
                None
            },
            None => None,
        },
        run(s, start_spec(fns, script)) matches Some(u) ==> {
            &&& u.calls == s.calls.push((LuaValue::Chunk(script@), Seq::empty()))
            &&& realtime_tables(s) matches Some((a, _)) && u.stack == s.stack.push(LuaValue::Table(a))
        },
{
    let tail = seq![LuaOp::<N, F>::LoadString(script), LuaOp::Call { nargs: 0i32, nresults: 0i32 }];
    lemma_install(s, fns);
    lemma_run_concat(s, install_spec(fns), tail);
    if let Some((a, b)) = realtime_tables(s) {
        let t = after_install(s, fns, a, b);
        reveal_with_fuel(run_from, 3);
        if s.loadable.contains(script@) {
            let chunk = LuaValue::<N, F>::Chunk(script@);
            let p = t.push(chunk);
            assert(step(t, tail[0]) == Some(p));
            assert(p.stack.subrange(t.stack.len() + 1int, p.stack.len() as int) =~= Seq::<LuaValue<N, F>>::empty());
            assert(p.stack[t.stack.len() as int] == chunk);
            if let Some(u) = after_script(t, script) {
                assert(u.stack =~= s.stack.push(LuaValue::Table(a)));
            }
        }
    }
}

/// The calls of `set_interval`: `start`, then fetch
/// `serverstat.realtime.SetInterval` and call it with the first argument.
pub open spec fn set_interval_spec<N, F>(fns: RealtimeFunctions<F>, script: &'static str) -> Seq<LuaOp<N, F>> {
    start_spec(fns, script) + seq![
        LuaOp::GetGlobal(Key::Serverstat),
        LuaOp::GetField { index: -1i32, key: Key::Realtime },
        LuaOp::GetField { index: -1i32, key: Key::SetInterval },
        LuaOp::PushValue(1i32),
        LuaOp::Call { nargs: 1i32, nresults: 0i32 },
    ]
}

/// The calls of `set_interval`.
pub fn set_interval_ops<N, F: Copy>(fns: &RealtimeFunctions<F>, script: &'static str) -> (ops: Vec<LuaOp<N, F>>)
    ensures
        ops@ == set_interval_spec::<N, F>(*fns, script),
{
    let mut ops = start_ops(fns, script);
    ops.push(LuaOp::GetGlobal(Key::Serverstat));
    ops.push(LuaOp::GetField { index: -1, key: Key::Realtime });
    ops.push(LuaOp::GetField { index: -1, key: Key::SetInterval });
    ops.push(LuaOp::PushValue(1));
    ops.push(LuaOp::Call { nargs: 1, nresults: 0 });
    assert(ops@ =~= set_interval_spec::<N, F>(*fns, script));
    ops
}

/// The state after `set_interval`'s call of `SetInterval`, from state `t`
/// (after `start`), where `serverstat` is table `a` and
/// `serverstat.realtime` table `b`: the function `g` found under
/// `SetInterval` is called with the first value on the stack, and the call
/// recorded.
pub open spec fn after_set_interval<N, F>(t: LuaModel<N, F>, a: nat, b: nat) -> Option<LuaModel<N, F>> {
    let g = t.field(b, Key::SetInterval);
    let v = t.stack[0];
    let u = t.push(LuaValue::Table(a)).push(LuaValue::Table(b)).push(g).push(v);
    match (t.callee)(g, seq![v], t.tables, t.globals, t.next_table) {
        Some(o) => Some(u.after_call(t.stack.len() + 2int, g, seq![v], o, 0i32)),
        None => None,
    }
}

/// `set_interval` runs `start`; then, where `serverstat.realtime` is still a
/// table after the daemon script ran, it calls the function found there under
/// `SetInterval` once, with the first argument of `set_interval` (the
/// `serverstat` table where it had none), and nothing else.
pub proof fn lemma_set_interval<N, F>(s: LuaModel<N, F>, fns: RealtimeFunctions<F>, script: &'static str)
    ensures
        run(s, set_interval_spec(fns, script)) == match run(s, start_spec(fns, script)) {
            Some(t) => match realtime_tables(t) {
                Some((a, b)) => after_set_interval(t, a, b),
                None => None,
            },
            None => None,
        },
        run(s, set_interval_spec(fns, script)) matches Some(u) ==> {
            &&& run(s, start_spec(fns, script)) matches Some(t)
            &&& realtime_tables(t) matches Some((a, b))
            &&& u.calls == t.calls.push((
                t.field(b, Key::SetInterval),
                seq![if s.stack.len() > 0 { s.stack[0] } else { t.stack[0] }],
            ))
        },
{
    lemma_start(s, fns, script);
    lemma_run_concat(s, start_spec(fns, script), set_interval_tail());
    if let Some(t) = run(s, start_spec(fns, script)) {
        assert(t.stack.len() > 0);
        if s.stack.len() > 0 {
            assert(t.stack[0] == s.stack[0]);
        }
        if let Some((a, b)) = realtime_tables(t) {
            lemma_set_interval_tail(t, a, b);
        } else {
            reveal_with_fuel(run_from, 3);
            assert(run(t, set_interval_tail::<N, F>()) is None);
        }
    }
}

/// The calls that `set_interval` makes after `start`.
spec fn set_interval_tail<N, F>() -> Seq<LuaOp<N, F>> {
    seq![
        LuaOp::<N, F>::GetGlobal(Key::Serverstat),
        LuaOp::GetField { index: -1i32, key: Key::Realtime },
        LuaOp::GetField { index: -1i32, key: Key::SetInterval },
        LuaOp::PushValue(1i32),
        LuaOp::Call { nargs: 1i32, nresults: 0i32 },
    ]
}

proof fn lemma_set_interval_tail<N, F>(t: LuaModel<N, F>, a: nat, b: nat)
    requires
        realtime_tables(t) == Some((a, b)),
        t.stack.len() > 0,
    ensures
        run(t, set_interval_tail::<N, F>()) == after_set_interval(t, a, b),
{
    let ops = set_interval_tail::<N, F>();
    let g = t.field(b, Key::SetInterval);
    let v = t.stack[0];
    let t1 = t.push(LuaValue::Table(a));
    let t2 = t1.push(LuaValue::Table(b));
    let t3 = t2.push(g);
    let t4 = t3.push(v);
    reveal_with_fuel(run_from, 1);
    assert(step(t, ops[0]) == Some(t1));
    assert(run_from(t, ops, 0) == run_from(t1, ops, 1));
    assert(t1.table_at(-1) == Some(a));
    assert(step(t1, ops[1]) == Some(t2));
    assert(run_from(t1, ops, 1) == run_from(t2, ops, 2));
    assert(t2.table_at(-1) == Some(b));
    assert(step(t2, ops[2]) == Some(t3));
    assert(run_from(t2, ops, 2) == run_from(t3, ops, 3));
    assert(t3.stack[0] == v);
    assert(step(t3, ops[3]) == Some(t4));
    assert(run_from(t3, ops, 3) == run_from(t4, ops, 4));
    assert(t4.stack.subrange(t.stack.len() + 3int, t4.stack.len() as int) =~= seq![v]);
    assert(t4.stack[t.stack.len() + 2int] == g);
    assert(step(t4, ops[4]) == after_set_interval(t, a, b));
    assert(run_from(t4, ops, 4) == step(t4, ops[4])) by {
        reveal_with_fuel(run_from, 2);
    }
}

/// The calls of realtime `all`: `start`, then push the realtime readings.
pub open spec fn all_spec<N: Copy, F>(fns: RealtimeFunctions<F>, script: &'static str, d: RealtimeData<N>) -> Seq<LuaOp<N, F>> {
    start_spec(fns, script) + SysInfoResponseData::<N, F>::lua_ops(&d)
}

/// The calls of realtime `all`.
pub fn all_ops<N: Copy, F: Copy>(fns: &RealtimeFunctions<F>, script: &'static str, d: &RealtimeData<N>) -> (ops: Vec<LuaOp<N, F>>)
    ensures
        ops@ == all_spec::<N, F>(*fns, script, *d),
{
    let mut ops = start_ops(fns, script);
    d.push_lua(&mut ops);
    ops
}

/// The calls of realtime `all_system`: those of `all`, then fetch the
/// `System` table of the readings.
pub open spec fn all_system_spec<N: Copy, F>(fns: RealtimeFunctions<F>, script: &'static str, d: RealtimeData<N>) -> Seq<LuaOp<N, F>> {
    all_spec(fns, script, d) + seq![LuaOp::GetField { index: -1i32, key: Key::System }]
}

/// The calls of realtime `all_system`.
pub fn all_system_ops<N: Copy, F: Copy>(fns: &RealtimeFunctions<F>, script: &'static str, d: &RealtimeData<N>) -> (ops: Vec<LuaOp<N, F>>)
    ensures
        ops@ == all_system_spec::<N, F>(*fns, script, *d),
{
    let mut ops = all_ops(fns, script, d);
    ops.push(LuaOp::GetField { index: -1, key: Key::System });
    assert(ops@ =~= all_system_spec::<N, F>(*fns, script, *d));
    ops
}

/// The calls of realtime `all_process`: those of `all`, then fetch the
/// `Process` table of the readings.
pub open spec fn all_process_spec<N: Copy, F>(fns: RealtimeFunctions<F>, script: &'static str, d: RealtimeData<N>) -> Seq<LuaOp<N, F>> {
    all_spec(fns, script, d) + seq![LuaOp::GetField { index: -1i32, key: Key::Process }]
}

/// The calls of realtime `all_process`.
pub fn all_process_ops<N: Copy, F: Copy>(fns: &RealtimeFunctions<F>, script: &'static str, d: &RealtimeData<N>) -> (ops: Vec<LuaOp<N, F>>)
    ensures
        ops@ == all_process_spec::<N, F>(*fns, script, *d),
{
    let mut ops = all_ops(fns, script, d);
    ops.push(LuaOp::GetField { index: -1, key: Key::Process });
    assert(ops@ =~= all_process_spec::<N, F>(*fns, script, *d));
    ops
}

/// Realtime `all` succeeds exactly where `start` does, and then pushes the
/// readings after what `start` leaves: all of `start`'s effects, the daemon
/// script's call included, come first.
pub proof fn lemma_all<N: Copy, F>(s: LuaModel<N, F>, fns: RealtimeFunctions<F>, script: &'static str, d: RealtimeData<N>)
    ensures
        run(s, all_spec(fns, script, d)) == match run(s, start_spec(fns, script)) {
            Some(t) => Some(realtime_pushed(t, d)),
            None => None,
        },
{
    lemma_run_concat(s, start_spec(fns, script), SysInfoResponseData::<N, F>::lua_ops(&d));
    if let Some(t) = run(s, start_spec(fns, script)) {
        lemma_realtime_tables(t, d);
    }
}

/// Realtime `all_system` succeeds exactly where `start` does, and then
/// leaves on top of the stack the new `System` table of the readings: the
/// system's CPU usage, memory usage and available memory.
pub proof fn lemma_all_system<N: Copy, F>(s: LuaModel<N, F>, fns: RealtimeFunctions<F>, script: &'static str, d: RealtimeData<N>)
    ensures
        run(s, all_system_spec(fns, script, d)) == match run(s, start_spec(fns, script)) {
            Some(t) => Some(realtime_pushed(t, d).push(LuaValue::Table(t.next_table + 2))),
            None => None,
        },
{
    let tail = seq![LuaOp::<N, F>::GetField { index: -1i32, key: Key::System }];
    lemma_all(s, fns, script, d);
    lemma_run_concat(s, all_spec(fns, script, d), tail);
    if let Some(t) = run(s, start_spec(fns, script)) {
        reveal_with_fuel(run_from, 2);
        assert(realtime_pushed(t, d).table_at(-1) == Some(t.next_table));
    }
}

/// Realtime `all_process` succeeds exactly where `start` does, and then
/// leaves on top of the stack the new `Process` table of the readings: the
/// process's CPU and memory usage.
pub proof fn lemma_all_process<N: Copy, F>(s: LuaModel<N, F>, fns: RealtimeFunctions<F>, script: &'static str, d: RealtimeData<N>)
    ensures
        run(s, all_process_spec(fns, script, d)) == match run(s, start_spec(fns, script)) {
            Some(t) => Some(realtime_pushed(t, d).push(LuaValue::Table(t.next_table + 1))),
            None => None,
        },
{
    let tail = seq![LuaOp::<N, F>::GetField { index: -1i32, key: Key::Process }];
    lemma_all(s, fns, script, d);
    lemma_run_concat(s, all_spec(fns, script, d), tail);
    if let Some(t) = run(s, start_spec(fns, script)) {
        reveal_with_fuel(run_from, 2);
        assert(realtime_pushed(t, d).table_at(-1) == Some(t.next_table));
    }
}

} // verus!
