use gmsv_serverstat::export::{Number, SysInfoResponseData};
use gmsv_serverstat::lua::{Key, LuaOp};
use gmsv_serverstat::realtime::{
    all_ops, all_process_ops, all_system_ops, set_interval_ops, start_ops, RealtimeFunctions,
};
use gmsv_serverstat::stats::{AllProcess, AllSystem, RealtimeData};
use gmsv_serverstat::{open_module_ops, ModuleFunctions};
use std::collections::BTreeMap;

type Op = LuaOp<f64, u8>;

#[derive(Clone, Debug, PartialEq)]
enum Val {
    Nil,
    Num(f64),
    Int(isize),
    Fun(u8),
    Tab(usize),
    Chunk(&'static str),
}

#[derive(Default, Debug)]
struct Machine {
    stack: Vec<Val>,
    tables: Vec<BTreeMap<&'static str, Val>>,
    globals: BTreeMap<&'static str, Val>,
    calls: Vec<(Val, Vec<Val>)>,
}

impl Machine {
    fn slot(&self, index: i32) -> usize {
        if index > 0 {
            index as usize - 1
        } else {
            (self.stack.len() as i32 + index) as usize
        }
    }

    fn table(&self, index: i32) -> usize {
        match self.stack[self.slot(index)] {
            Val::Tab(t) => t,
            ref v => panic!("not a table: {:?}", v),
        }
    }

    fn run(&mut self, ops: &[Op]) {
        for op in ops {
            match *op {
                LuaOp::CreateTable { .. } => {
                    self.tables.push(BTreeMap::new());
                    self.stack.push(Val::Tab(self.tables.len() - 1));
                }
                LuaOp::PushNumber(n) => self.stack.push(Val::Num(n)),
                LuaOp::PushInteger(i) => self.stack.push(Val::Int(i)),
                LuaOp::PushFunction(f) => self.stack.push(Val::Fun(f)),
                LuaOp::PushValue(i) => {
                    let v = self.stack[self.slot(i)].clone();
                    self.stack.push(v);
                }
                LuaOp::SetField { index, key } => {
                    let t = self.table(index);
                    let v = self.stack.pop().unwrap();
                    self.tables[t].insert(key.name(), v);
                }
                LuaOp::GetField { index, key } => {
                    let t = self.table(index);
                    let v = self.tables[t].get(key.name()).cloned().unwrap_or(Val::Nil);
                    self.stack.push(v);
                }
                LuaOp::SetGlobal(key) => {
                    let v = self.stack.pop().unwrap();
                    self.globals.insert(key.name(), v);
                }
                LuaOp::GetGlobal(key) => {
                    let v = self.globals.get(key.name()).cloned().unwrap_or(Val::Nil);
                    self.stack.push(v);
                }
                LuaOp::LoadString(src) => self.stack.push(Val::Chunk(src)),
                LuaOp::Call { nargs, nresults } => {
                    assert_eq!(nresults, 0);
                    let args = self.stack.split_off(self.stack.len() - nargs as usize);
                    let f = self.stack.pop().unwrap();
                    self.calls.push((f, args));
                }
                LuaOp::Pop(n) => {
                    let len = self.stack.len() - n as usize;
                    self.stack.truncate(len);
                }
            }
        }
    }

    fn fields(&self, t: usize) -> Vec<(&'static str, Val)> {
        self.tables[t].iter().map(|(k, v)| (*k, v.clone())).collect()
    }
}

fn system() -> AllSystem<f64> {
    AllSystem {
        cpu_usage: 0.25,
        memory_usage: 512.0,
        total_memory: 2048.0,
        available_memory: 1024.5,
        logical_cpus: 8,
        physical_cpus: 4,
    }
}

fn process() -> AllProcess<f64> {
    AllProcess { cpu_usage: 0.125, memory_usage: 64.0 }
}

fn realtime_data() -> RealtimeData<f64> {
    RealtimeData {
        system_cpu_usage: 0.5,
        system_memory_usage: 300.0,
        system_available_memory: 700.0,
        process_cpu_usage: 0.75,
        process_memory_usage: 20.0,
    }
}

fn sorted(mut v: Vec<(&'static str, Val)>) -> Vec<(&'static str, Val)> {
    v.sort_by(|a, b| a.0.cmp(b.0));
    v
}

#[test]
fn number_pushes_one_number() {
    let mut ops: Vec<Op> = Vec::new();
    assert_eq!(Number(1.5).push_lua(&mut ops), 1);
    assert_eq!(ops, vec![LuaOp::PushNumber(1.5)]);
}

#[test]
fn count_pushes_one_integer() {
    let mut ops: Vec<Op> = Vec::new();
    assert_eq!(SysInfoResponseData::<f64, u8>::push_lua(&7u16, &mut ops), 1);
    assert_eq!(ops, vec![LuaOp::PushInteger(7)]);
}

#[test]
fn push_lua_appends_after_what_is_there() {
    let mut ops: Vec<Op> = vec![LuaOp::Pop(1)];
    Number(2.0).push_lua(&mut ops);
    assert_eq!(ops, vec![LuaOp::Pop(1), LuaOp::PushNumber(2.0)]);
}

#[test]
fn all_process_ops_are_a_table_of_two_fields() {
    let mut ops: Vec<Op> = Vec::new();
    assert_eq!(process().push_lua(&mut ops), 1);
    assert_eq!(
        ops,
        vec![
            LuaOp::CreateTable { narr: 0, nrec: 2 },
            LuaOp::PushNumber(0.125),
            LuaOp::SetField { index: -2, key: Key::ProcessCPUUsage },
            LuaOp::PushNumber(64.0),
            LuaOp::SetField { index: -2, key: Key::ProcessMemoryUsage },
        ]
    );
}

#[test]
fn all_system_table() {
    let mut ops: Vec<Op> = Vec::new();
    assert_eq!(system().push_lua(&mut ops), 1);
    assert_eq!(ops[0], LuaOp::CreateTable { narr: 0, nrec: 6 });
    let mut m = Machine::default();
    m.stack.push(Val::Nil);
    m.run(&ops);
    assert_eq!(m.stack, vec![Val::Nil, Val::Tab(0)]);
    assert_eq!(
        sorted(m.fields(0)),
        sorted(vec![
            ("SystemCPUUsage", Val::Num(0.25)),
            ("SystemMemoryUsage", Val::Num(512.0)),
            ("SystemTotalMemory", Val::Num(2048.0)),
            ("SystemAvailableMemory", Val::Num(1024.5)),
            ("LogicalCPUs", Val::Int(8)),
            ("PhysicalCPUs", Val::Int(4)),
        ])
    );
}

#[test]
fn all_table_has_system_and_process_fields() {
    let mut ops: Vec<Op> = Vec::new();
    assert_eq!((system(), process()).push_lua(&mut ops), 1);
    assert_eq!(ops[0], LuaOp::CreateTable { narr: 0, nrec: 8 });
    assert_eq!(ops.len(), 17);
    let mut m = Machine::default();
    m.run(&ops);
    assert_eq!(m.stack, vec![Val::Tab(0)]);
    assert_eq!(m.tables.len(), 1);
    assert_eq!(m.fields(0).len(), 8);
    assert_eq!(m.tables[0]["ProcessCPUUsage"], Val::Num(0.125));
    assert_eq!(m.tables[0]["LogicalCPUs"], Val::Int(8));
}

#[test]
fn realtime_table_nests_system_and_process() {
    let mut ops: Vec<Op> = Vec::new();
    assert_eq!(realtime_data().push_lua(&mut ops), 1);
    let mut m = Machine::default();
    m.run(&ops);
    assert_eq!(m.stack, vec![Val::Tab(0)]);
    assert_eq!(sorted(m.fields(0)), vec![("Process", Val::Tab(1)), ("System", Val::Tab(2))]);
    assert_eq!(
        sorted(m.fields(1)),
        vec![("CPUUsage", Val::Num(0.75)), ("MemoryUsage", Val::Num(20.0))]
    );
    assert_eq!(
        sorted(m.fields(2)),
        vec![
            ("AvailableMemory", Val::Num(700.0)),
            ("CPUUsage", Val::Num(0.5)),
            ("MemoryUsage", Val::Num(300.0)),
        ]
    );
}

fn module_functions() -> ModuleFunctions<u8> {
    ModuleFunctions {
        process_cpu_usage: 1,
        process_memory_usage: 2,
        system_cpu_usage: 3,
        system_memory_usage: 4,
        system_total_memory: 5,
        system_available_memory: 6,
        logical_cpus: 7,
        physical_cpus: 8,
    }
}

#[test]
fn opening_the_module_sets_the_serverstat_global() {
    let ops: Vec<Op> = open_module_ops(&module_functions());
    assert_eq!(ops.len(), 18);
    let mut m = Machine::default();
    m.stack.push(Val::Int(9));
    m.run(&ops);
    assert_eq!(m.stack, vec![Val::Int(9)]);
    assert_eq!(m.globals["serverstat"], Val::Tab(0));
    assert_eq!(
        sorted(m.fields(0)),
        sorted(vec![
            ("ProcessCPUUsage", Val::Fun(1)),
            ("ProcessMemoryUsage", Val::Fun(2)),
            ("SystemCPUUsage", Val::Fun(3)),
            ("SystemMemoryUsage", Val::Fun(4)),
            ("SystemTotalMemory", Val::Fun(5)),
            ("SystemAvailableMemory", Val::Fun(6)),
            ("LogicalCPUs", Val::Fun(7)),
            ("PhysicalCPUs", Val::Fun(8)),
        ])
    );
}

fn realtime_machine() -> Machine {
    let mut m = Machine::default();
    m.tables.push(BTreeMap::new());
    m.tables.push(BTreeMap::new());
    m.tables[0].insert("realtime", Val::Tab(1));
    m.tables[1].insert("SetInterval", Val::Fun(42));
    m.globals.insert("serverstat", Val::Tab(0));
    m
}

const REALTIME_FNS: RealtimeFunctions<u8> = RealtimeFunctions { refresh: 10, refresh_async: 11 };
const SCRIPT: &str = "timer.Create('serverstat', 1, 0, function() end)";

#[test]
fn start_installs_refresh_and_leaves_serverstat_on_the_stack() {
    let ops: Vec<Op> = start_ops(&REALTIME_FNS, SCRIPT);
    assert_eq!(
        ops,
        vec![
            LuaOp::GetGlobal(Key::Serverstat),
            LuaOp::GetField { index: -1, key: Key::Realtime },
            LuaOp::PushFunction(10),
            LuaOp::SetField { index: -2, key: Key::Refresh },
            LuaOp::PushFunction(11),
            LuaOp::SetField { index: -2, key: Key::RefreshAsync },
            LuaOp::Pop(1),
            LuaOp::LoadString(SCRIPT),
            LuaOp::Call { nargs: 0, nresults: 0 },
        ]
    );
    let mut m = realtime_machine();
    m.run(&ops);
    assert_eq!(m.stack, vec![Val::Tab(0)]);
    assert_eq!(m.calls, vec![(Val::Chunk(SCRIPT), vec![])]);
    assert_eq!(m.tables[1]["Refresh"], Val::Fun(10));
    assert_eq!(m.tables[1]["RefreshAsync"], Val::Fun(11));
}

#[test]
fn set_interval_calls_set_interval_with_its_argument() {
    let ops: Vec<Op> = set_interval_ops(&REALTIME_FNS, SCRIPT);
    let mut m = realtime_machine();
    m.stack.push(Val::Num(5.0));
    m.run(&ops);
    assert_eq!(m.stack, vec![Val::Num(5.0), Val::Tab(0), Val::Tab(0), Val::Tab(1)]);
    assert_eq!(
        m.calls,
        vec![(Val::Chunk(SCRIPT), vec![]), (Val::Fun(42), vec![Val::Num(5.0)])]
    );
}

#[test]
fn realtime_all_pushes_the_readings_after_start() {
    let ops: Vec<Op> = all_ops(&REALTIME_FNS, SCRIPT, &realtime_data());
    let mut m = realtime_machine();
    m.run(&ops);
    assert_eq!(m.calls, vec![(Val::Chunk(SCRIPT), vec![])]);
    assert_eq!(m.stack, vec![Val::Tab(0), Val::Tab(2)]);
    assert_eq!(m.tables[2]["System"], Val::Tab(4));
}

#[test]
fn realtime_all_system_leaves_the_system_table_on_top() {
    let ops: Vec<Op> = all_system_ops(&REALTIME_FNS, SCRIPT, &realtime_data());
    let mut m = realtime_machine();
    m.run(&ops);
    assert_eq!(m.stack.last(), Some(&Val::Tab(4)));
    assert_eq!(m.tables[4]["CPUUsage"], Val::Num(0.5));
}

#[test]
fn realtime_all_process_leaves_the_process_table_on_top() {
    let ops: Vec<Op> = all_process_ops(&REALTIME_FNS, SCRIPT, &realtime_data());
    let mut m = realtime_machine();
    m.run(&ops);
    assert_eq!(m.stack.last(), Some(&Val::Tab(3)));
    assert_eq!(m.tables[3]["MemoryUsage"], Val::Num(20.0));
}
