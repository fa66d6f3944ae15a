use std::collections::HashMap;

use akaneclib::ast::TopDefEnum;
use akaneclib::codegen::{build_thunk_arg_gep, call_call_thunk, compile, eval_thunk_as_i64};
use akaneclib::context::SemContext;
use akaneclib::lexer::lex;
use akaneclib::llvm::{
    CodegenError, IrBinOp, IrBlock, IrFnType, IrFunction, IrInst, IrType, IrValue, LLVM,
};
use akaneclib::parser::parse;
use akaneclib::semantizer::semantize;

fn compiled(source: &str) -> Result<LLVM, CodegenError> {
    let mut ctx = SemContext::new();
    let defs: Vec<TopDefEnum> = semantize(&mut ctx, parse(lex(source).unwrap()).unwrap()).unwrap();
    assert!(defs.iter().all(|d| d.is_typed()));
    let mut llvm = LLVM::new("test");
    compile(&mut llvm, &ctx, &defs)?;
    Ok(llvm)
}

fn function<'a>(llvm: &'a LLVM, name: &str) -> &'a IrFunction {
    let found: Vec<&IrFunction> =
        llvm.functions.iter().filter(|f| !f.deleted && f.name == name).collect();
    assert_eq!(found.len(), 1, "functions named {}", name);
    found[0]
}

fn ptr_fn_ty() -> IrFnType {
    IrFnType { ret: IrType::Ptr, params: vec![IrType::Ptr, IrType::Ptr] }
}

fn exported_ty(arity: usize) -> IrFnType {
    IrFnType { ret: IrType::I64, params: vec![IrType::I64; arity] }
}

#[derive(Clone, Copy, Debug, PartialEq)]
enum Addr {
    Null,
    Thunk(usize),
    Field(usize, i32),
    Args(usize),
    ArgSlot(usize, i64),
    Func(usize),
    Stack(usize),
}

#[derive(Clone, Copy, Debug, PartialEq)]
enum Val {
    Int(i64),
    Ptr(Addr),
}

struct Thunk {
    fn_ptr: Addr,
    arity: i64,
    rank: i64,
    args: Vec<Addr>,
}

/// Runs the functions of a module on a runtime that keeps to the thunk ABI.
struct Machine<'a> {
    llvm: &'a LLVM,
    thunks: Vec<Thunk>,
    stack: Vec<Val>,
}

impl<'a> Machine<'a> {
    fn new(llvm: &'a LLVM) -> Self {
        Machine { llvm, thunks: Vec::new(), stack: Vec::new() }
    }

    fn run(llvm: &'a LLVM, name: &str, args: &[i64]) -> i64 {
        let mut machine = Machine::new(llvm);
        let index = llvm.functions.iter().position(|f| !f.deleted && f.name == name).unwrap();
        match machine.call(index, args.iter().map(|a| Val::Int(*a)).collect()) {
            Some(Val::Int(value)) => value,
            other => panic!("{} gave {:?}", name, other),
        }
    }

    fn allocate(&mut self, thunk: Thunk) -> Val {
        self.thunks.push(thunk);
        Val::Ptr(Addr::Thunk(self.thunks.len() - 1))
    }

    fn thunk_of(value: Val) -> usize {
        match value {
            Val::Ptr(Addr::Thunk(t)) => t,
            other => panic!("{:?} is no thunk", other),
        }
    }

    fn addr_of(value: Val) -> Addr {
        match value {
            Val::Ptr(addr) => addr,
            other => panic!("{:?} is no pointer", other),
        }
    }

    fn int_of(value: Val) -> i64 {
        match value {
            Val::Int(i) => i,
            other => panic!("{:?} is no integer", other),
        }
    }

    fn runtime(&mut self, name: &str, args: Vec<Val>) -> Option<Val> {
        match name {
            "__new_fn_thunk" => {
                let arity = Self::int_of(args[1]);
                Some(self.allocate(Thunk {
                    fn_ptr: Self::addr_of(args[0]),
                    arity,
                    rank: 0,
                    args: vec![Addr::Null; arity as usize + 1],
                }))
            }
            "__new_val_thunk" => Some(self.allocate(Thunk {
                fn_ptr: Addr::Null,
                arity: 0,
                rank: Self::int_of(args[0]),
                args: Vec::new(),
            })),
            "__new_next_fn_thunk" => {
                let prev = Self::thunk_of(args[0]);
                let mut next_args = self.thunks[prev].args.clone();
                let rank = self.thunks[prev].rank;
                next_args[rank as usize] = Self::addr_of(args[2]);
                let arity = self.thunks[prev].arity;
                Some(self.allocate(Thunk {
                    fn_ptr: Self::addr_of(args[1]),
                    arity,
                    rank: rank + 1,
                    args: next_args,
                }))
            }
            "__call_thunk" => {
                let thunk = Self::thunk_of(args[0]);
                match self.thunks[thunk].fn_ptr {
                    Addr::Func(f) => self.call(f, vec![args[0], args[1]]),
                    other => panic!("a thunk with the code {:?} was called", other),
                }
            }
            "__debug_print" => None,
            other => panic!("{} has no body", other),
        }
    }

    fn value(&self, value: &IrValue, params: &[Val], results: &HashMap<(usize, usize), Val>) -> Val {
        match value {
            IrValue::ConstI32(i) => Val::Int(*i as i64),
            IrValue::ConstI64(i) => Val::Int(*i),
            IrValue::Null => Val::Ptr(Addr::Null),
            IrValue::Function(f) => Val::Ptr(Addr::Func(*f)),
            IrValue::Param { index, .. } => params[*index],
            IrValue::Inst { block, index, .. } => results[&(*block, *index)],
        }
    }

    fn call(&mut self, index: usize, params: Vec<Val>) -> Option<Val> {
        let llvm = self.llvm;
        let function = &llvm.functions[index];
        assert!(!function.deleted);
        assert_eq!(function.ty.params.len(), params.len());
        if function.blocks.is_empty() {
            return self.runtime(&function.name, params);
        }
        let mut results: HashMap<(usize, usize), Val> = HashMap::new();
        let mut block = 0;
        let mut at = 0;
        loop {
            let inst = &function.blocks[block].insts[at];
            let v = |m: &Machine, value: &IrValue| m.value(value, &params, &results);
            let result = match inst {
                IrInst::Call { fn_ty, callee, args, .. } => {
                    let IrValue::Function(f) = callee else { panic!("an indirect call") };
                    assert_eq!(fn_ty, &llvm.functions[*f].ty);
                    let args = args.iter().map(|a| v(self, a)).collect();
                    self.call(*f, args)
                }
                IrInst::Binary { op, lhs, rhs, .. } => {
                    let (l, r) = (Self::int_of(v(self, lhs)), Self::int_of(v(self, rhs)));
                    Some(Val::Int(match op {
                        IrBinOp::Add => l + r,
                        IrBinOp::Sub => l - r,
                        IrBinOp::Mul => l * r,
                        IrBinOp::Div => l / r,
                        IrBinOp::Eq => (l == r) as i64,
                    }))
                }
                IrInst::Neg { value, .. } => Some(Val::Int(-Self::int_of(v(self, value)))),
                IrInst::Ret(value) => return Some(v(self, value)),
                IrInst::RetVoid => return None,
                IrInst::Alloca { .. } => {
                    self.stack.push(Val::Ptr(Addr::Null));
                    Some(Val::Ptr(Addr::Stack(self.stack.len() - 1)))
                }
                IrInst::Load { ptr, .. } => Some(match Self::addr_of(v(self, ptr)) {
                    Addr::Field(t, 1) => Val::Int(self.thunks[t].arity),
                    Addr::Field(t, 2) => Val::Int(self.thunks[t].rank),
                    Addr::Field(t, 3) => Val::Ptr(Addr::Args(t)),
                    Addr::ArgSlot(t, i) => Val::Ptr(self.thunks[t].args[i as usize]),
                    Addr::Stack(s) => self.stack[s],
                    other => panic!("a load from {:?}", other),
                }),
                IrInst::Store { value, ptr } => {
                    let Addr::Stack(s) = Self::addr_of(v(self, ptr)) else {
                        panic!("a store that is not to the stack")
                    };
                    self.stack[s] = v(self, value);
                    None
                }
                IrInst::Gep { ty, ptr, indices, .. } => {
                    let base = Self::addr_of(v(self, ptr));
                    Some(Val::Ptr(match (ty, base, indices.as_slice()) {
                        (IrType::Thunk, Addr::Thunk(t), [IrValue::ConstI64(0), IrValue::ConstI32(k)]) => {
                            Addr::Field(t, *k)
                        }
                        (IrType::Ptr, Addr::Args(t), [IrValue::ConstI64(i)]) => Addr::ArgSlot(t, *i),
                        other => panic!("an address of {:?}", other),
                    }))
                }
                IrInst::Br(IrBlock { block: next, .. }) => {
                    block = *next;
                    at = 0;
                    continue;
                }
                IrInst::CondBr { cond, then_block, else_block } => {
                    block = if Self::int_of(v(self, cond)) != 0 {
                        then_block.block
                    } else {
                        else_block.block
                    };
                    at = 0;
                    continue;
                }
            };
            if let Some(value) = result {
                results.insert((block, at), value);
            }
            at += 1;
        }
    }
}

const SOURCE: &str = "
ty i64 fn one = 1;
fn add_one a = a + 1;
fn add_nums a b = a + b;
fn double_add_nums a b = add_nums a b + add_nums a b;
fn add_nums_paren a b = (a + b);
fn eval_add_one a = add_one a;
fn eval_add_nums a b = add_nums a b;
fn mul_and_add a b c d = a*b + c*d;
fn mul_and_add_one a b = add_nums (mul a b) 1;
";

#[test]
fn one() {
    let llvm = compiled(SOURCE).unwrap();
    assert_eq!(Machine::run(&llvm, "one", &[]), 1);
}

#[test]
fn add_one() {
    let llvm = compiled(SOURCE).unwrap();
    assert_eq!(Machine::run(&llvm, "add_one", &[1]), 2);
    assert_eq!(Machine::run(&llvm, "add_one", &[4]), 5);
}

#[test]
fn add_nums() {
    let llvm = compiled(SOURCE).unwrap();
    assert_eq!(Machine::run(&llvm, "add_nums", &[1, 1]), 2);
    assert_eq!(Machine::run(&llvm, "add_nums", &[3, 5]), 8);
}

#[test]
fn double_add_nums() {
    let llvm = compiled(SOURCE).unwrap();
    assert_eq!(Machine::run(&llvm, "double_add_nums", &[1, 1]), 4);
    assert_eq!(Machine::run(&llvm, "double_add_nums", &[3, 5]), 16);
}

#[test]
fn add_nums_paren() {
    let llvm = compiled(SOURCE).unwrap();
    assert_eq!(Machine::run(&llvm, "add_nums_paren", &[1, 1]), 2);
    assert_eq!(Machine::run(&llvm, "add_nums_paren", &[3, 5]), 8);
}

#[test]
fn eval_add_one() {
    let llvm = compiled(SOURCE).unwrap();
    assert_eq!(Machine::run(&llvm, "eval_add_one", &[1]), 2);
    assert_eq!(Machine::run(&llvm, "eval_add_one", &[4]), 5);
}

#[test]
fn eval_add_nums() {
    let llvm = compiled(SOURCE).unwrap();
    assert_eq!(Machine::run(&llvm, "eval_add_nums", &[1, 1]), 2);
    assert_eq!(Machine::run(&llvm, "eval_add_nums", &[3, 5]), 8);
}

#[test]
fn mul_and_add() {
    let llvm = compiled(SOURCE).unwrap();
    assert_eq!(Machine::run(&llvm, "mul_and_add", &[1, 1, 1, 1]), 2);
    assert_eq!(Machine::run(&llvm, "mul_and_add", &[3, 5, 7, 9]), 78);
}

#[test]
fn mul_and_add_one() {
    let llvm = compiled(SOURCE).unwrap();
    assert_eq!(Machine::run(&llvm, "mul_and_add_one", &[1, 1]), 2);
    assert_eq!(Machine::run(&llvm, "mul_and_add_one", &[3, 5]), 16);
}

#[test]
fn builtins_compute_what_their_names_say() {
    let llvm = compiled(
        "fn neg a = -a; fn sub_nums a b = a - b; fn div_nums a b = a / b;
         fn prec a b c = a - b * c / 2;
         ty (i64 -> i64) -> i64 -> i64 fn twice f a = f (f a);
         fn add_two a = twice (add 1) a;
         fn piped a = add 1 <| a;",
    )
    .unwrap();
    assert_eq!(Machine::run(&llvm, "neg", &[5]), -5);
    assert_eq!(Machine::run(&llvm, "sub_nums", &[3, 5]), -2);
    assert_eq!(Machine::run(&llvm, "div_nums", &[17, 5]), 3);
    assert_eq!(Machine::run(&llvm, "prec", &[10, 3, 4]), 4);
    assert_eq!(Machine::run(&llvm, "add_two", &[3]), 5);
    assert_eq!(Machine::run(&llvm, "piped", &[4]), 5);
}

#[test]
fn exported_symbols_are_present_once() {
    let llvm = compiled(SOURCE).unwrap();
    for (name, arity) in [("one", 0), ("add_one", 1), ("add_nums", 2), ("mul_and_add", 4)] {
        assert_eq!(function(&llvm, name).ty, exported_ty(arity));
        for rank in 0..=arity {
            let member = function(&llvm, &format!("{}..{}", name, rank));
            assert_eq!(member.ty, ptr_fn_ty());
            assert_eq!(member.blocks.len(), 1);
            assert!(member.verifies());
        }
        let beyond = format!("{}..{}", name, arity + 1);
        assert!(llvm.functions.iter().all(|f| f.name != beyond));
    }
}

#[test]
fn module_begins_with_the_runtime_and_the_builtins() {
    let llvm = compiled("").unwrap();
    let names: Vec<&str> = llvm.functions.iter().map(|f| f.name.as_str()).collect();
    assert_eq!(
        names,
        vec![
            "__new_fn_thunk",
            "__new_next_fn_thunk",
            "__new_val_thunk",
            "__call_thunk",
            "__debug_print",
            "add..2",
            "add..1",
            "add..0",
            "sub..2",
            "sub..1",
            "sub..0",
            "mul..2",
            "mul..1",
            "mul..0",
            "div..2",
            "div..1",
            "div..0",
            "negate..1",
            "negate..0",
            "pipelineL..2",
            "pipelineL..1",
            "pipelineL..0",
        ]
    );
    assert_eq!(
        function(&llvm, "__new_fn_thunk").ty,
        IrFnType { ret: IrType::Ptr, params: vec![IrType::Ptr, IrType::I64] }
    );
    assert_eq!(
        function(&llvm, "__new_next_fn_thunk").ty,
        IrFnType { ret: IrType::Ptr, params: vec![IrType::Ptr, IrType::Ptr, IrType::Ptr] }
    );
    assert_eq!(
        function(&llvm, "__new_val_thunk").ty,
        IrFnType { ret: IrType::Ptr, params: vec![IrType::I64] }
    );
    assert_eq!(function(&llvm, "__call_thunk").ty, ptr_fn_ty());
    assert_eq!(
        function(&llvm, "__debug_print").ty,
        IrFnType { ret: IrType::Void, params: vec![IrType::Ptr] }
    );
    assert!(function(&llvm, "__call_thunk").blocks.is_empty());
    assert_eq!(function(&llvm, "pipelineL..2").blocks.len(), 3);
    assert!(llvm.functions.iter().all(|f| f.blocks.is_empty() || f.verifies()));
}

#[test]
fn chain_member_hands_on_to_the_next() {
    let llvm = compiled("fn add_nums a b = a + b;").unwrap();
    let next = llvm.functions.iter().position(|f| f.name == "add_nums..1").unwrap();
    let new_next = llvm.functions.iter().position(|f| f.name == "__new_next_fn_thunk").unwrap();
    let index = llvm.functions.iter().position(|f| f.name == "add_nums..0").unwrap();
    let member = &llvm.functions[index];
    assert_eq!(member.blocks[0].name, "entry");
    assert_eq!(
        member.blocks[0].insts,
        vec![
            IrInst::Call {
                fn_ty: IrFnType { ret: IrType::Ptr, params: vec![IrType::Ptr; 3] },
                callee: IrValue::Function(new_next),
                args: vec![
                    IrValue::Param { func: index, index: 0 },
                    IrValue::Function(next),
                    IrValue::Param { func: index, index: 1 },
                ],
                name: "call".to_owned(),
            },
            IrInst::Ret(IrValue::Inst { func: index, block: 0, index: 0 }),
        ]
    );
}

#[test]
fn arguments_get_their_names() {
    let llvm = compiled("fn add_one a = a + 1;").unwrap();
    let terminal = llvm.functions.iter().position(|f| f.name == "add_one..1").unwrap();
    let exported = llvm.functions.iter().position(|f| f.name == "add_one").unwrap();
    let renamed: Vec<&(IrValue, String)> =
        llvm.value_names.iter().filter(|(_, name)| name == "add_one.a..0").collect();
    assert_eq!(
        renamed,
        vec![
            &(IrValue::Inst { func: terminal, block: 0, index: 3 }, "add_one.a..0".to_owned()),
            &(IrValue::Param { func: exported, index: 0 }, "add_one.a..0".to_owned()),
        ]
    );
    assert_eq!(
        llvm.get_named_value("add_one.a..0").unwrap(),
        IrValue::Param { func: exported, index: 0 }
    );
    assert_eq!(llvm.get_named_value("a"), Err(CodegenError::UnknownIdentifier));
}

#[test]
fn name_of_the_runtime_cannot_be_exported() {
    let r = compiled("fn __call_thunk a = a;");
    assert_eq!(r.err(), Some(CodegenError::FunctionRedefined));
}

#[test]
fn builder_reports_what_is_missing() {
    let mut llvm = LLVM::new("m");
    assert_eq!(llvm.module_id, "m");
    assert_eq!(llvm.build_ret(IrValue::Null), Err(CodegenError::NullPointer));
    assert_eq!(llvm.get_named_function("f"), Err(CodegenError::NullPointer));
    assert_eq!(call_call_thunk(&mut llvm, IrValue::Null, IrValue::Null), Err(CodegenError::NullPointer));
    let f = llvm.add_function("f", ptr_fn_ty()).unwrap();
    assert_eq!(f, IrValue::Function(0));
    assert_eq!(llvm.add_function("f", ptr_fn_ty()), Err(CodegenError::FunctionRedefined));
    assert_eq!(llvm.get_param(f, 1), Ok(IrValue::Param { func: 0, index: 1 }));
    assert_eq!(llvm.get_param(f, 2), Err(CodegenError::NullPointer));
    assert_eq!(llvm.count_basic_blocks(f), 0);
    assert!(llvm.verify_function(f));
    let block = llvm.append_basic_block(f, "entry").unwrap();
    assert_eq!(block, IrBlock { func: 0, block: 0 });
    assert!(!llvm.verify_function(f));
    llvm.position_builder_at_end(block);
    let sum = llvm.build_add(IrValue::ConstI64(1), IrValue::ConstI64(2), "sum").unwrap();
    assert_eq!(sum, IrValue::Inst { func: 0, block: 0, index: 0 });
    assert!(!llvm.verify_function(f));
    llvm.build_ret(sum).unwrap();
    assert!(llvm.verify_function(f));
    llvm.build_ret(sum).unwrap();
    assert!(!llvm.verify_function(f));
    assert_eq!(llvm.insert_named_value("x".to_owned(), sum), Ok(()));
    assert_eq!(
        llvm.insert_named_value("x".to_owned(), sum),
        Err(CodegenError::DuplicateIdentifier)
    );
    assert_eq!(llvm.get_named_value("x"), Ok(sum));
    llvm.clear_named_value();
    assert_eq!(llvm.get_named_value("x"), Err(CodegenError::UnknownIdentifier));
    llvm.delete_function(f);
    assert_eq!(llvm.get_named_function("f"), Err(CodegenError::NullPointer));
    assert_eq!(llvm.add_function("f", ptr_fn_ty()), Ok(IrValue::Function(1)));
    assert_eq!(CodegenError::InvalidFunction.message(), "Invalid function.");
}

#[test]
fn thunk_fields_are_read_in_the_order_of_the_abi() {
    let mut llvm = LLVM::new("m");
    let f = llvm.add_function("f", ptr_fn_ty()).unwrap();
    let block = llvm.append_basic_block(f, "entry").unwrap();
    llvm.position_builder_at_end(block);
    let thunk = llvm.get_param(f, 0).unwrap();
    eval_thunk_as_i64(&mut llvm, thunk).unwrap();
    build_thunk_arg_gep(&mut llvm, thunk, 7, "gep").unwrap();
    let at = |index: usize| IrValue::Inst { func: 0, block: 0, index };
    assert_eq!(
        llvm.functions[0].blocks[0].insts,
        vec![
            IrInst::Gep {
                ty: IrType::Thunk,
                ptr: thunk,
                indices: vec![IrValue::ConstI64(0), IrValue::ConstI32(2)],
                name: "gep".to_owned(),
            },
            IrInst::Load { ty: IrType::I64, ptr: at(0), name: "load".to_owned() },
            IrInst::Gep {
                ty: IrType::Thunk,
                ptr: thunk,
                indices: vec![IrValue::ConstI64(0), IrValue::ConstI32(3)],
                name: "gep".to_owned(),
            },
            IrInst::Load { ty: IrType::Ptr, ptr: at(2), name: "load".to_owned() },
            IrInst::Gep {
                ty: IrType::Ptr,
                ptr: at(3),
                indices: vec![IrValue::ConstI64(7)],
                name: "gep".to_owned(),
            },
            IrInst::Load { ty: IrType::Ptr, ptr: at(4), name: "load".to_owned() },
        ]
    );
}
