//! The code generator: from definitions with their slots filled to the functions of
//! the module.
//!
//! Every function of arity `n` becomes a chain of `n + 1` functions, one for each
//! member of its family, which pass thunks on from one to the next; the last of them
//! does the work of the body. A wrapper under the plain name of the function takes
//! all arguments at once and runs the chain.
//!
//! The `emit_*` functions say what each step makes of a module: the module
//! afterwards and the value or the error. The `gen_*` functions compute the same.

use vstd::prelude::*;
use vstd::string::*;
use crate::ast::{
    expr_typed,
    fn_def_typed,
    top_def_typed,
    ExprAst,
    ExprAstView,
    ExprEnum,
    ExprEnumView,
    FnAst,
    TopDefEnum,
    TopDefEnumView,
};
use crate::context::{SemContext, SemContextView};
use crate::fn_sem::{unranked_name, FnKey, FnSem, FnSemView};
use crate::llvm::{
    built,
    element_gep,
    find_function,
    function_verifies,
    has_function,
    keeps_functions,
    struct_gep,
    CodegenError,
    CodegenErrorView,
    IrBinOp,
    IrBlock,
    IrFnType,
    IrFnTypeView,
    IrInst,
    IrInstView,
    IrType,
    IrValue,
    LLVMView,
    LLVM,
};
use crate::qual_sem::{NameKeyView, QualKey, QualKeyView};
use crate::sem::{KeyEq, Replica, Sem, SemVal};
use crate::store::{StoreError, StoreErrorView};
use crate::text::{decimal_value, is_nat_literal, parse_nat_literal};

verus! {

/// What a step of the code generator makes of a module: the module afterwards, and
/// the value or the error.
pub struct Gen<T> {
    pub llvm: LLVMView,
    pub result: Result<T, CodegenErrorView>,
}

pub open spec fn ok<T>(llvm: LLVMView, value: T) -> Gen<T> {
    Gen { llvm, result: Ok(value) }
}

pub open spec fn fail<T>(llvm: LLVMView, e: CodegenErrorView) -> Gen<T> {
    Gen { llvm, result: Err(e) }
}

/// The step `first`, and where it gives a value, the step `next` on its module and
/// its value.
pub open spec fn and_then<T, U>(first: Gen<T>, next: spec_fn(LLVMView, T) -> Gen<U>) -> Gen<U> {
    match first.result {
        Ok(value) => next(first.llvm, value),
        Err(e) => fail(first.llvm, e),
    }
}

/// The outcome of a `gen_*` function as a step.
pub open spec fn gen_of<T: DeepView>(llvm: LLVMView, r: Result<T, CodegenError>) -> Gen<T::V> {
    Gen {
        llvm,
        result: match r {
            Ok(value) => Ok(value.deep_view()),
            Err(e) => Err(e.deep_view()),
        },
    }
}

/// Appends `inst` where the builder stands.
pub open spec fn emit(llvm: LLVMView, inst: IrInstView) -> Gen<IrValue> {
    if llvm.can_build() {
        ok(llvm.with_inst(inst), llvm.next_value())
    } else {
        fail(llvm, CodegenErrorView::NullPointer)
    }
}

/// The function named `name`.
pub open spec fn named_function(llvm: LLVMView, name: Seq<char>) -> Gen<IrValue> {
    match find_function(llvm.functions, name) {
        Some(i) => ok(llvm, IrValue::Function(i as usize)),
        None => fail(llvm, CodegenErrorView::NullPointer),
    }
}

/// The parameter `index` of the function `fn_value`.
pub open spec fn param(llvm: LLVMView, fn_value: IrValue, index: usize) -> Gen<IrValue> {
    match fn_value {
        IrValue::Function(f) => if f < llvm.functions.len() && index
            < llvm.functions[f as int].ty.params.len() {
            ok(llvm, IrValue::Param { func: f, index })
        } else {
            fail(llvm, CodegenErrorView::NullPointer)
        },
        _ => fail(llvm, CodegenErrorView::NullPointer),
    }
}

/// Adds the declaration of the function `name`.
pub open spec fn declare(llvm: LLVMView, name: Seq<char>, ty: IrFnTypeView) -> Gen<IrValue> {
    if find_function(llvm.functions, name) is None {
        ok(llvm.with_function(name, ty), IrValue::Function(llvm.functions.len() as usize))
    } else {
        fail(llvm, CodegenErrorView::FunctionRedefined)
    }
}

/// Binds `value` to `name`.
pub open spec fn bind(llvm: LLVMView, name: Seq<char>, value: IrValue) -> Gen<()> {
    if llvm.named_values.contains_key(name) {
        fail(llvm, CodegenErrorView::DuplicateIdentifier)
    } else {
        ok(LLVMView { named_values: llvm.named_values.insert(name, value), ..llvm }, ())
    }
}

/// The module in which the value `value` has the name `name`.
pub open spec fn renamed(llvm: LLVMView, value: IrValue, name: Seq<char>) -> LLVMView {
    LLVMView { value_names: llvm.value_names.push((value, name)), ..llvm }
}

/// The module in which no value is bound to a name.
pub open spec fn cleared(llvm: LLVMView) -> LLVMView {
    LLVMView { named_values: Map::empty(), ..llvm }
}

/// `(ptr, i64) -> ptr`, the type of `__new_fn_thunk`.
pub open spec fn new_fn_thunk_ty() -> IrFnTypeView {
    IrFnTypeView { ret: IrType::Ptr, params: seq![IrType::Ptr, IrType::I64] }
}

/// `(ptr, ptr, ptr) -> ptr`, the type of `__new_next_fn_thunk`.
pub open spec fn new_next_fn_thunk_ty() -> IrFnTypeView {
    IrFnTypeView { ret: IrType::Ptr, params: seq![IrType::Ptr, IrType::Ptr, IrType::Ptr] }
}

/// `(i64) -> ptr`, the type of `__new_val_thunk`.
pub open spec fn new_val_thunk_ty() -> IrFnTypeView {
    IrFnTypeView { ret: IrType::Ptr, params: seq![IrType::I64] }
}

/// `(ptr, ptr) -> ptr`, the type of `__call_thunk` and of every member of a family.
pub open spec fn call_thunk_ty() -> IrFnTypeView {
    IrFnTypeView { ret: IrType::Ptr, params: seq![IrType::Ptr, IrType::Ptr] }
}

/// `(ptr) -> void`, the type of `__debug_print`.
pub open spec fn debug_print_ty() -> IrFnTypeView {
    IrFnTypeView { ret: IrType::Void, params: seq![IrType::Ptr] }
}

/// `(ptr, ptr) -> ptr`, the type of every member of a family.
pub open spec fn fn_ty() -> IrFnTypeView {
    call_thunk_ty()
}

/// `(i64, ..., i64) -> i64` with `arity` arguments, the type of an exported function.
pub open spec fn exported_fn_ty(arity: nat) -> IrFnTypeView {
    IrFnTypeView { ret: IrType::I64, params: Seq::new(arity, |i: int| IrType::I64) }
}

/// The call of the function `name` of the runtime, of the type `ty`, with `args`.
pub open spec fn emit_runtime_call(
    llvm: LLVMView,
    name: Seq<char>,
    ty: IrFnTypeView,
    args: Seq<IrValue>,
    label: Seq<char>,
) -> Gen<IrValue> {
    match find_function(llvm.functions, name) {
        Some(i) => emit(
            llvm,
            IrInstView::Call { fn_ty: ty, callee: IrValue::Function(i as usize), args, name: label },
        ),
        None => fail(llvm, CodegenErrorView::NullPointer),
    }
}

/// `__new_fn_thunk(fn_ptr, arity)`: a thunk for a function to which nothing is applied.
pub open spec fn emit_new_fn_thunk(llvm: LLVMView, fn_ptr: IrValue, arity: IrValue) -> Gen<IrValue> {
    emit_runtime_call(llvm, "__new_fn_thunk"@, new_fn_thunk_ty(), seq![fn_ptr, arity], "call"@)
}

/// `__new_next_fn_thunk(thunk, fn_ptr, arg)`: the thunk after one more argument.
pub open spec fn emit_new_next_fn_thunk(
    llvm: LLVMView,
    thunk: IrValue,
    fn_ptr: IrValue,
    arg: IrValue,
) -> Gen<IrValue> {
    emit_runtime_call(
        llvm,
        "__new_next_fn_thunk"@,
        new_next_fn_thunk_ty(),
        seq![thunk, fn_ptr, arg],
        "call"@,
    )
}

/// `__new_val_thunk(val)`: a thunk that holds a value.
pub open spec fn emit_new_val_thunk(llvm: LLVMView, val: IrValue) -> Gen<IrValue> {
    emit_runtime_call(llvm, "__new_val_thunk"@, new_val_thunk_ty(), seq![val], "call"@)
}

/// `__call_thunk(thunk, arg)`: applies a thunk to an argument, or forces it where the
/// argument is null.
pub open spec fn emit_call_thunk(llvm: LLVMView, thunk: IrValue, arg: IrValue) -> Gen<IrValue> {
    emit_runtime_call(llvm, "__call_thunk"@, call_thunk_ty(), seq![thunk, arg], "call"@)
}

/// `__debug_print(thunk)`.
pub open spec fn emit_debug_print(llvm: LLVMView, thunk: IrValue) -> Gen<IrValue> {
    emit_runtime_call(llvm, "__debug_print"@, debug_print_ty(), seq![thunk], ""@)
}

/// Reads the value of a value thunk: the field 2 of its record, as an `i64`.
pub open spec fn emit_eval_thunk_as_i64(llvm: LLVMView, thunk: IrValue) -> Gen<IrValue> {
    and_then(
        emit(llvm, struct_gep(IrType::Thunk, thunk, 2, "gep"@)),
        |l: LLVMView, gep: IrValue|
            emit(l, IrInstView::Load { ty: IrType::I64, ptr: gep, name: "load"@ }),
    )
}

/// The name by which the module knows the function symbol `f`.
pub open spec fn fn_name(f: FnSemView) -> Seq<char> {
    f.to_key().logical_name()
}

/// The name of the family of the function symbol with the key `key`.
pub open spec fn family_key(key: NameKeyView) -> NameKeyView {
    NameKeyView { qual: key.qual, name: unranked_name(key.name) }
}

/// A name in an expression, which denotes `f`. An integer literal becomes a value
/// thunk. A name that is bound, as the arguments are, becomes the value it is bound
/// to. The name of a function becomes a thunk for the function, which is forced at
/// once where the function takes no arguments.
pub open spec fn emit_ident(llvm: LLVMView, f: FnSemView) -> Gen<IrValue> {
    let name = fn_name(f);
    let literal = family_key(f.to_key()).logical_name();
    if is_nat_literal(literal) {
        emit_new_val_thunk(llvm, IrValue::ConstI64(decimal_value(literal) as i64))
    } else if llvm.named_values.contains_key(name) {
        ok(llvm, llvm.named_values[name])
    } else {
        match find_function(llvm.functions, name) {
            Some(i) => and_then(
                emit_new_fn_thunk(
                    llvm,
                    IrValue::Function(i as usize),
                    IrValue::ConstI64(f.ty.arity() as i64),
                ),
                |l: LLVMView, thunk: IrValue|
                    if f.ty.arity() == 0 {
                        emit_call_thunk(l, thunk, IrValue::Null)
                    } else {
                        ok(l, thunk)
                    },
            ),
            None => fail(llvm, CodegenErrorView::UnknownIdentifier),
        }
    }
}

/// The application of the thunk `fn_thunk` to `arg_thunk`, which denotes `f`: the
/// result is forced where `f` is the last member of its family.
pub open spec fn emit_apply(llvm: LLVMView, fn_thunk: IrValue, arg_thunk: IrValue, f: FnSemView) -> Gen<
    IrValue,
> {
    and_then(
        emit_call_thunk(llvm, fn_thunk, arg_thunk),
        |l: LLVMView, thunk: IrValue|
            if f.ty.arity() == 0 {
                emit_call_thunk(l, thunk, IrValue::Null)
            } else {
                ok(l, thunk)
            },
    )
}

/// An expression: the thunk that stands for its value.
pub open spec fn emit_expr(llvm: LLVMView, e: ExprAstView) -> Gen<IrValue>
    decreases e,
{
    match e.expr_enum {
        ExprEnumView::Ident(_) => emit_ident(llvm, e.fn_sem->Some_0),
        ExprEnumView::Fn(f) => {
            let fn_thunk = emit_expr(llvm, *f.fn_expr);
            match fn_thunk.result {
                Err(err) => fail(fn_thunk.llvm, err),
                Ok(fn_value) => {
                    let arg_thunk = emit_expr(fn_thunk.llvm, *f.arg_expr);
                    match arg_thunk.result {
                        Err(err) => fail(arg_thunk.llvm, err),
                        Ok(arg_value) => emit_apply(
                            arg_thunk.llvm,
                            fn_value,
                            arg_value,
                            e.fn_sem->Some_0,
                        ),
                    }
                },
            }
        },
    }
}

fn new_fn_thunk_ty_of() -> (ty: IrFnType)
    ensures
        ty.deep_view() == new_fn_thunk_ty(),
{
    let ptr_ty = LLVM::pointer_type();
    let i64_ty = LLVM::i64_type();
    let mut params: Vec<IrType> = Vec::new();
    params.push(ptr_ty);
    params.push(i64_ty);
    assert(params.deep_view() =~= seq![IrType::Ptr, IrType::I64]);
    LLVM::function_type(ptr_ty, params)
}

fn new_next_fn_thunk_ty_of() -> (ty: IrFnType)
    ensures
        ty.deep_view() == new_next_fn_thunk_ty(),
{
    let ptr_ty = LLVM::pointer_type();
    let mut params: Vec<IrType> = Vec::new();
    params.push(ptr_ty);
    params.push(ptr_ty);
    params.push(ptr_ty);
    assert(params.deep_view() =~= seq![IrType::Ptr, IrType::Ptr, IrType::Ptr]);
    LLVM::function_type(ptr_ty, params)
}

fn new_val_thunk_ty_of() -> (ty: IrFnType)
    ensures
        ty.deep_view() == new_val_thunk_ty(),
{
    let ptr_ty = LLVM::pointer_type();
    let i64_ty = LLVM::i64_type();
    let mut params: Vec<IrType> = Vec::new();
    params.push(i64_ty);
    assert(params.deep_view() =~= seq![IrType::I64]);
    LLVM::function_type(ptr_ty, params)
}

fn call_thunk_ty_of() -> (ty: IrFnType)
    ensures
        ty.deep_view() == call_thunk_ty(),
{
    let ptr_ty = LLVM::pointer_type();
    let mut params: Vec<IrType> = Vec::new();
    params.push(ptr_ty);
    params.push(ptr_ty);
    assert(params.deep_view() =~= seq![IrType::Ptr, IrType::Ptr]);
    LLVM::function_type(ptr_ty, params)
}

fn debug_print_ty_of() -> (ty: IrFnType)
    ensures
        ty.deep_view() == debug_print_ty(),
{
    let void_ty = LLVM::void_type();
    let ptr_ty = LLVM::pointer_type();
    let mut params: Vec<IrType> = Vec::new();
    params.push(ptr_ty);
    assert(params.deep_view() =~= seq![IrType::Ptr]);
    LLVM::function_type(void_ty, params)
}

fn fn_ty_of() -> (ty: IrFnType)
    ensures
        ty.deep_view() == fn_ty(),
{
    call_thunk_ty_of()
}

fn exported_fn_ty_of(arity: usize) -> (ty: IrFnType)
    ensures
        ty.deep_view() == exported_fn_ty(arity as nat),
{
    let i64_ty = LLVM::i64_type();
    let mut params: Vec<IrType> = Vec::new();
    let mut i: usize = 0;
    while i < arity
        invariant
            i <= arity,
            i64_ty == IrType::I64,
            params.len() == i,
            forall|j: int| 0 <= j < i ==> params@[j] == IrType::I64,
        decreases arity - i,
    {
        params.push(i64_ty);
        i += 1;
    }
    assert(params.deep_view() =~= Seq::new(arity as nat, |i: int| IrType::I64));
    LLVM::function_type(i64_ty, params)
}

/// Builds the call of the function `name` of the runtime.
#[verifier::rlimit(80)]
fn call_runtime(llvm: &mut LLVM, name: &str, ty: IrFnType, args: Vec<IrValue>, label: &str) -> (r:
    Result<IrValue, CodegenError>)
    requires
        old(llvm).wf(),
    ensures
        final(llvm).wf(),
        keeps_functions(old(llvm).deep_view(), final(llvm).deep_view()),
        gen_of(final(llvm).deep_view(), r) == emit_runtime_call(
            old(llvm).deep_view(),
            name@,
            ty.deep_view(),
            args.deep_view(),
            label@,
        ),
{
    let f = llvm.get_named_function(name)?;
    llvm.build_call(ty, f, args, label)
}

pub fn call_new_fn_thunk(llvm: &mut LLVM, fn_ptr: IrValue, arity: IrValue) -> (r: Result<
    IrValue,
    CodegenError,
>)
    requires
        old(llvm).wf(),
    ensures
        final(llvm).wf(),
        keeps_functions(old(llvm).deep_view(), final(llvm).deep_view()),
        gen_of(final(llvm).deep_view(), r) == emit_new_fn_thunk(old(llvm).deep_view(), fn_ptr, arity),
{
    let mut args: Vec<IrValue> = Vec::new();
    args.push(fn_ptr);
    args.push(arity);
    assert(args.deep_view() =~= seq![fn_ptr, arity]);
    call_runtime(llvm, "__new_fn_thunk", new_fn_thunk_ty_of(), args, "call")
}

pub fn call_new_next_fn_thunk(llvm: &mut LLVM, thunk: IrValue, fn_ptr: IrValue, arg: IrValue) -> (r:
    Result<IrValue, CodegenError>)
    requires
        old(llvm).wf(),
    ensures
        final(llvm).wf(),
        keeps_functions(old(llvm).deep_view(), final(llvm).deep_view()),
        gen_of(final(llvm).deep_view(), r) == emit_new_next_fn_thunk(
            old(llvm).deep_view(),
            thunk,
            fn_ptr,
            arg,
        ),
{
    let mut args: Vec<IrValue> = Vec::new();
    args.push(thunk);
    args.push(fn_ptr);
    args.push(arg);
    assert(args.deep_view() =~= seq![thunk, fn_ptr, arg]);
    call_runtime(llvm, "__new_next_fn_thunk", new_next_fn_thunk_ty_of(), args, "call")
}

pub fn call_new_val_thunk(llvm: &mut LLVM, val: IrValue) -> (r: Result<IrValue, CodegenError>)
    requires
        old(llvm).wf(),
    ensures
        final(llvm).wf(),
        keeps_functions(old(llvm).deep_view(), final(llvm).deep_view()),
        gen_of(final(llvm).deep_view(), r) == emit_new_val_thunk(old(llvm).deep_view(), val),
{
    let mut args: Vec<IrValue> = Vec::new();
    args.push(val);
    assert(args.deep_view() =~= seq![val]);
    call_runtime(llvm, "__new_val_thunk", new_val_thunk_ty_of(), args, "call")
}

pub fn call_call_thunk(llvm: &mut LLVM, thunk: IrValue, arg: IrValue) -> (r: Result<
    IrValue,
    CodegenError,
>)
    requires
        old(llvm).wf(),
    ensures
        final(llvm).wf(),
        keeps_functions(old(llvm).deep_view(), final(llvm).deep_view()),
        gen_of(final(llvm).deep_view(), r) == emit_call_thunk(old(llvm).deep_view(), thunk, arg),
{
    let mut args: Vec<IrValue> = Vec::new();
    args.push(thunk);
    args.push(arg);
    assert(args.deep_view() =~= seq![thunk, arg]);
    call_runtime(llvm, "__call_thunk", call_thunk_ty_of(), args, "call")
}

pub fn call_debug_print(llvm: &mut LLVM, thunk: IrValue) -> (r: Result<IrValue, CodegenError>)
    requires
        old(llvm).wf(),
    ensures
        final(llvm).wf(),
        keeps_functions(old(llvm).deep_view(), final(llvm).deep_view()),
        gen_of(final(llvm).deep_view(), r) == emit_debug_print(old(llvm).deep_view(), thunk),
{
    let mut args: Vec<IrValue> = Vec::new();
    args.push(thunk);
    assert(args.deep_view() =~= seq![thunk]);
    call_runtime(llvm, "__debug_print", debug_print_ty_of(), args, "")
}

pub fn eval_thunk_as_i64(llvm: &mut LLVM, thunk: IrValue) -> (r: Result<IrValue, CodegenError>)
    requires
        old(llvm).wf(),
    ensures
        final(llvm).wf(),
        keeps_functions(old(llvm).deep_view(), final(llvm).deep_view()),
        gen_of(final(llvm).deep_view(), r) == emit_eval_thunk_as_i64(old(llvm).deep_view(), thunk),
{
    let thunk_ty = LLVM::thunk_type();
    let i64_ty = LLVM::i64_type();
    let gep = llvm.build_struct_gep(thunk_ty, thunk, 2, "gep")?;
    llvm.build_load(i64_ty, gep, "load")
}

#[verifier::rlimit(80)]
fn gen_ident(llvm: &mut LLVM, f: &FnSem) -> (r: Result<IrValue, CodegenError>)
    requires
        old(llvm).wf(),
    ensures
        final(llvm).wf(),
        keeps_functions(old(llvm).deep_view(), final(llvm).deep_view()),
        gen_of(final(llvm).deep_view(), r) == emit_ident(old(llvm).deep_view(), f.deep_view()),
{
    let name = f.logical_name();
    let name_without_rank = f.to_key().without_rank().logical_name();
    if let Some(num) = parse_nat_literal(name_without_rank.as_str()) {
        let value = LLVM::const_i64(num);
        call_new_val_thunk(llvm, value)
    } else if let Ok(value) = llvm.get_named_value(name.as_str()) {
        Ok(value)
    } else if let Ok(value) = llvm.get_named_function(name.as_str()) {
        let arity = f.ty.arity();
        let arity_value = LLVM::const_i64(
            #[verifier::truncate]
            (arity as i64),
        );
        let thunk = call_new_fn_thunk(llvm, value, arity_value)?;
        if arity == 0 {
            let null = LLVM::const_null();
            call_call_thunk(llvm, thunk, null)
        } else {
            Ok(thunk)
        }
    } else {
        Err(CodegenError::UnknownIdentifier)
    }
}

#[verifier::rlimit(80)]
fn gen_fn(llvm: &mut LLVM, fn_ast: &FnAst, f: &FnSem) -> (r: Result<IrValue, CodegenError>)
    requires
        old(llvm).wf(),
        expr_typed(*fn_ast.deep_view().fn_expr),
        expr_typed(*fn_ast.deep_view().arg_expr),
    ensures
        final(llvm).wf(),
        keeps_functions(old(llvm).deep_view(), final(llvm).deep_view()),
        ({
            let fn_thunk = emit_expr(old(llvm).deep_view(), *fn_ast.deep_view().fn_expr);
            gen_of(final(llvm).deep_view(), r) == match fn_thunk.result {
                Err(err) => fail(fn_thunk.llvm, err),
                Ok(fn_value) => {
                    let arg_thunk = emit_expr(fn_thunk.llvm, *fn_ast.deep_view().arg_expr);
                    match arg_thunk.result {
                        Err(err) => fail(arg_thunk.llvm, err),
                        Ok(arg_value) => emit_apply(arg_thunk.llvm, fn_value, arg_value, f.deep_view()),
                    }
                },
            }
        }),
    decreases fn_ast,
{
    let fn_thunk = gen_expr(llvm, &*fn_ast.fn_expr)?;
    let arg_thunk = gen_expr(llvm, &*fn_ast.arg_expr)?;
    let thunk = call_call_thunk(llvm, fn_thunk, arg_thunk)?;
    if f.ty.arity() == 0 {
        let null = LLVM::const_null();
        call_call_thunk(llvm, thunk, null)
    } else {
        Ok(thunk)
    }
}

#[verifier::rlimit(80)]
fn gen_expr(llvm: &mut LLVM, expr_ast: &ExprAst) -> (r: Result<IrValue, CodegenError>)
    requires
        old(llvm).wf(),
        expr_typed(expr_ast.deep_view()),
    ensures
        final(llvm).wf(),
        keeps_functions(old(llvm).deep_view(), final(llvm).deep_view()),
        gen_of(final(llvm).deep_view(), r) == emit_expr(old(llvm).deep_view(), expr_ast.deep_view()),
    decreases expr_ast,
{
    let f = expr_ast.fn_sem.as_ref().unwrap();
    match &expr_ast.expr_enum {
        ExprEnum::Fn(fn_ast) => gen_fn(llvm, fn_ast, f),
        ExprEnum::Ident(_) => gen_ident(llvm, f),
    }
}

/// The number of blocks of the function `fn_value`.
pub open spec fn block_count(llvm: LLVMView, fn_value: IrValue) -> nat {
    match fn_value {
        IrValue::Function(f) => if f < llvm.functions.len() {
            llvm.functions[f as int].blocks.len()
        } else {
            0
        },
        _ => 0,
    }
}

/// Adds an empty block named `name` to the function `fn_value`.
pub open spec fn append_block(llvm: LLVMView, fn_value: IrValue, name: Seq<char>) -> Gen<IrBlock> {
    match fn_value {
        IrValue::Function(f) => if f < llvm.functions.len() {
            ok(
                llvm.with_block(f as int, name),
                IrBlock { func: f, block: llvm.functions[f as int].blocks.len() as usize },
            )
        } else {
            fail(llvm, CodegenErrorView::NullPointer)
        },
        _ => fail(llvm, CodegenErrorView::NullPointer),
    }
}

/// The module in which the builder stands at the end of `block`.
pub open spec fn positioned(llvm: LLVMView, block: IrBlock) -> LLVMView {
    LLVMView { position: Some(block), ..llvm }
}

/// The module in which the function `fn_value` is deleted.
pub open spec fn deleted(llvm: LLVMView, fn_value: IrValue) -> LLVMView {
    match fn_value {
        IrValue::Function(f) => if f < llvm.functions.len() {
            llvm.without_function(f as int)
        } else {
            llvm
        },
        _ => llvm,
    }
}

/// Whether the function `fn_value` verifies.
pub open spec fn verifies(llvm: LLVMView, fn_value: IrValue) -> bool {
    match fn_value {
        IrValue::Function(f) => f < llvm.functions.len() && function_verifies(
            llvm.functions[f as int],
        ),
        _ => false,
    }
}

/// Begins the body of the function `fn_value`, which must have none yet: a block
/// named `entry` is added, and the builder stands in it.
pub open spec fn emit_open_fn_block(llvm: LLVMView, fn_value: IrValue) -> Gen<()> {
    if block_count(llvm, fn_value) != 0 {
        fail(llvm, CodegenErrorView::FunctionRedefined)
    } else {
        and_then(
            append_block(llvm, fn_value, "entry"@),
            |l: LLVMView, block: IrBlock| ok(positioned(l, block), ()),
        )
    }
}

/// Ends the body of the function `fn_value`. The function stays where its body was
/// built without an error and it verifies; else it is deleted.
pub open spec fn emit_close_fn_block(body: Gen<()>, fn_value: IrValue) -> Gen<()> {
    match body.result {
        Ok(_) => if verifies(body.llvm, fn_value) {
            ok(body.llvm, ())
        } else {
            fail(deleted(body.llvm, fn_value), CodegenErrorView::InvalidFunction)
        },
        Err(e) => fail(deleted(body.llvm, fn_value), e),
    }
}

/// The body of the function `fn_value`, which `body` builds.
pub open spec fn emit_fn_block(
    llvm: LLVMView,
    fn_value: IrValue,
    body: spec_fn(LLVMView) -> Gen<()>,
) -> Gen<()> {
    let opened = emit_open_fn_block(llvm, fn_value);
    match opened.result {
        Ok(_) => emit_close_fn_block(body(opened.llvm), fn_value),
        Err(e) => fail(opened.llvm, e),
    }
}

/// The body of a member of a family that is not the last: the thunk for the next
/// member, with the argument in it, is made and returned.
pub open spec fn emit_chain_body(llvm: LLVMView, fn_value: IrValue, next_fn_value: IrValue) -> Gen<()> {
    and_then(
        param(cleared(llvm), fn_value, 0),
        |l1: LLVMView, thunk: IrValue|
            and_then(
                param(l1, fn_value, 1),
                |l2: LLVMView, arg_thunk: IrValue|
                    and_then(
                        emit_new_next_fn_thunk(l2, thunk, next_fn_value, arg_thunk),
                        |l3: LLVMView, next_thunk: IrValue|
                            and_then(
                                emit(l3, IrInstView::Ret(next_thunk)),
                                |l4: LLVMView, ret: IrValue| ok(l4, ()),
                            ),
                    ),
            ),
    )
}

/// Loads the argument `index` out of the thunk at which `ptr` points: the field 3 of
/// its record points to the arguments.
pub open spec fn emit_thunk_arg_gep(llvm: LLVMView, ptr: IrValue, index: usize, name: Seq<char>) -> Gen<
    IrValue,
> {
    and_then(
        emit(llvm, struct_gep(IrType::Thunk, ptr, 3, name)),
        |l1: LLVMView, gep: IrValue|
            and_then(
                emit(l1, IrInstView::Load { ty: IrType::Ptr, ptr: gep, name: "load"@ }),
                |l2: LLVMView, args: IrValue|
                    and_then(
                        emit(l2, element_gep(IrType::Ptr, args, index as i64, name)),
                        |l3: LLVMView, arg: IrValue|
                            emit(l3, IrInstView::Load { ty: IrType::Ptr, ptr: arg, name: "load"@ }),
                    ),
            ),
    )
}

/// Loads the arguments from the `i`-th to the `n`-th out of `thunk` and binds each to
/// its name.
pub open spec fn emit_bind_args(
    llvm: LLVMView,
    thunk: IrValue,
    arg_names: Seq<Seq<char>>,
    n: nat,
    i: nat,
) -> Gen<()>
    decreases n - i,
{
    if i >= n {
        ok(llvm, ())
    } else {
        let arg = emit_thunk_arg_gep(llvm, thunk, i as usize, "gep"@);
        match arg.result {
            Err(e) => fail(arg.llvm, e),
            Ok(value) => {
                let bound = bind(
                    renamed(arg.llvm, value, arg_names[i as int]),
                    arg_names[i as int],
                    value,
                );
                match bound.result {
                    Err(e) => fail(bound.llvm, e),
                    Ok(_) => emit_bind_args(bound.llvm, thunk, arg_names, n, i + 1),
                }
            },
        }
    }
}

/// The value that is bound to `name`.
pub open spec fn value_named(llvm: LLVMView, name: Seq<char>) -> Gen<IrValue> {
    if llvm.named_values.contains_key(name) {
        ok(llvm, llvm.named_values[name])
    } else {
        fail(llvm, CodegenErrorView::UnknownIdentifier)
    }
}

/// What the last member of a family does.
pub enum FnBody<'a> {
    /// The body of a definition.
    Expr(&'a ExprAst),
    /// The built-in function `name` of two arguments, which computes `op`.
    Arith(IrBinOp, &'a str),
    /// The built-in function `negate`.
    Negate,
    /// The built-in function `pipelineL`.
    LPipeline,
}

pub enum FnBodyView {
    Expr(ExprAstView),
    Arith(IrBinOp, Seq<char>),
    Negate,
    LPipeline,
}

impl<'a> DeepView for FnBody<'a> {
    type V = FnBodyView;

    open spec fn deep_view(&self) -> FnBodyView {
        match self {
            FnBody::Expr(e) => FnBodyView::Expr(e.deep_view()),
            FnBody::Arith(op, name) => FnBodyView::Arith(*op, name@),
            FnBody::Negate => FnBodyView::Negate,
            FnBody::LPipeline => FnBodyView::LPipeline,
        }
    }
}

/// The name of the left argument of the built-in function `name`.
pub open spec fn lhs_name(name: Seq<char>) -> Seq<char> {
    name + ".lhs"@
}

/// The name of the right argument of the built-in function `name`.
pub open spec fn rhs_name(name: Seq<char>) -> Seq<char> {
    name + ".rhs"@
}

/// The body of a built-in function of two arguments: both are read as `i64`, `op` is
/// computed, and the result becomes a value thunk.
pub open spec fn emit_arith_body(llvm: LLVMView, op: IrBinOp, name: Seq<char>) -> Gen<IrValue> {
    and_then(
        value_named(llvm, lhs_name(name)),
        |l1: LLVMView, lhs_thunk: IrValue|
            and_then(
                emit_eval_thunk_as_i64(l1, lhs_thunk),
                |l2: LLVMView, lhs: IrValue|
                    and_then(
                        value_named(l2, rhs_name(name)),
                        |l3: LLVMView, rhs_thunk: IrValue|
                            and_then(
                                emit_eval_thunk_as_i64(l3, rhs_thunk),
                                |l4: LLVMView, rhs: IrValue|
                                    and_then(
                                        emit(l4, IrInstView::Binary { op, lhs, rhs, name }),
                                        |l5: LLVMView, arith: IrValue| emit_new_val_thunk(l5, arith),
                                    ),
                            ),
                    ),
            ),
    )
}

/// The body of `negate`: the argument is read as `i64` and negated, and the result
/// becomes a value thunk.
pub open spec fn emit_negate_body(llvm: LLVMView) -> Gen<IrValue> {
    and_then(
        value_named(llvm, rhs_name("negate"@)),
        |l1: LLVMView, rhs_thunk: IrValue|
            and_then(
                emit_eval_thunk_as_i64(l1, rhs_thunk),
                |l2: LLVMView, rhs: IrValue|
                    and_then(
                        emit(l2, IrInstView::Neg { value: rhs, name: "negate"@ }),
                        |l3: LLVMView, neg: IrValue| emit_new_val_thunk(l3, neg),
                    ),
            ),
    )
}

/// The test of `pipelineL` and its two ways: the thunk `call0` is forced where its
/// arity is its rank, and what is then in `call_ptr` is the result.
pub open spec fn emit_l_pipeline_branch(
    llvm: LLVMView,
    fn_value: IrValue,
    call0: IrValue,
    call_ptr: IrValue,
    eq: IrValue,
) -> Gen<IrValue> {
    and_then(
        append_block(llvm, fn_value, "then"@),
        |l1: LLVMView, then_part: IrBlock|
            and_then(
                append_block(l1, fn_value, "else"@),
                |l2: LLVMView, else_part: IrBlock|
                    and_then(
                        emit(
                            l2,
                            IrInstView::CondBr {
                                cond: eq,
                                then_block: then_part,
                                else_block: else_part,
                            },
                        ),
                        |l3: LLVMView, br: IrValue|
                            and_then(
                                emit_call_thunk(positioned(l3, then_part), call0, IrValue::Null),
                                |l4: LLVMView, call: IrValue|
                                    and_then(
                                        emit(l4, IrInstView::Store { value: call, ptr: call_ptr }),
                                        |l5: LLVMView, store: IrValue|
                                            and_then(
                                                emit(l5, IrInstView::Br(else_part)),
                                                |l6: LLVMView, br2: IrValue|
                                                    emit(
                                                        positioned(l6, else_part),
                                                        IrInstView::Load {
                                                            ty: IrType::Ptr,
                                                            ptr: call_ptr,
                                                            name: "load"@,
                                                        },
                                                    ),
                                            ),
                                    ),
                            ),
                    ),
            ),
    )
}

/// Reads the arity and the rank of the thunk `call0` and compares them.
pub open spec fn emit_saturated(llvm: LLVMView, call0: IrValue) -> Gen<IrValue> {
    and_then(
        emit(llvm, struct_gep(IrType::Thunk, call0, 1, "gep"@)),
        |l1: LLVMView, arity_ptr: IrValue|
            and_then(
                emit(l1, IrInstView::Load { ty: IrType::I64, ptr: arity_ptr, name: "load"@ }),
                |l2: LLVMView, arity: IrValue|
                    and_then(
                        emit(l2, struct_gep(IrType::Thunk, call0, 2, "gep"@)),
                        |l3: LLVMView, rank_ptr: IrValue|
                            and_then(
                                emit(
                                    l3,
                                    IrInstView::Load {
                                        ty: IrType::I64,
                                        ptr: rank_ptr,
                                        name: "load"@,
                                    },
                                ),
                                |l4: LLVMView, rank: IrValue|
                                    emit(
                                        l4,
                                        IrInstView::Binary {
                                            op: IrBinOp::Eq,
                                            lhs: arity,
                                            rhs: rank,
                                            name: "eq"@,
                                        },
                                    ),
                            ),
                    ),
            ),
    )
}

/// The body of `pipelineL`: the left argument is applied to the right one; the
/// result is forced where it is saturated and returned as it is where it is not.
pub open spec fn emit_l_pipeline_body(llvm: LLVMView, fn_value: IrValue) -> Gen<IrValue> {
    and_then(
        value_named(llvm, lhs_name("pipelineL"@)),
        |l1: LLVMView, lhs_thunk: IrValue|
            and_then(
                value_named(l1, rhs_name("pipelineL"@)),
                |l2: LLVMView, rhs_thunk: IrValue|
                    and_then(
                        emit_call_thunk(l2, lhs_thunk, rhs_thunk),
                        |l3: LLVMView, call0: IrValue|
                            and_then(
                                emit(l3, IrInstView::Alloca { ty: IrType::Ptr, name: "alloca"@ }),
                                |l4: LLVMView, call_ptr: IrValue|
                                    and_then(
                                        emit(l4, IrInstView::Store { value: call0, ptr: call_ptr }),
                                        |l5: LLVMView, store: IrValue|
                                            and_then(
                                                emit_saturated(l5, call0),
                                                |l6: LLVMView, eq: IrValue|
                                                    emit_l_pipeline_branch(
                                                        l6,
                                                        fn_value,
                                                        call0,
                                                        call_ptr,
                                                        eq,
                                                    ),
                                            ),
                                    ),
                            ),
                    ),
            ),
    )
}

/// The value that the last member of a family returns.
pub open spec fn emit_body(llvm: LLVMView, body: FnBodyView, fn_value: IrValue) -> Gen<IrValue> {
    match body {
        FnBodyView::Expr(e) => emit_expr(llvm, e),
        FnBodyView::Arith(op, name) => emit_arith_body(llvm, op, name),
        FnBodyView::Negate => emit_negate_body(llvm),
        FnBodyView::LPipeline => emit_l_pipeline_body(llvm, fn_value),
    }
}

/// The body of the last member of a family: the arguments are loaded out of the
/// thunk and bound to their names, and what `body` gives is returned.
pub open spec fn emit_terminal_body(
    llvm: LLVMView,
    fn_value: IrValue,
    arg_names: Seq<Seq<char>>,
    arity: nat,
    body: FnBodyView,
) -> Gen<()> {
    and_then(
        param(cleared(llvm), fn_value, 0),
        |l1: LLVMView, thunk: IrValue|
            and_then(
                emit_bind_args(l1, thunk, arg_names, arity, 0),
                |l2: LLVMView, unit: ()|
                    and_then(
                        emit_body(l2, body, fn_value),
                        |l3: LLVMView, value: IrValue|
                            and_then(
                                emit(l3, IrInstView::Ret(value)),
                                |l4: LLVMView, ret: IrValue| ok(l4, ()),
                            ),
                    ),
            ),
    )
}

/// The member `i` of `family`, which is not the last: it is declared, and its body
/// leads to the member behind it.
pub open spec fn emit_chain_member(llvm: LLVMView, family: Seq<FnSemView>, i: int) -> Gen<()> {
    and_then(
        declare(llvm, fn_name(family[i]), fn_ty()),
        |l1: LLVMView, fn_value: IrValue|
            and_then(
                named_function(l1, fn_name(family[i + 1])),
                |l2: LLVMView, next_fn_value: IrValue|
                    emit_fn_block(
                        l2,
                        fn_value,
                        |l3: LLVMView| emit_chain_body(l3, fn_value, next_fn_value),
                    ),
            ),
    )
}

/// The members of `family` from `i` down to the first.
pub open spec fn emit_chain(llvm: LLVMView, family: Seq<FnSemView>, i: int) -> Gen<()>
    decreases i + 1,
{
    if i < 0 {
        ok(llvm, ())
    } else {
        let member = emit_chain_member(llvm, family, i);
        match member.result {
            Err(e) => fail(member.llvm, e),
            Ok(_) => emit_chain(member.llvm, family, i - 1),
        }
    }
}

/// The functions of `family`: the last member is declared first, the others follow
/// from the last but one down to the first, and the body of the last member, which
/// does the work, is built at the end.
pub open spec fn emit_family(
    llvm: LLVMView,
    family: Seq<FnSemView>,
    arg_names: Seq<Seq<char>>,
    body: FnBodyView,
) -> Gen<()> {
    if arg_names.len() < family.last().arity {
        fail(llvm, CodegenErrorView::ArgCountMismatch)
    } else {
        and_then(
            declare(llvm, fn_name(family.last()), fn_ty()),
            |l1: LLVMView, fn_value: IrValue|
                and_then(
                    emit_chain(l1, family, family.len() - 2),
                    |l2: LLVMView, unit: ()|
                        emit_fn_block(
                            l2,
                            fn_value,
                            |l3: LLVMView|
                                emit_terminal_body(
                                    l3,
                                    fn_value,
                                    arg_names,
                                    family.last().arity as nat,
                                    body,
                                ),
                        ),
                ),
        )
    }
}

/// The functions of the family to which the function symbol with the key `fn_key`
/// belongs.
pub open spec fn emit_fn_def(
    llvm: LLVMView,
    ctx: SemContextView,
    fn_key: NameKeyView,
    arg_names: Seq<Seq<char>>,
    body: FnBodyView,
) -> Gen<()> {
    let key = family_key(fn_key);
    if !ctx.ranked_fn_store.contains_key(key) {
        fail(llvm, CodegenErrorView::Store(StoreErrorView::NotFound(key.description())))
    } else {
        emit_family(llvm, ctx.ranked_fn_store[key], arg_names, body)
    }
}

/// Binds the parameters from the `i`-th to the `n`-th of the exported function
/// `fn_value` to their names.
pub open spec fn emit_bind_params(
    llvm: LLVMView,
    fn_value: IrValue,
    arg_names: Seq<Seq<char>>,
    n: nat,
    i: nat,
) -> Gen<()>
    decreases n - i,
{
    if i >= n {
        ok(llvm, ())
    } else {
        let arg = param(llvm, fn_value, i as usize);
        match arg.result {
            Err(e) => fail(arg.llvm, e),
            Ok(value) => {
                let bound = bind(
                    renamed(arg.llvm, value, arg_names[i as int]),
                    arg_names[i as int],
                    value,
                );
                match bound.result {
                    Err(e) => fail(bound.llvm, e),
                    Ok(_) => emit_bind_params(bound.llvm, fn_value, arg_names, n, i + 1),
                }
            },
        }
    }
}

/// Wraps the parameters from the `i`-th to the `n`-th of the exported function
/// `fn_value` into value thunks; `thunks` holds those of the parameters before.
pub open spec fn emit_val_thunks(
    llvm: LLVMView,
    fn_value: IrValue,
    n: nat,
    i: nat,
    thunks: Seq<IrValue>,
) -> Gen<Seq<IrValue>>
    decreases n - i,
{
    if i >= n {
        ok(llvm, thunks)
    } else {
        let arg = param(llvm, fn_value, i as usize);
        match arg.result {
            Err(e) => fail(arg.llvm, e),
            Ok(value) => {
                let thunk = emit_new_val_thunk(arg.llvm, value);
                match thunk.result {
                    Err(e) => fail(thunk.llvm, e),
                    Ok(t) => emit_val_thunks(thunk.llvm, fn_value, n, i + 1, thunks.push(t)),
                }
            },
        }
    }
}

/// Applies `thunk` to the arguments from the `i`-th on, one after the other.
pub open spec fn emit_calls(llvm: LLVMView, thunk: IrValue, args: Seq<IrValue>, i: nat) -> Gen<IrValue>
    decreases args.len() - i,
{
    if i >= args.len() {
        ok(llvm, thunk)
    } else {
        let call = emit_call_thunk(llvm, thunk, args[i as int]);
        match call.result {
            Err(e) => fail(call.llvm, e),
            Ok(next) => emit_calls(call.llvm, next, args, i + 1),
        }
    }
}

/// The body of the exported function `exported` of the function whose first member
/// is `fn_value`: the arguments become value thunks, a thunk for the function is
/// applied to them one by one and forced with a null argument at the end, and the
/// value of the thunk that comes out is returned.
pub open spec fn emit_exported_body(
    llvm: LLVMView,
    exported: IrValue,
    fn_value: IrValue,
    arg_names: Seq<Seq<char>>,
    arity: usize,
) -> Gen<()> {
    and_then(
        emit_bind_params(cleared(llvm), exported, arg_names, arity as nat, 0),
        |l1: LLVMView, unit: ()|
            and_then(
                emit_val_thunks(l1, exported, arity as nat, 0, Seq::empty()),
                |l2: LLVMView, thunks: Seq<IrValue>|
                    and_then(
                        emit_new_fn_thunk(l2, fn_value, IrValue::ConstI64(arity as i64)),
                        |l3: LLVMView, thunk: IrValue|
                            and_then(
                                emit_calls(l3, thunk, thunks.push(IrValue::Null), 0),
                                |l4: LLVMView, result: IrValue|
                                    and_then(
                                        emit_eval_thunk_as_i64(l4, result),
                                        |l5: LLVMView, value: IrValue|
                                            and_then(
                                                emit(l5, IrInstView::Ret(value)),
                                                |l6: LLVMView, ret: IrValue| ok(l6, ()),
                                            ),
                                    ),
                            ),
                    ),
            ),
    )
}

/// The exported function of the family to which the function symbol with the key
/// `fn_key` belongs: it has the plain name of the function and takes all arguments at
/// once, as `i64`.
pub open spec fn emit_exported_fn(
    llvm: LLVMView,
    ctx: SemContextView,
    fn_key: NameKeyView,
    arg_names: Seq<Seq<char>>,
) -> Gen<()> {
    let key = family_key(fn_key);
    if !ctx.ranked_fn_store.contains_key(key) {
        fail(llvm, CodegenErrorView::Store(StoreErrorView::NotFound(key.description())))
    } else {
        let f = ctx.ranked_fn_store[key][0];
        if arg_names.len() < f.arity {
            fail(llvm, CodegenErrorView::ArgCountMismatch)
        } else {
            and_then(
                named_function(llvm, fn_name(f)),
                |l1: LLVMView, fn_value: IrValue|
                    and_then(
                        declare(l1, key.logical_name(), exported_fn_ty(f.arity as nat)),
                        |l2: LLVMView, exported: IrValue|
                            emit_fn_block(
                                l2,
                                exported,
                                |l3: LLVMView|
                                    emit_exported_body(l3, exported, fn_value, arg_names, f.arity),
                            ),
                    ),
            )
        }
    }
}

/// The declarations of the functions of the runtime.
pub open spec fn emit_externals(llvm: LLVMView) -> Gen<()> {
    and_then(
        declare(llvm, "__new_fn_thunk"@, new_fn_thunk_ty()),
        |l1: LLVMView, f1: IrValue|
            and_then(
                declare(l1, "__new_next_fn_thunk"@, new_next_fn_thunk_ty()),
                |l2: LLVMView, f2: IrValue|
                    and_then(
                        declare(l2, "__new_val_thunk"@, new_val_thunk_ty()),
                        |l3: LLVMView, f3: IrValue|
                            and_then(
                                declare(l3, "__call_thunk"@, call_thunk_ty()),
                                |l4: LLVMView, f4: IrValue|
                                    and_then(
                                        declare(l4, "__debug_print"@, debug_print_ty()),
                                        |l5: LLVMView, f5: IrValue| ok(l5, ()),
                                    ),
                            ),
                    ),
            ),
    )
}

/// The key of the built-in function `name`.
pub open spec fn builtin_key(name: Seq<char>) -> NameKeyView {
    NameKeyView { qual: QualKeyView::top(), name }
}

/// The family of the built-in function `name` of two arguments, which computes `op`.
pub open spec fn emit_arith_def(llvm: LLVMView, ctx: SemContextView, name: Seq<char>, op: IrBinOp) -> Gen<
    (),
> {
    emit_fn_def(
        llvm,
        ctx,
        builtin_key(name),
        seq![lhs_name(name), rhs_name(name)],
        FnBodyView::Arith(op, name),
    )
}

/// The family of `negate`.
pub open spec fn emit_negate_def(llvm: LLVMView, ctx: SemContextView) -> Gen<()> {
    emit_fn_def(
        llvm,
        ctx,
        builtin_key("negate"@),
        seq![rhs_name("negate"@)],
        FnBodyView::Negate,
    )
}

/// The family of `pipelineL`.
pub open spec fn emit_l_pipeline_def(llvm: LLVMView, ctx: SemContextView) -> Gen<()> {
    emit_fn_def(
        llvm,
        ctx,
        builtin_key("pipelineL"@),
        seq![lhs_name("pipelineL"@), rhs_name("pipelineL"@)],
        FnBodyView::LPipeline,
    )
}

/// What every module begins with: the declarations of the runtime and the families
/// of the built-in functions.
pub open spec fn emit_init(llvm: LLVMView, ctx: SemContextView) -> Gen<()> {
    and_then(
        emit_externals(llvm),
        |l1: LLVMView, u1: ()|
            and_then(
                emit_arith_def(l1, ctx, "add"@, IrBinOp::Add),
                |l2: LLVMView, u2: ()|
                    and_then(
                        emit_arith_def(l2, ctx, "sub"@, IrBinOp::Sub),
                        |l3: LLVMView, u3: ()|
                            and_then(
                                emit_arith_def(l3, ctx, "mul"@, IrBinOp::Mul),
                                |l4: LLVMView, u4: ()|
                                    and_then(
                                        emit_arith_def(l4, ctx, "div"@, IrBinOp::Div),
                                        |l5: LLVMView, u5: ()|
                                            and_then(
                                                emit_negate_def(l5, ctx),
                                                |l6: LLVMView, u6: ()| emit_l_pipeline_def(l6, ctx),
                                            ),
                                    ),
                            ),
                    ),
            ),
    )
}

/// The names that the module uses for the arguments `arg_sems`.
pub open spec fn arg_names_of(arg_sems: Seq<FnSemView>) -> Seq<Seq<char>> {
    Seq::new(arg_sems.len(), |i: int| fn_name(arg_sems[i]))
}

/// A definition: the functions of its family, and its exported function.
pub open spec fn emit_top_def(llvm: LLVMView, ctx: SemContextView, d: TopDefEnumView) -> Gen<()> {
    let fn_def = d->Fn_0;
    let arg_names = arg_names_of(fn_def.arg_sems->Some_0);
    and_then(
        emit_fn_def(llvm, ctx, fn_def.fn_key->Some_0, arg_names, FnBodyView::Expr(fn_def.expr)),
        |l: LLVMView, unit: ()| emit_exported_fn(l, ctx, fn_def.fn_key->Some_0, arg_names),
    )
}

/// The definitions from the `i`-th on, in their order, up to the first that fails.
pub open spec fn emit_defs(llvm: LLVMView, ctx: SemContextView, defs: Seq<TopDefEnumView>, i: nat) -> Gen<
    (),
>
    decreases defs.len() - i,
{
    if i >= defs.len() {
        ok(llvm, ())
    } else {
        let def = emit_top_def(llvm, ctx, defs[i as int]);
        match def.result {
            Err(e) => fail(def.llvm, e),
            Ok(_) => emit_defs(def.llvm, ctx, defs, i + 1),
        }
    }
}

/// The whole module: what every module begins with, and the definitions.
pub open spec fn emit_module(llvm: LLVMView, ctx: SemContextView, defs: Seq<TopDefEnumView>) -> Gen<()> {
    and_then(emit_init(llvm, ctx), |l: LLVMView, unit: ()| emit_defs(l, ctx, defs, 0))
}

/// The module holds what belongs to the definition `d`: one function with the plain
/// name of the function, which takes as many `i64` as the function has arguments and
/// gives an `i64`, and for each member of the family one function with the name of
/// the member, which takes two pointers and gives one.
pub open spec fn def_emitted(llvm: LLVMView, ctx: SemContextView, d: TopDefEnumView) -> bool {
    let key = family_key(d->Fn_0.fn_key->Some_0);
    let family = ctx.ranked_fn_store[key];
    &&& ctx.ranked_fn_store.contains_key(key)
    &&& has_function(llvm, key.logical_name(), exported_fn_ty(family[0].arity as nat))
    &&& crate::llvm::count_functions(llvm.functions, key.logical_name()) == 1
    &&& forall|k: int|
        0 <= k < family.len() ==> has_function(llvm, #[trigger] fn_name(family[k]), fn_ty())
            && crate::llvm::count_functions(llvm.functions, fn_name(family[k])) == 1
}

/// Every expression in the body has its function symbol.
pub open spec fn body_typed(body: FnBodyView) -> bool {
    body matches FnBodyView::Expr(e) ==> expr_typed(e)
}

fn add_fn(llvm: &mut LLVM, name: &str) -> (r: Result<IrValue, CodegenError>)
    requires
        old(llvm).wf(),
    ensures
        final(llvm).wf(),
        keeps_functions(old(llvm).deep_view(), final(llvm).deep_view()),
        gen_of(final(llvm).deep_view(), r) == declare(old(llvm).deep_view(), name@, fn_ty()),
        r is Ok ==> has_function(final(llvm).deep_view(), name@, fn_ty()),
{
    let ty = fn_ty_of();
    let r = llvm.add_function(name, ty);
    proof {
        if r is Ok {
            let i = old(llvm).deep_view().functions.len() as int;
            assert(llvm.deep_view().functions[i].name == name@);
        }
    }
    r
}

fn add_exported_fn(llvm: &mut LLVM, name: &str, arity: usize) -> (r: Result<IrValue, CodegenError>)
    requires
        old(llvm).wf(),
    ensures
        final(llvm).wf(),
        keeps_functions(old(llvm).deep_view(), final(llvm).deep_view()),
        gen_of(final(llvm).deep_view(), r) == declare(
            old(llvm).deep_view(),
            name@,
            exported_fn_ty(arity as nat),
        ),
        r is Ok ==> has_function(final(llvm).deep_view(), name@, exported_fn_ty(arity as nat)),
{
    let ty = exported_fn_ty_of(arity);
    let r = llvm.add_function(name, ty);
    proof {
        if r is Ok {
            let i = old(llvm).deep_view().functions.len() as int;
            assert(llvm.deep_view().functions[i].name == name@);
        }
    }
    r
}

/// Begins the body of the function `fn_value`.
#[verifier::rlimit(80)]
fn open_fn_block(llvm: &mut LLVM, fn_value: IrValue) -> (r: Result<(), CodegenError>)
    requires
        old(llvm).wf(),
    ensures
        final(llvm).wf(),
        keeps_functions(old(llvm).deep_view(), final(llvm).deep_view()),
        gen_of(final(llvm).deep_view(), r) == emit_open_fn_block(old(llvm).deep_view(), fn_value),
{
    let block_count = llvm.count_basic_blocks(fn_value);
    if block_count != 0 {
        return Err(CodegenError::FunctionRedefined);
    }
    let block = llvm.append_basic_block(fn_value, "entry")?;
    llvm.position_builder_at_end(block);
    Ok(())
}

/// Ends the body of the function `fn_value`, whose building ended in `body`.
#[verifier::rlimit(80)]
fn close_fn_block(llvm: &mut LLVM, fn_value: IrValue, body: Result<(), CodegenError>) -> (r: Result<
    (),
    CodegenError,
>)
    requires
        old(llvm).wf(),
    ensures
        final(llvm).wf(),
        r is Ok ==> keeps_functions(old(llvm).deep_view(), final(llvm).deep_view()),
        gen_of(final(llvm).deep_view(), r) == emit_close_fn_block(
            gen_of(old(llvm).deep_view(), body),
            fn_value,
        ),
{
    match body {
        Ok(_) => {
            if llvm.verify_function(fn_value) {
                Ok(())
            } else {
                llvm.delete_function(fn_value);
                Err(CodegenError::InvalidFunction)
            }
        },
        Err(e) => {
            llvm.delete_function(fn_value);
            Err(e)
        },
    }
}

#[verifier::rlimit(80)]
fn gen_chain_body(llvm: &mut LLVM, fn_value: IrValue, next_fn_value: IrValue) -> (r: Result<
    (),
    CodegenError,
>)
    requires
        old(llvm).wf(),
    ensures
        final(llvm).wf(),
        keeps_functions(old(llvm).deep_view(), final(llvm).deep_view()),
        gen_of(final(llvm).deep_view(), r) == emit_chain_body(
            old(llvm).deep_view(),
            fn_value,
            next_fn_value,
        ),
{
    llvm.clear_named_value();
    let thunk = llvm.get_param(fn_value, 0)?;
    let arg_thunk = llvm.get_param(fn_value, 1)?;
    let next_thunk = call_new_next_fn_thunk(llvm, thunk, next_fn_value, arg_thunk)?;
    llvm.build_ret(next_thunk)?;
    Ok(())
}

/// Builds the load of the argument `index` out of the thunk at which `ptr_value`
/// points.
#[verifier::rlimit(80)]
pub fn build_thunk_arg_gep(llvm: &mut LLVM, ptr_value: IrValue, index: usize, name: &str) -> (r:
    Result<IrValue, CodegenError>)
    requires
        old(llvm).wf(),
    ensures
        final(llvm).wf(),
        keeps_functions(old(llvm).deep_view(), final(llvm).deep_view()),
        gen_of(final(llvm).deep_view(), r) == emit_thunk_arg_gep(
            old(llvm).deep_view(),
            ptr_value,
            index,
            name@,
        ),
{
    let ty = LLVM::thunk_type();
    let ptr_ty = LLVM::pointer_type();
    let gep = llvm.build_struct_gep(ty, ptr_value, 3, name)?;
    let arg_value = llvm.build_load(ptr_ty, gep, "load")?;
    let gep = llvm.build_element_gep(
        ptr_ty,
        arg_value,
        #[verifier::truncate]
        (index as i64),
        name,
    )?;
    llvm.build_load(ptr_ty, gep, "load")
}

#[verifier::rlimit(80)]
fn gen_bind_args(llvm: &mut LLVM, thunk: IrValue, arg_names: &Vec<String>, arity: usize) -> (r:
    Result<(), CodegenError>)
    requires
        old(llvm).wf(),
        arity <= arg_names.len(),
    ensures
        final(llvm).wf(),
        keeps_functions(old(llvm).deep_view(), final(llvm).deep_view()),
        gen_of(final(llvm).deep_view(), r) == emit_bind_args(
            old(llvm).deep_view(),
            thunk,
            arg_names.deep_view(),
            arity as nat,
            0,
        ),
{
    let ghost start = old(llvm).deep_view();
    let ghost names = arg_names.deep_view();
    let mut i: usize = 0;
    while i < arity
        invariant
            i <= arity <= arg_names.len(),
            names == arg_names.deep_view(),
            start == old(llvm).deep_view(),
            llvm.wf(),
            keeps_functions(start, llvm.deep_view()),
            emit_bind_args(start, thunk, names, arity as nat, 0) == emit_bind_args(
                llvm.deep_view(),
                thunk,
                names,
                arity as nat,
                i as nat,
            ),
        decreases arity - i,
    {
        let arg = build_thunk_arg_gep(llvm, thunk, i, "gep")?;
        llvm.set_value_name(arg, arg_names[i].as_str());
        llvm.insert_named_value(arg_names[i].clone(), arg)?;
        i += 1;
    }
    Ok(())
}

#[verifier::rlimit(80)]
fn gen_arith_body(llvm: &mut LLVM, op: IrBinOp, name: &str) -> (r: Result<IrValue, CodegenError>)
    requires
        old(llvm).wf(),
    ensures
        final(llvm).wf(),
        keeps_functions(old(llvm).deep_view(), final(llvm).deep_view()),
        gen_of(final(llvm).deep_view(), r) == emit_arith_body(old(llvm).deep_view(), op, name@),
{
    let lhs_name = arg_name(name, ".lhs");
    let rhs_name = arg_name(name, ".rhs");
    let lhs_thunk = llvm.get_named_value(lhs_name.as_str())?;
    let lhs = eval_thunk_as_i64(llvm, lhs_thunk)?;
    let rhs_thunk = llvm.get_named_value(rhs_name.as_str())?;
    let rhs = eval_thunk_as_i64(llvm, rhs_thunk)?;
    let arith = llvm.build_binary(op, lhs, rhs, name)?;
    call_new_val_thunk(llvm, arith)
}

/// The name of an argument of the built-in function `name`.
fn arg_name(name: &str, suffix: &str) -> (s: String)
    ensures
        s@ == name@ + suffix@,
{
    let mut s = String::from_str(name);
    s.append(suffix);
    s
}

#[verifier::rlimit(80)]
fn gen_negate_body(llvm: &mut LLVM) -> (r: Result<IrValue, CodegenError>)
    requires
        old(llvm).wf(),
    ensures
        final(llvm).wf(),
        keeps_functions(old(llvm).deep_view(), final(llvm).deep_view()),
        gen_of(final(llvm).deep_view(), r) == emit_negate_body(old(llvm).deep_view()),
{
    let rhs_name = arg_name("negate", ".rhs");
    let rhs_thunk = llvm.get_named_value(rhs_name.as_str())?;
    let rhs = eval_thunk_as_i64(llvm, rhs_thunk)?;
    let neg = llvm.build_neg(rhs, "negate")?;
    call_new_val_thunk(llvm, neg)
}

#[verifier::rlimit(80)]
fn gen_saturated(llvm: &mut LLVM, call0: IrValue) -> (r: Result<IrValue, CodegenError>)
    requires
        old(llvm).wf(),
    ensures
        final(llvm).wf(),
        keeps_functions(old(llvm).deep_view(), final(llvm).deep_view()),
        gen_of(final(llvm).deep_view(), r) == emit_saturated(old(llvm).deep_view(), call0),
{
    let thunk_ty = LLVM::thunk_type();
    let i64_ty = LLVM::i64_type();
    let arity_ptr = llvm.build_struct_gep(thunk_ty, call0, 1, "gep")?;
    let arity = llvm.build_load(i64_ty, arity_ptr, "load")?;
    let rank_ptr = llvm.build_struct_gep(thunk_ty, call0, 2, "gep")?;
    let rank = llvm.build_load(i64_ty, rank_ptr, "load")?;
    llvm.build_eq(arity, rank, "eq")
}

#[verifier::rlimit(80)]
fn gen_l_pipeline_branch(
    llvm: &mut LLVM,
    fn_value: IrValue,
    call0: IrValue,
    call_ptr: IrValue,
    eq: IrValue,
) -> (r: Result<IrValue, CodegenError>)
    requires
        old(llvm).wf(),
    ensures
        final(llvm).wf(),
        keeps_functions(old(llvm).deep_view(), final(llvm).deep_view()),
        gen_of(final(llvm).deep_view(), r) == emit_l_pipeline_branch(
            old(llvm).deep_view(),
            fn_value,
            call0,
            call_ptr,
            eq,
        ),
{
    let ptr_ty = LLVM::pointer_type();
    let then_part = llvm.append_basic_block(fn_value, "then")?;
    let else_part = llvm.append_basic_block(fn_value, "else")?;
    llvm.build_cond_br(eq, then_part, else_part)?;
    llvm.position_builder_at_end(then_part);
    let null = LLVM::const_null();
    let call = call_call_thunk(llvm, call0, null)?;
    llvm.build_store(call, call_ptr)?;
    llvm.build_br(else_part)?;
    llvm.position_builder_at_end(else_part);
    llvm.build_load(ptr_ty, call_ptr, "load")
}

#[verifier::rlimit(80)]
fn gen_l_pipeline_body(llvm: &mut LLVM, fn_value: IrValue) -> (r: Result<IrValue, CodegenError>)
    requires
        old(llvm).wf(),
    ensures
        final(llvm).wf(),
        keeps_functions(old(llvm).deep_view(), final(llvm).deep_view()),
        gen_of(final(llvm).deep_view(), r) == emit_l_pipeline_body(old(llvm).deep_view(), fn_value),
{
    let lhs_name = arg_name("pipelineL", ".lhs");
    let rhs_name = arg_name("pipelineL", ".rhs");
    let lhs_thunk = llvm.get_named_value(lhs_name.as_str())?;
    let rhs_thunk = llvm.get_named_value(rhs_name.as_str())?;
    let call0 = call_call_thunk(llvm, lhs_thunk, rhs_thunk)?;
    let ptr_ty = LLVM::pointer_type();
    let call_ptr = llvm.build_alloca(ptr_ty, "alloca")?;
    llvm.build_store(call0, call_ptr)?;
    let eq = gen_saturated(llvm, call0)?;
    gen_l_pipeline_branch(llvm, fn_value, call0, call_ptr, eq)
}

#[verifier::rlimit(80)]
fn gen_body(llvm: &mut LLVM, body: &FnBody, fn_value: IrValue) -> (r: Result<IrValue, CodegenError>)
    requires
        old(llvm).wf(),
        body_typed(body.deep_view()),
    ensures
        final(llvm).wf(),
        keeps_functions(old(llvm).deep_view(), final(llvm).deep_view()),
        gen_of(final(llvm).deep_view(), r) == emit_body(
            old(llvm).deep_view(),
            body.deep_view(),
            fn_value,
        ),
{
    match body {
        FnBody::Expr(e) => gen_expr(llvm, e),
        FnBody::Arith(op, name) => gen_arith_body(llvm, *op, name),
        FnBody::Negate => gen_negate_body(llvm),
        FnBody::LPipeline => gen_l_pipeline_body(llvm, fn_value),
    }
}

#[verifier::rlimit(80)]
fn gen_terminal_body(
    llvm: &mut LLVM,
    fn_value: IrValue,
    arg_names: &Vec<String>,
    arity: usize,
    body: &FnBody,
) -> (r: Result<(), CodegenError>)
    requires
        old(llvm).wf(),
        arity <= arg_names.len(),
        body_typed(body.deep_view()),
    ensures
        final(llvm).wf(),
        keeps_functions(old(llvm).deep_view(), final(llvm).deep_view()),
        gen_of(final(llvm).deep_view(), r) == emit_terminal_body(
            old(llvm).deep_view(),
            fn_value,
            arg_names.deep_view(),
            arity as nat,
            body.deep_view(),
        ),
{
    llvm.clear_named_value();
    let thunk = llvm.get_param(fn_value, 0)?;
    gen_bind_args(llvm, thunk, arg_names, arity)?;
    let value = gen_body(llvm, body, fn_value)?;
    llvm.build_ret(value)?;
    Ok(())
}

#[verifier::rlimit(80)]
fn gen_chain_member(llvm: &mut LLVM, family: &Vec<FnSem>, i: usize) -> (r: Result<(), CodegenError>)
    requires
        old(llvm).wf(),
        i + 1 < family.len(),
    ensures
        final(llvm).wf(),
        r is Ok ==> keeps_functions(old(llvm).deep_view(), final(llvm).deep_view()),
        r is Ok ==> has_function(final(llvm).deep_view(), fn_name(family.deep_view()[i as int]), fn_ty()),
        gen_of(final(llvm).deep_view(), r) == emit_chain_member(
            old(llvm).deep_view(),
            family.deep_view(),
            i as int,
        ),
{
    let name = family[i].logical_name();
    let fn_value = add_fn(llvm, name.as_str())?;
    let ghost declared = llvm.deep_view();
    let next_name = family[i + 1].logical_name();
    let next_fn_value = llvm.get_named_function(next_name.as_str())?;
    open_fn_block(llvm, fn_value)?;
    let body = gen_chain_body(llvm, fn_value, next_fn_value);
    let r = close_fn_block(llvm, fn_value, body);
    proof {
        if r is Ok {
            crate::llvm::lemma_keeps_function(declared, llvm.deep_view(), name@, fn_ty());
        }
    }
    r
}

/// The module holds one function for each of the members of `family` from `from`
/// up to `to`, each of the type of two pointers to a pointer.
#[verifier::opaque]
pub open spec fn members_emitted(llvm: LLVMView, family: Seq<FnSemView>, from: int, to: int) -> bool {
    forall|k: int| from <= k < to ==> has_function(llvm, #[trigger] fn_name(family[k]), fn_ty())
}

/// The members that were emitted stay emitted where the functions are kept, and
/// one more is emitted where the module has its function.
proof fn lemma_members_emitted_step(
    before: LLVMView,
    after: LLVMView,
    family: Seq<FnSemView>,
    from: int,
    to: int,
)
    requires
        members_emitted(before, family, from + 1, to),
        keeps_functions(before, after),
        has_function(after, fn_name(family[from]), fn_ty()),
    ensures
        members_emitted(after, family, from, to),
{
    reveal(members_emitted);
    assert forall|k: int| from <= k < to implies has_function(
        after,
        #[trigger] fn_name(family[k]),
        fn_ty(),
    ) by {
        if k > from {
            crate::llvm::lemma_keeps_function(before, after, fn_name(family[k]), fn_ty());
        }
    }
}

proof fn lemma_members_emitted_keep(
    before: LLVMView,
    after: LLVMView,
    family: Seq<FnSemView>,
    from: int,
    to: int,
)
    requires
        members_emitted(before, family, from, to),
        keeps_functions(before, after),
    ensures
        members_emitted(after, family, from, to),
{
    reveal(members_emitted);
    assert forall|k: int| from <= k < to implies has_function(
        after,
        #[trigger] fn_name(family[k]),
        fn_ty(),
    ) by {
        crate::llvm::lemma_keeps_function(before, after, fn_name(family[k]), fn_ty());
    }
}

/// The members of `family` but the last, from the last but one down to the first.
#[verifier::rlimit(80)]
fn gen_chain(llvm: &mut LLVM, family: &Vec<FnSem>) -> (r: Result<(), CodegenError>)
    requires
        old(llvm).wf(),
        family.len() > 0,
    ensures
        final(llvm).wf(),
        r is Ok ==> keeps_functions(old(llvm).deep_view(), final(llvm).deep_view()),
        r is Ok ==> members_emitted(
            final(llvm).deep_view(),
            family.deep_view(),
            0,
            family.len() - 1,
        ),
        gen_of(final(llvm).deep_view(), r) == emit_chain(
            old(llvm).deep_view(),
            family.deep_view(),
            family.len() - 2,
        ),
{
    let ghost fam = family.deep_view();
    let ghost start = old(llvm).deep_view();
    let n: usize = family.len();
    let mut i: usize = n - 1;
    proof {
        reveal(members_emitted);
    }
    while i > 0
        invariant
            i <= n - 1,
            n == family.len(),
            fam == family.deep_view(),
            start == old(llvm).deep_view(),
            llvm.wf(),
            keeps_functions(start, llvm.deep_view()),
            members_emitted(llvm.deep_view(), fam, i as int, n - 1),
            emit_chain(start, fam, n - 2) == emit_chain(llvm.deep_view(), fam, i - 1),
        decreases i,
    {
        let ghost before = llvm.deep_view();
        gen_chain_member(llvm, family, i - 1)?;
        proof {
            lemma_members_emitted_step(before, llvm.deep_view(), fam, i - 1, n - 1);
        }
        i -= 1;
    }
    Ok(())
}

/// The functions of `family`.
#[verifier::rlimit(80)]
fn gen_family(llvm: &mut LLVM, family: &Vec<FnSem>, arg_names: &Vec<String>, body: &FnBody) -> (r:
    Result<(), CodegenError>)
    requires
        old(llvm).wf(),
        family.len() > 0,
        body_typed(body.deep_view()),
    ensures
        final(llvm).wf(),
        r is Ok ==> keeps_functions(old(llvm).deep_view(), final(llvm).deep_view()),
        r is Ok ==> members_emitted(final(llvm).deep_view(), family.deep_view(), 0, family.len() as int),
        gen_of(final(llvm).deep_view(), r) == emit_family(
            old(llvm).deep_view(),
            family.deep_view(),
            arg_names.deep_view(),
            body.deep_view(),
        ),
{
    let ghost fam = family.deep_view();
    let n: usize = family.len();
    let arity: usize = family[n - 1].arity;
    assert(fam.last() == family@[n - 1].deep_view());
    if arg_names.len() < arity {
        return Err(CodegenError::ArgCountMismatch);
    }
    let name = family[n - 1].logical_name();
    let fn_value = add_fn(llvm, name.as_str())?;
    let ghost declared = llvm.deep_view();
    gen_chain(llvm, family)?;
    let ghost chained = llvm.deep_view();
    open_fn_block(llvm, fn_value)?;
    let built = gen_terminal_body(llvm, fn_value, arg_names, arity, body);
    let r = close_fn_block(llvm, fn_value, built);
    proof {
        if r is Ok {
            crate::llvm::lemma_keeps_function(declared, llvm.deep_view(), name@, fn_ty());
            lemma_members_emitted_keep(chained, llvm.deep_view(), fam, 0, n - 1);
            reveal(members_emitted);
        }
    }
    r
}

/// Generates the functions of the family to which the function symbol with the key
/// `fn_key` belongs. `arg_names` names the arguments, and `body` says what the last
/// member of the family does.
#[verifier::rlimit(80)]
pub fn gen_fn_def(
    llvm: &mut LLVM,
    ctx: &SemContext,
    fn_key: &FnKey,
    arg_names: &Vec<String>,
    body: &FnBody,
) -> (r: Result<(), CodegenError>)
    requires
        old(llvm).wf(),
        ctx.wf(),
        body_typed(body.deep_view()),
    ensures
        final(llvm).wf(),
        r is Ok ==> keeps_functions(old(llvm).deep_view(), final(llvm).deep_view()),
        r is Ok ==> family_emitted(final(llvm).deep_view(), ctx.deep_view(), fn_key.deep_view()),
        gen_of(final(llvm).deep_view(), r) == emit_fn_def(
            old(llvm).deep_view(),
            ctx.deep_view(),
            fn_key.deep_view(),
            arg_names.deep_view(),
            body.deep_view(),
        ),
{
    let key = fn_key.without_rank();
    let fs = match ctx.ranked_fn_store.get(&key) {
        Ok(fs) => fs,
        Err(e) => {
            return Err(CodegenError::Store(e));
        },
    };
    proof {
        let k = key.deep_view();
        assert(crate::context::family_ok(
            ctx.deep_view().fn_store,
            ctx.deep_view().next_fn_store,
            k,
            ctx.deep_view().ranked_fn_store[k],
        ));
    }
    let r = gen_family(llvm, &fs, arg_names, body);
    proof {
        reveal(members_emitted);
    }
    r
}

/// The module holds one function for each member of the family to which the
/// function symbol with the key `fn_key` belongs, each of the type of two pointers
/// to a pointer.
pub open spec fn family_emitted(llvm: LLVMView, ctx: SemContextView, fn_key: NameKeyView) -> bool {
    let key = family_key(fn_key);
    let family = ctx.ranked_fn_store[key];
    &&& ctx.ranked_fn_store.contains_key(key)
    &&& forall|k: int|
        0 <= k < family.len() ==> has_function(llvm, #[trigger] fn_name(family[k]), fn_ty())
}

#[verifier::rlimit(80)]
fn gen_bind_params(llvm: &mut LLVM, fn_value: IrValue, arg_names: &Vec<String>, arity: usize) -> (r:
    Result<(), CodegenError>)
    requires
        old(llvm).wf(),
        arity <= arg_names.len(),
    ensures
        final(llvm).wf(),
        keeps_functions(old(llvm).deep_view(), final(llvm).deep_view()),
        gen_of(final(llvm).deep_view(), r) == emit_bind_params(
            old(llvm).deep_view(),
            fn_value,
            arg_names.deep_view(),
            arity as nat,
            0,
        ),
{
    let ghost start = old(llvm).deep_view();
    let ghost names = arg_names.deep_view();
    let mut i: usize = 0;
    while i < arity
        invariant
            i <= arity <= arg_names.len(),
            names == arg_names.deep_view(),
            start == old(llvm).deep_view(),
            llvm.wf(),
            keeps_functions(start, llvm.deep_view()),
            emit_bind_params(start, fn_value, names, arity as nat, 0) == emit_bind_params(
                llvm.deep_view(),
                fn_value,
                names,
                arity as nat,
                i as nat,
            ),
        decreases arity - i,
    {
        let arg = llvm.get_param(fn_value, i)?;
        llvm.set_value_name(arg, arg_names[i].as_str());
        llvm.insert_named_value(arg_names[i].clone(), arg)?;
        i += 1;
    }
    Ok(())
}

#[verifier::rlimit(80)]
fn gen_val_thunks(llvm: &mut LLVM, fn_value: IrValue, arity: usize) -> (r: Result<
    Vec<IrValue>,
    CodegenError,
>)
    requires
        old(llvm).wf(),
    ensures
        final(llvm).wf(),
        keeps_functions(old(llvm).deep_view(), final(llvm).deep_view()),
        gen_of(final(llvm).deep_view(), r) == emit_val_thunks(
            old(llvm).deep_view(),
            fn_value,
            arity as nat,
            0,
            Seq::empty(),
        ),
{
    let ghost start = old(llvm).deep_view();
    let mut arg_thunks: Vec<IrValue> = Vec::new();
    let mut i: usize = 0;
    assert(arg_thunks.deep_view() =~= Seq::<IrValue>::empty());
    while i < arity
        invariant
            i <= arity,
            start == old(llvm).deep_view(),
            llvm.wf(),
            keeps_functions(start, llvm.deep_view()),
            emit_val_thunks(start, fn_value, arity as nat, 0, Seq::empty()) == emit_val_thunks(
                llvm.deep_view(),
                fn_value,
                arity as nat,
                i as nat,
                arg_thunks.deep_view(),
            ),
        decreases arity - i,
    {
        let arg = llvm.get_param(fn_value, i)?;
        let thunk = call_new_val_thunk(llvm, arg)?;
        let ghost before = arg_thunks.deep_view();
        arg_thunks.push(thunk);
        assert(arg_thunks.deep_view() =~= before.push(thunk));
        i += 1;
    }
    Ok(arg_thunks)
}

#[verifier::rlimit(80)]
fn gen_calls(llvm: &mut LLVM, thunk: IrValue, args: &Vec<IrValue>) -> (r: Result<
    IrValue,
    CodegenError,
>)
    requires
        old(llvm).wf(),
    ensures
        final(llvm).wf(),
        keeps_functions(old(llvm).deep_view(), final(llvm).deep_view()),
        gen_of(final(llvm).deep_view(), r) == emit_calls(
            old(llvm).deep_view(),
            thunk,
            args.deep_view(),
            0,
        ),
{
    let ghost start = old(llvm).deep_view();
    let mut current = thunk;
    let mut i: usize = 0;
    while i < args.len()
        invariant
            i <= args.len(),
            start == old(llvm).deep_view(),
            llvm.wf(),
            keeps_functions(start, llvm.deep_view()),
            emit_calls(start, thunk, args.deep_view(), 0) == emit_calls(
                llvm.deep_view(),
                current,
                args.deep_view(),
                i as nat,
            ),
        decreases args.len() - i,
    {
        current = call_call_thunk(llvm, current, args[i])?;
        i += 1;
    }
    Ok(current)
}

#[verifier::rlimit(80)]
fn gen_exported_body(
    llvm: &mut LLVM,
    exported: IrValue,
    fn_value: IrValue,
    arg_names: &Vec<String>,
    arity: usize,
) -> (r: Result<(), CodegenError>)
    requires
        old(llvm).wf(),
        arity <= arg_names.len(),
    ensures
        final(llvm).wf(),
        keeps_functions(old(llvm).deep_view(), final(llvm).deep_view()),
        gen_of(final(llvm).deep_view(), r) == emit_exported_body(
            old(llvm).deep_view(),
            exported,
            fn_value,
            arg_names.deep_view(),
            arity,
        ),
{
    llvm.clear_named_value();
    gen_bind_params(llvm, exported, arg_names, arity)?;
    let mut arg_thunks = gen_val_thunks(llvm, exported, arity)?;
    let null = LLVM::const_null();
    let ghost before = arg_thunks.deep_view();
    arg_thunks.push(null);
    assert(arg_thunks.deep_view() =~= before.push(IrValue::Null));
    let arity_value = LLVM::const_i64(
        #[verifier::truncate]
        (arity as i64),
    );
    let thunk = call_new_fn_thunk(llvm, fn_value, arity_value)?;
    let result = gen_calls(llvm, thunk, &arg_thunks)?;
    let value = eval_thunk_as_i64(llvm, result)?;
    llvm.build_ret(value)?;
    Ok(())
}

/// Generates the exported function of the family to which the function symbol with
/// the key `fn_key` belongs.
#[verifier::rlimit(80)]
pub fn gen_exported_fn(llvm: &mut LLVM, ctx: &SemContext, fn_key: &FnKey, arg_names: &Vec<String>) -> (r:
    Result<(), CodegenError>)
    requires
        old(llvm).wf(),
        ctx.wf(),
    ensures
        final(llvm).wf(),
        r is Ok ==> keeps_functions(old(llvm).deep_view(), final(llvm).deep_view()),
        r is Ok ==> exported_emitted(final(llvm).deep_view(), ctx.deep_view(), fn_key.deep_view()),
        gen_of(final(llvm).deep_view(), r) == emit_exported_fn(
            old(llvm).deep_view(),
            ctx.deep_view(),
            fn_key.deep_view(),
            arg_names.deep_view(),
        ),
{
    let key = fn_key.without_rank();
    let fs = match ctx.ranked_fn_store.get(&key) {
        Ok(fs) => fs,
        Err(e) => {
            return Err(CodegenError::Store(e));
        },
    };
    proof {
        let k = key.deep_view();
        assert(crate::context::family_ok(
            ctx.deep_view().fn_store,
            ctx.deep_view().next_fn_store,
            k,
            ctx.deep_view().ranked_fn_store[k],
        ));
    }
    let arity: usize = fs[0].arity;
    if arg_names.len() < arity {
        return Err(CodegenError::ArgCountMismatch);
    }
    let name = fs[0].logical_name();
    let fn_value = llvm.get_named_function(name.as_str())?;
    let exported_name = key.logical_name();
    let exported = add_exported_fn(llvm, exported_name.as_str(), arity)?;
    let ghost declared = llvm.deep_view();
    open_fn_block(llvm, exported)?;
    let built = gen_exported_body(llvm, exported, fn_value, arg_names, arity);
    let r = close_fn_block(llvm, exported, built);
    proof {
        if r is Ok {
            crate::llvm::lemma_keeps_function(
                declared,
                llvm.deep_view(),
                exported_name@,
                exported_fn_ty(arity as nat),
            );
        }
    }
    r
}

/// The module holds the exported function of the family to which the function
/// symbol with the key `fn_key` belongs.
pub open spec fn exported_emitted(llvm: LLVMView, ctx: SemContextView, fn_key: NameKeyView) -> bool {
    let key = family_key(fn_key);
    let family = ctx.ranked_fn_store[key];
    &&& ctx.ranked_fn_store.contains_key(key)
    &&& has_function(llvm, key.logical_name(), exported_fn_ty(family[0].arity as nat))
}

#[verifier::rlimit(80)]
fn decl_externals(llvm: &mut LLVM) -> (r: Result<(), CodegenError>)
    requires
        old(llvm).wf(),
    ensures
        final(llvm).wf(),
        keeps_functions(old(llvm).deep_view(), final(llvm).deep_view()),
        gen_of(final(llvm).deep_view(), r) == emit_externals(old(llvm).deep_view()),
{
    let ty = new_fn_thunk_ty_of();
    llvm.add_function("__new_fn_thunk", ty)?;
    let ty = new_next_fn_thunk_ty_of();
    llvm.add_function("__new_next_fn_thunk", ty)?;
    let ty = new_val_thunk_ty_of();
    llvm.add_function("__new_val_thunk", ty)?;
    let ty = call_thunk_ty_of();
    llvm.add_function("__call_thunk", ty)?;
    let ty = debug_print_ty_of();
    llvm.add_function("__debug_print", ty)?;
    Ok(())
}

#[verifier::rlimit(80)]
fn gen_arith_def(llvm: &mut LLVM, ctx: &SemContext, name: &str, op: IrBinOp) -> (r: Result<
    (),
    CodegenError,
>)
    requires
        old(llvm).wf(),
        ctx.wf(),
    ensures
        final(llvm).wf(),
        r is Ok ==> keeps_functions(old(llvm).deep_view(), final(llvm).deep_view()),
        gen_of(final(llvm).deep_view(), r) == emit_arith_def(
            old(llvm).deep_view(),
            ctx.deep_view(),
            name@,
            op,
        ),
{
    let fn_key = FnKey::new(QualKey::top(), String::from_str(name));
    let mut args: Vec<String> = Vec::new();
    args.push(arg_name(name, ".lhs"));
    args.push(arg_name(name, ".rhs"));
    assert(args.deep_view() =~= seq![lhs_name(name@), rhs_name(name@)]);
    gen_fn_def(llvm, ctx, &fn_key, &args, &FnBody::Arith(op, name))
}

#[verifier::rlimit(80)]
fn gen_negate_def(llvm: &mut LLVM, ctx: &SemContext) -> (r: Result<(), CodegenError>)
    requires
        old(llvm).wf(),
        ctx.wf(),
    ensures
        final(llvm).wf(),
        r is Ok ==> keeps_functions(old(llvm).deep_view(), final(llvm).deep_view()),
        gen_of(final(llvm).deep_view(), r) == emit_negate_def(old(llvm).deep_view(), ctx.deep_view()),
{
    let fn_key = FnKey::new(QualKey::top(), String::from_str("negate"));
    let mut args: Vec<String> = Vec::new();
    args.push(arg_name("negate", ".rhs"));
    assert(args.deep_view() =~= seq![rhs_name("negate"@)]);
    gen_fn_def(llvm, ctx, &fn_key, &args, &FnBody::Negate)
}

#[verifier::rlimit(80)]
fn gen_l_pipeline_def(llvm: &mut LLVM, ctx: &SemContext) -> (r: Result<(), CodegenError>)
    requires
        old(llvm).wf(),
        ctx.wf(),
    ensures
        final(llvm).wf(),
        r is Ok ==> keeps_functions(old(llvm).deep_view(), final(llvm).deep_view()),
        gen_of(final(llvm).deep_view(), r) == emit_l_pipeline_def(
            old(llvm).deep_view(),
            ctx.deep_view(),
        ),
{
    let fn_key = FnKey::new(QualKey::top(), String::from_str("pipelineL"));
    let mut args: Vec<String> = Vec::new();
    args.push(arg_name("pipelineL", ".lhs"));
    args.push(arg_name("pipelineL", ".rhs"));
    assert(args.deep_view() =~= seq![lhs_name("pipelineL"@), rhs_name("pipelineL"@)]);
    gen_fn_def(llvm, ctx, &fn_key, &args, &FnBody::LPipeline)
}

/// Generates what every module begins with: the declarations of the runtime and the
/// families of the built-in functions.
#[verifier::rlimit(80)]
pub fn gen_init(llvm: &mut LLVM, ctx: &SemContext) -> (r: Result<(), CodegenError>)
    requires
        old(llvm).wf(),
        ctx.wf(),
    ensures
        final(llvm).wf(),
        r is Ok ==> keeps_functions(old(llvm).deep_view(), final(llvm).deep_view()),
        gen_of(final(llvm).deep_view(), r) == emit_init(old(llvm).deep_view(), ctx.deep_view()),
{
    decl_externals(llvm)?;
    gen_arith_def(llvm, ctx, "add", IrBinOp::Add)?;
    gen_arith_def(llvm, ctx, "sub", IrBinOp::Sub)?;
    gen_arith_def(llvm, ctx, "mul", IrBinOp::Mul)?;
    gen_arith_def(llvm, ctx, "div", IrBinOp::Div)?;
    gen_negate_def(llvm, ctx)?;
    gen_l_pipeline_def(llvm, ctx)
}

/// The names that the module uses for the arguments `arg_sems`.
fn arg_names(arg_sems: &Vec<FnSem>) -> (names: Vec<String>)
    ensures
        names.deep_view() == arg_names_of(arg_sems.deep_view()),
{
    let mut names: Vec<String> = Vec::new();
    let mut i: usize = 0;
    while i < arg_sems.len()
        invariant
            i <= arg_sems.len(),
            names.len() == i,
            forall|j: int| 0 <= j < i ==> (#[trigger] names@[j])@ == fn_name(arg_sems@[j].deep_view()),
        decreases arg_sems.len() - i,
    {
        names.push(arg_sems[i].logical_name());
        i += 1;
    }
    assert(names.deep_view() =~= arg_names_of(arg_sems.deep_view()));
    names
}

#[verifier::rlimit(80)]
fn gen_top_def(llvm: &mut LLVM, ctx: &SemContext, top_def_enum: &TopDefEnum) -> (r: Result<
    (),
    CodegenError,
>)
    requires
        old(llvm).wf(),
        ctx.wf(),
        top_def_typed(top_def_enum.deep_view()),
    ensures
        final(llvm).wf(),
        r is Ok ==> keeps_functions(old(llvm).deep_view(), final(llvm).deep_view()),
        r is Ok ==> def_emitted(final(llvm).deep_view(), ctx.deep_view(), top_def_enum.deep_view()),
        gen_of(final(llvm).deep_view(), r) == emit_top_def(
            old(llvm).deep_view(),
            ctx.deep_view(),
            top_def_enum.deep_view(),
        ),
{
    match top_def_enum {
        TopDefEnum::Fn(fn_def_ast) => {
            let fn_key = fn_def_ast.fn_key.as_ref().unwrap();
            let args = arg_names(fn_def_ast.arg_sems.as_ref().unwrap());
            gen_fn_def(llvm, ctx, fn_key, &args, &FnBody::Expr(&fn_def_ast.expr))?;
            let ghost chained = llvm.deep_view();
            gen_exported_fn(llvm, ctx, fn_key, &args)?;
            proof {
                lemma_def_emitted(
                    chained,
                    llvm.deep_view(),
                    ctx.deep_view(),
                    top_def_enum.deep_view(),
                );
            }
            Ok(())
        },
    }
}

/// A module without two functions of one name that has the functions of a family and
/// its exported function holds what belongs to the definition, each function once.
pub proof fn lemma_def_emitted(
    chained: LLVMView,
    llvm: LLVMView,
    ctx: SemContextView,
    d: TopDefEnumView,
)
    requires
        llvm.names_unique(),
        keeps_functions(chained, llvm),
        family_emitted(chained, ctx, d->Fn_0.fn_key->Some_0),
        exported_emitted(llvm, ctx, d->Fn_0.fn_key->Some_0),
    ensures
        def_emitted(llvm, ctx, d),
{
    let key = family_key(d->Fn_0.fn_key->Some_0);
    let family = ctx.ranked_fn_store[key];
    crate::llvm::lemma_function_unique(
        llvm,
        key.logical_name(),
        exported_fn_ty(family[0].arity as nat),
    );
    assert forall|k: int| 0 <= k < family.len() implies has_function(
        llvm,
        #[trigger] fn_name(family[k]),
        fn_ty(),
    ) && crate::llvm::count_functions(llvm.functions, fn_name(family[k])) == 1 by {
        crate::llvm::lemma_keeps_function(chained, llvm, fn_name(family[k]), fn_ty());
        crate::llvm::lemma_function_unique(llvm, fn_name(family[k]), fn_ty());
    }
}

/// What belongs to a definition stays in every module that keeps the functions and
/// has no two functions of one name.
#[verifier::rlimit(50)]
pub proof fn lemma_def_emitted_keep(
    before: LLVMView,
    after: LLVMView,
    ctx: SemContextView,
    d: TopDefEnumView,
)
    requires
        after.names_unique(),
        keeps_functions(before, after),
        def_emitted(before, ctx, d),
    ensures
        def_emitted(after, ctx, d),
{
    let key = family_key(d->Fn_0.fn_key->Some_0);
    let family = ctx.ranked_fn_store[key];
    crate::llvm::lemma_keeps_function(
        before,
        after,
        key.logical_name(),
        exported_fn_ty(family[0].arity as nat),
    );
    crate::llvm::lemma_function_unique(
        after,
        key.logical_name(),
        exported_fn_ty(family[0].arity as nat),
    );
    assert forall|k: int| 0 <= k < family.len() implies has_function(
        after,
        #[trigger] fn_name(family[k]),
        fn_ty(),
    ) && crate::llvm::count_functions(after.functions, fn_name(family[k])) == 1 by {
        crate::llvm::lemma_keeps_function(before, after, fn_name(family[k]), fn_ty());
        crate::llvm::lemma_function_unique(after, fn_name(family[k]), fn_ty());
    }
}

/// The module holds what belongs to each of the first `n` definitions.
#[verifier::opaque]
pub open spec fn defs_emitted(llvm: LLVMView, ctx: SemContextView, defs: Seq<TopDefEnumView>, n: int) -> bool {
    forall|i: int| 0 <= i < n ==> def_emitted(llvm, ctx, #[trigger] defs[i])
}

proof fn lemma_defs_emitted_step(
    before: LLVMView,
    after: LLVMView,
    ctx: SemContextView,
    defs: Seq<TopDefEnumView>,
    n: int,
)
    requires
        0 <= n < defs.len(),
        after.names_unique(),
        keeps_functions(before, after),
        defs_emitted(before, ctx, defs, n),
        def_emitted(after, ctx, defs[n]),
    ensures
        defs_emitted(after, ctx, defs, n + 1),
{
    reveal(defs_emitted);
    assert forall|i: int| 0 <= i < n + 1 implies def_emitted(after, ctx, #[trigger] defs[i]) by {
        if i < n {
            lemma_def_emitted_keep(before, after, ctx, defs[i]);
        }
    }
}

/// Generates the functions of the definitions, in their order.
#[verifier::rlimit(80)]
fn gen_defs(llvm: &mut LLVM, ctx: &SemContext, top_def_enums: &Vec<TopDefEnum>) -> (r: Result<
    (),
    CodegenError,
>)
    requires
        old(llvm).wf(),
        ctx.wf(),
        forall|i: int|
            0 <= i < top_def_enums.len() ==> top_def_typed(#[trigger] top_def_enums.deep_view()[i]),
    ensures
        final(llvm).wf(),
        gen_of(final(llvm).deep_view(), r) == emit_defs(
            old(llvm).deep_view(),
            ctx.deep_view(),
            top_def_enums.deep_view(),
            0,
        ),
        r is Ok ==> keeps_functions(old(llvm).deep_view(), final(llvm).deep_view()),
        r is Ok ==> defs_emitted(
            final(llvm).deep_view(),
            ctx.deep_view(),
            top_def_enums.deep_view(),
            top_def_enums.len() as int,
        ),
{
    let ghost start = llvm.deep_view();
    let ghost defs = top_def_enums.deep_view();
    let mut i: usize = 0;
    proof {
        reveal(defs_emitted);
    }
    while i < top_def_enums.len()
        invariant
            i <= top_def_enums.len(),
            defs == top_def_enums.deep_view(),
            start == old(llvm).deep_view(),
            llvm.wf(),
            ctx.wf(),
            forall|j: int| 0 <= j < defs.len() ==> top_def_typed(#[trigger] defs[j]),
            keeps_functions(start, llvm.deep_view()),
            defs_emitted(llvm.deep_view(), ctx.deep_view(), defs, i as int),
            emit_defs(start, ctx.deep_view(), defs, 0) == emit_defs(
                llvm.deep_view(),
                ctx.deep_view(),
                defs,
                i as nat,
            ),
        decreases top_def_enums.len() - i,
    {
        let ghost before = llvm.deep_view();
        assert(defs[i as int] == top_def_enums@[i as int].deep_view());
        gen_top_def(llvm, ctx, &top_def_enums[i])?;
        proof {
            lemma_defs_emitted_step(before, llvm.deep_view(), ctx.deep_view(), defs, i as int);
        }
        i += 1;
    }
    Ok(())
}

/// Generates the module for the definitions `top_def_enums`, whose slots the
/// semantic pass has filled in the context `ctx`. The first error ends the
/// generation. Where there is none, the module holds for every definition the
/// functions of its family and its exported function, each under its name once.
#[verifier::rlimit(80)]
pub fn compile(llvm: &mut LLVM, ctx: &SemContext, top_def_enums: &Vec<TopDefEnum>) -> (r: Result<
    (),
    CodegenError,
>)
    requires
        old(llvm).wf(),
        ctx.wf(),
        forall|i: int|
            0 <= i < top_def_enums.len() ==> top_def_typed(#[trigger] top_def_enums.deep_view()[i]),
    ensures
        final(llvm).wf(),
        gen_of(final(llvm).deep_view(), r) == emit_module(
            old(llvm).deep_view(),
            ctx.deep_view(),
            top_def_enums.deep_view(),
        ),
        r is Ok ==> keeps_functions(old(llvm).deep_view(), final(llvm).deep_view()),
        r is Ok ==> forall|i: int|
            0 <= i < top_def_enums.len() ==> def_emitted(
                final(llvm).deep_view(),
                ctx.deep_view(),
                #[trigger] top_def_enums.deep_view()[i],
            ),
{
    gen_init(llvm, ctx)?;
    let r = gen_defs(llvm, ctx, top_def_enums);
    proof {
        reveal(defs_emitted);
    }
    r
}

} // verus!
