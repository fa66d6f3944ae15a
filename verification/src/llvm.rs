//! The module under construction: functions, their blocks and instructions, and the
//! builder that appends to them.
//!
//! The builder records what is to be emitted; handing the record to the code
//! generator's back end is left to the caller. Values are named by where they were
//! made, so that a recorded instruction can refer to the results of earlier ones.

use vstd::prelude::*;
use vstd::string::*;
use crate::sem::{KeyEq, Replica};
use crate::store::{lemma_position, position, KeyMap, StoreError, StoreErrorView};

verus! {

/// A type of a value.
#[derive(Clone, Copy, Debug, PartialEq, Eq, Structural)]
pub enum IrType {
    Void,
    I32,
    I64,
    /// An untyped pointer.
    Ptr,
    /// The record of a thunk: code pointer, arity, rank, and pointer to the arguments.
    Thunk,
}

/// The type of a function.
#[derive(Clone, Debug, PartialEq, Eq)]
pub struct IrFnType {
    pub ret: IrType,
    pub params: Vec<IrType>,
}

pub struct IrFnTypeView {
    pub ret: IrType,
    pub params: Seq<IrType>,
}

/// A block of a function, by the index of the function and of the block in it.
#[derive(Clone, Copy, Debug, PartialEq, Eq, Structural)]
pub struct IrBlock {
    pub func: usize,
    pub block: usize,
}

/// A value: a constant, a function, a parameter of a function, or the result of an
/// instruction, named by the place of the instruction.
#[derive(Clone, Copy, Debug, PartialEq, Eq, Structural)]
pub enum IrValue {
    ConstI32(i32),
    ConstI64(i64),
    /// The null pointer.
    Null,
    /// The function with this index.
    Function(usize),
    Param { func: usize, index: usize },
    Inst { func: usize, block: usize, index: usize },
}

#[derive(Clone, Copy, Debug, PartialEq, Eq, Structural)]
pub enum IrBinOp {
    Add,
    Sub,
    Mul,
    Div,
    /// Comparison for equality.
    Eq,
}

/// An instruction.
#[derive(Clone, Debug, PartialEq, Eq)]
pub enum IrInst {
    Call { fn_ty: IrFnType, callee: IrValue, args: Vec<IrValue>, name: String },
    Binary { op: IrBinOp, lhs: IrValue, rhs: IrValue, name: String },
    Neg { value: IrValue, name: String },
    Ret(IrValue),
    RetVoid,
    Alloca { ty: IrType, name: String },
    Load { ty: IrType, ptr: IrValue, name: String },
    Store { value: IrValue, ptr: IrValue },
    /// The address of a part of what `ptr` points to, taken as a `ty`.
    Gep { ty: IrType, ptr: IrValue, indices: Vec<IrValue>, name: String },
    Br(IrBlock),
    CondBr { cond: IrValue, then_block: IrBlock, else_block: IrBlock },
}

pub enum IrInstView {
    Call { fn_ty: IrFnTypeView, callee: IrValue, args: Seq<IrValue>, name: Seq<char> },
    Binary { op: IrBinOp, lhs: IrValue, rhs: IrValue, name: Seq<char> },
    Neg { value: IrValue, name: Seq<char> },
    Ret(IrValue),
    RetVoid,
    Alloca { ty: IrType, name: Seq<char> },
    Load { ty: IrType, ptr: IrValue, name: Seq<char> },
    Store { value: IrValue, ptr: IrValue },
    Gep { ty: IrType, ptr: IrValue, indices: Seq<IrValue>, name: Seq<char> },
    Br(IrBlock),
    CondBr { cond: IrValue, then_block: IrBlock, else_block: IrBlock },
}

/// A basic block: a name and the instructions in their order.
#[derive(Clone, Debug, PartialEq, Eq)]
pub struct IrBasicBlock {
    pub name: String,
    pub insts: Vec<IrInst>,
}

pub struct IrBasicBlockView {
    pub name: Seq<char>,
    pub insts: Seq<IrInstView>,
}

/// A function of the module. A function without blocks is a declaration. A deleted
/// function keeps its index and is no part of the module any more.
#[derive(Clone, Debug, PartialEq, Eq)]
pub struct IrFunction {
    pub name: String,
    pub ty: IrFnType,
    pub blocks: Vec<IrBasicBlock>,
    pub deleted: bool,
}

pub struct IrFunctionView {
    pub name: Seq<char>,
    pub ty: IrFnTypeView,
    pub blocks: Seq<IrBasicBlockView>,
    pub deleted: bool,
}

impl DeepView for IrType {
    type V = IrType;

    open spec fn deep_view(&self) -> IrType {
        *self
    }
}

impl DeepView for IrValue {
    type V = IrValue;

    open spec fn deep_view(&self) -> IrValue {
        *self
    }
}

impl DeepView for IrFnType {
    type V = IrFnTypeView;

    open spec fn deep_view(&self) -> IrFnTypeView {
        IrFnTypeView { ret: self.ret, params: self.params.deep_view() }
    }
}

impl DeepView for IrInst {
    type V = IrInstView;

    open spec fn deep_view(&self) -> IrInstView {
        match self {
            IrInst::Call { fn_ty, callee, args, name } => IrInstView::Call {
                fn_ty: fn_ty.deep_view(),
                callee: *callee,
                args: args.deep_view(),
                name: name@,
            },
            IrInst::Binary { op, lhs, rhs, name } => IrInstView::Binary {
                op: *op,
                lhs: *lhs,
                rhs: *rhs,
                name: name@,
            },
            IrInst::Neg { value, name } => IrInstView::Neg { value: *value, name: name@ },
            IrInst::Ret(value) => IrInstView::Ret(*value),
            IrInst::RetVoid => IrInstView::RetVoid,
            IrInst::Alloca { ty, name } => IrInstView::Alloca { ty: *ty, name: name@ },
            IrInst::Load { ty, ptr, name } => IrInstView::Load { ty: *ty, ptr: *ptr, name: name@ },
            IrInst::Store { value, ptr } => IrInstView::Store { value: *value, ptr: *ptr },
            IrInst::Gep { ty, ptr, indices, name } => IrInstView::Gep {
                ty: *ty,
                ptr: *ptr,
                indices: indices.deep_view(),
                name: name@,
            },
            IrInst::Br(block) => IrInstView::Br(*block),
            IrInst::CondBr { cond, then_block, else_block } => IrInstView::CondBr {
                cond: *cond,
                then_block: *then_block,
                else_block: *else_block,
            },
        }
    }
}

impl DeepView for IrBasicBlock {
    type V = IrBasicBlockView;

    open spec fn deep_view(&self) -> IrBasicBlockView {
        IrBasicBlockView { name: self.name@, insts: self.insts.deep_view() }
    }
}

impl DeepView for IrFunction {
    type V = IrFunctionView;

    open spec fn deep_view(&self) -> IrFunctionView {
        IrFunctionView {
            name: self.name@,
            ty: self.ty.deep_view(),
            blocks: self.blocks.deep_view(),
            deleted: self.deleted,
        }
    }
}

impl Replica for IrValue {
    fn replica(&self) -> (r: IrValue) {
        *self
    }
}

impl Replica for IrType {
    fn replica(&self) -> (r: IrType) {
        *self
    }
}

impl Replica for IrFnType {
    fn replica(&self) -> (r: IrFnType) {
        IrFnType { ret: self.ret, params: self.params.replica() }
    }
}

impl IrInstView {
    /// Whether the instruction ends a block.
    pub open spec fn is_terminator(self) -> bool {
        self is Ret || self is RetVoid || self is Br || self is CondBr
    }
}

impl IrInst {
    pub fn is_terminator(&self) -> (b: bool)
        ensures
            b == self.deep_view().is_terminator(),
    {
        match self {
            IrInst::Ret(_) => true,
            IrInst::RetVoid => true,
            IrInst::Br(_) => true,
            IrInst::CondBr { .. } => true,
            _ => false,
        }
    }
}

/// Why the builder or the code generator gave up.
#[derive(Clone, Debug, PartialEq, Eq)]
pub enum CodegenError {
    /// What was asked for is not there: no function of the name, no parameter of the
    /// index, or no block to build in.
    NullPointer,
    /// No value is bound to the name.
    UnknownIdentifier,
    /// A value is bound to the name already.
    DuplicateIdentifier,
    /// The function has blocks, or its name is taken.
    FunctionRedefined,
    /// The function does not verify; it was deleted.
    InvalidFunction,
    /// The definition does not name as many arguments as its function has.
    ArgCountMismatch,
    /// The context does not know what it was asked for.
    Store(StoreError),
}

pub enum CodegenErrorView {
    NullPointer,
    UnknownIdentifier,
    DuplicateIdentifier,
    FunctionRedefined,
    InvalidFunction,
    ArgCountMismatch,
    Store(StoreErrorView),
}

impl DeepView for CodegenError {
    type V = CodegenErrorView;

    open spec fn deep_view(&self) -> CodegenErrorView {
        match self {
            CodegenError::NullPointer => CodegenErrorView::NullPointer,
            CodegenError::UnknownIdentifier => CodegenErrorView::UnknownIdentifier,
            CodegenError::DuplicateIdentifier => CodegenErrorView::DuplicateIdentifier,
            CodegenError::FunctionRedefined => CodegenErrorView::FunctionRedefined,
            CodegenError::InvalidFunction => CodegenErrorView::InvalidFunction,
            CodegenError::ArgCountMismatch => CodegenErrorView::ArgCountMismatch,
            CodegenError::Store(e) => CodegenErrorView::Store(e.deep_view()),
        }
    }
}

/// The module and the state of the builder.
pub struct LLVM {
    pub module_id: String,
    pub functions: Vec<IrFunction>,
    /// The block at whose end the builder appends.
    pub position: Option<IrBlock>,
    /// The values that the function under construction knows by name.
    pub named_values: KeyMap<String, IrValue>,
    /// The names that were given to values after they were made.
    pub value_names: Vec<(IrValue, String)>,
}

pub struct LLVMView {
    pub module_id: Seq<char>,
    pub functions: Seq<IrFunctionView>,
    pub position: Option<IrBlock>,
    pub named_values: Map<Seq<char>, IrValue>,
    pub value_names: Seq<(IrValue, Seq<char>)>,
}

impl DeepView for LLVM {
    type V = LLVMView;

    open spec fn deep_view(&self) -> LLVMView {
        LLVMView {
            module_id: self.module_id@,
            functions: self.functions.deep_view(),
            position: self.position,
            named_values: self.named_values.map(),
            value_names: self.value_names.deep_view(),
        }
    }
}

/// The index of the last function named `name` that is not deleted.
pub open spec fn find_function(functions: Seq<IrFunctionView>, name: Seq<char>) -> Option<int>
    decreases functions.len(),
{
    if functions.len() == 0 {
        None
    } else if functions.last().name == name && !functions.last().deleted {
        Some(functions.len() - 1)
    } else {
        find_function(functions.drop_last(), name)
    }
}

/// The number of functions named `name` that are not deleted.
pub open spec fn count_functions(functions: Seq<IrFunctionView>, name: Seq<char>) -> nat
    decreases functions.len(),
{
    if functions.len() == 0 {
        0
    } else {
        count_functions(functions.drop_last(), name) + if functions.last().name == name
            && !functions.last().deleted {
            1nat
        } else {
            0nat
        }
    }
}

/// What `find_function` finds is a function of the name that is not deleted, and
/// where it finds none there is none.
pub proof fn lemma_find_function(functions: Seq<IrFunctionView>, name: Seq<char>)
    ensures
        match find_function(functions, name) {
            Some(i) => 0 <= i < functions.len() && functions[i].name == name
                && !functions[i].deleted && count_functions(functions, name) > 0,
            None => count_functions(functions, name) == 0,
        },
    decreases functions.len(),
{
    if functions.len() > 0 {
        lemma_find_function(functions.drop_last(), name);
    }
}

/// Whether every block of the function ends in a terminator and holds no other.
pub open spec fn function_verifies(function: IrFunctionView) -> bool {
    forall|b: int| 0 <= b < function.blocks.len() ==> block_verifies(#[trigger] function.blocks[b])
}

pub open spec fn block_verifies(block: IrBasicBlockView) -> bool {
    &&& block.insts.len() > 0
    &&& forall|i: int|
        0 <= i < block.insts.len() ==> ((#[trigger] block.insts[i]).is_terminator() <==> i
            == block.insts.len() - 1)
}

impl LLVMView {
    /// The block in which the builder stands, where it stands in one.
    pub open spec fn can_build(self) -> bool {
        &&& self.position matches Some(at)
        &&& at.func < self.functions.len()
        &&& at.block < self.functions[at.func as int].blocks.len()
    }

    /// The value of the instruction that is built next.
    pub open spec fn next_value(self) -> IrValue {
        let at = self.position->Some_0;
        IrValue::Inst {
            func: at.func,
            block: at.block,
            index: self.functions[at.func as int].blocks[at.block as int].insts.len() as usize,
        }
    }

    /// The module with `inst` at the end of the block in which the builder stands.
    pub open spec fn with_inst(self, inst: IrInstView) -> LLVMView {
        let at = self.position->Some_0;
        let function = self.functions[at.func as int];
        let block = function.blocks[at.block as int];
        LLVMView {
            functions: self.functions.update(
                at.func as int,
                IrFunctionView {
                    blocks: function.blocks.update(
                        at.block as int,
                        IrBasicBlockView { insts: block.insts.push(inst), ..block },
                    ),
                    ..function
                },
            ),
            ..self
        }
    }

    /// The module with one more function, a declaration.
    pub open spec fn with_function(self, name: Seq<char>, ty: IrFnTypeView) -> LLVMView {
        LLVMView {
            functions: self.functions.push(
                IrFunctionView { name, ty, blocks: Seq::empty(), deleted: false },
            ),
            ..self
        }
    }

    /// The module with one more block at the end of the function `func`.
    pub open spec fn with_block(self, func: int, name: Seq<char>) -> LLVMView {
        let function = self.functions[func];
        LLVMView {
            functions: self.functions.update(
                func,
                IrFunctionView {
                    blocks: function.blocks.push(IrBasicBlockView { name, insts: Seq::empty() }),
                    ..function
                },
            ),
            ..self
        }
    }

    /// The module in which the function `func` is deleted.
    pub open spec fn without_function(self, func: int) -> LLVMView {
        LLVMView {
            functions: self.functions.update(
                func,
                IrFunctionView { deleted: true, ..self.functions[func] },
            ),
            ..self
        }
    }

    /// No two functions of the module have one name.
    pub open spec fn names_unique(self) -> bool {
        forall|i: int, j: int|
            0 <= i < j < self.functions.len() && !(#[trigger] self.functions[i]).deleted && !(
            #[trigger] self.functions[j]).deleted ==> self.functions[i].name
                != self.functions[j].name
    }
}

impl LLVM {
    pub open spec fn wf(&self) -> bool {
        &&& self.named_values.wf()
        &&& self.deep_view().names_unique()
    }

    /// An empty module.
    pub fn new(module_id: &str) -> (llvm: Self)
        ensures
            llvm.wf(),
            llvm.deep_view() == (LLVMView {
                module_id: module_id@,
                functions: Seq::empty(),
                position: None,
                named_values: Map::empty(),
                value_names: Seq::empty(),
            }),
    {
        let llvm = Self {
            module_id: String::from_str(module_id),
            functions: Vec::new(),
            position: None,
            named_values: KeyMap::new(),
            value_names: Vec::new(),
        };
        assert(llvm.functions.deep_view() =~= Seq::<IrFunctionView>::empty());
        assert(llvm.value_names.deep_view() =~= Seq::<(IrValue, Seq<char>)>::empty());
        llvm
    }

    /// Forgets all names of values.
    pub fn clear_named_value(&mut self)
        requires
            old(self).wf(),
        ensures
            final(self).wf(),
            final(self).deep_view() == (LLVMView {
                named_values: Map::empty(),
                ..old(self).deep_view()
            }),
    {
        self.named_values = KeyMap::new();
    }

    /// The value that is bound to `name`.
    pub fn get_named_value(&self, name: &str) -> (r: Result<IrValue, CodegenError>)
        requires
            self.wf(),
        ensures
            match r {
                Ok(value) => self.deep_view().named_values.contains_key(name@) && value
                    == self.deep_view().named_values[name@],
                Err(e) => !self.deep_view().named_values.contains_key(name@) && e.deep_view()
                    == CodegenErrorView::UnknownIdentifier,
            },
    {
        match self.named_values.find(&String::from_str(name)) {
            Some(i) => Ok(self.named_values.vals[i]),
            None => Err(CodegenError::UnknownIdentifier),
        }
    }

    /// Binds `value` to `name`, which must not be bound yet.
    pub fn insert_named_value(&mut self, name: String, value: IrValue) -> (r: Result<
        (),
        CodegenError,
    >)
        requires
            old(self).wf(),
        ensures
            final(self).wf(),
            match r {
                Ok(_) => {
                    &&& !old(self).deep_view().named_values.contains_key(name@)
                    &&& final(self).deep_view() == (LLVMView {
                        named_values: old(self).deep_view().named_values.insert(name@, value),
                        ..old(self).deep_view()
                    })
                },
                Err(e) => {
                    &&& old(self).deep_view().named_values.contains_key(name@)
                    &&& final(self).deep_view() == old(self).deep_view()
                    &&& e.deep_view() == CodegenErrorView::DuplicateIdentifier
                },
            },
    {
        if self.named_values.find(&name).is_some() {
            return Err(CodegenError::DuplicateIdentifier);
        }
        self.named_values.put(name, value);
        Ok(())
    }

    pub fn void_type() -> (ty: IrType)
        ensures
            ty == IrType::Void,
    {
        IrType::Void
    }

    pub fn i32_type() -> (ty: IrType)
        ensures
            ty == IrType::I32,
    {
        IrType::I32
    }

    pub fn i64_type() -> (ty: IrType)
        ensures
            ty == IrType::I64,
    {
        IrType::I64
    }

    pub fn pointer_type() -> (ty: IrType)
        ensures
            ty == IrType::Ptr,
    {
        IrType::Ptr
    }

    pub fn thunk_type() -> (ty: IrType)
        ensures
            ty == IrType::Thunk,
    {
        IrType::Thunk
    }

    pub fn function_type(ret_ty: IrType, arg_tys: Vec<IrType>) -> (ty: IrFnType)
        ensures
            ty == (IrFnType { ret: ret_ty, params: arg_tys }),
    {
        IrFnType { ret: ret_ty, params: arg_tys }
    }

    pub fn const_i32(value: i32) -> (v: IrValue)
        ensures
            v == IrValue::ConstI32(value),
    {
        IrValue::ConstI32(value)
    }

    pub fn const_i64(value: i64) -> (v: IrValue)
        ensures
            v == IrValue::ConstI64(value),
    {
        IrValue::ConstI64(value)
    }

    pub fn const_null() -> (v: IrValue)
        ensures
            v == IrValue::Null,
    {
        IrValue::Null
    }

    /// Gives `value` the name `name`.
    pub fn set_value_name(&mut self, value: IrValue, name: &str)
        ensures
            final(self).wf() == old(self).wf(),
            final(self).deep_view() == (LLVMView {
                value_names: old(self).deep_view().value_names.push((value, name@)),
                ..old(self).deep_view()
            }),
    {
        let ghost before = self.value_names.deep_view();
        self.value_names.push((value, String::from_str(name)));
        assert(self.value_names.deep_view() =~= before.push((value, name@)));
    }

    /// The index of the function named `name`, if the module has one.
    #[verifier::rlimit(50)]
    fn find_function_index(&self, name: &str) -> (r: Option<usize>)
        ensures
            match r {
                Some(i) => find_function(self.deep_view().functions, name@) == Some(i as int) && i
                    < self.functions.len(),
                None => find_function(self.deep_view().functions, name@) is None,
            },
    {
        let ghost functions = self.deep_view().functions;
        let wanted = String::from_str(name);
        let mut i: usize = self.functions.len();
        assert(functions.subrange(0, i as int) =~= functions);
        while i > 0
            invariant
                i <= self.functions.len(),
                functions == self.deep_view().functions,
                wanted@ == name@,
                find_function(functions, name@) == find_function(
                    functions.subrange(0, i as int),
                    name@,
                ),
            decreases i,
        {
            let ghost prefix = functions.subrange(0, i as int);
            assert(prefix.drop_last() =~= functions.subrange(0, i - 1));
            assert(prefix.last() == self.functions@[i - 1].deep_view());
            if !self.functions[i - 1].deleted && self.functions[i - 1].name == wanted {
                return Some(i - 1);
            }
            i -= 1;
        }
        None
    }

    /// Adds the declaration of the function `name`, whose name must be free.
    #[verifier::rlimit(50)]
    pub fn add_function(&mut self, name: &str, fn_ty: IrFnType) -> (r: Result<IrValue, CodegenError>)
        requires
            old(self).wf(),
        ensures
            final(self).wf(),
            match r {
                Ok(value) => {
                    &&& find_function(old(self).deep_view().functions, name@) is None
                    &&& value == IrValue::Function(old(self).deep_view().functions.len() as usize)
                    &&& final(self).deep_view() == old(self).deep_view().with_function(
                        name@,
                        fn_ty.deep_view(),
                    )
                },
                Err(e) => {
                    &&& find_function(old(self).deep_view().functions, name@) is Some
                    &&& final(self).deep_view() == old(self).deep_view()
                    &&& e.deep_view() == CodegenErrorView::FunctionRedefined
                },
            },
    {
        if self.find_function_index(name).is_some() {
            return Err(CodegenError::FunctionRedefined);
        }
        let index: usize = self.functions.len();
        let ghost before = self.functions.deep_view();
        let function = IrFunction {
            name: String::from_str(name),
            ty: fn_ty,
            blocks: Vec::new(),
            deleted: false,
        };
        assert(function.blocks.deep_view() =~= Seq::<IrBasicBlockView>::empty());
        self.functions.push(function);
        assert(self.functions.deep_view() =~= before.push(function.deep_view()));
        proof {
            assert forall|i: int, j: int|
                0 <= i < j < self.deep_view().functions.len() && !(
                #[trigger] self.deep_view().functions[i]).deleted && !(
                #[trigger] self.deep_view().functions[j]).deleted implies self.deep_view().functions[i].name
                != self.deep_view().functions[j].name by {
                if j == before.len() {
                    lemma_not_found(before, name@, i);
                } else {
                    assert(before[i] == self.deep_view().functions[i]);
                    assert(before[j] == self.deep_view().functions[j]);
                }
            }
        }
        Ok(IrValue::Function(index))
    }

    /// The function named `name`.
    pub fn get_named_function(&self, name: &str) -> (r: Result<IrValue, CodegenError>)
        ensures
            match r {
                Ok(value) => find_function(self.deep_view().functions, name@) matches Some(i)
                    && value == IrValue::Function(i as usize),
                Err(e) => find_function(self.deep_view().functions, name@) is None && e.deep_view()
                    == CodegenErrorView::NullPointer,
            },
    {
        match self.find_function_index(name) {
            Some(i) => Ok(IrValue::Function(i)),
            None => Err(CodegenError::NullPointer),
        }
    }

    /// Deletes the function `fn_value`; a value that is no function of the module is
    /// left alone.
    #[verifier::rlimit(50)]
    pub fn delete_function(&mut self, fn_value: IrValue)
        requires
            old(self).wf(),
        ensures
            final(self).wf(),
            final(self).deep_view() == match fn_value {
                IrValue::Function(f) => if f < old(self).deep_view().functions.len() {
                    old(self).deep_view().without_function(f as int)
                } else {
                    old(self).deep_view()
                },
                _ => old(self).deep_view(),
            },
    {
        match fn_value {
            IrValue::Function(f) => {
                if f < self.functions.len() {
                    let ghost before = self.functions.deep_view();
                    self.functions[f].deleted = true;
                    assert(self.functions.deep_view() =~= before.update(
                        f as int,
                        IrFunctionView { deleted: true, ..before[f as int] },
                    ));
                    proof {
                        assert forall|i: int, j: int|
                            0 <= i < j < self.deep_view().functions.len() && !(
                            #[trigger] self.deep_view().functions[i]).deleted && !(
                            #[trigger] self.deep_view().functions[j]).deleted implies self.deep_view().functions[i].name
                            != self.deep_view().functions[j].name by {
                            assert(before[i].name == self.deep_view().functions[i].name);
                            assert(before[j].name == self.deep_view().functions[j].name);
                            assert(!before[i].deleted && !before[j].deleted);
                        }
                    }
                }
            },
            _ => {},
        }
    }

    /// The parameter `index` of the function `fn_value`.
    #[verifier::rlimit(50)]
    pub fn get_param(&self, fn_value: IrValue, index: usize) -> (r: Result<IrValue, CodegenError>)
        ensures
            match r {
                Ok(value) => {
                    &&& fn_value matches IrValue::Function(f)
                    &&& f < self.deep_view().functions.len()
                    &&& index < self.deep_view().functions[f as int].ty.params.len()
                    &&& value == IrValue::Param { func: f, index }
                },
                Err(e) => {
                    &&& !(fn_value matches IrValue::Function(f) && f
                        < self.deep_view().functions.len() && index
                        < self.deep_view().functions[f as int].ty.params.len())
                    &&& e.deep_view() == CodegenErrorView::NullPointer
                },
            },
    {
        match fn_value {
            IrValue::Function(f) => {
                if f < self.functions.len() && index < self.functions[f].ty.params.len() {
                    assert(self.deep_view().functions[f as int] == self.functions@[f as int].deep_view());
                    Ok(IrValue::Param { func: f, index })
                } else {
                    proof {
                        if f < self.functions.len() {
                            assert(self.deep_view().functions[f as int]
                                == self.functions@[f as int].deep_view());
                        }
                    }
                    Err(CodegenError::NullPointer)
                }
            },
            _ => Err(CodegenError::NullPointer),
        }
    }

    /// The number of blocks of the function `fn_value`; 0 for what is no function of
    /// the module.
    pub fn count_basic_blocks(&self, fn_value: IrValue) -> (n: usize)
        ensures
            n == match fn_value {
                IrValue::Function(f) => if f < self.deep_view().functions.len() {
                    self.deep_view().functions[f as int].blocks.len()
                } else {
                    0
                },
                _ => 0,
            },
    {
        match fn_value {
            IrValue::Function(f) => {
                if f < self.functions.len() {
                    assert(self.deep_view().functions[f as int] == self.functions@[f as int].deep_view());
                    self.functions[f].blocks.len()
                } else {
                    0
                }
            },
            _ => 0,
        }
    }

    /// Adds an empty block named `name` at the end of the function `fn_value`.
    #[verifier::rlimit(50)]
    pub fn append_basic_block(&mut self, fn_value: IrValue, name: &str) -> (r: Result<
        IrBlock,
        CodegenError,
    >)
        requires
            old(self).wf(),
        ensures
            final(self).wf(),
            match r {
                Ok(block) => {
                    &&& fn_value matches IrValue::Function(f)
                    &&& f < old(self).deep_view().functions.len()
                    &&& block == (IrBlock {
                        func: f,
                        block: old(self).deep_view().functions[f as int].blocks.len() as usize,
                    })
                    &&& final(self).deep_view() == old(self).deep_view().with_block(f as int, name@)
                },
                Err(e) => {
                    &&& !(fn_value matches IrValue::Function(f) && f
                        < old(self).deep_view().functions.len())
                    &&& final(self).deep_view() == old(self).deep_view()
                    &&& e.deep_view() == CodegenErrorView::NullPointer
                },
            },
    {
        match fn_value {
            IrValue::Function(f) => {
                if f < self.functions.len() {
                    let ghost before = self.functions.deep_view();
                    let ghost blocks = self.functions@[f as int].blocks.deep_view();
                    let index: usize = self.functions[f].blocks.len();
                    let block = IrBasicBlock { name: String::from_str(name), insts: Vec::new() };
                    assert(block.insts.deep_view() =~= Seq::<IrInstView>::empty());
                    self.functions[f].blocks.push(block);
                    assert(self.functions@[f as int].blocks.deep_view() =~= blocks.push(
                        block.deep_view(),
                    ));
                    assert(self.functions.deep_view() =~= before.update(
                        f as int,
                        IrFunctionView { blocks: blocks.push(block.deep_view()), ..before[f as int] },
                    ));
                    proof {
                        assert forall|i: int, j: int|
                            0 <= i < j < self.deep_view().functions.len() && !(
                            #[trigger] self.deep_view().functions[i]).deleted && !(
                            #[trigger] self.deep_view().functions[j]).deleted implies self.deep_view().functions[i].name
                            != self.deep_view().functions[j].name by {
                            assert(before[i].name == self.deep_view().functions[i].name);
                            assert(before[j].name == self.deep_view().functions[j].name);
                            assert(!before[i].deleted && !before[j].deleted);
                        }
                    }
                    Ok(IrBlock { func: f, block: index })
                } else {
                    Err(CodegenError::NullPointer)
                }
            },
            _ => Err(CodegenError::NullPointer),
        }
    }

    /// Lets the builder append at the end of `block`.
    pub fn position_builder_at_end(&mut self, block: IrBlock)
        ensures
            final(self).wf() == old(self).wf(),
            final(self).deep_view() == (LLVMView { position: Some(block), ..old(self).deep_view() }),
    {
        self.position = Some(block);
    }

    /// Appends `inst` where the builder stands and gives back the value it makes.
    #[verifier::rlimit(50)]
    pub fn build(&mut self, inst: IrInst) -> (r: Result<IrValue, CodegenError>)
        requires
            old(self).wf(),
        ensures
            final(self).wf(),
            keeps_functions(old(self).deep_view(), final(self).deep_view()),
            built(old(self).deep_view(), inst.deep_view(), final(self).deep_view(), r),
    {
        let at = match self.position {
            Some(at) => at,
            None => {
                return Err(CodegenError::NullPointer);
            },
        };
        if at.func >= self.functions.len() {
            return Err(CodegenError::NullPointer);
        }
        assert(self.deep_view().functions[at.func as int] == self.functions@[at.func as int].deep_view());
        if at.block >= self.functions[at.func].blocks.len() {
            return Err(CodegenError::NullPointer);
        }
        let ghost before = self.functions.deep_view();
        let ghost blocks = self.functions@[at.func as int].blocks.deep_view();
        let ghost insts = self.functions@[at.func as int].blocks@[at.block as int].insts.deep_view();
        assert(blocks[at.block as int]
            == self.functions@[at.func as int].blocks@[at.block as int].deep_view());
        let index: usize = self.functions[at.func].blocks[at.block].insts.len();
        self.functions[at.func].blocks[at.block].insts.push(inst);
        assert(self.functions@[at.func as int].blocks@[at.block as int].insts.deep_view()
            =~= insts.push(inst.deep_view()));
        assert(self.functions@[at.func as int].blocks.deep_view() =~= blocks.update(
            at.block as int,
            IrBasicBlockView { insts: insts.push(inst.deep_view()), ..blocks[at.block as int] },
        ));
        assert(self.functions.deep_view() =~= before.update(
            at.func as int,
            IrFunctionView {
                blocks: blocks.update(
                    at.block as int,
                    IrBasicBlockView { insts: insts.push(inst.deep_view()), ..blocks[at.block as int] },
                ),
                ..before[at.func as int]
            },
        ));
        proof {
            assert forall|i: int, j: int|
                0 <= i < j < self.deep_view().functions.len() && !(
                #[trigger] self.deep_view().functions[i]).deleted && !(
                #[trigger] self.deep_view().functions[j]).deleted implies self.deep_view().functions[i].name
                != self.deep_view().functions[j].name by {
                assert(before[i].name == self.deep_view().functions[i].name);
                assert(before[j].name == self.deep_view().functions[j].name);
                assert(!before[i].deleted && !before[j].deleted);
            }
        }
        Ok(IrValue::Inst { func: at.func, block: at.block, index })
    }

    /// Builds the call of `fn_value`, a function of the type `fn_ty`, with `args`.
    pub fn build_call(&mut self, fn_ty: IrFnType, fn_value: IrValue, args: Vec<IrValue>, name: &str) -> (r:
        Result<IrValue, CodegenError>)
        requires
            old(self).wf(),
        ensures
            final(self).wf(),
            keeps_functions(old(self).deep_view(), final(self).deep_view()),
            built(
                old(self).deep_view(),
                IrInstView::Call {
                    fn_ty: fn_ty.deep_view(),
                    callee: fn_value,
                    args: args.deep_view(),
                    name: name@,
                },
                final(self).deep_view(),
                r,
            ),
    {
        self.build(IrInst::Call { fn_ty, callee: fn_value, args, name: String::from_str(name) })
    }

    /// Builds the operation `op` on `lhs` and `rhs`.
    pub fn build_binary(&mut self, op: IrBinOp, lhs: IrValue, rhs: IrValue, name: &str) -> (r: Result<
        IrValue,
        CodegenError,
    >)
        requires
            old(self).wf(),
        ensures
            final(self).wf(),
            keeps_functions(old(self).deep_view(), final(self).deep_view()),
            built(
                old(self).deep_view(),
                IrInstView::Binary { op, lhs, rhs, name: name@ },
                final(self).deep_view(),
                r,
            ),
    {
        self.build(IrInst::Binary { op, lhs, rhs, name: String::from_str(name) })
    }

    pub fn build_add(&mut self, lhs: IrValue, rhs: IrValue, name: &str) -> (r: Result<
        IrValue,
        CodegenError,
    >)
        requires
            old(self).wf(),
        ensures
            final(self).wf(),
            keeps_functions(old(self).deep_view(), final(self).deep_view()),
            built(
                old(self).deep_view(),
                IrInstView::Binary { op: IrBinOp::Add, lhs, rhs, name: name@ },
                final(self).deep_view(),
                r,
            ),
    {
        self.build_binary(IrBinOp::Add, lhs, rhs, name)
    }

    pub fn build_sub(&mut self, lhs: IrValue, rhs: IrValue, name: &str) -> (r: Result<
        IrValue,
        CodegenError,
    >)
        requires
            old(self).wf(),
        ensures
            final(self).wf(),
            keeps_functions(old(self).deep_view(), final(self).deep_view()),
            built(
                old(self).deep_view(),
                IrInstView::Binary { op: IrBinOp::Sub, lhs, rhs, name: name@ },
                final(self).deep_view(),
                r,
            ),
    {
        self.build_binary(IrBinOp::Sub, lhs, rhs, name)
    }

    pub fn build_mul(&mut self, lhs: IrValue, rhs: IrValue, name: &str) -> (r: Result<
        IrValue,
        CodegenError,
    >)
        requires
            old(self).wf(),
        ensures
            final(self).wf(),
            keeps_functions(old(self).deep_view(), final(self).deep_view()),
            built(
                old(self).deep_view(),
                IrInstView::Binary { op: IrBinOp::Mul, lhs, rhs, name: name@ },
                final(self).deep_view(),
                r,
            ),
    {
        self.build_binary(IrBinOp::Mul, lhs, rhs, name)
    }

    pub fn build_div(&mut self, lhs: IrValue, rhs: IrValue, name: &str) -> (r: Result<
        IrValue,
        CodegenError,
    >)
        requires
            old(self).wf(),
        ensures
            final(self).wf(),
            keeps_functions(old(self).deep_view(), final(self).deep_view()),
            built(
                old(self).deep_view(),
                IrInstView::Binary { op: IrBinOp::Div, lhs, rhs, name: name@ },
                final(self).deep_view(),
                r,
            ),
    {
        self.build_binary(IrBinOp::Div, lhs, rhs, name)
    }

    pub fn build_eq(&mut self, lhs: IrValue, rhs: IrValue, name: &str) -> (r: Result<
        IrValue,
        CodegenError,
    >)
        requires
            old(self).wf(),
        ensures
            final(self).wf(),
            keeps_functions(old(self).deep_view(), final(self).deep_view()),
            built(
                old(self).deep_view(),
                IrInstView::Binary { op: IrBinOp::Eq, lhs, rhs, name: name@ },
                final(self).deep_view(),
                r,
            ),
    {
        self.build_binary(IrBinOp::Eq, lhs, rhs, name)
    }

    pub fn build_neg(&mut self, rhs: IrValue, name: &str) -> (r: Result<IrValue, CodegenError>)
        requires
            old(self).wf(),
        ensures
            final(self).wf(),
            keeps_functions(old(self).deep_view(), final(self).deep_view()),
            built(
                old(self).deep_view(),
                IrInstView::Neg { value: rhs, name: name@ },
                final(self).deep_view(),
                r,
            ),
    {
        self.build(IrInst::Neg { value: rhs, name: String::from_str(name) })
    }

    pub fn build_ret_void(&mut self) -> (r: Result<IrValue, CodegenError>)
        requires
            old(self).wf(),
        ensures
            final(self).wf(),
            keeps_functions(old(self).deep_view(), final(self).deep_view()),
            built(old(self).deep_view(), IrInstView::RetVoid, final(self).deep_view(), r),
    {
        self.build(IrInst::RetVoid)
    }

    pub fn build_ret(&mut self, ret_value: IrValue) -> (r: Result<IrValue, CodegenError>)
        requires
            old(self).wf(),
        ensures
            final(self).wf(),
            keeps_functions(old(self).deep_view(), final(self).deep_view()),
            built(old(self).deep_view(), IrInstView::Ret(ret_value), final(self).deep_view(), r),
    {
        self.build(IrInst::Ret(ret_value))
    }

    pub fn build_alloca(&mut self, ty: IrType, name: &str) -> (r: Result<IrValue, CodegenError>)
        requires
            old(self).wf(),
        ensures
            final(self).wf(),
            keeps_functions(old(self).deep_view(), final(self).deep_view()),
            built(
                old(self).deep_view(),
                IrInstView::Alloca { ty, name: name@ },
                final(self).deep_view(),
                r,
            ),
    {
        self.build(IrInst::Alloca { ty, name: String::from_str(name) })
    }

    pub fn build_load(&mut self, ty: IrType, ptr_value: IrValue, name: &str) -> (r: Result<
        IrValue,
        CodegenError,
    >)
        requires
            old(self).wf(),
        ensures
            final(self).wf(),
            keeps_functions(old(self).deep_view(), final(self).deep_view()),
            built(
                old(self).deep_view(),
                IrInstView::Load { ty, ptr: ptr_value, name: name@ },
                final(self).deep_view(),
                r,
            ),
    {
        self.build(IrInst::Load { ty, ptr: ptr_value, name: String::from_str(name) })
    }

    pub fn build_store(&mut self, value: IrValue, ptr_value: IrValue) -> (r: Result<
        IrValue,
        CodegenError,
    >)
        requires
            old(self).wf(),
        ensures
            final(self).wf(),
            keeps_functions(old(self).deep_view(), final(self).deep_view()),
            built(
                old(self).deep_view(),
                IrInstView::Store { value, ptr: ptr_value },
                final(self).deep_view(),
                r,
            ),
    {
        self.build(IrInst::Store { value, ptr: ptr_value })
    }

    /// Builds the address of the field `index` of the record of the type `ty` to which
    /// `ptr_value` points.
    pub fn build_struct_gep(&mut self, ty: IrType, ptr_value: IrValue, index: i32, name: &str) -> (r:
        Result<IrValue, CodegenError>)
        requires
            old(self).wf(),
        ensures
            final(self).wf(),
            keeps_functions(old(self).deep_view(), final(self).deep_view()),
            built(
                old(self).deep_view(),
                struct_gep(ty, ptr_value, index, name@),
                final(self).deep_view(),
                r,
            ),
    {
        let mut indices: Vec<IrValue> = Vec::new();
        indices.push(IrValue::ConstI64(0));
        indices.push(IrValue::ConstI32(index));
        assert(indices.deep_view() =~= seq![IrValue::ConstI64(0), IrValue::ConstI32(index)]);
        self.build(IrInst::Gep { ty, ptr: ptr_value, indices, name: String::from_str(name) })
    }

    /// Builds the address of the element `index` of the array of `ty` at which
    /// `ptr_value` points.
    pub fn build_element_gep(&mut self, ty: IrType, ptr_value: IrValue, index: i64, name: &str) -> (r:
        Result<IrValue, CodegenError>)
        requires
            old(self).wf(),
        ensures
            final(self).wf(),
            keeps_functions(old(self).deep_view(), final(self).deep_view()),
            built(
                old(self).deep_view(),
                element_gep(ty, ptr_value, index, name@),
                final(self).deep_view(),
                r,
            ),
    {
        let mut indices: Vec<IrValue> = Vec::new();
        indices.push(IrValue::ConstI64(index));
        assert(indices.deep_view() =~= seq![IrValue::ConstI64(index)]);
        self.build(IrInst::Gep { ty, ptr: ptr_value, indices, name: String::from_str(name) })
    }

    pub fn build_br(&mut self, block: IrBlock) -> (r: Result<IrValue, CodegenError>)
        requires
            old(self).wf(),
        ensures
            final(self).wf(),
            keeps_functions(old(self).deep_view(), final(self).deep_view()),
            built(old(self).deep_view(), IrInstView::Br(block), final(self).deep_view(), r),
    {
        self.build(IrInst::Br(block))
    }

    pub fn build_cond_br(&mut self, cond: IrValue, then_block: IrBlock, else_block: IrBlock) -> (r:
        Result<IrValue, CodegenError>)
        requires
            old(self).wf(),
        ensures
            final(self).wf(),
            keeps_functions(old(self).deep_view(), final(self).deep_view()),
            built(
                old(self).deep_view(),
                IrInstView::CondBr { cond, then_block, else_block },
                final(self).deep_view(),
                r,
            ),
    {
        self.build(IrInst::CondBr { cond, then_block, else_block })
    }

    /// Whether every block of the function `fn_value` ends in a terminator and holds
    /// no other. What is no function of the module does not verify.
    pub fn verify_function(&self, fn_value: IrValue) -> (b: bool)
        ensures
            b == match fn_value {
                IrValue::Function(f) => f < self.deep_view().functions.len() && function_verifies(
                    self.deep_view().functions[f as int],
                ),
                _ => false,
            },
    {
        match fn_value {
            IrValue::Function(f) => {
                if f >= self.functions.len() {
                    return false;
                }
                assert(self.deep_view().functions[f as int] == self.functions@[f as int].deep_view());
                self.functions[f].verifies()
            },
            _ => false,
        }
    }
}

impl IrBasicBlock {
    /// Whether the block ends in a terminator and holds no other.
    pub fn verifies(&self) -> (b: bool)
        ensures
            b == block_verifies(self.deep_view()),
    {
        let n: usize = self.insts.len();
        if n == 0 {
            return false;
        }
        let mut i: usize = 0;
        while i < n
            invariant
                i <= n,
                n == self.insts.len(),
                n > 0,
                forall|k: int|
                    0 <= k < i ==> ((#[trigger] self.deep_view().insts[k]).is_terminator() <==> k == n
                        - 1),
            decreases n - i,
        {
            assert(self.deep_view().insts[i as int] == self.insts@[i as int].deep_view());
            if self.insts[i].is_terminator() != (i == n - 1) {
                return false;
            }
            i += 1;
        }
        true
    }
}

impl IrFunction {
    /// Whether every block of the function verifies.
    pub fn verifies(&self) -> (b: bool)
        ensures
            b == function_verifies(self.deep_view()),
    {
        let mut b: usize = 0;
        while b < self.blocks.len()
            invariant
                b <= self.blocks.len(),
                forall|k: int| 0 <= k < b ==> block_verifies(#[trigger] self.deep_view().blocks[k]),
            decreases self.blocks.len() - b,
        {
            assert(self.deep_view().blocks[b as int] == self.blocks@[b as int].deep_view());
            if !self.blocks[b].verifies() {
                return false;
            }
            b += 1;
        }
        true
    }
}

/// Every function of `before` is a function of `after`, with the same name and type,
/// and deleted in the one where it is in the other. Its blocks may have grown.
pub open spec fn keeps_functions(before: LLVMView, after: LLVMView) -> bool {
    &&& before.functions.len() <= after.functions.len()
    &&& forall|i: int|
        0 <= i < before.functions.len() ==> {
            &&& (#[trigger] after.functions[i]).name == before.functions[i].name
            &&& after.functions[i].ty == before.functions[i].ty
            &&& after.functions[i].deleted == before.functions[i].deleted
        }
}

/// The module has a function named `name` of the type `ty`.
pub open spec fn has_function(llvm: LLVMView, name: Seq<char>, ty: IrFnTypeView) -> bool {
    exists|i: int|
        0 <= i < llvm.functions.len() && !(#[trigger] llvm.functions[i]).deleted
            && llvm.functions[i].name == name && llvm.functions[i].ty == ty
}

/// A function that a module has stays a function of every module that keeps its
/// functions.
pub proof fn lemma_keeps_function(a: LLVMView, b: LLVMView, name: Seq<char>, ty: IrFnTypeView)
    requires
        keeps_functions(a, b),
        has_function(a, name, ty),
    ensures
        has_function(b, name, ty),
{
    let i = choose|i: int|
        0 <= i < a.functions.len() && !(#[trigger] a.functions[i]).deleted && a.functions[i].name
            == name && a.functions[i].ty == ty;
    assert(!b.functions[i].deleted && b.functions[i].name == name && b.functions[i].ty == ty);
}

/// In a module without two functions of one name, a function that the module has is
/// the only one of its name, and it is the one that is found under the name.
pub proof fn lemma_function_unique(llvm: LLVMView, name: Seq<char>, ty: IrFnTypeView)
    requires
        llvm.names_unique(),
        has_function(llvm, name, ty),
    ensures
        count_functions(llvm.functions, name) == 1,
        find_function(llvm.functions, name) matches Some(i) && llvm.functions[i].ty == ty,
{
    let i = choose|i: int|
        0 <= i < llvm.functions.len() && !(#[trigger] llvm.functions[i]).deleted
            && llvm.functions[i].name == name && llvm.functions[i].ty == ty;
    lemma_count_unique(llvm.functions, name, i, llvm.functions.len() as int);
    assert(llvm.functions.subrange(0, llvm.functions.len() as int) =~= llvm.functions);
    lemma_find_function(llvm.functions, name);
}

#[verifier::rlimit(50)]
proof fn lemma_count_unique(functions: Seq<IrFunctionView>, name: Seq<char>, i: int, n: int)
    requires
        0 <= i < functions.len(),
        0 <= n <= functions.len(),
        !functions[i].deleted,
        functions[i].name == name,
        forall|j: int, k: int|
            0 <= j < k < functions.len() && !(#[trigger] functions[j]).deleted && !(
            #[trigger] functions[k]).deleted ==> functions[j].name != functions[k].name,
    ensures
        count_functions(functions.subrange(0, n), name) == if i < n {
            1nat
        } else {
            0nat
        },
        i < n ==> find_function(functions.subrange(0, n), name) == Some(i),
        i >= n ==> find_function(functions.subrange(0, n), name) is None,
    decreases n,
{
    if n > 0 {
        lemma_count_unique(functions, name, i, n - 1);
        let prefix = functions.subrange(0, n);
        assert(prefix.drop_last() =~= functions.subrange(0, n - 1));
        assert(prefix.last() == functions[n - 1]);
        if n - 1 != i && !functions[n - 1].deleted {
            if n - 1 < i {
                assert(functions[n - 1].name != functions[i].name);
            } else {
                assert(functions[i].name != functions[n - 1].name);
            }
        }
    }
}

/// The instruction that takes the address of the field `index` of a record.
pub open spec fn struct_gep(ty: IrType, ptr: IrValue, index: i32, name: Seq<char>) -> IrInstView {
    IrInstView::Gep {
        ty,
        ptr,
        indices: seq![IrValue::ConstI64(0), IrValue::ConstI32(index)],
        name,
    }
}

/// The instruction that takes the address of the element `index` of an array.
pub open spec fn element_gep(ty: IrType, ptr: IrValue, index: i64, name: Seq<char>) -> IrInstView {
    IrInstView::Gep { ty, ptr, indices: seq![IrValue::ConstI64(index)], name }
}

/// `r` and `after` are what building `inst` in `before` gives: the value of the new
/// instruction and the module with it, or no change where the builder stands in no
/// block.
pub open spec fn built(
    before: LLVMView,
    inst: IrInstView,
    after: LLVMView,
    r: Result<IrValue, CodegenError>,
) -> bool {
    match r {
        Ok(value) => {
            &&& before.can_build()
            &&& value == before.next_value()
            &&& after == before.with_inst(inst)
        },
        Err(e) => {
            &&& !before.can_build()
            &&& after == before
            &&& e.deep_view() == CodegenErrorView::NullPointer
        },
    }
}

/// Where no function has the name, no function that is left has it.
pub proof fn lemma_not_found(functions: Seq<IrFunctionView>, name: Seq<char>, i: int)
    requires
        find_function(functions, name) is None,
        0 <= i < functions.len(),
        !functions[i].deleted,
    ensures
        functions[i].name != name,
    decreases functions.len(),
{
    if i < functions.len() - 1 {
        lemma_not_found(functions.drop_last(), name, i);
    }
}

} // verus!
