use vstd::prelude::*;
use crate::constant_pool::ConstantPool;
use crate::data_type::TypeTable;
use crate::execution_context::{ContextView, ExecutionContext, RunStatus};
use crate::fault::Fault;
use crate::function::FunctionTable;
use crate::util::index::FunctionIndex;
use crate::value::Value;

verus! {

/// The tables that a running program reads and never changes: constants,
/// functions and types.
pub struct GlobalContext<'a> {
    pub constant_pool: &'a ConstantPool,
    pub function_table: &'a FunctionTable,
    pub type_table: &'a TypeTable,
}

impl<'a> GlobalContext<'a> {
    pub fn new(
        constant_pool: &'a ConstantPool,
        function_table: &'a FunctionTable,
        type_table: &'a TypeTable,
    ) -> (r: Self)
        ensures
            r.constant_pool == constant_pool,
            r.function_table == function_table,
            r.type_table == type_table,
    {
        GlobalContext { constant_pool, function_table, type_table }
    }

    pub fn constant_pool(&self) -> (r: &'a ConstantPool)
        ensures
            r == self.constant_pool,
    {
        self.constant_pool
    }

    pub fn function_table(&self) -> (r: &'a FunctionTable)
        ensures
            r == self.function_table,
    {
        self.function_table
    }

    pub fn type_table(&self) -> (r: &'a TypeTable)
        ensures
            r == self.type_table,
    {
        self.type_table
    }
}

/// A program ready to run: an execution context and the tables it reads.
pub struct VirtualMachine {
    context: ExecutionContext,
    function_table: FunctionTable,
    constants: ConstantPool,
    type_table: TypeTable,
}

impl VirtualMachine {
    /// The state of the execution.
    pub closed spec fn spec_context(&self) -> ContextView {
        self.context@
    }

    pub closed spec fn spec_function_table(&self) -> &FunctionTable {
        &self.function_table
    }

    pub closed spec fn spec_constants(&self) -> &ConstantPool {
        &self.constants
    }

    pub closed spec fn spec_type_table(&self) -> &TypeTable {
        &self.type_table
    }

    /// The tables of the machine.
    pub open spec fn spec_globals(&self) -> GlobalContext<'_> {
        GlobalContext {
            constant_pool: self.spec_constants(),
            function_table: self.spec_function_table(),
            type_table: self.spec_type_table(),
        }
    }

    pub fn new(
        context: ExecutionContext,
        function_table: FunctionTable,
        constants: ConstantPool,
        type_table: TypeTable,
    ) -> (vm: Self)
        ensures
            vm.spec_context() == context@,
            *vm.spec_function_table() == function_table,
            *vm.spec_constants() == constants,
            *vm.spec_type_table() == type_table,
    {
        VirtualMachine { context, function_table, constants, type_table }
    }

    /// The execution context.
    pub fn context(&self) -> (context: &ExecutionContext)
        ensures
            context@ == self.spec_context(),
    {
        &self.context
    }

    /// Pushes `value` on the operand stack: the way for the host to hand
    /// in the result of arithmetic on floats.
    pub fn push_value(&mut self, value: Value)
        ensures
            final(self).spec_context() == old(self).spec_context().push(value),
            final(self).spec_function_table() == old(self).spec_function_table(),
            final(self).spec_constants() == old(self).spec_constants(),
            final(self).spec_type_table() == old(self).spec_type_table(),
    {
        self.context.push_value(value);
    }

    /// Runs the function `entrypoint` from its first instruction for at
    /// most `fuel` steps, as `ExecutionContext::run` does on the machine's
    /// tables.
    pub fn run(&mut self, entrypoint: FunctionIndex, fuel: u64, output: &mut Vec<Value>) -> (r: Result<
        RunStatus,
        Fault,
    >)
        ensures
            final(self).spec_context().heap.wf(),
            old(self).spec_context().frames.len() == 0 ==> final(self).spec_context().wf(
                &final(self).spec_globals(),
            ),
            final(self).spec_globals() == old(self).spec_globals(),
            old(self).spec_context().run(&old(self).spec_globals(), entrypoint@, fuel as nat).state == final(self).spec_context(),
            old(self).spec_context().run(&old(self).spec_globals(), entrypoint@, fuel as nat).result == r,
            final(output)@ == old(output)@ + old(self).spec_context().run(
                &old(self).spec_globals(),
                entrypoint@,
                fuel as nat,
            ).printed,
    {
        let global_context = GlobalContext::new(&self.constants, &self.function_table, &self.type_table);
        self.context.run(&global_context, entrypoint, fuel, output)
    }

    /// Goes on with an execution that `run` or `resume` left, for at most
    /// `fuel` steps more, as `ExecutionContext::resume` does.
    pub fn resume(&mut self, fuel: u64, output: &mut Vec<Value>) -> (r: Result<RunStatus, Fault>)
        ensures
            final(self).spec_context().heap.wf(),
            old(self).spec_context().wf(&old(self).spec_globals()) ==> final(self).spec_context().wf(
                &final(self).spec_globals(),
            ),
            final(self).spec_globals() == old(self).spec_globals(),
            old(self).spec_context().resume(&old(self).spec_globals(), fuel as nat).state == final(self).spec_context(),
            old(self).spec_context().resume(&old(self).spec_globals(), fuel as nat).result == r,
            final(output)@ == old(output)@ + old(self).spec_context().resume(
                &old(self).spec_globals(),
                fuel as nat,
            ).printed,
    {
        let global_context = GlobalContext::new(&self.constants, &self.function_table, &self.type_table);
        self.context.resume(&global_context, fuel, output)
    }
}

} // verus!
