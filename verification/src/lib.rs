//! A stack-based bytecode virtual machine: packed 32-bit instructions, a typed
//! operand stack, byte-addressable frame locals, and a reference-counted heap.

pub mod constant_pool;
pub mod data_type;
pub mod execution_context;
pub mod fault;
pub mod function;
pub mod heap;
pub mod instruction;
pub mod local;
pub mod machine_laws;
pub mod memory;
pub mod module_registry;
pub mod program;
pub mod util;
pub mod value;
pub mod vm;

pub use constant_pool::ConstantPool;
pub use data_type::{Field, TypeDefinition, TypeId, TypeTable};
pub use execution_context::{Effect, ExecutionContext, RunStatus};
pub use fault::Fault;
pub use function::{Function, FunctionId, FunctionTable};
pub use instruction::{Instruction, Opcode};
pub use local::LocalSlots;
pub use module_registry::{ModuleName, ModuleRegistry};
pub use util::index::{ConstantIndex, FunctionIndex, InstructionIndex, LocalIndex, TypeIndex};
pub use value::{Value, ValueType};
pub use vm::{GlobalContext, VirtualMachine};
