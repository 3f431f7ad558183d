//! The finished product of a code generation.

use crate::codegen::assembly::{generated, initial};
use crate::codegen::error::Halt;
use crate::codegen::native::Emitted;
use crate::codegen::target::TargetInfo;
use crate::codegen::Generator;
use crate::ir::SrcModule;
use vstd::prelude::*;

verus! {

/// A generated module: the native code, in emission order, beside the
/// shader module it was generated from.
#[derive(Debug)]
pub struct Module {
    pub src: SrcModule,
    /// The module's identifier.
    pub name: String,
    /// The name of the file that the shader came from.
    pub source_file: String,
    pub code: Vec<Emitted>,
}

impl Module {
    /// The shader module that this module was generated from.
    pub fn src(&self) -> (src: &SrcModule)
        ensures
            *src == self.src,
    {
        &self.src
    }
}

/// Generation as a method of what is generated from.
pub trait CodegenExt: Sized {
    /// Whether `module` is what generation makes of `self`, which came
    /// from the file `file_name`, for the target `target_info`.
    spec fn generates(self, file_name: Seq<char>, target_info: TargetInfo, module: Result<
        Module,
        Halt,
    >) -> bool;

    /// Generates the native module of `self`.
    fn generate(self, file_name: &str, target_info: TargetInfo) -> (module: Result<Module, Halt>)
        ensures
            self.generates(file_name@, target_info, module),
    ;
}

impl CodegenExt for SrcModule {
    /// A generator that starts from the module runs to its end.
    open spec fn generates(self, file_name: Seq<char>, target_info: TargetInfo, module: Result<
        Module,
        Halt,
    >) -> bool {
        let run = generated(initial(self, file_name, target_info), self.functions.items());
        match module {
            Ok(module) => run.1.is_ok() && module.holds(run.0, self.functions),
            Err(halt) => run.1 == Err::<(), Halt>(halt),
        }
    }

    fn generate(self, file_name: &str, target_info: TargetInfo) -> (module: Result<Module, Halt>) {
        Generator::new(self, file_name, target_info).try_generate()
    }
}

} // verus!
