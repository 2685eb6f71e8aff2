pub mod program;

use vstd::prelude::*;

use crate::ast::program::{program_of, Program};
use crate::constant::{constant_pool, live_constants, Constant};
use crate::encoding::Encoding;
use crate::engine::{EngineOutput, NodeKind};
use crate::error::Error;

verus! {

/// The tree of one parse: the validated root and the used constant pool.
#[derive(Debug)]
pub struct Ast {
    root: Program,
    constants: Vec<Constant>,
    encoding: Encoding,
}

impl Ast {
    pub closed spec fn root_spec(&self) -> Program {
        self.root
    }

    pub closed spec fn constants_spec(&self) -> Seq<Constant> {
        self.constants@
    }

    pub closed spec fn encoding_spec(&self) -> Seq<char> {
        self.encoding@
    }

    /// Builds the tree view from what the engine left behind: fails with
    /// `NotAProgram` unless the root is the top-level program node.
    pub fn try_new(output: &EngineOutput) -> (r: Result<Ast, Error>)
        ensures
            output.root.kind != NodeKind::Program ==> r == Err::<Ast, Error>(Error::NotAProgram),
            output.root.kind == NodeKind::Program ==> r is Ok,
            r matches Ok(a) ==> {
                &&& a.root_spec()@ == program_of(output.root, output.start)
                &&& a.constants_spec().len() == live_constants(output.constants@).len()
                &&& forall|i: int|
                    0 <= i < a.constants_spec().len() ==> (#[trigger] a.constants_spec()[i])@
                        == live_constants(output.constants@)[i]
                &&& a.encoding_spec() == output.encoding_name@
            },
    {
        let root = Program::try_new(&output.root, output.start)?;
        let constants = constant_pool(&output.constants);
        let encoding = Encoding::new(output.encoding_name.clone());
        Ok(Ast { root, constants, encoding })
    }

    pub fn root(&self) -> (r: &Program)
        ensures
            *r == self.root_spec(),
    {
        &self.root
    }

    pub fn constants(&self) -> (r: &[Constant])
        ensures
            r@ == self.constants_spec(),
    {
        self.constants.as_slice()
    }

    pub fn encoding(&self) -> (r: &Encoding)
        ensures
            r@ == self.encoding_spec(),
    {
        &self.encoding
    }
}

} // verus!
