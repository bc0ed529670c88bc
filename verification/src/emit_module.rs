//! Emits a translated module to a native object file.
//!
//! The functions of a module are taken one after the other. Each is verified,
//! compiled, emitted into a buffer of the size that compiling reported, and
//! added to the artifact; the first that fails ends the emission. Verifying,
//! compiling and emitting are the code generator's work, done by whoever
//! drives the emission. What is decided here is what follows from each answer:
//! [`start`] and the methods of [`VerifyJob`], [`CompileJob`] and [`EmitJob`]
//! each say what is to be done next.

use crate::artifact::add_code;
use crate::artifact::admits_function;
use crate::artifact::artifact_declarations;
use crate::artifact::artifact_definitions;
use crate::artifact::Declaration;
use crate::pretty_error::error_text;
use crate::pretty_error::pretty_error;
use crate::pretty_error::pretty_verifier_error;
use crate::pretty_error::verifier_error_text;
use crate::pretty_error::CtonError;
use crate::pretty_error::VerifierError;
use crate::reloc_sink::CodeOffset;
use crate::reloc_sink::FaerieRelocSink;
use crate::reloc_sink::RelocSinkView;
use faerie::Artifact;
use vstd::prelude::*;
use vstd::string::StringExecFns;

verus! {

broadcast use vstd::std_specs::hash::group_hash_axioms;

/// The name under which the code of every function is added to the artifact.
/// The functions of a module do not have linkage names of their own yet.
pub open spec fn linkage_name() -> Seq<char> {
    "the_function_name"@
}

/// The error for a function that compiles to no code at all.
pub open spec fn no_code_text() -> Seq<char> {
    "no code generated by Cretonne"@
}

/// The error for an artifact that has the linkage name declared as something
/// other than a global function, and so does not take the code.
pub open spec fn not_admitted_text() -> Seq<char> {
    "the artifact declares the_function_name as something other than a global function"@
}

/// A buffer of `len` bytes, all of them zero.
pub open spec fn zeroed(len: nat) -> Seq<u8> {
    Seq::new(len, |i: int| 0u8)
}

/// A condition that emission cannot go on from: there is no error to return
/// for it, and whoever drives the emission is to stop the process with its
/// message.
#[derive(Clone, Copy, Debug, PartialEq, Eq, Structural)]
pub enum Fatal {
    /// The start function of the module is one of its imported functions.
    ImportedStart,
    /// Emitting a function reported a reference to a jump table.
    JumpTables,
    /// Emitting a function reported a reference to an extended basic block.
    EbbRelocs,
    /// Emitting a function reported a reference to a function.
    FuncRelocs,
}

impl Fatal {
    /// The message to stop the process with.
    pub open spec fn message_text(self) -> Seq<char> {
        match self {
            Fatal::ImportedStart => "imported start functions not supported yet"@,
            Fatal::JumpTables => "jump tables not yet implemented"@,
            Fatal::EbbRelocs => "ebb relocs not yet implemented"@,
            Fatal::FuncRelocs => "function relocs not yet implemented"@,
        }
    }

    /// The message to stop the process with.
    pub fn message(&self) -> (msg: String)
        ensures
            msg@ == self.message_text(),
    {
        match self {
            Fatal::ImportedStart => String::from_str("imported start functions not supported yet"),
            Fatal::JumpTables => String::from_str("jump tables not yet implemented"),
            Fatal::EbbRelocs => String::from_str("ebb relocs not yet implemented"),
            Fatal::FuncRelocs => String::from_str("function relocs not yet implemented"),
        }
    }
}

/// How an emission ended.
#[derive(Debug, PartialEq, Eq)]
pub enum Stop {
    /// Every function of the module was added to the artifact.
    Finished,
    /// A function failed, with the diagnostic to return.
    Failed(String),
    /// Emission cannot go on.
    Aborted(Fatal),
}

/// The characters of a [`Stop`].
pub enum StopView {
    Finished,
    Failed(Seq<char>),
    Aborted(Fatal),
}

impl View for Stop {
    type V = StopView;

    open spec fn view(&self) -> StopView {
        match self {
            Stop::Finished => StopView::Finished,
            Stop::Failed(msg) => StopView::Failed(msg@),
            Stop::Aborted(fatal) => StopView::Aborted(*fatal),
        }
    }
}

/// A function of the module waits to be verified.
pub struct VerifyJob {
    function: usize,
    total: usize,
}

/// A function of the module has been verified and waits to be compiled.
pub struct CompileJob {
    function: usize,
    total: usize,
}

/// A function of the module has been compiled and waits for its machine code.
pub struct EmitJob {
    function: usize,
    total: usize,
}

/// How an emission goes on once a function has been dealt with, and how it
/// begins.
pub enum Advance {
    /// Verify the function of the job, then tell the job how it went.
    Verify(VerifyJob),
    /// Nothing is left to do: the emission has ended.
    Stop(Stop),
}

/// What an [`Advance`] asks for: the function to verify by its index in the
/// module, with the number of the module's functions.
pub enum AdvanceView {
    Verify { function: int, total: int },
    Stop(StopView),
}

impl View for Advance {
    type V = AdvanceView;

    open spec fn view(&self) -> AdvanceView {
        match self {
            Advance::Verify(job) => AdvanceView::Verify { function: job.index(), total: job.total() },
            Advance::Stop(stop) => AdvanceView::Stop(stop@),
        }
    }
}

/// How an emission goes on once a function has been compiled.
pub enum Compiled {
    /// Emit the machine code of the job's function into `code_buf`, with
    /// `relocsink` as the sink for the relocations, then hand both to the job.
    Emit { job: EmitJob, code_buf: Vec<u8>, relocsink: FaerieRelocSink },
    /// Nothing is left to do: the emission has ended.
    Stop(Stop),
}

/// What a [`Compiled`] asks for: the function to emit by its index in the
/// module, with the number of the module's functions, and what the buffer and
/// the sink for it hold.
pub enum CompiledView {
    Emit { function: int, total: int, code_buf: Seq<u8>, relocsink: RelocSinkView },
    Stop(StopView),
}

impl View for Compiled {
    type V = CompiledView;

    open spec fn view(&self) -> CompiledView {
        match self {
            Compiled::Emit { job, code_buf, relocsink } => CompiledView::Emit {
                function: job.index(),
                total: job.total(),
                code_buf: code_buf@,
                relocsink: relocsink@,
            },
            Compiled::Stop(stop) => CompiledView::Stop(stop@),
        }
    }
}

/// A start function is supported unless it is one of the imported functions,
/// which have the indices below their number.
pub open spec fn start_supported(start_index: Option<usize>, imported_funcs: usize) -> bool {
    match start_index {
        Some(index) => index >= imported_funcs,
        None => true,
    }
}

/// What follows when `done` of the `total` functions of a module have been
/// added: the next one is verified, or the emission has finished.
pub open spec fn next_function(done: int, total: int) -> AdvanceView {
    if done < total {
        AdvanceView::Verify { function: done, total }
    } else {
        AdvanceView::Stop(StopView::Finished)
    }
}

/// How an emission begins for a module of `total` functions.
pub open spec fn first_step(
    total: usize,
    start_index: Option<usize>,
    imported_funcs: usize,
) -> AdvanceView {
    if start_supported(start_index, imported_funcs) {
        next_function(0, total as int)
    } else {
        AdvanceView::Stop(StopView::Aborted(Fatal::ImportedStart))
    }
}

/// What follows when the function `function` has compiled to `code_size`
/// bytes.
pub open spec fn after_compile(function: int, total: int, code_size: CodeOffset) -> CompiledView {
    if code_size == 0 {
        CompiledView::Stop(StopView::Failed(no_code_text()))
    } else {
        CompiledView::Emit {
            function,
            total,
            code_buf: zeroed(code_size as nat),
            relocsink: RelocSinkView::empty(),
        }
    }
}

/// The first kind of relocation among those recorded that emission cannot
/// go on from: jump tables come before blocks, and blocks before functions.
pub open spec fn unsupported_relocation(relocs: RelocSinkView) -> Option<Fatal> {
    if !relocs.jts.is_empty() {
        Some(Fatal::JumpTables)
    } else if !relocs.ebbs.is_empty() {
        Some(Fatal::EbbRelocs)
    } else if !relocs.funcs.is_empty() {
        Some(Fatal::FuncRelocs)
    } else {
        None
    }
}

/// What follows when the machine code of the function `function` has been
/// handed in, the artifact took it or not (`added`), and `relocs` is what
/// emitting it recorded.
pub open spec fn after_emit(
    function: int,
    total: int,
    added: bool,
    relocs: RelocSinkView,
) -> AdvanceView {
    if !added {
        AdvanceView::Stop(StopView::Failed(not_admitted_text()))
    } else {
        match unsupported_relocation(relocs) {
            Some(fatal) => AdvanceView::Stop(StopView::Aborted(fatal)),
            None => next_function(function + 1, total),
        }
    }
}

/// Begins the emission of a module of `total` functions, whose start function
/// is `start_index` if it has one, for a runtime that imports
/// `imported_funcs` functions.
///
/// An imported start function ends the emission before any function is
/// taken up. Otherwise the first function is to be verified, or, in a module
/// without functions, the emission has finished.
pub fn start(total: usize, start_index: Option<usize>, imported_funcs: usize) -> (advance: Advance)
    ensures
        advance@ == first_step(total, start_index, imported_funcs),
{
    let supported = match start_index {
        Some(index) => index >= imported_funcs,
        None => true,
    };
    if !supported {
        Advance::Stop(Stop::Aborted(Fatal::ImportedStart))
    } else if 0 < total {
        Advance::Verify(VerifyJob { function: 0, total })
    } else {
        Advance::Stop(Stop::Finished)
    }
}

impl VerifyJob {
    #[verifier::type_invariant]
    spec fn in_module(self) -> bool {
        self.function < self.total
    }

    /// The index in the module of the function to verify.
    pub closed spec fn index(self) -> int {
        self.function as int
    }

    /// The number of functions in the module.
    pub closed spec fn total(self) -> int {
        self.total as int
    }

    /// The index in the module of the function to verify.
    pub fn function(&self) -> (function: usize)
        ensures
            function == self.index(),
            self.index() < self.total(),
    {
        proof {
            use_type_invariant(self);
        }
        self.function
    }

    /// The verifier accepted the function: it is to be compiled.
    pub fn passed(self) -> (job: CompileJob)
        ensures
            job.index() == self.index(),
            job.total() == self.total(),
    {
        proof {
            use_type_invariant(&self);
        }
        CompileJob { function: self.function, total: self.total }
    }

    /// The verifier refused the function, whose text is `func`, with the
    /// error `err`: the emission has failed, with the diagnostic for that
    /// error.
    pub fn failed(self, func: &str, err: &VerifierError) -> (stop: Stop)
        ensures
            stop@ == StopView::Failed(verifier_error_text(func@, err@)),
    {
        Stop::Failed(pretty_verifier_error(func, err))
    }
}

impl CompileJob {
    #[verifier::type_invariant]
    spec fn in_module(self) -> bool {
        self.function < self.total
    }

    /// The index in the module of the function to compile.
    pub closed spec fn index(self) -> int {
        self.function as int
    }

    /// The number of functions in the module.
    pub closed spec fn total(self) -> int {
        self.total as int
    }

    /// The index in the module of the function to compile.
    pub fn function(&self) -> (function: usize)
        ensures
            function == self.index(),
            self.index() < self.total(),
    {
        proof {
            use_type_invariant(self);
        }
        self.function
    }

    /// The function compiled to `code_size` bytes. No code at all is an
    /// error. Otherwise its machine code is to be emitted, into a buffer of
    /// exactly that size, filled with zeros, and with a sink that has
    /// recorded nothing.
    pub fn compiled(self, code_size: CodeOffset) -> (next: Compiled)
        ensures
            next@ == after_compile(self.index(), self.total(), code_size),
    {
        proof {
            use_type_invariant(&self);
        }
        if code_size == 0 {
            return Compiled::Stop(Stop::Failed(String::from_str("no code generated by Cretonne")));
        }
        let code_size = code_size as usize;
        let mut code_buf: Vec<u8> = Vec::with_capacity(code_size);
        code_buf.resize(code_size, 0);
        assert(code_buf@ =~= zeroed(code_size as nat));
        let relocsink = FaerieRelocSink::new();
        Compiled::Emit {
            job: EmitJob { function: self.function, total: self.total },
            code_buf,
            relocsink,
        }
    }

    /// The code generator failed to compile the function, whose text is
    /// `func`, with the error `err`: the emission has failed, with the
    /// diagnostic for that error.
    pub fn failed(self, func: &str, err: &CtonError) -> (stop: Stop)
        ensures
            stop@ == StopView::Failed(error_text(func@, err@)),
    {
        Stop::Failed(pretty_error(func, err))
    }
}

impl EmitJob {
    #[verifier::type_invariant]
    spec fn in_module(self) -> bool {
        self.function < self.total
    }

    /// The index in the module of the function to emit.
    pub closed spec fn index(self) -> int {
        self.function as int
    }

    /// The number of functions in the module.
    pub closed spec fn total(self) -> int {
        self.total as int
    }

    /// The index in the module of the function to emit.
    pub fn function(&self) -> (function: usize)
        ensures
            function == self.index(),
            self.index() < self.total(),
    {
        proof {
            use_type_invariant(self);
        }
        self.function
    }

    /// The machine code of the function is in `code_buf`, and `relocsink`
    /// has recorded the relocations that emitting it reported.
    ///
    /// The code is added to `obj` under the linkage name, as a global
    /// function. An artifact that does not admit that fails the emission and
    /// stays as it was. Once the code is added, any relocation recorded ends
    /// the emission, since none can be patched in yet. Otherwise the next
    /// function is to be verified, or, after the last, the emission has
    /// finished.
    pub fn emitted(
        self,
        code_buf: Vec<u8>,
        relocsink: &FaerieRelocSink,
        obj: &mut Artifact,
    ) -> (next: Advance)
        ensures
            artifact_state(*final(obj)) == artifact_state(*old(obj)).with_code(code_buf@),
            next@ == after_emit(
                self.index(),
                self.total(),
                artifact_state(*old(obj)).admits_code(),
                relocsink@,
            ),
    {
        proof {
            use_type_invariant(&self);
        }
        // The functions of a module have no linkage names of their own yet.
        let added = add_code(obj, "the_function_name", true, code_buf);
        if !added {
            return Advance::Stop(
                Stop::Failed(
                    String::from_str(
                        "the artifact declares the_function_name as something other than a global function",
                    ),
                ),
            );
        }
        if !relocsink.jts.is_empty() {
            return Advance::Stop(Stop::Aborted(Fatal::JumpTables));
        }
        if !relocsink.ebbs.is_empty() {
            return Advance::Stop(Stop::Aborted(Fatal::EbbRelocs));
        }
        if !relocsink.funcs.is_empty() {
            return Advance::Stop(Stop::Aborted(Fatal::FuncRelocs));
        }
        // Calls to imported functions would have shown as relocations.
        let done = self.function + 1;
        if done < self.total {
            Advance::Verify(VerifyJob { function: done, total: self.total })
        } else {
            Advance::Stop(Stop::Finished)
        }
    }
}

/// What an artifact holds, as far as emission is concerned.
pub struct ArtifactState {
    /// The symbols declared, each with what it is declared as.
    pub declarations: Map<Seq<char>, Declaration>,
    /// The definitions, each a symbol's name with its bytes.
    pub definitions: Set<(Seq<char>, Seq<u8>)>,
}

/// What `obj` holds.
pub open spec fn artifact_state(obj: Artifact) -> ArtifactState {
    ArtifactState {
        declarations: artifact_declarations(obj),
        definitions: artifact_definitions(obj),
    }
}

impl ArtifactState {
    /// The artifact takes the code of a function under the linkage name.
    pub open spec fn admits_code(self) -> bool {
        admits_function(self.declarations, linkage_name(), true)
    }

    /// What the artifact holds once the code of a function has been handed
    /// to it: where it admits the code, the linkage name is declared as a
    /// global function and the code is among the definitions under that
    /// name; where it does not, nothing has changed.
    pub open spec fn with_code(self, code: Seq<u8>) -> ArtifactState {
        if self.admits_code() {
            ArtifactState {
                declarations: self.declarations.insert(
                    linkage_name(),
                    Declaration::Function { global: true },
                ),
                definitions: self.definitions.insert((linkage_name(), code)),
            }
        } else {
            self
        }
    }
}

/// What the code generator made of one function of a module.
#[allow(inconsistent_fields)]
pub enum Compilation {
    /// The verifier refused the function, whose text is `func`.
    Unverified { func: String, err: VerifierError },
    /// The function passed the verifier and failed to compile.
    Uncompiled { func: String, err: CtonError },
    /// The function compiled to `code_size` bytes. Where that is more than
    /// none, its machine code was emitted: `code` is that code and `relocs`
    /// holds the relocations that emitting it reported.
    Emitted { code_size: CodeOffset, code: Vec<u8>, relocs: FaerieRelocSink },
}

/// How the emission of a module ends and what the artifact then holds.
pub struct Emission {
    pub stop: StopView,
    pub artifact: ArtifactState,
}

/// The emission of the functions of a module from the one with index `from`
/// on, into an artifact that holds `artifact`.
///
/// The functions are taken in their order. One that the verifier or the code
/// generator refused, that compiled to no code, or whose code the artifact
/// does not admit, fails the emission and leaves the artifact as it is. One
/// that reported a relocation ends the emission after its code has been
/// added. Any other has its code added, and the emission goes on with the
/// function after it.
pub open spec fn emit_functions(
    functions: Seq<Compilation>,
    from: int,
    artifact: ArtifactState,
) -> Emission
    decreases functions.len() - from,
{
    if 0 <= from < functions.len() {
        match functions[from] {
            Compilation::Unverified { func, err } => Emission {
                stop: StopView::Failed(verifier_error_text(func@, err@)),
                artifact,
            },
            Compilation::Uncompiled { func, err } => Emission {
                stop: StopView::Failed(error_text(func@, err@)),
                artifact,
            },
            Compilation::Emitted { code_size, code, relocs } => {
                if code_size == 0 {
                    Emission { stop: StopView::Failed(no_code_text()), artifact }
                } else if !artifact.admits_code() {
                    Emission { stop: StopView::Failed(not_admitted_text()), artifact }
                } else {
                    match unsupported_relocation(relocs@) {
                        Some(fatal) => Emission {
                            stop: StopView::Aborted(fatal),
                            artifact: artifact.with_code(code@),
                        },
                        None => emit_functions(functions, from + 1, artifact.with_code(code@)),
                    }
                }
            },
        }
    } else {
        Emission { stop: StopView::Finished, artifact }
    }
}

/// The emission of a module with these functions, whose start function is
/// `start_index` if it has one, for a runtime that imports `imported_funcs`
/// functions, into an artifact that holds `artifact`.
pub open spec fn module_emission(
    functions: Seq<Compilation>,
    start_index: Option<usize>,
    imported_funcs: usize,
    artifact: ArtifactState,
) -> Emission {
    if start_supported(start_index, imported_funcs) {
        emit_functions(functions, 0, artifact)
    } else {
        Emission { stop: StopView::Aborted(Fatal::ImportedStart), artifact }
    }
}

/// With `advance`  next and the artifact holding `artifact`, the emission of
/// `functions` ends as `target`.
spec fn ends_as(
    advance: AdvanceView,
    functions: Seq<Compilation>,
    artifact: ArtifactState,
    target: Emission,
) -> bool {
    match advance {
        AdvanceView::Verify { function, total } => {
            &&& total == functions.len()
            &&& 0 <= function < total
            &&& target == emit_functions(functions, function, artifact)
        },
        AdvanceView::Stop(stop) => target == Emission { stop, artifact },
    }
}

/// The number of functions that `advance` leaves to be dealt with, and one
/// more while the emission has not ended.
spec fn steps_left(advance: AdvanceView) -> int {
    match advance {
        AdvanceView::Verify { function, total } => total - function + 1,
        AdvanceView::Stop(_) => 0,
    }
}

/// Emits a module whose functions the code generator has dealt with already,
/// `functions` holding for each what it made of it, to the artifact `obj`.
/// `start_index` is the module's start function, if it has one, and
/// `imported_funcs` the number of functions that the runtime imports.
///
/// The module is emitted as it is when the code generator is asked function
/// by function: what is returned and what `obj` then holds is what
/// [`module_emission`] says.
pub fn emit_module(
    functions: &Vec<Compilation>,
    start_index: Option<usize>,
    obj: &mut Artifact,
    imported_funcs: usize,
) -> (stop: Stop)
    ensures
        (Emission { stop: stop@, artifact: artifact_state(*final(obj)) }) == module_emission(
            functions@,
            start_index,
            imported_funcs,
            artifact_state(*old(obj)),
        ),
{
    let ghost target = module_emission(
        functions@,
        start_index,
        imported_funcs,
        artifact_state(*obj),
    );
    let mut advance = start(functions.len(), start_index, imported_funcs);
    loop
        invariant
            target == module_emission(
                functions@,
                start_index,
                imported_funcs,
                artifact_state(*old(obj)),
            ),
            ends_as(advance@, functions@, artifact_state(*obj), target),
        decreases steps_left(advance@),
    {
        let job = match advance {
            Advance::Verify(job) => job,
            Advance::Stop(stop) => {
                return stop;
            },
        };
        let function = job.function();
        advance =
        match &functions[function] {
            Compilation::Unverified { func, err } => Advance::Stop(job.failed(func.as_str(), err)),
            Compilation::Uncompiled { func, err } => Advance::Stop(
                job.passed().failed(func.as_str(), err),
            ),
            Compilation::Emitted { code_size, code, relocs } => {
                match job.passed().compiled(*code_size) {
                    Compiled::Emit { job, code_buf, relocsink } => {
                        let code = code.clone();
                        assert(code@ =~= functions@[function as int]->code@);
                        let next = job.emitted(code, relocs, obj);
                        assert(function + 1 == functions.len() ==> emit_functions(
                            functions@,
                            function + 1,
                            artifact_state(*obj),
                        ).stop == StopView::Finished);
                        next
                    },
                    Compiled::Stop(stop) => Advance::Stop(stop),
                }
            },
        };
    }
}

} // verus!
