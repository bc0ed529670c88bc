//! What this crate relies on of faerie's artifact.
//!
//! An artifact is opaque here. It is spoken of through the symbols it has
//! declared and the definitions it holds, and nothing in this file is proved:
//! the contracts state what faerie's source shows.

use faerie::Artifact;
use faerie::Decl;
use vstd::prelude::*;

verus! {

/// faerie's `Artifact`, the object file in the making.
#[verifier::external_type_specification]
#[verifier::external_body]
pub struct ExArtifact(faerie::Artifact);

/// What a symbol of an artifact is declared as; faerie's `Decl`.
pub enum Declaration {
    /// A function of a shared library.
    FunctionImport,
    /// Data of a shared library.
    DataImport,
    /// A function defined in the artifact.
    Function { global: bool },
    /// A data object defined in the artifact.
    Data { global: bool, writeable: bool },
    /// A null-terminated string defined in the artifact.
    CString { global: bool },
}

/// The symbols that an artifact has declared, each with what it is declared
/// as.
pub uninterp spec fn artifact_declarations(obj: Artifact) -> Map<Seq<char>, Declaration>;

/// The definitions that an artifact holds, each a symbol's name with the
/// bytes defined for it. An artifact keeps them as a set: a definition that
/// is made a second time, name and bytes, is in it once.
pub uninterp spec fn artifact_definitions(obj: Artifact) -> Set<(Seq<char>, Seq<u8>)>;

/// An artifact with these declarations accepts that `name` is declared as a
/// function defined in it, local or `global`: the name is new to it, or is
/// declared as just that, or as a function to import, which the declaration
/// then replaces.
pub open spec fn admits_function(
    declarations: Map<Seq<char>, Declaration>,
    name: Seq<char>,
    global: bool,
) -> bool {
    ||| !declarations.contains_key(name)
    ||| declarations[name] == Declaration::FunctionImport
    ||| declarations[name] == (Declaration::Function { global })
}

/// Declares `name` in `obj` as a function defined there and defines it as
/// `code`, by faerie's `Artifact::declare_with`.
///
/// Claimed of it: it succeeds exactly where the artifact admits the
/// declaration. `name` is then declared as that function, and `code` under
/// `name` is among the definitions; no other declaration or definition is
/// added, changed or taken away. Where it fails, the declarations and the
/// definitions are as they were.
#[verifier::external_body]
pub(crate) fn add_code(obj: &mut Artifact, name: &str, global: bool, code: Vec<u8>) -> (added: bool)
    ensures
        added == admits_function(artifact_declarations(*old(obj)), name@, global),
        added ==> artifact_declarations(*final(obj)) == artifact_declarations(*old(obj)).insert(
            name@,
            Declaration::Function { global },
        ),
        added ==> artifact_definitions(*final(obj)) == artifact_definitions(*old(obj)).insert(
            (name@, code@),
        ),
        !added ==> artifact_declarations(*final(obj)) == artifact_declarations(*old(obj)),
        !added ==> artifact_definitions(*final(obj)) == artifact_definitions(*old(obj)),
{
    obj.declare_with(name, Decl::Function { global }, code).is_ok()
}

} // verus!
