//! What holds of the emission of a whole module.
//!
//! Everything here is stated of [`module_emission`], which is what
//! [`emit_module`](crate::emit_module::emit_module) returns and leaves in the
//! artifact, and what driving the emission function by function comes to.

use crate::artifact::artifact_declarations;
use crate::artifact::artifact_definitions;
use crate::artifact::Declaration;
use crate::emit_module::artifact_state;
use crate::emit_module::emit_functions;
use crate::emit_module::linkage_name;
use crate::emit_module::module_emission;
use crate::emit_module::no_code_text;
use crate::emit_module::start_supported;
use crate::emit_module::unsupported_relocation;
use crate::emit_module::ArtifactState;
use crate::emit_module::Compilation;
use crate::emit_module::Emission;
use crate::emit_module::StopView;
use crate::pretty_error::verifier_error_text;
use faerie::Artifact;
use vstd::prelude::*;

verus! {

/// The function passed the verifier and compiled to some code, and emitting
/// that code reported no relocation.
pub open spec fn emits_cleanly(function: Compilation) -> bool {
    &&& function is Emitted
    &&& function->code_size != 0
    &&& function->relocs@.is_empty()
}

/// The entry that the code of a compiled function makes in an artifact.
pub open spec fn code_entry(function: Compilation) -> (Seq<char>, Seq<u8>) {
    (linkage_name(), function->code@)
}

/// The entries of the functions with the indices from `from` up to, and
/// without, `to`.
pub open spec fn code_entries(functions: Seq<Compilation>, from: int, to: int) -> Set<
    (Seq<char>, Seq<u8>),
> {
    Set::new(
        |entry: (Seq<char>, Seq<u8>)|
            exists|i: int|
                from <= i < to && 0 <= i < functions.len() && #[trigger] code_entry(functions[i])
                    == entry,
    )
}

/// What an artifact holds once the code of the functions with the indices
/// from `from` up to, and without, `to` has been added to it.
pub open spec fn with_functions(
    artifact: ArtifactState,
    functions: Seq<Compilation>,
    from: int,
    to: int,
) -> ArtifactState {
    ArtifactState {
        declarations: if from < to {
            artifact.declarations.insert(linkage_name(), Declaration::Function { global: true })
        } else {
            artifact.declarations
        },
        definitions: artifact.definitions.union(code_entries(functions, from, to)),
    }
}

/// No two of the functions make the same entry, and the artifact holds none
/// of their entries yet.
pub open spec fn entries_are_new(artifact: ArtifactState, functions: Seq<Compilation>) -> bool {
    &&& forall|i: int, j: int|
        0 <= i < j < functions.len() ==> #[trigger] code_entry(functions[i]) != #[trigger] code_entry(
            functions[j],
        )
    &&& forall|i: int|
        0 <= i < functions.len() ==> !artifact.definitions.contains(
            #[trigger] code_entry(functions[i]),
        )
}

/// Functions that emit cleanly are added one after the other: the emission
/// from the first of them on is the emission from the one after the last of
/// them on, into an artifact that holds their code besides.
pub proof fn lemma_clean_functions_are_added(
    functions: Seq<Compilation>,
    from: int,
    to: int,
    artifact: ArtifactState,
)
    requires
        0 <= from <= to <= functions.len(),
        forall|i: int| from <= i < to ==> emits_cleanly(#[trigger] functions[i]),
        from < to ==> artifact.admits_code(),
    ensures
        emit_functions(functions, from, artifact) == emit_functions(
            functions,
            to,
            with_functions(artifact, functions, from, to),
        ),
    decreases to - from,
{
    if from == to {
        assert(with_functions(artifact, functions, from, to).definitions =~= artifact.definitions);
    } else {
        let added = artifact.with_code(functions[from]->code@);
        assert(emits_cleanly(functions[from]));
        lemma_clean_functions_are_added(functions, from + 1, to, added);
        assert(with_functions(added, functions, from + 1, to).definitions =~= with_functions(
            artifact,
            functions,
            from,
            to,
        ).definitions) by {
            assert(code_entry(functions[from]) == (linkage_name(), functions[from]->code@));
        }
        assert(with_functions(added, functions, from + 1, to).declarations =~= with_functions(
            artifact,
            functions,
            from,
            to,
        ).declarations);
    }
}

/// The entries of functions that make no entry twice are as many as the
/// functions.
proof fn lemma_entries_count(functions: Seq<Compilation>, to: int)
    requires
        0 <= to <= functions.len(),
        forall|i: int, j: int|
            0 <= i < j < functions.len() ==> #[trigger] code_entry(functions[i]) != #[trigger] code_entry(
                functions[j],
            ),
    ensures
        code_entries(functions, 0, to).finite(),
        code_entries(functions, 0, to).len() == to,
    decreases to,
{
    if to == 0 {
        assert(code_entries(functions, 0, to) =~= Set::empty());
    } else {
        lemma_entries_count(functions, to - 1);
        let entry = code_entry(functions[to - 1]);
        assert(code_entries(functions, 0, to) =~= code_entries(functions, 0, to - 1).insert(entry));
        assert(!code_entries(functions, 0, to - 1).contains(entry));
    }
}

/// Where every function of a module passes the verifier, compiles to some
/// code and reports no relocation, the emission finishes and the artifact
/// holds the code of every function under the linkage name, besides what it
/// held before and nothing else. An artifact keeps its definitions as a set,
/// which has no order and holds nothing twice: it has one entry more for each
/// function where no two functions make the same entry and it held none of
/// them before.
pub proof fn lemma_every_function_is_added(
    functions: Seq<Compilation>,
    start_index: Option<usize>,
    imported_funcs: usize,
    artifact: ArtifactState,
)
    requires
        start_supported(start_index, imported_funcs),
        forall|i: int| 0 <= i < functions.len() ==> emits_cleanly(#[trigger] functions[i]),
        functions.len() > 0 ==> artifact.admits_code(),
    ensures
        module_emission(functions, start_index, imported_funcs, artifact) == (Emission {
            stop: StopView::Finished,
            artifact: with_functions(artifact, functions, 0, functions.len() as int),
        }),
        forall|i: int|
            0 <= i < functions.len() ==> with_functions(
                artifact,
                functions,
                0,
                functions.len() as int,
            ).definitions.contains((linkage_name(), #[trigger] functions[i]->code@)),
        artifact.definitions.finite() && entries_are_new(artifact, functions) ==> with_functions(
            artifact,
            functions,
            0,
            functions.len() as int,
        ).definitions.len() == artifact.definitions.len() + functions.len(),
{
    let len = functions.len() as int;
    lemma_clean_functions_are_added(functions, 0, len, artifact);
    assert forall|i: int| 0 <= i < functions.len() implies with_functions(
        artifact,
        functions,
        0,
        len,
    ).definitions.contains((linkage_name(), #[trigger] functions[i]->code@)) by {
        assert(code_entry(functions[i]) == (linkage_name(), functions[i]->code@));
    }
    if artifact.definitions.finite() && entries_are_new(artifact, functions) {
        lemma_entries_count(functions, len);
        assert(artifact.definitions.disjoint(code_entries(functions, 0, len)));
        vstd::set_lib::lemma_set_disjoint_lens(
            artifact.definitions,
            code_entries(functions, 0, len),
        );
    }
}

/// A function that the verifier refuses fails the emission with the
/// diagnostic for the verifier's error, and nothing is added for it nor for
/// any function after it: the artifact holds what the functions before it
/// added, which all emitted cleanly. Where it is the first function of the
/// module, the artifact is as it was.
pub proof fn lemma_unverified_function_adds_nothing(
    functions: Seq<Compilation>,
    start_index: Option<usize>,
    imported_funcs: usize,
    artifact: ArtifactState,
    refused: int,
)
    requires
        start_supported(start_index, imported_funcs),
        0 <= refused < functions.len(),
        functions[refused] is Unverified,
        forall|i: int| 0 <= i < refused ==> emits_cleanly(#[trigger] functions[i]),
        refused > 0 ==> artifact.admits_code(),
    ensures
        module_emission(functions, start_index, imported_funcs, artifact) == (Emission {
            stop: StopView::Failed(
                verifier_error_text(
                    functions[refused]->Unverified_func@,
                    functions[refused]->Unverified_err@,
                ),
            ),
            artifact: with_functions(artifact, functions, 0, refused),
        }),
        refused == 0 ==> module_emission(functions, start_index, imported_funcs, artifact).artifact
            == artifact,
{
    lemma_clean_functions_are_added(functions, 0, refused, artifact);
    if refused == 0 {
        assert(with_functions(artifact, functions, 0, 0).definitions =~= artifact.definitions);
    }
}

/// A function that compiles to no code fails the emission with the error
/// for that, whatever relocations are held for it, and nothing is added for
/// it nor for any function after it.
pub proof fn lemma_no_code_fails_emission(
    functions: Seq<Compilation>,
    start_index: Option<usize>,
    imported_funcs: usize,
    artifact: ArtifactState,
    empty: int,
)
    requires
        start_supported(start_index, imported_funcs),
        0 <= empty < functions.len(),
        functions[empty] is Emitted,
        functions[empty]->code_size == 0,
        forall|i: int| 0 <= i < empty ==> emits_cleanly(#[trigger] functions[i]),
        empty > 0 ==> artifact.admits_code(),
    ensures
        module_emission(functions, start_index, imported_funcs, artifact) == (Emission {
            stop: StopView::Failed(no_code_text()),
            artifact: with_functions(artifact, functions, 0, empty),
        }),
{
    lemma_clean_functions_are_added(functions, 0, empty, artifact);
}

/// A function that compiles to some code and reports a relocation, of
/// whatever kind, ends the emission as one that cannot go on, once its code
/// is added: the emission neither finishes nor fails with an error, and no
/// function after it is taken up.
pub proof fn lemma_relocation_aborts_emission(
    functions: Seq<Compilation>,
    start_index: Option<usize>,
    imported_funcs: usize,
    artifact: ArtifactState,
    relocated: int,
)
    requires
        start_supported(start_index, imported_funcs),
        0 <= relocated < functions.len(),
        functions[relocated] is Emitted,
        functions[relocated]->code_size != 0,
        !functions[relocated]->relocs@.is_empty(),
        forall|i: int| 0 <= i < relocated ==> emits_cleanly(#[trigger] functions[i]),
        artifact.admits_code(),
    ensures
        unsupported_relocation(functions[relocated]->relocs@) is Some,
        module_emission(functions, start_index, imported_funcs, artifact) == (Emission {
            stop: StopView::Aborted(unsupported_relocation(functions[relocated]->relocs@)->0),
            artifact: with_functions(artifact, functions, 0, relocated + 1),
        }),
{
    lemma_clean_functions_are_added(functions, 0, relocated, artifact);
    let before = with_functions(artifact, functions, 0, relocated);
    let after = before.with_code(functions[relocated]->code@);
    assert(after.definitions =~= with_functions(artifact, functions, 0, relocated + 1).definitions)
        by {
        assert(code_entry(functions[relocated]) == (linkage_name(), functions[relocated]->code@));
    }
    assert(after.declarations =~= with_functions(
        artifact,
        functions,
        0,
        relocated + 1,
    ).declarations);
}

/// Emitting a module again into another artifact that is as empty as the
/// first was ends in the same way and leaves the same declarations and
/// definitions, whatever else tells the two artifacts apart.
pub proof fn lemma_emission_is_repeatable(
    functions: Seq<Compilation>,
    start_index: Option<usize>,
    imported_funcs: usize,
    first: Artifact,
    second: Artifact,
)
    requires
        artifact_declarations(first) == Map::<Seq<char>, Declaration>::empty(),
        artifact_declarations(second) == Map::<Seq<char>, Declaration>::empty(),
        artifact_definitions(first) == Set::<(Seq<char>, Seq<u8>)>::empty(),
        artifact_definitions(second) == Set::<(Seq<char>, Seq<u8>)>::empty(),
    ensures
        module_emission(functions, start_index, imported_funcs, artifact_state(first))
            == module_emission(functions, start_index, imported_funcs, artifact_state(second)),
{
}

} // verus!
