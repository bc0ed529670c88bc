//! Diagnostics for a function that the code generator refused.
//!
//! The code generator renders its own errors, instructions and functions as
//! text. What is decided here is how those texts are laid out for a reader.

use vstd::prelude::*;
use vstd::string::StringExecFns;

verus! {

/// An instruction as the code generator renders it.
pub struct InstText {
    /// The instruction's name, such as `inst5`.
    pub name: String,
    /// The instruction in full, rendered for the target where there is one.
    pub text: String,
}

/// An error of the verifier.
pub struct VerifierError {
    /// The error in the verifier's own words.
    pub text: String,
    /// The instruction that the error is located at, if it is located at one.
    pub inst: Option<InstText>,
}

/// An error of the code generator.
pub enum CtonError {
    /// The verifier refused the function.
    Verifier(VerifierError),
    /// Any other error, in the code generator's own words.
    Other(String),
}

/// The characters of an [`InstText`].
pub struct InstTextView {
    pub name: Seq<char>,
    pub text: Seq<char>,
}

/// The characters of a [`VerifierError`].
pub struct VerifierErrorView {
    pub text: Seq<char>,
    pub inst: Option<InstTextView>,
}

/// The characters of a [`CtonError`].
pub enum CtonErrorView {
    Verifier(VerifierErrorView),
    Other(Seq<char>),
}

impl View for InstText {
    type V = InstTextView;

    open spec fn view(&self) -> InstTextView {
        InstTextView { name: self.name@, text: self.text@ }
    }
}

impl View for VerifierError {
    type V = VerifierErrorView;

    open spec fn view(&self) -> VerifierErrorView {
        VerifierErrorView {
            text: self.text@,
            inst: match self.inst {
                Some(inst) => Some(inst@),
                None => None,
            },
        }
    }
}

impl View for CtonError {
    type V = CtonErrorView;

    open spec fn view(&self) -> CtonErrorView {
        match self {
            CtonError::Verifier(e) => CtonErrorView::Verifier(e@),
            CtonError::Other(text) => CtonErrorView::Other(text@),
        }
    }
}

/// The diagnostic for a verifier error in the function whose text is `func`:
/// the error, the instruction it is located at on a line of its own and set
/// off by an empty line, then the function.
pub open spec fn verifier_error_text(func: Seq<char>, err: VerifierErrorView) -> Seq<char> {
    match err.inst {
        Some(inst) => err.text + seq!['\n'] + inst.name + seq![':', ' '] + inst.text + seq![
            '\n',
            '\n',
        ] + func,
        None => err.text + seq!['\n'] + func,
    }
}

/// The diagnostic for an error of the code generator in the function whose
/// text is `func`: that of the verifier's error where it is one, otherwise the
/// error's own words and nothing of the function.
pub open spec fn error_text(func: Seq<char>, err: CtonErrorView) -> Seq<char> {
    match err {
        CtonErrorView::Verifier(e) => verifier_error_text(func, e),
        CtonErrorView::Other(text) => text,
    }
}

/// Pretty-print a verifier error.
pub fn pretty_verifier_error(func: &str, err: &VerifierError) -> (msg: String)
    ensures
        msg@ == verifier_error_text(func@, err@),
{
    let mut msg = err.text.clone();
    match &err.inst {
        Some(inst) => {
            proof {
                reveal_strlit("\n");
                reveal_strlit(": ");
                reveal_strlit("\n\n");
                assert("\n"@ =~= seq!['\n']);
                assert(": "@ =~= seq![':', ' ']);
                assert("\n\n"@ =~= seq!['\n', '\n']);
            }
            msg.append("\n");
            msg.append(inst.name.as_str());
            msg.append(": ");
            msg.append(inst.text.as_str());
            msg.append("\n\n");
        },
        None => {
            proof {
                reveal_strlit("\n");
                assert("\n"@ =~= seq!['\n']);
            }
            msg.append("\n");
        },
    }
    msg.append(func);
    msg
}

/// Pretty-print a Cretonne error.
pub fn pretty_error(func: &str, err: &CtonError) -> (msg: String)
    ensures
        msg@ == error_text(func@, err@),
{
    match err {
        CtonError::Verifier(e) => pretty_verifier_error(func, e),
        CtonError::Other(text) => text.clone(),
    }
}

} // verus!
