use wasm2obj::{pretty_error, pretty_verifier_error, CtonError, InstText, VerifierError};

fn located() -> VerifierError {
    VerifierError {
        text: String::from("inst3: uses value v9 from non-dominating inst7"),
        inst: Some(InstText {
            name: String::from("inst3"),
            text: String::from("v4 = iadd v9, v1"),
        }),
    }
}

fn unlocated() -> VerifierError {
    VerifierError { text: String::from("function: no entry block"), inst: None }
}

#[test]
fn verifier_error_at_an_instruction_shows_the_instruction() {
    let msg = pretty_verifier_error("function %f() {\n}\n", &located());
    assert_eq!(
        msg,
        "inst3: uses value v9 from non-dominating inst7\ninst3: v4 = iadd v9, v1\n\nfunction %f() {\n}\n"
    );
}

#[test]
fn verifier_error_elsewhere_shows_the_function_only() {
    let msg = pretty_verifier_error("function %f() {\n}\n", &unlocated());
    assert_eq!(msg, "function: no entry block\nfunction %f() {\n}\n");
}

#[test]
fn verifier_error_with_empty_texts() {
    let err = VerifierError { text: String::new(), inst: None };
    assert_eq!(pretty_verifier_error("", &err), "\n");
    let err = VerifierError {
        text: String::new(),
        inst: Some(InstText { name: String::new(), text: String::new() }),
    };
    assert_eq!(pretty_verifier_error("", &err), "\n: \n\n");
}

#[test]
fn pretty_error_of_a_verifier_error_is_its_diagnostic() {
    let msg = pretty_error("function %f() {\n}\n", &CtonError::Verifier(located()));
    assert_eq!(msg, pretty_verifier_error("function %f() {\n}\n", &located()));
    let msg = pretty_error("fn", &CtonError::Verifier(unlocated()));
    assert_eq!(msg, "function: no entry block\nfn");
}

#[test]
fn pretty_error_of_another_error_leaves_the_function_out() {
    let err = CtonError::Other(String::from("Code for function is too large"));
    assert_eq!(pretty_error("function %f() {\n}\n", &err), "Code for function is too large");
}

#[test]
fn pretty_error_keeps_non_ascii_text() {
    let err = VerifierError {
        text: String::from("ebb0: größer"),
        inst: Some(InstText { name: String::from("inst0"), text: String::from("→ v1") }),
    };
    assert_eq!(pretty_verifier_error("ƒ", &err), "ebb0: größer\ninst0: → v1\n\nƒ");
}
