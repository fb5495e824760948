use ghostcell::entry::{ghost, nest, scope, FunctionText, TokenBinding};
use ghostcell::GhostToken;

fn binding(mutable: bool, ident: &str) -> TokenBinding {
    TokenBinding {
        mutable,
        ident: ident.to_string(),
    }
}

#[test]
fn scope_binds_a_mutable_token() {
    let text = scope(&binding(true, "token"), "body();");
    assert_eq!(text, "<GhostToken>::with(|mut token| { body(); })");
}

#[test]
fn scope_binds_an_immutable_token() {
    let text = scope(&binding(false, "token"), "body();");
    assert_eq!(text, "<GhostToken>::with(|token| { body(); })");
}

#[test]
fn scope_around_an_empty_block() {
    let text = scope(&binding(false, "t"), "");
    assert_eq!(text, "<GhostToken>::with(|t| {  })");
}

#[test]
fn nest_without_bindings_is_the_block() {
    let text = nest(&Vec::new(), "let x = 1;");
    assert_eq!(text, "let x = 1;");
}

#[test]
fn nest_with_one_binding_is_one_scope() {
    let bindings = vec![binding(true, "token")];
    assert_eq!(
        nest(&bindings, "work();"),
        scope(&bindings[0], "work();")
    );
}

#[test]
fn nest_puts_the_first_binding_outermost() {
    let bindings = vec![
        binding(true, "tok1"),
        binding(false, "tok2"),
        binding(true, "tok3"),
    ];
    let text = nest(&bindings, "work();");
    assert_eq!(
        text,
        "<GhostToken>::with(|mut tok1| { \
         <GhostToken>::with(|tok2| { \
         <GhostToken>::with(|mut tok3| { work(); }) }) })"
    );
}

#[test]
fn ghost_keeps_attributes_visibility_and_signature() {
    let item = FunctionText {
        attrs: "#[inline]".to_string(),
        vis: "pub".to_string(),
        sig: "fn ghost_test()".to_string(),
        stmts: "let token = &mut token; let gcell = token.cell(3); *gcell.rw(token) += 1;"
            .to_string(),
    };
    let text = ghost(&vec![binding(true, "token")], &item);
    assert_eq!(
        text,
        "#[inline] pub fn ghost_test() { <GhostToken>::with(|mut token| { \
         let token = &mut token; let gcell = token.cell(3); *gcell.rw(token) += 1; }) }"
    );
}

#[test]
fn ghost_without_bindings_keeps_the_body() {
    let item = FunctionText {
        attrs: String::new(),
        vis: String::new(),
        sig: "fn plain()".to_string(),
        stmts: "run();".to_string(),
    };
    assert_eq!(ghost(&Vec::new(), &item), "  fn plain() { run(); }");
}

#[test]
fn ghost_nests_several_tokens() {
    let item = FunctionText {
        attrs: String::new(),
        vis: String::new(),
        sig: "fn multi()".to_string(),
        stmts: "go();".to_string(),
    };
    let bindings = vec![binding(true, "tok1"), binding(true, "tok2")];
    assert_eq!(
        ghost(&bindings, &item),
        "  fn multi() { <GhostToken>::with(|mut tok1| { \
         <GhostToken>::with(|mut tok2| { go(); }) }) }"
    );
}

#[test]
fn one_token_written_out_by_hand() {
    let value = <GhostToken>::with(|mut token| {
        let token = &mut token;
        let mut gcell = token.cell(3);
        *gcell.rw(token) += 1;
        gcell.into_inner()
    });
    assert_eq!(value, 4);
}

#[test]
fn three_tokens_written_out_by_hand() {
    let values = <GhostToken>::with(|mut tok1| {
        <GhostToken>::with(|mut tok2| {
            <GhostToken>::with(|mut tok3| {
                let tok1 = &mut tok1;
                let tok2 = &mut tok2;
                let tok3 = &mut tok3;
                let mut gcell1 = tok1.cell(3);
                *gcell1.rw(tok1) += 1;
                let mut gcell2 = tok2.cell(3);
                *gcell2.rw(tok2) += 1;
                let mut gcell3 = tok3.cell(3);
                *gcell3.rw(tok3) += 1;
                *gcell1.rw(tok1) += 4;
                (
                    gcell1.into_inner(),
                    gcell2.into_inner(),
                    gcell3.into_inner(),
                )
            })
        })
    });
    assert_eq!(values, (8, 4, 4));
}
