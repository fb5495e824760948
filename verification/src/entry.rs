use vstd::prelude::*;

verus! {

/// `String::push_str` of the standard library: the string afterwards is the
/// string before with `string` appended, as its documentation says. Believed,
/// not proved.
pub assume_specification[ String::push_str ](s: &mut String, string: &str)
    ensures
        final(s)@ == old(s)@ + string@,
;

/// One token that a function asks for: the name it is bound to, and whether
/// that binding is mutable.
pub struct TokenBinding {
    pub mutable: bool,
    pub ident: String,
}

/// The function that asks for tokens, in four pieces of source text: its
/// attributes, its visibility, its signature, and the statements of its body.
pub struct FunctionText {
    pub attrs: String,
    pub vis: String,
    pub sig: String,
    pub stmts: String,
}

/// `block` inside one scope that binds a fresh token to `binding`.
pub open spec fn scope_text(binding: TokenBinding, block: Seq<char>) -> Seq<char> {
    "<GhostToken>::with(|"@ + (if binding.mutable {
        "mut "@
    } else {
        Seq::<char>::empty()
    }) + binding.ident@ + "| { "@ + block + " })"@
}

/// `block` inside one scope for each of `bindings`: the first of them is the
/// outermost scope, the last one the innermost.
pub open spec fn nested_text(bindings: Seq<TokenBinding>, block: Seq<char>) -> Seq<char>
    decreases bindings.len(),
{
    if bindings.len() == 0 {
        block
    } else {
        scope_text(bindings[0], nested_text(bindings.skip(1), block))
    }
}

/// The function `item` with its body inside one scope for each of `bindings`.
/// Attributes, visibility and signature stand as they were.
pub open spec fn expanded_text(bindings: Seq<TokenBinding>, item: FunctionText) -> Seq<char> {
    item.attrs@ + " "@ + item.vis@ + " "@ + item.sig@ + " { "@ + nested_text(
        bindings,
        item.stmts@,
    ) + " }"@
}

/// Wraps `block` in one call of `GhostToken::with` whose callback binds the
/// token to `binding`.
pub fn scope(binding: &TokenBinding, block: &str) -> (text: String)
    ensures
        text@ == scope_text(*binding, block@),
{
    let mut text = String::new();
    text.push_str("<GhostToken>::with(|");
    if binding.mutable {
        text.push_str("mut ");
    }
    text.push_str(binding.ident.as_str());
    text.push_str("| { ");
    text.push_str(block);
    text.push_str(" })");
    text
}

/// Wraps `block` in one scope for each of `bindings`, the first outermost.
/// With no bindings, `block` comes back as it is.
pub fn nest(bindings: &Vec<TokenBinding>, block: &str) -> (text: String)
    ensures
        text@ == nested_text(bindings@, block@),
{
    let mut text = block.to_owned();
    let mut i: usize = bindings.len();
    while i > 0
        invariant
            i <= bindings.len(),
            text@ == nested_text(bindings@.skip(i as int), block@),
        decreases i,
    {
        i -= 1;
        proof {
            let rest = bindings@.skip(i as int);
            assert(rest.skip(1) =~= bindings@.skip(i as int + 1));
        }
        text = scope(&bindings[i], text.as_str());
    }
    proof {
        assert(bindings@.skip(0) =~= bindings@);
    }
    text
}

/// Rewrites the function `item` so that its body runs inside one scope for
/// each of `bindings`, each with a token of its own brand, the first binding
/// outermost.
pub fn ghost(bindings: &Vec<TokenBinding>, item: &FunctionText) -> (text: String)
    ensures
        text@ == expanded_text(bindings@, *item),
{
    let block = nest(bindings, item.stmts.as_str());
    let mut text = String::new();
    text.push_str(item.attrs.as_str());
    text.push_str(" ");
    text.push_str(item.vis.as_str());
    text.push_str(" ");
    text.push_str(item.sig.as_str());
    text.push_str(" { ");
    text.push_str(block.as_str());
    text.push_str(" }");
    text
}

} // verus!
