//! The fragment generator: the token lists of everything a plan calls for.

use vstd::prelude::*;
use crate::classify::{SystemArgs, SystemArgsView};
use crate::plan::{doc_texts, docs, Plan, PlanView, Routing, RoutingView};
use crate::roles::{Field, FieldView};
use crate::syntax::{Attribute, FnArg, ItemFn, ReturnType};
use crate::text::{push_all, push_token, push_word, Tokens};

verus! {

/// The first `n` attributes as written, in order.
pub open spec fn attr_texts(attrs: Seq<Attribute>, n: int) -> Tokens
    decreases n,
{
    if n <= 0 {
        Seq::empty()
    } else {
        attr_texts(attrs, n - 1).push(attrs[n - 1].text@)
    }
}

/// A parameter as written.
pub open spec fn arg_text(arg: FnArg) -> Seq<char> {
    match arg {
        FnArg::Receiver(text) => text@,
        FnArg::Typed(pt) => pt.text@,
    }
}

/// The first `n` parameters as written, a comma after each.
pub open spec fn input_texts(inputs: Seq<FnArg>, n: int) -> Tokens
    decreases n,
{
    if n <= 0 {
        Seq::empty()
    } else {
        input_texts(inputs, n - 1).push(arg_text(inputs[n - 1])).push(","@)
    }
}

/// The first `n` of `names`, a comma after each.
pub open spec fn comma_list(names: Tokens, n: int) -> Tokens
    decreases n,
{
    if n <= 0 {
        Seq::empty()
    } else {
        comma_list(names, n - 1).push(names[n - 1]).push(","@)
    }
}

/// The first `n` fields as a record declares them: public, a comma after each.
pub open spec fn field_decls(fields: Seq<FieldView>, n: int) -> Tokens
    decreases n,
{
    if n <= 0 {
        Seq::empty()
    } else {
        field_decls(fields, n - 1).push("pub"@).push(fields[n - 1].name).push(":"@).push(
            fields[n - 1].ty,
        ).push(","@)
    }
}

/// The first `n` fields as a method takes them: a name and its type, a comma after each.
pub open spec fn field_params(fields: Seq<FieldView>, n: int) -> Tokens
    decreases n,
{
    if n <= 0 {
        Seq::empty()
    } else {
        field_params(fields, n - 1).push(fields[n - 1].name).push(":"@).push(
            fields[n - 1].ty,
        ).push(","@)
    }
}

/// The names of the first `n` fields, a comma after each.
pub open spec fn field_names(fields: Seq<FieldView>, n: int) -> Tokens
    decreases n,
{
    if n <= 0 {
        Seq::empty()
    } else {
        field_names(fields, n - 1).push(fields[n - 1].name).push(","@)
    }
}

/// The bindings of the first `n` fields as the function declared them, a comma after each.
pub open spec fn field_pats(fields: Seq<FieldView>, n: int) -> Tokens
    decreases n,
{
    if n <= 0 {
        Seq::empty()
    } else {
        field_pats(fields, n - 1).push(fields[n - 1].pat).push(","@)
    }
}

fn attr_tokens(attrs: &Vec<Attribute>) -> (r: Vec<String>)
    ensures
        r.deep_view() == attr_texts(attrs@, attrs.len() as int),
{
    let mut out: Vec<String> = Vec::new();
    assert(out.deep_view() =~= Seq::<Seq<char>>::empty());
    let mut i: usize = 0;
    while i < attrs.len()
        invariant
            i <= attrs.len(),
            out.deep_view() == attr_texts(attrs@, i as int),
        decreases attrs.len() - i,
    {
        push_token(&mut out, &attrs[i].text);
        i = i + 1;
    }
    out
}

fn input_tokens(inputs: &Vec<FnArg>) -> (r: Vec<String>)
    ensures
        r.deep_view() == input_texts(inputs@, inputs.len() as int),
{
    let mut out: Vec<String> = Vec::new();
    assert(out.deep_view() =~= Seq::<Seq<char>>::empty());
    let mut i: usize = 0;
    while i < inputs.len()
        invariant
            i <= inputs.len(),
            out.deep_view() == input_texts(inputs@, i as int),
        decreases inputs.len() - i,
    {
        match &inputs[i] {
            FnArg::Receiver(text) => push_token(&mut out, text),
            FnArg::Typed(pt) => push_token(&mut out, &pt.text),
        }
        push_word(&mut out, ",");
        i = i + 1;
    }
    out
}

fn comma_tokens(names: &Vec<String>) -> (r: Vec<String>)
    ensures
        r.deep_view() == comma_list(names.deep_view(), names.len() as int),
{
    let mut out: Vec<String> = Vec::new();
    assert(out.deep_view() =~= Seq::<Seq<char>>::empty());
    let mut i: usize = 0;
    while i < names.len()
        invariant
            i <= names.len(),
            out.deep_view() == comma_list(names.deep_view(), i as int),
        decreases names.len() - i,
    {
        push_token(&mut out, &names[i]);
        push_word(&mut out, ",");
        i = i + 1;
    }
    out
}

fn decl_tokens(fields: &Vec<Field>) -> (r: Vec<String>)
    ensures
        r.deep_view() == field_decls(fields.deep_view(), fields.len() as int),
{
    let mut out: Vec<String> = Vec::new();
    assert(out.deep_view() =~= Seq::<Seq<char>>::empty());
    let mut i: usize = 0;
    while i < fields.len()
        invariant
            i <= fields.len(),
            out.deep_view() == field_decls(fields.deep_view(), i as int),
        decreases fields.len() - i,
    {
        push_word(&mut out, "pub");
        push_token(&mut out, &fields[i].name);
        push_word(&mut out, ":");
        push_token(&mut out, &fields[i].ty);
        push_word(&mut out, ",");
        i = i + 1;
    }
    out
}

fn param_tokens(fields: &Vec<Field>) -> (r: Vec<String>)
    ensures
        r.deep_view() == field_params(fields.deep_view(), fields.len() as int),
{
    let mut out: Vec<String> = Vec::new();
    assert(out.deep_view() =~= Seq::<Seq<char>>::empty());
    let mut i: usize = 0;
    while i < fields.len()
        invariant
            i <= fields.len(),
            out.deep_view() == field_params(fields.deep_view(), i as int),
        decreases fields.len() - i,
    {
        push_token(&mut out, &fields[i].name);
        push_word(&mut out, ":");
        push_token(&mut out, &fields[i].ty);
        push_word(&mut out, ",");
        i = i + 1;
    }
    out
}

fn name_tokens(fields: &Vec<Field>) -> (r: Vec<String>)
    ensures
        r.deep_view() == field_names(fields.deep_view(), fields.len() as int),
{
    let mut out: Vec<String> = Vec::new();
    assert(out.deep_view() =~= Seq::<Seq<char>>::empty());
    let mut i: usize = 0;
    while i < fields.len()
        invariant
            i <= fields.len(),
            out.deep_view() == field_names(fields.deep_view(), i as int),
        decreases fields.len() - i,
    {
        push_token(&mut out, &fields[i].name);
        push_word(&mut out, ",");
        i = i + 1;
    }
    out
}

fn pat_tokens(fields: &Vec<Field>) -> (r: Vec<String>)
    ensures
        r.deep_view() == field_pats(fields.deep_view(), fields.len() as int),
{
    let mut out: Vec<String> = Vec::new();
    assert(out.deep_view() =~= Seq::<Seq<char>>::empty());
    let mut i: usize = 0;
    while i < fields.len()
        invariant
            i <= fields.len(),
            out.deep_view() == field_pats(fields.deep_view(), i as int),
        decreases fields.len() - i,
    {
        push_token(&mut out, &fields[i].pat);
        push_word(&mut out, ",");
        i = i + 1;
    }
    out
}

/// No tokens.
pub open spec fn none() -> Tokens {
    Seq::empty()
}

fn no_tokens() -> (r: Vec<String>)
    ensures
        r.deep_view() == none(),
{
    let out: Vec<String> = Vec::new();
    assert(out.deep_view() =~= none());
    out
}

/// The return type as written, arrow included.
pub open spec fn output_text(output: ReturnType) -> Tokens {
    match output {
        ReturnType::Default => none(),
        ReturnType::Type { text, .. } => seq![text@],
    }
}

fn output_tokens(output: &ReturnType) -> (r: Vec<String>)
    ensures
        r.deep_view() == output_text(*output),
{
    let mut out = no_tokens();
    match output {
        ReturnType::Default => {},
        ReturnType::Type { text, .. } => push_token(&mut out, text),
    }
    out
}

/// The generic arguments that name the record type: nothing without
/// generic parameters, else their names between angle brackets.
pub open spec fn generic_args(names: Tokens) -> Tokens {
    if names.len() == 0 {
        none()
    } else {
        seq!["<"@] + comma_list(names, names.len() as int) + seq![">"@]
    }
}

fn generic_arg_tokens(names: &Vec<String>) -> (r: Vec<String>)
    ensures
        r.deep_view() == generic_args(names.deep_view()),
{
    let mut out = no_tokens();
    if names.len() > 0 {
        push_word(&mut out, "<");
        push_all(&mut out, &comma_tokens(names));
        push_word(&mut out, ">");
    }
    out
}

/// The input handed to a run-once invocation: nothing without piped
/// inputs, the single input alone, or a tuple of several.
pub open spec fn payload(threaded: Tokens) -> Tokens {
    if threaded.len() > 1 {
        seq!["("@] + comma_list(threaded, threaded.len() as int) + seq![")"@]
    } else if threaded.len() == 1 {
        seq![threaded[0]]
    } else {
        none()
    }
}

fn payload_tokens(threaded: &Vec<String>) -> (r: Vec<String>)
    ensures
        r.deep_view() == payload(threaded.deep_view()),
{
    let mut out = no_tokens();
    if threaded.len() > 1 {
        push_word(&mut out, "(");
        push_all(&mut out, &comma_tokens(threaded));
        push_word(&mut out, ")");
    } else if threaded.len() == 1 {
        push_token(&mut out, &threaded[0]);
    }
    out
}

/// One run-once invocation of `routine`, to follow the receiver and its
/// dot: with the payload as its input where there is one.
pub open spec fn run_once(threaded: Tokens, routine: Seq<char>) -> Tokens {
    if threaded.len() == 0 {
        seq!["run_system_once ("@, routine, ") ;"@]
    } else {
        seq!["run_system_once_with ("@] + payload(threaded) + seq![","@, routine, ") ;"@]
    }
}

fn run_once_tokens(threaded: &Vec<String>, routine: &String) -> (r: Vec<String>)
    ensures
        r.deep_view() == run_once(threaded.deep_view(), routine@),
{
    let mut out = no_tokens();
    if threaded.len() == 0 {
        push_word(&mut out, "run_system_once (");
    } else {
        push_word(&mut out, "run_system_once_with (");
        push_all(&mut out, &payload_tokens(threaded));
        push_word(&mut out, ",");
    }
    push_token(&mut out, routine);
    push_word(&mut out, ") ;");
    out
}

/// The `use` item that brings the run-once primitive into scope.
pub open spec fn import(root: Seq<char>) -> Tokens {
    seq!["use"@, root, ":: system :: RunSystemOnce ;"@]
}

fn import_tokens(root: &String) -> (r: Vec<String>)
    ensures
        r.deep_view() == import(root@),
{
    let mut out = no_tokens();
    push_word(&mut out, "use");
    push_token(&mut out, root);
    push_word(&mut out, ":: system :: RunSystemOnce ;");
    out
}

/// One arm of the dispatch: on the outcome `variant`, exactly one run-once
/// invocation of `handler` with the payload, bound to `payload`, as its
/// input; without a handler the payload is dropped and nothing runs.
pub open spec fn arm(
    variant: Seq<char>,
    payload: Seq<char>,
    context: Seq<char>,
    handler: Option<Seq<char>>,
) -> Tokens {
    match handler {
        Some(h) => seq![
            variant,
            "("@,
            payload,
            ") => {"@,
            context,
            ". run_system_once_with ("@,
            payload,
            ","@,
            h,
            ") ; }"@,
        ],
        None => seq![variant, "( _ ) => { }"@],
    }
}

fn arm_tokens(variant: &str, payload: &str, context: &String, handler: &Option<String>) -> (r:
    Vec<String>)
    ensures
        r.deep_view() == arm(variant@, payload@, context@, handler.deep_view()),
{
    let mut out = no_tokens();
    push_word(&mut out, variant);
    match handler {
        Some(h) => {
            push_word(&mut out, "(");
            push_word(&mut out, payload);
            push_word(&mut out, ") => {");
            push_token(&mut out, context);
            push_word(&mut out, ". run_system_once_with (");
            push_word(&mut out, payload);
            push_word(&mut out, ",");
            push_token(&mut out, h);
            push_word(&mut out, ") ; }");
        },
        None => {
            push_word(&mut out, "( _ ) => { }");
        },
    }
    out
}

/// The dispatch that replaces the body of a routed command: it calls the
/// kept function with every parameter and matches on the outcome. The
/// block has no value, so no outcome reaches the caller.
pub open spec fn dispatch(r: RoutingView, root: Seq<char>) -> Tokens {
    seq!["{"@] + import(root) + seq!["match"@, r.shadow, "("@] + comma_list(
        r.call,
        r.call.len() as int,
    ) + seq![") {"@] + arm("Ok"@, "value"@, r.context, r.ok) + arm(
        "Err"@,
        "error"@,
        r.context,
        r.err,
    ) + seq!["} }"@]
}

fn dispatch_tokens(r: &Routing, root: &String) -> (out: Vec<String>)
    ensures
        out.deep_view() == dispatch(r.deep_view(), root@),
{
    let mut out = no_tokens();
    push_word(&mut out, "{");
    push_all(&mut out, &import_tokens(root));
    push_word(&mut out, "match");
    push_token(&mut out, &r.shadow);
    push_word(&mut out, "(");
    push_all(&mut out, &comma_tokens(&r.call));
    push_word(&mut out, ") {");
    push_all(&mut out, &arm_tokens("Ok", "value", &r.context, &r.ok));
    push_all(&mut out, &arm_tokens("Err", "error", &r.context, &r.err));
    push_word(&mut out, "} }");
    out
}

/// The annotated function's header under the name `name`, up to the
/// closing parenthesis: leave to leave things unused, then its attributes,
/// visibility, qualifiers, generics and parameters as written.
pub open spec fn header(item: ItemFn, name: Seq<char>) -> Tokens {
    seq!["# [allow (unused)]"@] + attr_texts(item.attrs@, item.attrs@.len() as int) + seq![
        item.vis@,
        item.qualifiers@,
        "fn"@,
        name,
        item.generics.text@,
        "("@,
    ] + input_texts(item.inputs@, item.inputs@.len() as int) + seq![")"@]
}

fn header_tokens(item: &ItemFn, name: &String) -> (out: Vec<String>)
    ensures
        out.deep_view() == header(*item, name@),
{
    let mut out = no_tokens();
    push_word(&mut out, "# [allow (unused)]");
    push_all(&mut out, &attr_tokens(&item.attrs));
    push_token(&mut out, &item.vis);
    push_token(&mut out, &item.qualifiers);
    push_word(&mut out, "fn");
    push_token(&mut out, name);
    push_token(&mut out, &item.generics.text);
    push_word(&mut out, "(");
    push_all(&mut out, &input_tokens(&item.inputs));
    push_word(&mut out, ")");
    out
}

/// The annotated function as it is kept: under its own name and without
/// its return type, or, where its outcome is routed, under the shadow name
/// and with the return type it declared. The body is never touched.
pub open spec fn routine(p: PlanView, item: ItemFn) -> Tokens {
    match p.routing {
        None => header(item, item.ident@) + seq![item.block@],
        Some(r) => header(item, r.shadow) + output_text(item.output) + seq![item.block@],
    }
}

fn routine_tokens(p: &Plan, item: &ItemFn) -> (out: Vec<String>)
    ensures
        out.deep_view() == routine(p.deep_view(), *item),
{
    match &p.routing {
        None => {
            let mut out = header_tokens(item, &item.ident);
            push_token(&mut out, &item.block);
            out
        },
        Some(r) => {
            let mut out = header_tokens(item, &r.shadow);
            push_all(&mut out, &output_tokens(&item.output));
            push_token(&mut out, &item.block);
            out
        },
    }
}

/// The function that takes the annotated function's name where its outcome
/// is routed: the same header, no return type, the dispatch as its body.
pub open spec fn shim(p: PlanView, item: ItemFn) -> Tokens {
    match p.routing {
        None => none(),
        Some(r) => header(item, item.ident@) + dispatch(r, p.ecs_root),
    }
}

fn shim_tokens(p: &Plan, item: &ItemFn) -> (out: Vec<String>)
    ensures
        out.deep_view() == shim(p.deep_view(), *item),
{
    match &p.routing {
        None => no_tokens(),
        Some(r) => {
            let mut out = header_tokens(item, &item.ident);
            push_all(&mut out, &dispatch_tokens(r, &p.ecs_root));
            out
        },
    }
}

/// The body of the record type: a semicolon for a record without fields,
/// else the fields between braces.
pub open spec fn record_body(fields: Seq<FieldView>) -> Tokens {
    if fields.len() == 0 {
        seq![";"@]
    } else {
        seq!["{"@] + field_decls(fields, fields.len() as int) + seq!["}"@]
    }
}

fn record_body_tokens(fields: &Vec<Field>) -> (out: Vec<String>)
    ensures
        out.deep_view() == record_body(fields.deep_view()),
{
    let mut out = no_tokens();
    if fields.len() == 0 {
        push_word(&mut out, ";");
    } else {
        push_word(&mut out, "{");
        push_all(&mut out, &decl_tokens(fields));
        push_word(&mut out, "}");
    }
    out
}

/// The record type: the function's attributes and visibility, the record's
/// name, the function's generics, and a field for every field of the plan.
pub open spec fn record(p: PlanView, item: ItemFn) -> Tokens {
    attr_texts(item.attrs@, item.attrs@.len() as int) + seq![
        item.vis@,
        "struct"@,
        p.struct_name,
        item.generics.text@,
    ] + record_body(p.sys.fields)
}

fn record_tokens(p: &Plan, item: &ItemFn) -> (out: Vec<String>)
    ensures
        out.deep_view() == record(p.deep_view(), *item),
{
    let mut out = attr_tokens(&item.attrs);
    push_token(&mut out, &item.vis);
    push_word(&mut out, "struct");
    push_token(&mut out, &p.struct_name);
    push_token(&mut out, &item.generics.text);
    push_all(&mut out, &record_body_tokens(&p.sys.fields));
    out
}

/// The execution trait of the host, from the root.
pub open spec fn command_trait(entity_command: bool) -> Seq<char> {
    if entity_command {
        ":: system :: EntityCommand"@
    } else {
        ":: system :: Command"@
    }
}

fn command_trait_text(entity_command: bool) -> (r: String)
    ensures
        r@ == command_trait(entity_command),
{
    if entity_command {
        String::from_str(":: system :: EntityCommand")
    } else {
        String::from_str(":: system :: Command")
    }
}

/// The entity parameter of `apply`, where there is one.
pub open spec fn entity_param(entity: Option<Seq<char>>) -> Tokens {
    match entity {
        Some(e) => seq![e, ","@],
        None => none(),
    }
}

fn entity_param_tokens(entity: &Option<String>) -> (out: Vec<String>)
    ensures
        out.deep_view() == entity_param(entity.deep_view()),
{
    let mut out = no_tokens();
    match entity {
        Some(e) => {
            push_token(&mut out, e);
            push_word(&mut out, ",");
        },
        None => {},
    }
    out
}

/// The record taken apart into the given bindings.
pub open spec fn unpack(struct_name: Seq<char>, bindings: Tokens) -> Tokens {
    seq!["let"@, struct_name, "{"@] + bindings + seq!["} = self ;"@]
}

fn unpack_tokens(struct_name: &String, bindings: &Vec<String>) -> (out: Vec<String>)
    ensures
        out.deep_view() == unpack(struct_name@, bindings.deep_view()),
{
    let mut out = no_tokens();
    push_word(&mut out, "let");
    push_token(&mut out, struct_name);
    push_word(&mut out, "{");
    push_all(&mut out, bindings);
    push_word(&mut out, "} = self ;");
    out
}

/// What is run in place by an exclusive command: the function's body, or
/// the dispatch where the outcome is routed.
pub open spec fn inlined(p: PlanView, item: ItemFn) -> Tokens {
    match p.routing {
        None => seq![item.block@],
        Some(r) => dispatch(r, p.ecs_root),
    }
}

fn inlined_tokens(p: &Plan, item: &ItemFn) -> (out: Vec<String>)
    ensures
        out.deep_view() == inlined(p.deep_view(), *item),
{
    match &p.routing {
        None => {
            let mut out = no_tokens();
            push_token(&mut out, &item.block);
            out
        },
        Some(r) => dispatch_tokens(r, &p.ecs_root),
    }
}

/// What `apply` is, from its parameters on. An exclusive command binds the
/// context as the function declared it, takes the record apart into the
/// function's own bindings and runs the body in place. A system command
/// takes the record apart and makes exactly one run-once invocation of the
/// kept function; the body is not written again.
pub open spec fn apply_body(p: PlanView, item: ItemFn) -> Tokens {
    match p.sys.args {
        SystemArgsView::Exclusive { world } => entity_param(p.sys.entity) + seq![world, ") {"@]
            + unpack(p.struct_name, field_pats(p.sys.fields, p.sys.fields.len() as int))
            + inlined(p, item),
        SystemArgsView::System { systems_in, .. } => entity_param(p.sys.entity) + seq![
            "world : & mut"@,
            p.ecs_root,
            ":: world :: World ) {"@,
        ] + import(p.ecs_root) + unpack(
            p.struct_name,
            field_names(p.sys.fields, p.sys.fields.len() as int),
        ) + seq!["world ."@] + run_once(systems_in, item.ident@),
    }
}

fn apply_body_tokens(p: &Plan, item: &ItemFn) -> (out: Vec<String>)
    ensures
        out.deep_view() == apply_body(p.deep_view(), *item),
{
    let mut out = entity_param_tokens(&p.sys.entity);
    match &p.sys.args {
        SystemArgs::Exclusive { world } => {
            push_token(&mut out, world);
            push_word(&mut out, ") {");
            push_all(&mut out, &unpack_tokens(&p.struct_name, &pat_tokens(&p.sys.fields)));
            push_all(&mut out, &inlined_tokens(p, item));
        },
        SystemArgs::System { systems_in, .. } => {
            push_word(&mut out, "world : & mut");
            push_token(&mut out, &p.ecs_root);
            push_word(&mut out, ":: world :: World ) {");
            push_all(&mut out, &import_tokens(&p.ecs_root));
            push_all(&mut out, &unpack_tokens(&p.struct_name, &name_tokens(&p.sys.fields)));
            push_word(&mut out, "world .");
            push_all(&mut out, &run_once_tokens(systems_in, &item.ident));
        },
    }
    out
}

/// The implementation of the host's execution trait for the record.
pub open spec fn execution(p: PlanView, item: ItemFn) -> Tokens {
    seq![
        "impl"@,
        item.generics.text@,
        p.ecs_root,
        command_trait(p.entity_command),
        "for"@,
        p.struct_name,
    ] + generic_args(p.generic_names) + seq!["{ fn apply ( self ,"@] + apply_body(p, item)
        + seq!["} }"@]
}

fn execution_tokens(p: &Plan, item: &ItemFn) -> (out: Vec<String>)
    ensures
        out.deep_view() == execution(p.deep_view(), *item),
{
    let mut out = no_tokens();
    push_word(&mut out, "impl");
    push_token(&mut out, &item.generics.text);
    push_token(&mut out, &p.ecs_root);
    push_token(&mut out, &command_trait_text(p.entity_command));
    push_word(&mut out, "for");
    push_token(&mut out, &p.struct_name);
    push_all(&mut out, &generic_arg_tokens(&p.generic_names));
    push_word(&mut out, "{ fn apply ( self ,");
    push_all(&mut out, &apply_body_tokens(p, item));
    push_word(&mut out, "} }");
    out
}

/// What a generated method returns, as written: the chainable marker for a
/// chainable command, nothing otherwise.
pub open spec fn method_output(p: PlanView, item: ItemFn) -> Tokens {
    if p.chain {
        output_text(item.output)
    } else {
        none()
    }
}

/// How a generated method ends: a chainable command hands back what it was
/// called on.
pub open spec fn method_tail(chain: bool) -> Tokens {
    if chain {
        seq!["self"@]
    } else {
        none()
    }
}

/// The header of the generated method: the resolved name, the function's
/// generics, the receiver, the record's fields in order, and what it returns.
pub open spec fn method_head(p: PlanView, item: ItemFn) -> Tokens {
    seq!["fn"@, p.name, item.generics.text@, "( & mut self ,"@] + field_params(
        p.sys.fields,
        p.sys.fields.len() as int,
    ) + seq![")"@] + method_output(p, item)
}

fn method_head_tokens(p: &Plan, item: &ItemFn) -> (out: Vec<String>)
    ensures
        out.deep_view() == method_head(p.deep_view(), *item),
{
    let mut out = no_tokens();
    push_word(&mut out, "fn");
    push_token(&mut out, &p.name);
    push_token(&mut out, &item.generics.text);
    push_word(&mut out, "( & mut self ,");
    push_all(&mut out, &param_tokens(&p.sys.fields));
    push_word(&mut out, ")");
    if p.chain {
        push_all(&mut out, &output_tokens(&item.output));
    }
    out
}

fn method_tail_tokens(chain: bool) -> (out: Vec<String>)
    ensures
        out.deep_view() == method_tail(chain),
{
    let mut out = no_tokens();
    if chain {
        push_word(&mut out, "self");
    }
    out
}

/// The record built from the method's parameters.
pub open spec fn construction(p: PlanView) -> Tokens {
    seq![p.struct_name, "{"@] + field_names(p.sys.fields, p.sys.fields.len() as int) + seq![
        "}"@,
    ]
}

fn construction_tokens(p: &Plan) -> (out: Vec<String>)
    ensures
        out.deep_view() == construction(p.deep_view()),
{
    let mut out = no_tokens();
    push_token(&mut out, &p.struct_name);
    push_word(&mut out, "{");
    push_all(&mut out, &name_tokens(&p.sys.fields));
    push_word(&mut out, "}");
    out
}

/// The host's deferred queue for this kind of command, from the root.
pub open spec fn queue_type(entity_command: bool) -> Seq<char> {
    if entity_command {
        ":: system :: EntityCommands < '_ >"@
    } else {
        ":: system :: Commands < '_ , '_ >"@
    }
}

fn queue_type_text(entity_command: bool) -> (r: String)
    ensures
        r@ == queue_type(entity_command),
{
    if entity_command {
        String::from_str(":: system :: EntityCommands < '_ >")
    } else {
        String::from_str(":: system :: Commands < '_ , '_ >")
    }
}

/// The host type that a command is applied to at once, from the root.
pub open spec fn direct_type(entity_command: bool) -> Seq<char> {
    if entity_command {
        ":: world :: EntityWorldMut < '_ >"@
    } else {
        ":: world :: World"@
    }
}

fn direct_type_text(entity_command: bool) -> (r: String)
    ensures
        r@ == direct_type(entity_command),
{
    if entity_command {
        String::from_str(":: world :: EntityWorldMut < '_ >")
    } else {
        String::from_str(":: world :: World")
    }
}

/// The body of the queued method: the record is built and enqueued.
pub open spec fn queued_body(p: PlanView) -> Tokens {
    seq!["self . add ("@] + construction(p) + seq![") ;"@]
}

fn queued_body_tokens(p: &Plan) -> (out: Vec<String>)
    ensures
        out.deep_view() == queued_body(p.deep_view()),
{
    let mut out = no_tokens();
    push_word(&mut out, "self . add (");
    push_all(&mut out, &construction_tokens(p));
    push_word(&mut out, ") ;");
    out
}

/// The record type named as the implementor of the execution trait.
pub open spec fn qualified(p: PlanView) -> Tokens {
    seq!["<"@, p.struct_name] + generic_args(p.generic_names) + seq![
        "as"@,
        p.ecs_root,
        command_trait(p.entity_command),
        "> :: apply ("@,
    ]
}

fn qualified_tokens(p: &Plan) -> (out: Vec<String>)
    ensures
        out.deep_view() == qualified(p.deep_view()),
{
    let mut out = no_tokens();
    push_word(&mut out, "<");
    push_token(&mut out, &p.struct_name);
    push_all(&mut out, &generic_arg_tokens(&p.generic_names));
    push_word(&mut out, "as");
    push_token(&mut out, &p.ecs_root);
    push_token(&mut out, &command_trait_text(p.entity_command));
    push_word(&mut out, "> :: apply (");
    out
}

/// The entity bound from the receiver, where the system takes it as an input.
pub open spec fn entity_binding(entity_name: Option<Seq<char>>) -> Tokens {
    match entity_name {
        Some(n) => seq!["let"@, n, "= self . id ( ) ;"@],
        None => none(),
    }
}

fn entity_binding_tokens(entity_name: &Option<String>) -> (out: Vec<String>)
    ensures
        out.deep_view() == entity_binding(entity_name.deep_view()),
{
    let mut out = no_tokens();
    match entity_name {
        Some(n) => {
            push_word(&mut out, "let");
            push_token(&mut out, n);
            push_word(&mut out, "= self . id ( ) ;");
        },
        None => {},
    }
    out
}

/// The body of the direct method. An exclusive command builds the same
/// record as the queued method and applies it at once through the
/// execution trait. A system command makes the same run-once invocation as
/// the record's `apply`, with the method's parameters as the payload.
pub open spec fn direct_body(p: PlanView, item: ItemFn) -> Tokens {
    match p.sys.args {
        SystemArgsView::Exclusive { .. } => if p.entity_command {
            seq!["let id = self . id ( ) ; self . world_scope ( | world | {"@] + qualified(p)
                + construction(p) + seq![", id , world ) ; } ) ;"@]
        } else {
            qualified(p) + construction(p) + seq![", self ) ;"@]
        },
        SystemArgsView::System { entity_name, systems_in } => if p.entity_command {
            import(p.ecs_root) + entity_binding(entity_name) + seq![
                "self . world_scope ( | world | { world ."@,
            ] + run_once(systems_in, item.ident@) + seq!["} ) ;"@]
        } else {
            import(p.ecs_root) + entity_binding(entity_name) + seq!["self ."@] + run_once(
                systems_in,
                item.ident@,
            )
        },
    }
}

fn direct_body_tokens(p: &Plan, item: &ItemFn) -> (out: Vec<String>)
    ensures
        out.deep_view() == direct_body(p.deep_view(), *item),
{
    let mut out = no_tokens();
    match &p.sys.args {
        SystemArgs::Exclusive { .. } => {
            if p.entity_command {
                push_word(&mut out, "let id = self . id ( ) ; self . world_scope ( | world | {");
                push_all(&mut out, &qualified_tokens(p));
                push_all(&mut out, &construction_tokens(p));
                push_word(&mut out, ", id , world ) ; } ) ;");
            } else {
                push_all(&mut out, &qualified_tokens(p));
                push_all(&mut out, &construction_tokens(p));
                push_word(&mut out, ", self ) ;");
            }
        },
        SystemArgs::System { entity_name, systems_in } => {
            push_all(&mut out, &import_tokens(&p.ecs_root));
            push_all(&mut out, &entity_binding_tokens(entity_name));
            if p.entity_command {
                push_word(&mut out, "self . world_scope ( | world | { world .");
                push_all(&mut out, &run_once_tokens(systems_in, &item.ident));
                push_word(&mut out, "} ) ;");
            } else {
                push_word(&mut out, "self .");
                push_all(&mut out, &run_once_tokens(systems_in, &item.ident));
            }
        },
    }
    out
}

/// One implementation of the extension trait: for `target`, with `body` as
/// what the method does.
pub open spec fn implementation(p: PlanView, item: ItemFn, target: Seq<char>, body: Tokens)
    -> Tokens {
    seq!["impl"@, p.trait_name, "for"@, p.ecs_root, target, "{"@] + method_head(p, item) + seq![
        "{"@,
    ] + body + method_tail(p.chain) + seq!["} }"@]
}

fn implementation_tokens(p: &Plan, item: &ItemFn, target: &String, body: &Vec<String>) -> (out:
    Vec<String>)
    ensures
        out.deep_view() == implementation(p.deep_view(), *item, target@, body.deep_view()),
{
    let mut out = no_tokens();
    push_word(&mut out, "impl");
    push_token(&mut out, &p.trait_name);
    push_word(&mut out, "for");
    push_token(&mut out, &p.ecs_root);
    push_token(&mut out, target);
    push_word(&mut out, "{");
    push_all(&mut out, &method_head_tokens(p, item));
    push_word(&mut out, "{");
    push_all(&mut out, body);
    push_all(&mut out, &method_tail_tokens(p.chain));
    push_word(&mut out, "} }");
    out
}

/// The declaration of the extension trait, with the documentation of the
/// function on its one method.
pub open spec fn declaration(p: PlanView, item: ItemFn) -> Tokens {
    seq!["pub trait"@, p.trait_name, "{"@] + doc_texts(item.attrs@, item.attrs@.len() as int)
        + method_head(p, item) + seq!["; }"@]
}

fn declaration_tokens(p: &Plan, item: &ItemFn) -> (out: Vec<String>)
    ensures
        out.deep_view() == declaration(p.deep_view(), *item),
{
    let mut out = no_tokens();
    push_word(&mut out, "pub trait");
    push_token(&mut out, &p.trait_name);
    push_word(&mut out, "{");
    push_all(&mut out, &docs(&item.attrs));
    push_all(&mut out, &method_head_tokens(p, item));
    push_word(&mut out, "; }");
    out
}

/// The extension trait and its implementation for the deferred queue.
/// Nothing where the trait is suppressed.
pub open spec fn extension(p: PlanView, item: ItemFn) -> Tokens {
    if p.no_trait {
        none()
    } else {
        declaration(p, item) + implementation(
            p,
            item,
            queue_type(p.entity_command),
            queued_body(p),
        )
    }
}

fn extension_tokens(p: &Plan, item: &ItemFn) -> (out: Vec<String>)
    ensures
        out.deep_view() == extension(p.deep_view(), *item),
{
    let mut out = no_tokens();
    if !p.no_trait {
        push_all(&mut out, &declaration_tokens(p, item));
        push_all(
            &mut out,
            &implementation_tokens(
                p,
                item,
                &queue_type_text(p.entity_command),
                &queued_body_tokens(p),
            ),
        );
    }
    out
}

/// The implementation of the extension trait that applies the command at
/// once. Nothing where the trait or this implementation is suppressed.
pub open spec fn direct(p: PlanView, item: ItemFn) -> Tokens {
    if p.no_trait || p.no_world {
        none()
    } else {
        implementation(p, item, direct_type(p.entity_command), direct_body(p, item))
    }
}

fn direct_tokens(p: &Plan, item: &ItemFn) -> (out: Vec<String>)
    ensures
        out.deep_view() == direct(p.deep_view(), *item),
{
    if p.no_trait || p.no_world {
        no_tokens()
    } else {
        implementation_tokens(
            p,
            item,
            &direct_type_text(p.entity_command),
            &direct_body_tokens(p, item),
        )
    }
}

/// Everything generated for one command, one token list for each part.
#[derive(Clone, Debug)]
pub struct Expansion {
    /// The annotated function as it is kept.
    pub routine: Vec<String>,
    /// The function that dispatches a routed outcome; empty without routing.
    pub shim: Vec<String>,
    /// The record type.
    pub record: Vec<String>,
    /// The implementation of the host's execution trait for the record.
    pub execution: Vec<String>,
    /// The extension trait and its implementation for the deferred queue;
    /// empty where suppressed.
    pub extension: Vec<String>,
    /// The implementation that applies the command at once; empty where
    /// suppressed.
    pub direct: Vec<String>,
}

/// The mathematical value of an expansion.
pub struct ExpansionView {
    pub routine: Tokens,
    pub shim: Tokens,
    pub record: Tokens,
    pub execution: Tokens,
    pub extension: Tokens,
    pub direct: Tokens,
}

impl DeepView for Expansion {
    type V = ExpansionView;

    open spec fn deep_view(&self) -> ExpansionView {
        ExpansionView {
            routine: self.routine.deep_view(),
            shim: self.shim.deep_view(),
            record: self.record.deep_view(),
            execution: self.execution.deep_view(),
            extension: self.extension.deep_view(),
            direct: self.direct.deep_view(),
        }
    }
}

/// What the plan `p` generates for the function `item`.
pub open spec fn expanded(p: PlanView, item: ItemFn) -> ExpansionView {
    ExpansionView {
        routine: routine(p, item),
        shim: shim(p, item),
        record: record(p, item),
        execution: execution(p, item),
        extension: extension(p, item),
        direct: direct(p, item),
    }
}

/// The parts of an expansion in the order they are emitted.
pub open spec fn assembled(e: ExpansionView) -> Tokens {
    e.routine + e.shim + e.record + e.execution + e.extension + e.direct
}

/// Generates every part that the plan `p` calls for.
pub fn expand(p: &Plan, item: &ItemFn) -> (r: Expansion)
    ensures
        r.deep_view() == expanded(p.deep_view(), *item),
{
    Expansion {
        routine: routine_tokens(p, item),
        shim: shim_tokens(p, item),
        record: record_tokens(p, item),
        execution: execution_tokens(p, item),
        extension: extension_tokens(p, item),
        direct: direct_tokens(p, item),
    }
}

impl Expansion {
    /// All parts as one token list, in the order they are emitted.
    pub fn assemble(&self) -> (r: Vec<String>)
        ensures
            r.deep_view() == assembled(self.deep_view()),
    {
        let mut out = no_tokens();
        push_all(&mut out, &self.routine);
        push_all(&mut out, &self.shim);
        push_all(&mut out, &self.record);
        push_all(&mut out, &self.execution);
        push_all(&mut out, &self.extension);
        push_all(&mut out, &self.direct);
        out
    }
}

} // verus!
