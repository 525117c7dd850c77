//! What holds of the generator as a whole, proved from the definitions.

use vstd::prelude::*;
use crate::classify::{aggregate, classified, matched, paired, piped_in, walked, SystemArgsView};
use crate::diag::{ErrorView, Span};
use crate::emit::{apply_body, arm, construction, direct_body, dispatch, execution, expanded, header,
    implementation, method_head, method_output, method_tail, none, output_text, queued_body, record,
    routine, run_once, shim};
use crate::options::{keyed, resolved};
use crate::outside::pascal_case;
use crate::plan::{call_names, context_name, is_chain, planned, suffix, PlanView};
use crate::roles::{arg_types, fault, is_entity, is_piped, is_world, item_names, FieldView, Roles};
use crate::syntax::{FnArg, ItemFn, Meta, PatIdent, PatType, ReturnType};
use crate::text::Tokens;

verus! {

/// Whether one of the first `n` parameters is a context parameter.
pub open spec fn has_context(inputs: Seq<FnArg>, n: int) -> bool {
    exists|i: int| 0 <= i < n && context_at(inputs, i)
}

/// Whether the parameter at index `i` is a context parameter.
pub open spec fn context_at(inputs: Seq<FnArg>, i: int) -> bool {
    inputs[i] matches FnArg::Typed(pt) && is_world(pt.ty)
}

/// Binding piped inputs touches neither the context nor the plain parameters.
pub proof fn lemma_pairing_is_local(
    state: Roles,
    names: Seq<PatIdent>,
    types: Seq<Seq<char>>,
    entity_command: bool,
    i: usize,
    n: int,
)
    ensures
        paired(state, names, types, entity_command, i, n) matches Ok(s) ==> s.world == state.world
            && s.captured == state.captured,
    decreases n,
{
    if n > 0 {
        lemma_pairing_is_local(state, names, types, entity_command, i, n - 1);
    }
}

/// Reading a piped parameter touches neither the context nor the plain parameters.
pub proof fn lemma_piping_is_local(state: Roles, pt: PatType, entity_command: bool, i: usize)
    ensures
        piped_in(state, pt, entity_command, i) matches Ok(s) ==> s.world == state.world
            && s.captured == state.captured,
{
    if pt.pat is TupleStruct && pt.ty is Path && pt.ty->arguments is AngleBracketed {
        let items = pt.pat->TupleStruct_0@;
        let args = pt.ty->arguments->AngleBracketed_0@;
        let names = item_names(items, i, items.len() as int);
        let types = arg_types(args, i, args.len() as int);
        if names is Ok && types is Ok {
            lemma_pairing_is_local(
                state,
                names->Ok_0,
                types->Ok_0,
                entity_command,
                i,
                names->Ok_0.len() as int,
            );
        }
    }
}

/// A walk has found a context exactly when a context parameter was among
/// the parameters it has seen.
pub proof fn lemma_context_found(inputs: Seq<FnArg>, entity_command: bool, n: int)
    requires
        0 <= n <= inputs.len(),
    ensures
        walked(inputs, entity_command, n) matches Ok(state) ==> (state.world is Some
            <==> has_context(inputs, n)),
    decreases n,
{
    if n > 0 && walked(inputs, entity_command, n) is Ok {
        lemma_context_found(inputs, entity_command, n - 1);
        let before = walked(inputs, entity_command, n - 1)->Ok_0;
        let after = walked(inputs, entity_command, n)->Ok_0;
        if context_at(inputs, n - 1) {
            assert(has_context(inputs, n));
        } else {
            if inputs[n - 1] is Typed {
                lemma_piping_is_local(
                    before,
                    inputs[n - 1]->Typed_0,
                    entity_command,
                    (n - 1) as usize,
                );
            }
            assert(after.world == before.world);
            if has_context(inputs, n) {
                let i = choose|i: int| 0 <= i < n && context_at(inputs, i);
                assert(0 <= i < n - 1 && context_at(inputs, i));
            }
            if has_context(inputs, n - 1) {
                let i = choose|i: int| 0 <= i < n - 1 && context_at(inputs, i);
                assert(0 <= i < n && context_at(inputs, i));
            }
        }
    }
}

/// The mode follows from the parameters alone: an accepted function with a
/// context parameter is exclusive, an accepted function without one runs as
/// a system, and no option can change that.
pub proof fn law_mode(inputs: Seq<FnArg>, entity_command: bool)
    requires
        classified(inputs, entity_command) is Ok,
    ensures
        has_context(inputs, inputs.len() as int) ==> classified(
            inputs,
            entity_command,
        )->Ok_0.args is Exclusive,
        !has_context(inputs, inputs.len() as int) ==> classified(
            inputs,
            entity_command,
        )->Ok_0.args is System,
{
    lemma_context_found(inputs, entity_command, inputs.len() as int);
}

/// The fields that the first `n` names make, each with the type at its own position.
pub open spec fn one_to_one(names: Seq<PatIdent>, types: Tokens, n: int) -> Seq<FieldView> {
    Seq::new(
        n as nat,
        |k: int| FieldView { name: names[k].ident@, ty: types[k], pat: names[k].text@ },
    )
}

/// The first `n` names alone.
pub open spec fn idents(names: Seq<PatIdent>, n: int) -> Tokens {
    Seq::new(n as nat, |k: int| names[k].ident@)
}

/// Where no entity is asked for, binding names to types one by one adds one
/// field and one threaded name for each pair, in order.
pub proof fn lemma_paired_one_to_one(
    state: Roles,
    names: Seq<PatIdent>,
    types: Tokens,
    i: usize,
    n: int,
)
    requires
        0 <= n,
    ensures
        paired(state, names, types, false, i, n) == Ok::<Roles, ErrorView>(
            Roles {
                piped: state.piped + one_to_one(names, types, n),
                threaded: state.threaded + idents(names, n),
                ..state
            },
        ),
    decreases n,
{
    if n > 0 {
        lemma_paired_one_to_one(state, names, types, i, n - 1);
        assert(one_to_one(names, types, n) =~= one_to_one(names, types, n - 1).push(
            FieldView { name: names[n - 1].ident@, ty: types[n - 1], pat: names[n - 1].text@ },
        ));
        assert(idents(names, n) =~= idents(names, n - 1).push(names[n - 1].ident@));
        assert(state.piped + one_to_one(names, types, n) =~= (state.piped + one_to_one(
            names,
            types,
            n - 1,
        )).push(
            FieldView { name: names[n - 1].ident@, ty: types[n - 1], pat: names[n - 1].text@ },
        ));
        assert(state.threaded + idents(names, n) =~= (state.threaded + idents(names, n - 1)).push(
            names[n - 1].ident@,
        ));
    } else {
        assert(state.piped + one_to_one(names, types, 0) =~= state.piped);
        assert(state.threaded + idents(names, 0) =~= state.threaded);
    }
}

/// The arity rule of piped inputs. As many names as types: each name
/// threads its own value. One name for several types: they are packed as
/// one tuple under that name. Every other count is a diagnostic at the
/// parameter's type.
pub proof fn law_arity(
    state: Roles,
    names: Seq<PatIdent>,
    types: Tokens,
    entity_command: bool,
    i: usize,
)
    ensures
        names.len() == types.len() && !entity_command ==> matched(
            state,
            names,
            types,
            entity_command,
            i,
        ) == Ok::<Roles, ErrorView>(
            Roles {
                piped: state.piped + one_to_one(names, types, names.len() as int),
                threaded: state.threaded + idents(names, names.len() as int),
                ..state
            },
        ),
        names.len() == 1 && types.len() > 1 ==> matched(state, names, types, entity_command, i)
            == Ok::<Roles, ErrorView>(
            Roles {
                piped: state.piped.push(
                    FieldView { name: names[0].ident@, ty: aggregate(types), pat: names[0].text@ },
                ),
                threaded: state.threaded.push(names[0].ident@),
                ..state
            },
        ),
        names.len() != types.len() && !(names.len() == 1 && types.len() > 0) ==> matched(
            state,
            names,
            types,
            entity_command,
            i,
        ) == Err::<Roles, ErrorView>(fault(Span::InputType(i), "Imbalanced names and types"@)),
{
    lemma_paired_one_to_one(state, names, types, i, names.len() as int);
}

/// The three names of a plan. The method is named as the options say. The
/// record and the trait are named as the options say where they say it,
/// each on its own; where they are silent, both names derive from the
/// method's name, so renaming the method renames them too.
pub proof fn law_names(args: Seq<Meta>, item: ItemFn, entity_command: bool)
    requires
        planned(args, item, entity_command) is Ok,
    ensures
        resolved(args, item.ident@, args.len() as int) is Ok,
        ({
            let p = planned(args, item, entity_command)->Ok_0;
            let opts = resolved(args, item.ident@, args.len() as int)->Ok_0;
            &&& p.name == opts.name
            &&& p.struct_name == match opts.struct_name {
                Some(n) => n,
                None => pascal_case(p.name) + suffix(entity_command),
            }
            &&& p.trait_name == match opts.trait_name {
                Some(n) => n,
                None => suffix(entity_command) + "s"@ + pascal_case(p.name) + "Ext"@,
            }
        }),
{
}

/// Without a `name` option the method is named after the function.
pub proof fn law_method_name(args: Seq<Meta>, ident: Seq<char>, n: int)
    requires
        0 <= n <= args.len(),
        forall|k: int| 0 <= k < n ==> !(args[k].kind is NameValue && keyed(args[k], "name"@)),
    ensures
        resolved(args, ident, n) matches Ok(opts) ==> opts.name == ident,
    decreases n,
{
    if n > 0 {
        law_method_name(args, ident, n - 1);
    }
}

/// Suppressing the trait leaves no trace of it, and leaves the record and
/// its execution in place: the command can still be built and applied by
/// hand. Suppressing only the direct implementation leaves the trait.
pub proof fn law_suppression(p: PlanView, item: ItemFn)
    ensures
        p.no_trait ==> expanded(p, item).extension == none() && expanded(p, item).direct == none(),
        p.no_world ==> expanded(p, item).direct == none(),
        !p.no_trait ==> expanded(p, item).extension.len() > 0,
        !p.no_trait && !p.no_world ==> expanded(p, item).direct.len() > 0,
        expanded(p, item).record.len() > 0,
        expanded(p, item).execution.len() > 0,
        expanded(p, item).record == record(PlanView { no_trait: false, no_world: false, ..p }, item),
        expanded(p, item).execution == execution(
            PlanView { no_trait: false, no_world: false, ..p },
            item,
        ),
{
}

/// A plan is chainable exactly when the function declares `&mut Self`; then
/// every generated method declares that same return type and ends by
/// handing back `self`, whatever it is implemented for and whatever it
/// does; otherwise no method returns anything.
pub proof fn law_chain(
    args: Seq<Meta>,
    item: ItemFn,
    entity_command: bool,
    target: Seq<char>,
    body: Tokens,
)
    requires
        planned(args, item, entity_command) is Ok,
    ensures
        ({
            let p = planned(args, item, entity_command)->Ok_0;
            let m = implementation(p, item, target, body);
            &&& p.chain <==> (item.output matches ReturnType::Type { ty, .. } && is_chain(ty))
            &&& p.chain ==> method_output(p, item) == seq![item.output->text@]
                && method_head(p, item).last() == item.output->text@ && m[m.len() - 2] == "self"@
            &&& !p.chain ==> method_output(p, item) == none() && method_tail(p.chain) == none()
        }),
{
}

/// The queued path and the direct path carry out the same command. For an
/// exclusive command both build the record with the same tokens, the one
/// to enqueue it, the other to apply it at once. For a system command the
/// record's `apply` and the direct method end in the same run-once
/// invocation: the same routine with the same payload.
pub proof fn law_same_command(p: PlanView, item: ItemFn)
    ensures
        ({
            let c = construction(p);
            &&& queued_body(p).subrange(1, 1 + c.len() as int) == c
            &&& p.sys.args is Exclusive ==> {
                let d = direct_body(p, item);
                d.subrange(d.len() - 1 - c.len(), d.len() - 1) == c
            }
            &&& p.sys.args matches SystemArgsView::System { systems_in, .. } ==> {
                let run = run_once(systems_in, item.ident@);
                let a = apply_body(p, item);
                let d = direct_body(p, item);
                let end = if p.entity_command {
                    d.len() - 1
                } else {
                    d.len() as int
                };
                &&& a.subrange(a.len() - run.len(), a.len() as int) == run
                &&& d.subrange(end - run.len(), end) == run
            }
        }),
{
    let c = construction(p);
    assert(queued_body(p).subrange(1, 1 + c.len() as int) =~= c);
    match p.sys.args {
        SystemArgsView::Exclusive { .. } => {
            let d = direct_body(p, item);
            assert(d.subrange(d.len() - 1 - c.len(), d.len() - 1) =~= c);
        },
        SystemArgsView::System { systems_in, .. } => {
            let run = run_once(systems_in, item.ident@);
            let a = apply_body(p, item);
            let d = direct_body(p, item);
            assert(a.subrange(a.len() - run.len(), a.len() as int) =~= run);
            if p.entity_command {
                assert(d.subrange(d.len() - 1 - run.len(), d.len() - 1) =~= run);
            } else {
                assert(d.subrange(d.len() - run.len(), d.len() as int) =~= run);
            }
        },
    }
}

/// Routing a fallible outcome. The function is kept whole under the shadow
/// name, return type included; the function that takes its name returns
/// nothing and holds the dispatch. In the dispatch, an outcome with a
/// handler makes one run-once invocation of that handler with the payload;
/// an outcome without one drops the payload and runs nothing.
pub proof fn law_routing(p: PlanView, item: ItemFn)
    requires
        p.routing is Some,
    ensures
        ({
            let r = p.routing->Some_0;
            let ok = arm("Ok"@, "value"@, r.context, r.ok);
            let err = arm("Err"@, "error"@, r.context, r.err);
            &&& routine(p, item) == header(item, r.shadow) + output_text(item.output) + seq![
                item.block@,
            ]
            &&& shim(p, item) == header(item, item.ident@) + dispatch(r, p.ecs_root)
            &&& r.ok is None ==> ok == seq!["Ok"@, "( _ ) => { }"@]
            &&& r.err is None ==> err == seq!["Err"@, "( _ ) => { }"@]
            &&& r.ok matches Some(h) ==> ok.len() == 10 && ok[5] == ". run_system_once_with ("@
                && ok[6] == "value"@ && ok[8] == h
            &&& r.err matches Some(h) ==> err.len() == 10 && err[5]
                == ". run_system_once_with ("@ && err[6] == "error"@ && err[8] == h
        }),
{
}

/// Handlers are accepted only for an exclusive function that returns a
/// `Result`.
pub proof fn law_routed_shape(args: Seq<Meta>, item: ItemFn, entity_command: bool)
    requires
        planned(args, item, entity_command) is Ok,
        planned(args, item, entity_command)->Ok_0.routing is Some,
    ensures
        ({
            let p = planned(args, item, entity_command)->Ok_0;
            &&& p.sys.args is Exclusive
            &&& !p.chain
            &&& item.output matches ReturnType::Type { ty, .. } && crate::plan::is_outcome(ty)
        }),
{
}

/// Where every parameter binds a name, the context parameter does.
pub proof fn lemma_context_named(inputs: Seq<FnArg>, n: int)
    requires
        0 <= n <= inputs.len(),
        call_names(inputs, n) is Ok,
        has_context(inputs, n),
    ensures
        context_name(inputs, n) is Some,
    decreases n,
{
    if n > 0 && !context_at(inputs, n - 1) {
        let i = choose|i: int| 0 <= i < n && context_at(inputs, i);
        assert(0 <= i < n - 1 && context_at(inputs, i));
        lemma_context_named(inputs, n - 1);
    }
}

/// The dispatch of a routed command addresses the context by the name the
/// function itself bound it to.
pub proof fn law_routing_context(args: Seq<Meta>, item: ItemFn, entity_command: bool)
    requires
        planned(args, item, entity_command) is Ok,
        planned(args, item, entity_command)->Ok_0.routing is Some,
    ensures
        context_name(item.inputs@, item.inputs@.len() as int) == Some(
            planned(args, item, entity_command)->Ok_0.routing->Some_0.context,
        ),
{
    let inputs = item.inputs@;
    lemma_context_found(inputs, entity_command, inputs.len() as int);
    lemma_context_named(inputs, inputs.len() as int);
}

/// Whether a parameter has no special role: it is no receiver, no context,
/// no entity that is asked for, and no piped input.
pub open spec fn is_plain(arg: FnArg, entity_command: bool) -> bool {
    arg matches FnArg::Typed(pt) && !is_world(pt.ty) && !is_entity(pt.ty, entity_command)
        && !is_piped(pt.ty, entity_command)
}

/// The fields that the plain parameters among the first `n` make, in the
/// parameters' order.
pub open spec fn plain_fields(inputs: Seq<FnArg>, entity_command: bool, n: int) -> Seq<FieldView>
    decreases n,
{
    if n <= 0 {
        Seq::empty()
    } else if is_plain(inputs[n - 1], entity_command) {
        plain_fields(inputs, entity_command, n - 1).push(
            FieldView {
                name: inputs[n - 1]->Typed_0.pat->Ident_0.ident@,
                ty: inputs[n - 1]->Typed_0.ty_text@,
                pat: inputs[n - 1]->Typed_0.pat->Ident_0.text@,
            },
        )
    } else {
        plain_fields(inputs, entity_command, n - 1)
    }
}

/// A walk keeps the plain parameters in the order they were written.
pub proof fn lemma_plain_in_order(inputs: Seq<FnArg>, entity_command: bool, n: int)
    requires
        0 <= n <= inputs.len(),
    ensures
        walked(inputs, entity_command, n) matches Ok(state) ==> state.captured == plain_fields(
            inputs,
            entity_command,
            n,
        ),
    decreases n,
{
    if n > 0 && walked(inputs, entity_command, n) is Ok {
        lemma_plain_in_order(inputs, entity_command, n - 1);
        if inputs[n - 1] is Typed {
            lemma_piping_is_local(
                walked(inputs, entity_command, n - 1)->Ok_0,
                inputs[n - 1]->Typed_0,
                entity_command,
                (n - 1) as usize,
            );
        }
    }
}

/// The record of an exclusive command has one field for every plain
/// parameter, no other, and in the parameters' order.
pub proof fn law_captured_fields(inputs: Seq<FnArg>, entity_command: bool)
    requires
        classified(inputs, entity_command) matches Ok(sys) && sys.args is Exclusive,
    ensures
        classified(inputs, entity_command)->Ok_0.fields == plain_fields(
            inputs,
            entity_command,
            inputs.len() as int,
        ),
{
    lemma_plain_in_order(inputs, entity_command, inputs.len() as int);
}

} // verus!
