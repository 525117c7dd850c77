//! From the annotated function and the options to the plan of what is
//! generated: the return type's meaning, the names, the mode, and the
//! routing of a fallible outcome.

use vstd::prelude::*;
use crate::classify::{classified, fn_args, SysArgs, SysArgsView, SystemArgs};
use crate::diag::{Error, ErrorView, Span};
use crate::options::{macro_args, refused, resolved, MacroArgs, MacroArgsView};
use crate::outside::{pascal_case, to_pascal_case};
use crate::roles::{fault, is_world};
use crate::syntax::{ArgShape, Attribute, FnArg, GenericArgument, GenericParam, ItemFn, Meta,
    MetaKind, Pat, PathArguments, ReturnType, Type};
use crate::text::{is_word, push_token, Tokens};

verus! {

/// `&mut Self`, the marker of a chainable command.
pub open spec fn is_chain(ty: Type) -> bool {
    ty matches Type::Reference { mutable, elem } && mutable && elem@ == "Self"@
}

/// A path whose last segment is literally `Result`, with exactly two
/// arguments, both types: the success payload and the failure payload.
pub open spec fn is_outcome(ty: Type) -> bool {
    ty matches Type::Path { ident, arguments: PathArguments::AngleBracketed(args) } && ident@
        == "Result"@ && args@.len() == 2 && !(args@[0].shape is NotType) && !(args@[1].shape
        is NotType)
}

/// What a return type means: `Ok(true)` for a chainable command, `Ok(false)`
/// for one that returns nothing to its caller, a diagnostic otherwise.
/// `routed` says whether a result handler was given: then the function must
/// return a `Result`, and only then may it.
pub open spec fn judged(output: ReturnType, routed: bool) -> Result<bool, ErrorView> {
    match output {
        ReturnType::Default => if routed {
            Err(fault(Span::CallSite, "command with result handlers must return a `Result`"@))
        } else {
            Ok(false)
        },
        ReturnType::Type { ty, .. } => if is_chain(ty) {
            if routed {
                Err(fault(Span::Output, "command with result handlers may not return `&mut Self`"@))
            } else {
                Ok(true)
            }
        } else if routed {
            if is_outcome(ty) {
                Ok(false)
            } else {
                Err(fault(Span::Output, "command with result handlers must return a `Result`"@))
            }
        } else {
            Err(
                fault(
                    Span::Output,
                    "command may not define a return type, except for `&mut Self`"@,
                ),
            )
        },
    }
}

fn chain_type(ty: &Type) -> (r: bool)
    ensures
        r == is_chain(*ty),
{
    match ty {
        Type::Reference { mutable, elem } => *mutable && is_word(elem, "Self"),
        _ => false,
    }
}

fn is_type(arg: &GenericArgument) -> (r: bool)
    ensures
        r == !(arg.shape is NotType),
{
    match &arg.shape {
        ArgShape::NotType => false,
        _ => true,
    }
}

fn outcome_type(ty: &Type) -> (r: bool)
    ensures
        r == is_outcome(*ty),
{
    match ty {
        Type::Path { ident, arguments: PathArguments::AngleBracketed(args) } => is_word(
            ident,
            "Result",
        ) && args.len() == 2 && is_type(&args[0]) && is_type(&args[1]),
        _ => false,
    }
}

/// Reads the return type of the annotated function: whether the command is
/// chainable. `routed` says whether a result handler was given.
pub fn return_type(output: &ReturnType, routed: bool) -> (r: Result<bool, Error>)
    ensures
        match r {
            Ok(chain) => judged(*output, routed) == Ok::<bool, ErrorView>(chain),
            Err(e) => judged(*output, routed) == Err::<bool, ErrorView>(e.deep_view()),
        },
{
    match output {
        ReturnType::Default => {
            if routed {
                Err(
                    Error::new(
                        Span::CallSite,
                        "command with result handlers must return a `Result`",
                    ),
                )
            } else {
                Ok(false)
            }
        },
        ReturnType::Type { ty, .. } => {
            if chain_type(ty) {
                if routed {
                    Err(
                        Error::new(
                            Span::Output,
                            "command with result handlers may not return `&mut Self`",
                        ),
                    )
                } else {
                    Ok(true)
                }
            } else if routed {
                if outcome_type(ty) {
                    Ok(false)
                } else {
                    Err(
                        Error::new(
                            Span::Output,
                            "command with result handlers must return a `Result`",
                        ),
                    )
                }
            } else {
                Err(
                    Error::new(
                        Span::Output,
                        "command may not define a return type, except for `&mut Self`",
                    ),
                )
            }
        },
    }
}

/// Whether an attribute is a documentation comment: `doc = ...`.
pub open spec fn is_doc(attr: Attribute) -> bool {
    attr.meta.kind is NameValue && (attr.meta.key matches Some(k) && k@ == "doc"@)
}

/// The documentation comments among the first `n` attributes, in order.
pub open spec fn doc_texts(attrs: Seq<Attribute>, n: int) -> Tokens
    decreases n,
{
    if n <= 0 {
        Seq::empty()
    } else if is_doc(attrs[n - 1]) {
        doc_texts(attrs, n - 1).push(attrs[n - 1].text@)
    } else {
        doc_texts(attrs, n - 1)
    }
}

fn doc_attr(attr: &Attribute) -> (r: bool)
    ensures
        r == is_doc(*attr),
{
    match &attr.meta.kind {
        MetaKind::NameValue(_) => match &attr.meta.key {
            Some(k) => is_word(k, "doc"),
            None => false,
        },
        _ => false,
    }
}

/// Picks the documentation comments out of the attributes, for the
/// generated trait method.
pub fn docs(attrs: &Vec<Attribute>) -> (r: Vec<String>)
    ensures
        r.deep_view() == doc_texts(attrs@, attrs.len() as int),
{
    let mut out: Vec<String> = Vec::new();
    assert(out.deep_view() =~= Seq::<Seq<char>>::empty());
    let mut i: usize = 0;
    while i < attrs.len()
        invariant
            i <= attrs.len(),
            out.deep_view() == doc_texts(attrs@, i as int),
        decreases attrs.len() - i,
    {
        if doc_attr(&attrs[i]) {
            push_token(&mut out, &attrs[i].text);
        }
        i = i + 1;
    }
    out
}

/// The suffix of the generated names: it tells the two kinds of command apart.
pub open spec fn suffix(entity_command: bool) -> Seq<char> {
    if entity_command {
        "EntityCommand"@
    } else {
        "Command"@
    }
}

/// The record's name where none is given: the method's name in Pascal case,
/// then the suffix.
pub open spec fn default_struct_name(name: Seq<char>, entity_command: bool) -> Seq<char> {
    pascal_case(name) + suffix(entity_command)
}

/// The extension trait's name where none is given: the suffix in the
/// plural, the method's name in Pascal case, then `Ext`.
pub open spec fn default_trait_name(name: Seq<char>, entity_command: bool) -> Seq<char> {
    suffix(entity_command) + "s"@ + pascal_case(name) + "Ext"@
}

/// The host's root module where none is given.
pub open spec fn default_root() -> Seq<char> {
    ":: bevy :: ecs"@
}

fn suffix_text(entity_command: bool) -> (r: String)
    ensures
        r@ == suffix(entity_command),
{
    if entity_command {
        String::from_str("EntityCommand")
    } else {
        String::from_str("Command")
    }
}

/// The name of the record type for the method `name`: `given` where there
/// is one, the default otherwise.
pub fn struct_name_for(given: Option<String>, name: &String, entity_command: bool) -> (r: String)
    ensures
        r@ == match given {
            Some(n) => n@,
            None => default_struct_name(name@, entity_command),
        },
{
    match given {
        Some(n) => n,
        None => {
            let mut r = to_pascal_case(name.as_str());
            r.append(suffix_text(entity_command).as_str());
            r
        },
    }
}

/// The name of the extension trait for the method `name`: `given` where
/// there is one, the default otherwise.
pub fn trait_name_for(given: Option<String>, name: &String, entity_command: bool) -> (r: String)
    ensures
        r@ == match given {
            Some(n) => n@,
            None => default_trait_name(name@, entity_command),
        },
{
    match given {
        Some(n) => n,
        None => {
            let mut r = suffix_text(entity_command);
            r.append("s");
            r.append(to_pascal_case(name.as_str()).as_str());
            r.append("Ext");
            r
        },
    }
}

/// The name a generic parameter is referred to by.
pub open spec fn param_name(param: GenericParam) -> Seq<char> {
    match param {
        GenericParam::Lifetime(n) => n@,
        GenericParam::Type(n) => n@,
        GenericParam::Const(n) => n@,
    }
}

/// The names of the first `n` generic parameters, in order.
pub open spec fn param_names(params: Seq<GenericParam>, n: int) -> Tokens
    decreases n,
{
    if n <= 0 {
        Seq::empty()
    } else {
        param_names(params, n - 1).push(param_name(params[n - 1]))
    }
}

fn generic_names(params: &Vec<GenericParam>) -> (r: Vec<String>)
    ensures
        r.deep_view() == param_names(params@, params.len() as int),
{
    let mut out: Vec<String> = Vec::new();
    assert(out.deep_view() =~= Seq::<Seq<char>>::empty());
    let mut i: usize = 0;
    while i < params.len()
        invariant
            i <= params.len(),
            out.deep_view() == param_names(params@, i as int),
        decreases params.len() - i,
    {
        match &params[i] {
            GenericParam::Lifetime(n) => push_token(&mut out, n),
            GenericParam::Type(n) => push_token(&mut out, n),
            GenericParam::Const(n) => push_token(&mut out, n),
        }
        i = i + 1;
    }
    out
}

/// How a fallible outcome is routed to handlers.
#[derive(Clone, Debug)]
pub struct Routing {
    /// The name under which the annotated function is kept.
    pub shadow: String,
    /// The name the context is bound to.
    pub context: String,
    /// The arguments of the call of the kept function: every parameter's name, in order.
    pub call: Vec<String>,
    /// The routine that receives a success payload, if any.
    pub ok: Option<String>,
    /// The routine that receives a failure payload, if any.
    pub err: Option<String>,
}

/// The mathematical value of a routing.
pub struct RoutingView {
    pub shadow: Seq<char>,
    pub context: Seq<char>,
    pub call: Tokens,
    pub ok: Option<Seq<char>>,
    pub err: Option<Seq<char>>,
}

impl DeepView for Routing {
    type V = RoutingView;

    open spec fn deep_view(&self) -> RoutingView {
        RoutingView {
            shadow: self.shadow@,
            context: self.context@,
            call: self.call.deep_view(),
            ok: self.ok.deep_view(),
            err: self.err.deep_view(),
        }
    }
}

/// The name a parameter binds, where its pattern is a single identifier.
pub open spec fn binding(arg: FnArg) -> Option<Seq<char>> {
    match arg {
        FnArg::Typed(pt) => match pt.pat {
            Pat::Ident(p) => Some(p.ident@),
            _ => None,
        },
        FnArg::Receiver(_) => None,
    }
}

/// The names bound by the first `n` parameters, in order, or the index of
/// the first parameter that binds no single name.
pub open spec fn call_names(inputs: Seq<FnArg>, n: int) -> Result<Tokens, int>
    decreases n,
{
    if n <= 0 {
        Ok(Seq::empty())
    } else {
        match call_names(inputs, n - 1) {
            Err(k) => Err(k),
            Ok(names) => match binding(inputs[n - 1]) {
                Some(name) => Ok(names.push(name)),
                None => Err(n - 1),
            },
        }
    }
}

/// The name bound by the context parameter among the first `n` parameters.
pub open spec fn context_name(inputs: Seq<FnArg>, n: int) -> Option<Seq<char>>
    decreases n,
{
    if n <= 0 {
        None
    } else if inputs[n - 1] matches FnArg::Typed(pt) && is_world(pt.ty) {
        binding(inputs[n - 1])
    } else {
        context_name(inputs, n - 1)
    }
}

/// Whether a result handler was given.
pub open spec fn routed(opts: MacroArgsView) -> bool {
    opts.ok_handler is Some || opts.err_handler is Some
}

/// The name under which a routed function is kept.
pub open spec fn shadow_name(ident: Seq<char>) -> Seq<char> {
    ident + "_error_handled"@
}

/// The routing that the options ask for: none without a handler; with one,
/// the command must be exclusive and every parameter must bind a single
/// name, so that the kept function can be called with them.
pub open spec fn routed_by(opts: MacroArgsView, item: ItemFn, sys: SysArgsView) -> Result<
    Option<RoutingView>,
    ErrorView,
> {
    if !routed(opts) {
        Ok(None)
    } else if !(sys.args is Exclusive) {
        Err(fault(Span::CallSite, "command with result handlers must take a `World` parameter"@))
    } else {
        match call_names(item.inputs@, item.inputs@.len() as int) {
            Err(k) => Err(fault(Span::InputPat(k as usize), "Invalid path"@)),
            Ok(call) => Ok(
                Some(
                    RoutingView {
                        shadow: shadow_name(item.ident@),
                        context: match context_name(item.inputs@, item.inputs@.len() as int) {
                            Some(c) => c,
                            None => "world"@,
                        },
                        call,
                        ok: opts.ok_handler,
                        err: opts.err_handler,
                    },
                ),
            ),
        }
    }
}

fn bound_name(arg: &FnArg) -> (r: Option<String>)
    ensures
        r.deep_view() == binding(*arg),
{
    match arg {
        FnArg::Typed(pt) => match &pt.pat {
            Pat::Ident(p) => Some(p.ident.clone()),
            _ => None,
        },
        FnArg::Receiver(_) => None,
    }
}

fn context_param(arg: &FnArg) -> (r: bool)
    ensures
        r == (*arg matches FnArg::Typed(pt) && is_world(pt.ty)),
{
    match arg {
        FnArg::Typed(pt) => match &pt.ty {
            Type::Reference { elem, .. } => is_word(elem, "World"),
            _ => false,
        },
        FnArg::Receiver(_) => false,
    }
}

fn route(opts: &MacroArgs, item: &ItemFn, sys: &SysArgs) -> (r: Result<Option<Routing>, Error>)
    ensures
        match r {
            Ok(routing) => routed_by(opts.deep_view(), *item, sys.deep_view()) == Ok::<
                Option<RoutingView>,
                ErrorView,
            >(routing.deep_view()),
            Err(e) => routed_by(opts.deep_view(), *item, sys.deep_view()) == Err::<
                Option<RoutingView>,
                ErrorView,
            >(e.deep_view()),
        },
{
    if opts.ok_handler.is_none() && opts.err_handler.is_none() {
        return Ok(None);
    }
    match &sys.args {
        SystemArgs::Exclusive { .. } => {},
        SystemArgs::System { .. } => {
            return Err(
                Error::new(
                    Span::CallSite,
                    "command with result handlers must take a `World` parameter",
                ),
            );
        },
    }
    let mut call: Vec<String> = Vec::new();
    assert(call.deep_view() =~= Seq::<Seq<char>>::empty());
    let mut context: Option<String> = None;
    let mut failure: Option<usize> = None;
    let mut i: usize = 0;
    while i < item.inputs.len()
        invariant
            i <= item.inputs.len(),
            context.deep_view() == context_name(item.inputs@, i as int),
            match failure {
                None => call_names(item.inputs@, i as int) == Ok::<Tokens, int>(call.deep_view()),
                Some(k) => call_names(item.inputs@, i as int) == Err::<Tokens, int>(k as int),
            },
        decreases item.inputs.len() - i,
    {
        let name = bound_name(&item.inputs[i]);
        if context_param(&item.inputs[i]) {
            context = bound_name(&item.inputs[i]);
        }
        if failure.is_none() {
            match name {
                Some(n) => push_token(&mut call, &n),
                None => {
                    failure = Some(i);
                },
            }
        }
        i = i + 1;
    }
    match failure {
        Some(k) => Err(Error::new(Span::InputPat(k), "Invalid path")),
        None => {
            let mut shadow = item.ident.clone();
            shadow.append("_error_handled");
            let context = match context {
                Some(c) => c,
                None => String::from_str("world"),
            };
            Ok(
                Some(
                    Routing {
                        shadow,
                        context,
                        call,
                        ok: opts.ok_handler.clone(),
                        err: opts.err_handler.clone(),
                    },
                ),
            )
        },
    }
}

/// Everything that is decided about one use of the directive.
#[derive(Clone, Debug)]
pub struct Plan {
    /// Whether the command is scoped to an entity.
    pub entity_command: bool,
    /// Whether the generated methods hand back what they were called on.
    pub chain: bool,
    /// No extension trait is generated.
    pub no_trait: bool,
    /// No implementation that applies the command at once is generated.
    pub no_world: bool,
    /// The name of the generated method.
    pub name: String,
    /// The name of the record type.
    pub struct_name: String,
    /// The name of the extension trait.
    pub trait_name: String,
    /// The path of the host's root module.
    pub ecs_root: String,
    /// The names of the generic parameters.
    pub generic_names: Vec<String>,
    /// The classified parameters, with the mode.
    pub sys: SysArgs,
    /// The routing of a fallible outcome, if it is routed.
    pub routing: Option<Routing>,
}

/// The mathematical value of a plan.
pub struct PlanView {
    pub entity_command: bool,
    pub chain: bool,
    pub no_trait: bool,
    pub no_world: bool,
    pub name: Seq<char>,
    pub struct_name: Seq<char>,
    pub trait_name: Seq<char>,
    pub ecs_root: Seq<char>,
    pub generic_names: Tokens,
    pub sys: SysArgsView,
    pub routing: Option<RoutingView>,
}

impl DeepView for Plan {
    type V = PlanView;

    open spec fn deep_view(&self) -> PlanView {
        PlanView {
            entity_command: self.entity_command,
            chain: self.chain,
            no_trait: self.no_trait,
            no_world: self.no_world,
            name: self.name@,
            struct_name: self.struct_name@,
            trait_name: self.trait_name@,
            ecs_root: self.ecs_root@,
            generic_names: self.generic_names.deep_view(),
            sys: self.sys.deep_view(),
            routing: self.routing.deep_view(),
        }
    }
}

/// Why nothing is generated.
pub enum Refusal {
    /// The option at this index is rejected.
    Arg(int),
    /// The function itself is rejected, with this diagnostic.
    Fault(ErrorView),
}

/// Whether `e` is the diagnostic that goes with `refusal`.
pub open spec fn explains(refusal: Refusal, args: Seq<Meta>, e: ErrorView) -> bool {
    match refusal {
        Refusal::Arg(k) => 0 <= k < args.len() && refused(args[k], k as usize, e),
        Refusal::Fault(f) => e == f,
    }
}

/// The plan with the names that `opts` leaves open filled in.
pub open spec fn drawn_up(
    opts: MacroArgsView,
    item: ItemFn,
    entity_command: bool,
    chain: bool,
    sys: SysArgsView,
    routing: Option<RoutingView>,
) -> PlanView {
    PlanView {
        entity_command,
        chain,
        no_trait: opts.no_trait,
        no_world: opts.no_world,
        name: opts.name,
        struct_name: match opts.struct_name {
            Some(n) => n,
            None => default_struct_name(opts.name, entity_command),
        },
        trait_name: match opts.trait_name {
            Some(n) => n,
            None => default_trait_name(opts.name, entity_command),
        },
        ecs_root: match opts.ecs_root {
            Some(p) => p,
            None => default_root(),
        },
        generic_names: param_names(item.generics.params@, item.generics.params@.len() as int),
        sys,
        routing,
    }
}

/// The plan for the function `item` under the options `args`, or why there
/// is none. The checks come in this order: a variadic signature, the
/// options, the return type, the parameters, the routing.
pub open spec fn planned(args: Seq<Meta>, item: ItemFn, entity_command: bool) -> Result<
    PlanView,
    Refusal,
> {
    if item.variadic is Some {
        Err(Refusal::Fault(fault(Span::Variadic, "command cannot be variadic"@)))
    } else {
        match resolved(args, item.ident@, args.len() as int) {
            Err(k) => Err(Refusal::Arg(k)),
            Ok(opts) => match judged(item.output, routed(opts)) {
                Err(e) => Err(Refusal::Fault(e)),
                Ok(chain) => match classified(item.inputs@, entity_command) {
                    Err(e) => Err(Refusal::Fault(e)),
                    Ok(sys) => match routed_by(opts, item, sys) {
                        Err(e) => Err(Refusal::Fault(e)),
                        Ok(routing) => Ok(
                            drawn_up(opts, item, entity_command, chain, sys, routing),
                        ),
                    },
                },
            },
        }
    }
}

/// Decides what is generated for the function `item` under the options
/// `args`, or rejects the input with a diagnostic.
pub fn plan(args: &Vec<Meta>, item: &ItemFn, entity_command: bool) -> (r: Result<Plan, Error>)
    ensures
        match r {
            Ok(p) => planned(args@, *item, entity_command) == Ok::<PlanView, Refusal>(
                p.deep_view(),
            ),
            Err(e) => planned(args@, *item, entity_command) matches Err(refusal) && explains(
                refusal,
                args@,
                e.deep_view(),
            ),
        },
{
    if item.variadic.is_some() {
        return Err(Error::new(Span::Variadic, "command cannot be variadic"));
    }
    let opts = macro_args(args, item.ident.clone())?;
    let is_routed = opts.ok_handler.is_some() || opts.err_handler.is_some();
    let chain = return_type(&item.output, is_routed)?;
    let sys = fn_args(&item.inputs, entity_command)?;
    let routing = route(&opts, item, &sys)?;
    let ghost view = opts.deep_view();
    let MacroArgs { no_trait, no_world, name, struct_name, trait_name, ecs_root, .. } = opts;
    let struct_name = struct_name_for(struct_name, &name, entity_command);
    let trait_name = trait_name_for(trait_name, &name, entity_command);
    let ecs_root = match ecs_root {
        Some(p) => p,
        None => String::from_str(":: bevy :: ecs"),
    };
    let generic_names = generic_names(&item.generics.params);
    let p = Plan {
        entity_command,
        chain,
        no_trait,
        no_world,
        name,
        struct_name,
        trait_name,
        ecs_root,
        generic_names,
        sys,
        routing,
    };
    assert(p.deep_view() == drawn_up(
        view,
        *item,
        entity_command,
        chain,
        p.sys.deep_view(),
        p.routing.deep_view(),
    ));
    Ok(p)
}

} // verus!
