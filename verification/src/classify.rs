//! Classification of the whole parameter list, and the choice of mode that
//! follows from it.

use vstd::prelude::*;
use crate::diag::{Error, ErrorView, Span};
use crate::roles::{arg_types, fault, is_entity, is_piped, is_world, item_names, names_in_pattern,
    nothing, types_in_arguments, Field, FieldView, Roles};
use crate::syntax::{FnArg, Pat, PatIdent, PatType, PathArguments, Type};
use crate::text::{is_word, push_token};

verus! {

/// A name and the type it is given, as a field is written.
pub open spec fn typed(name: Seq<char>, ty: Seq<char>) -> Seq<char> {
    name + " : "@ + ty
}

/// An opening parenthesis, then the first `n` of `types`, a comma after each.
pub open spec fn listed(types: Seq<Seq<char>>, n: int) -> Seq<char>
    decreases n,
{
    if n <= 0 {
        "("@
    } else {
        listed(types, n - 1) + " "@ + types[n - 1] + " ,"@
    }
}

/// The tuple type that packs `types`.
pub open spec fn aggregate(types: Seq<Seq<char>>) -> Seq<char> {
    listed(types, types.len() as int) + " )"@
}

/// The walk after one more piped input, `name` of type `ty`, from parameter
/// `i`: an entity is promoted to its role where entities are asked for,
/// anything else becomes a field; either way the name is threaded through.
pub open spec fn bound(state: Roles, name: PatIdent, ty: Seq<char>, entity_command: bool, i: usize)
    -> Result<Roles, ErrorView> {
    if entity_command && ty == "Entity"@ {
        if state.entity is Some {
            Err(fault(Span::Input(i), "Commands cannot take more than one `Entity` parameter"@))
        } else {
            Ok(
                Roles {
                    entity: Some(typed(name.ident@, ty)),
                    entity_name: Some(name.ident@),
                    threaded: state.threaded.push(name.ident@),
                    ..state
                },
            )
        }
    } else {
        Ok(
            Roles {
                piped: state.piped.push(FieldView { name: name.ident@, ty, pat: name.text@ }),
                threaded: state.threaded.push(name.ident@),
                ..state
            },
        )
    }
}

/// The walk after the first `n` names are bound, each to the type at its
/// own position.
pub open spec fn paired(
    state: Roles,
    names: Seq<PatIdent>,
    types: Seq<Seq<char>>,
    entity_command: bool,
    i: usize,
    n: int,
) -> Result<Roles, ErrorView>
    decreases n,
{
    if n <= 0 {
        Ok(state)
    } else {
        match paired(state, names, types, entity_command, i, n - 1) {
            Err(e) => Err(e),
            Ok(s) => bound(s, names[n - 1], types[n - 1], entity_command, i),
        }
    }
}

/// The walk after the names and types of one piped parameter are matched:
/// as many names as types bind one to one; a single name for one or more
/// types binds their tuple; any other count is rejected.
pub open spec fn matched(
    state: Roles,
    names: Seq<PatIdent>,
    types: Seq<Seq<char>>,
    entity_command: bool,
    i: usize,
) -> Result<Roles, ErrorView> {
    if names.len() == types.len() {
        paired(state, names, types, entity_command, i, names.len() as int)
    } else if names.len() == 1 && types.len() > 0 {
        Ok(
            Roles {
                piped: state.piped.push(
                    FieldView { name: names[0].ident@, ty: aggregate(types), pat: names[0].text@ },
                ),
                threaded: state.threaded.push(names[0].ident@),
                ..state
            },
        )
    } else {
        Err(fault(Span::InputType(i), "Imbalanced names and types"@))
    }
}

/// The walk after the piped parameter `pt`, the parameter at index `i`.
pub open spec fn piped_in(state: Roles, pt: PatType, entity_command: bool, i: usize) -> Result<
    Roles,
    ErrorView,
> {
    match pt.pat {
        Pat::TupleStruct(items) => match item_names(items@, i, items@.len() as int) {
            Err(e) => Err(e),
            Ok(names) => match pt.ty {
                Type::Path { arguments: PathArguments::AngleBracketed(args), .. } => match arg_types(
                    args@,
                    i,
                    args@.len() as int,
                ) {
                    Err(e) => Err(e),
                    Ok(types) => matched(state, names, types, entity_command, i),
                },
                _ => Err(fault(Span::InputType(i), "Unsupported use of `In`"@)),
            },
        },
        _ => Err(fault(Span::Input(i), "Unsupported input type"@)),
    }
}

/// The walk after one more parameter, the one at index `i`.
pub open spec fn stepped(state: Roles, arg: FnArg, entity_command: bool, i: usize) -> Result<
    Roles,
    ErrorView,
> {
    match arg {
        FnArg::Receiver(_) => Err(fault(Span::Input(i), "Commands cannot be methods"@)),
        FnArg::Typed(pt) => if is_world(pt.ty) {
            if state.world is Some {
                Err(fault(Span::Input(i), "Commands cannot take more than one `World` parameter"@))
            } else if state.threaded.len() > 0 {
                Err(fault(Span::Input(i), "Commands cannot take both `World` and `In` parameters"@))
            } else {
                Ok(Roles { world: Some(pt.text@), ..state })
            }
        } else if is_entity(pt.ty, entity_command) {
            if state.entity is Some {
                Err(fault(Span::Input(i), "Commands cannot take more than one `Entity` parameter"@))
            } else {
                Ok(Roles { entity: Some(pt.text@), ..state })
            }
        } else if is_piped(pt.ty, entity_command) {
            if state.world is Some {
                Err(fault(Span::Input(i), "Commands cannot take both `World` and `In` parameters"@))
            } else {
                piped_in(state, pt, entity_command, i)
            }
        } else {
            match pt.pat {
                Pat::Ident(p) => Ok(
                    Roles {
                        captured: state.captured.push(
                            FieldView { name: p.ident@, ty: pt.ty_text@, pat: p.text@ },
                        ),
                        ..state
                    },
                ),
                _ => Err(fault(Span::InputPat(i), "Invalid path"@)),
            }
        },
    }
}

/// The walk after the first `n` parameters, or the diagnostic of the first
/// parameter that is rejected.
pub open spec fn walked(inputs: Seq<FnArg>, entity_command: bool, n: int) -> Result<
    Roles,
    ErrorView,
>
    decreases n,
{
    if n <= 0 {
        Ok(nothing())
    } else {
        match walked(inputs, entity_command, n - 1) {
            Err(e) => Err(e),
            Ok(state) => stepped(state, inputs[n - 1], entity_command, (n - 1) as usize),
        }
    }
}

/// The walk's state as the generator holds it.
struct Walk {
    world: Option<String>,
    entity: Option<String>,
    entity_name: Option<String>,
    captured: Vec<Field>,
    piped: Vec<Field>,
    threaded: Vec<String>,
}

impl DeepView for Walk {
    type V = Roles;

    closed spec fn deep_view(&self) -> Roles {
        Roles {
            world: self.world.deep_view(),
            entity: self.entity.deep_view(),
            entity_name: self.entity_name.deep_view(),
            captured: self.captured.deep_view(),
            piped: self.piped.deep_view(),
            threaded: self.threaded.deep_view(),
        }
    }
}

fn push_field(fields: &mut Vec<Field>, name: &String, ty: String, pat: &String)
    ensures
        final(fields).deep_view() == old(fields).deep_view().push(
            FieldView { name: name@, ty: ty@, pat: pat@ },
        ),
{
    let ghost added = FieldView { name: name@, ty: ty@, pat: pat@ };
    fields.push(Field { name: name.clone(), ty, pat: pat.clone() });
    assert(fields.deep_view() =~= old(fields).deep_view().push(added));
}

fn typed_text(name: &String, ty: &String) -> (r: String)
    ensures
        r@ == typed(name@, ty@),
{
    let mut r = name.clone();
    r.append(" : ");
    r.append(ty.as_str());
    r
}

fn aggregate_text(types: &Vec<String>) -> (r: String)
    ensures
        r@ == aggregate(types.deep_view()),
{
    let mut r = String::from_str("(");
    let mut k: usize = 0;
    while k < types.len()
        invariant
            k <= types.len(),
            r@ == listed(types.deep_view(), k as int),
        decreases types.len() - k,
    {
        r.append(" ");
        r.append(types[k].as_str());
        r.append(" ,");
        k = k + 1;
    }
    r.append(" )");
    r
}

fn bind(walk: &mut Walk, name: &PatIdent, ty: &String, entity_command: bool, i: usize) -> (r:
    Result<(), Error>)
    ensures
        match r {
            Ok(_) => bound(old(walk).deep_view(), *name, ty@, entity_command, i) == Ok::<
                Roles,
                ErrorView,
            >(final(walk).deep_view()),
            Err(e) => bound(old(walk).deep_view(), *name, ty@, entity_command, i) == Err::<
                Roles,
                ErrorView,
            >(e.deep_view()),
        },
{
    if entity_command && is_word(ty, "Entity") {
        if walk.entity.is_some() {
            return Err(
                Error::new(Span::Input(i), "Commands cannot take more than one `Entity` parameter"),
            );
        }
        walk.entity = Some(typed_text(&name.ident, ty));
        walk.entity_name = Some(name.ident.clone());
        push_token(&mut walk.threaded, &name.ident);
    } else {
        push_field(&mut walk.piped, &name.ident, ty.clone(), &name.text);
        push_token(&mut walk.threaded, &name.ident);
    }
    Ok(())
}

fn pair(
    walk: &mut Walk,
    names: &Vec<PatIdent>,
    types: &Vec<String>,
    entity_command: bool,
    i: usize,
) -> (r: Result<(), Error>)
    requires
        names.len() == types.len(),
    ensures
        match r {
            Ok(_) => paired(
                old(walk).deep_view(),
                names@,
                types.deep_view(),
                entity_command,
                i,
                names.len() as int,
            ) == Ok::<Roles, ErrorView>(final(walk).deep_view()),
            Err(e) => paired(
                old(walk).deep_view(),
                names@,
                types.deep_view(),
                entity_command,
                i,
                names.len() as int,
            ) == Err::<Roles, ErrorView>(e.deep_view()),
        },
{
    let mut failure: Option<Error> = None;
    let mut k: usize = 0;
    while k < names.len()
        invariant
            k <= names.len(),
            names.len() == types.len(),
            match failure {
                None => paired(
                    old(walk).deep_view(),
                    names@,
                    types.deep_view(),
                    entity_command,
                    i,
                    k as int,
                ) == Ok::<Roles, ErrorView>(walk.deep_view()),
                Some(e) => paired(
                    old(walk).deep_view(),
                    names@,
                    types.deep_view(),
                    entity_command,
                    i,
                    k as int,
                ) == Err::<Roles, ErrorView>(e.deep_view()),
            },
        decreases names.len() - k,
    {
        if failure.is_none() {
            match bind(walk, &names[k], &types[k], entity_command, i) {
                Ok(_) => {},
                Err(e) => {
                    failure = Some(e);
                },
            }
        }
        k = k + 1;
    }
    match failure {
        None => Ok(()),
        Some(e) => Err(e),
    }
}

fn match_up(
    walk: &mut Walk,
    names: &Vec<PatIdent>,
    types: &Vec<String>,
    entity_command: bool,
    i: usize,
) -> (r: Result<(), Error>)
    ensures
        match r {
            Ok(_) => matched(old(walk).deep_view(), names@, types.deep_view(), entity_command, i)
                == Ok::<Roles, ErrorView>(final(walk).deep_view()),
            Err(e) => matched(old(walk).deep_view(), names@, types.deep_view(), entity_command, i)
                == Err::<Roles, ErrorView>(e.deep_view()),
        },
{
    if names.len() == types.len() {
        pair(walk, names, types, entity_command, i)
    } else if names.len() == 1 && types.len() > 0 {
        push_field(&mut walk.piped, &names[0].ident, aggregate_text(types), &names[0].text);
        push_token(&mut walk.threaded, &names[0].ident);
        Ok(())
    } else {
        Err(Error::new(Span::InputType(i), "Imbalanced names and types"))
    }
}

fn pipe_in(walk: &mut Walk, pt: &PatType, entity_command: bool, i: usize) -> (r: Result<(), Error>)
    ensures
        match r {
            Ok(_) => piped_in(old(walk).deep_view(), *pt, entity_command, i) == Ok::<
                Roles,
                ErrorView,
            >(final(walk).deep_view()),
            Err(e) => piped_in(old(walk).deep_view(), *pt, entity_command, i) == Err::<
                Roles,
                ErrorView,
            >(e.deep_view()),
        },
{
    match &pt.pat {
        Pat::TupleStruct(items) => {
            let names = names_in_pattern(items, i)?;
            match &pt.ty {
                Type::Path { arguments: PathArguments::AngleBracketed(args), .. } => {
                    let types = types_in_arguments(args, i)?;
                    match_up(walk, &names, &types, entity_command, i)
                },
                _ => Err(Error::new(Span::InputType(i), "Unsupported use of `In`")),
            }
        },
        _ => Err(Error::new(Span::Input(i), "Unsupported input type")),
    }
}

fn world_type(ty: &Type) -> (r: bool)
    ensures
        r == is_world(*ty),
{
    match ty {
        Type::Reference { elem, .. } => is_word(elem, "World"),
        _ => false,
    }
}

fn last_segment_is(ty: &Type, word: &str) -> (r: bool)
    ensures
        r == (*ty matches Type::Path { ident, .. } && ident@ == word@),
{
    match ty {
        Type::Path { ident, .. } => is_word(ident, word),
        _ => false,
    }
}

fn step(walk: &mut Walk, arg: &FnArg, entity_command: bool, i: usize) -> (r: Result<(), Error>)
    ensures
        match r {
            Ok(_) => stepped(old(walk).deep_view(), *arg, entity_command, i) == Ok::<
                Roles,
                ErrorView,
            >(final(walk).deep_view()),
            Err(e) => stepped(old(walk).deep_view(), *arg, entity_command, i) == Err::<
                Roles,
                ErrorView,
            >(e.deep_view()),
        },
{
    match arg {
        FnArg::Receiver(_) => Err(Error::new(Span::Input(i), "Commands cannot be methods")),
        FnArg::Typed(pt) => {
            if world_type(&pt.ty) {
                if walk.world.is_some() {
                    Err(
                        Error::new(
                            Span::Input(i),
                            "Commands cannot take more than one `World` parameter",
                        ),
                    )
                } else if walk.threaded.len() > 0 {
                    Err(
                        Error::new(
                            Span::Input(i),
                            "Commands cannot take both `World` and `In` parameters",
                        ),
                    )
                } else {
                    walk.world = Some(pt.text.clone());
                    Ok(())
                }
            } else if entity_command && last_segment_is(&pt.ty, "Entity") {
                if walk.entity.is_some() {
                    Err(
                        Error::new(
                            Span::Input(i),
                            "Commands cannot take more than one `Entity` parameter",
                        ),
                    )
                } else {
                    walk.entity = Some(pt.text.clone());
                    Ok(())
                }
            } else if last_segment_is(&pt.ty, "In") {
                if walk.world.is_some() {
                    Err(
                        Error::new(
                            Span::Input(i),
                            "Commands cannot take both `World` and `In` parameters",
                        ),
                    )
                } else {
                    pipe_in(walk, pt, entity_command, i)
                }
            } else {
                match &pt.pat {
                    Pat::Ident(p) => {
                        push_field(&mut walk.captured, &p.ident, pt.ty_text.clone(), &p.text);
                        Ok(())
                    },
                    _ => Err(Error::new(Span::InputPat(i), "Invalid path")),
                }
            }
        },
    }
}

/// How the command runs, with what that mode needs.
#[derive(Clone, Debug)]
pub enum SystemArgs {
    /// The body runs directly against the context: `world` is the context
    /// parameter as written, and every other parameter is an input.
    Exclusive { world: String },
    /// The function runs once as a system: `systems_in` names the inputs
    /// packed into its `In` parameter, `entity_name` the entity among them.
    System { entity_name: Option<String>, systems_in: Vec<String> },
}

/// The mathematical value of a mode.
pub enum SystemArgsView {
    Exclusive { world: Seq<char> },
    System { entity_name: Option<Seq<char>>, systems_in: Seq<Seq<char>> },
}

impl DeepView for SystemArgs {
    type V = SystemArgsView;

    open spec fn deep_view(&self) -> SystemArgsView {
        match self {
            SystemArgs::Exclusive { world } => SystemArgsView::Exclusive { world: world@ },
            SystemArgs::System { entity_name, systems_in } => SystemArgsView::System {
                entity_name: entity_name.deep_view(),
                systems_in: systems_in.deep_view(),
            },
        }
    }
}

/// The classified parameter list.
#[derive(Clone, Debug)]
pub struct SysArgs {
    /// The entity parameter, as a name and a type, where there is one.
    pub entity: Option<String>,
    /// The fields of the command record, in the parameters' order.
    pub fields: Vec<Field>,
    /// The mode.
    pub args: SystemArgs,
}

/// The mathematical value of a classified parameter list.
pub struct SysArgsView {
    pub entity: Option<Seq<char>>,
    pub fields: Seq<FieldView>,
    pub args: SystemArgsView,
}

impl DeepView for SysArgs {
    type V = SysArgsView;

    open spec fn deep_view(&self) -> SysArgsView {
        SysArgsView {
            entity: self.entity.deep_view(),
            fields: self.fields.deep_view(),
            args: self.args.deep_view(),
        }
    }
}

/// The mode and the fields that a finished walk settles on: with a context
/// parameter the command is exclusive and captures every plain parameter;
/// without one it runs as a system and its fields are the piped inputs.
pub open spec fn settled(state: Roles) -> SysArgsView {
    match state.world {
        Some(world) => SysArgsView {
            entity: state.entity,
            fields: state.captured,
            args: SystemArgsView::Exclusive { world },
        },
        None => SysArgsView {
            entity: state.entity,
            fields: state.piped,
            args: SystemArgsView::System {
                entity_name: state.entity_name,
                systems_in: state.threaded,
            },
        },
    }
}

/// The classification of a parameter list: the diagnostic of the first
/// parameter that is rejected; else, where an entity is asked for and none
/// was found, a diagnostic at the call site; else what the walk settles on.
pub open spec fn classified(inputs: Seq<FnArg>, entity_command: bool) -> Result<
    SysArgsView,
    ErrorView,
> {
    match walked(inputs, entity_command, inputs.len() as int) {
        Err(e) => Err(e),
        Ok(state) => if entity_command && state.entity is None {
            Err(fault(Span::CallSite, "Entity commands must take in a `Entity` parameter"@))
        } else {
            Ok(settled(state))
        },
    }
}

/// Classifies the parameters of the annotated function. `entity_command`
/// says whether an entity parameter is asked for.
pub fn fn_args(inputs: &Vec<FnArg>, entity_command: bool) -> (r: Result<SysArgs, Error>)
    ensures
        match r {
            Ok(a) => classified(inputs@, entity_command) == Ok::<SysArgsView, ErrorView>(
                a.deep_view(),
            ),
            Err(e) => classified(inputs@, entity_command) == Err::<SysArgsView, ErrorView>(
                e.deep_view(),
            ),
        },
{
    let mut walk = Walk {
        world: None,
        entity: None,
        entity_name: None,
        captured: Vec::new(),
        piped: Vec::new(),
        threaded: Vec::new(),
    };
    assert(walk.deep_view() == nothing()) by {
        assert(walk.captured.deep_view() =~= Seq::<FieldView>::empty());
        assert(walk.piped.deep_view() =~= Seq::<FieldView>::empty());
        assert(walk.threaded.deep_view() =~= Seq::<Seq<char>>::empty());
    }
    let mut failure: Option<Error> = None;
    let mut i: usize = 0;
    while i < inputs.len()
        invariant
            i <= inputs.len(),
            match failure {
                None => walked(inputs@, entity_command, i as int) == Ok::<Roles, ErrorView>(
                    walk.deep_view(),
                ),
                Some(e) => walked(inputs@, entity_command, i as int) == Err::<Roles, ErrorView>(
                    e.deep_view(),
                ),
            },
        decreases inputs.len() - i,
    {
        if failure.is_none() {
            match step(&mut walk, &inputs[i], entity_command, i) {
                Ok(_) => {},
                Err(e) => {
                    failure = Some(e);
                },
            }
        }
        i = i + 1;
    }
    match failure {
        Some(e) => Err(e),
        None => {
            if entity_command && walk.entity.is_none() {
                return Err(
                    Error::new(Span::CallSite, "Entity commands must take in a `Entity` parameter"),
                );
            }
            let Walk { world, entity, entity_name, captured, piped, threaded } = walk;
            match world {
                Some(world) => Ok(
                    SysArgs { entity, fields: captured, args: SystemArgs::Exclusive { world } },
                ),
                None => Ok(
                    SysArgs {
                        entity,
                        fields: piped,
                        args: SystemArgs::System { entity_name, systems_in: threaded },
                    },
                ),
            }
        },
    }
}

} // verus!
