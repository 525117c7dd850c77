//! The parameter classifier: one walk over the parameter list that gives
//! each parameter its role.

use vstd::prelude::*;
use crate::diag::{Error, ErrorView, Span};
use crate::syntax::{ArgShape, GenericArgument, PatElem, PatIdent, PatItem, Type};
use crate::text::push_token;

verus! {

/// A field of the command record, which is also a parameter of the
/// generated method.
#[derive(Clone, Debug)]
pub struct Field {
    /// The field's name.
    pub name: String,
    /// The field's type as written.
    pub ty: String,
    /// The binding as the function declared it, such as `mut n`.
    pub pat: String,
}

/// The mathematical value of a field.
pub struct FieldView {
    pub name: Seq<char>,
    pub ty: Seq<char>,
    pub pat: Seq<char>,
}

impl DeepView for Field {
    type V = FieldView;

    open spec fn deep_view(&self) -> FieldView {
        FieldView { name: self.name@, ty: self.ty@, pat: self.pat@ }
    }
}

/// What the walk has found so far.
pub struct Roles {
    /// The context parameter as written, once one is found.
    pub world: Option<Seq<char>>,
    /// The entity parameter as a name and a type, once one is found.
    pub entity: Option<Seq<char>>,
    /// The entity's name, where it was found among piped inputs.
    pub entity_name: Option<Seq<char>>,
    /// The parameters with no special role, in order.
    pub captured: Seq<FieldView>,
    /// The piped inputs that become fields, in order.
    pub piped: Seq<FieldView>,
    /// The names of all piped inputs, in order.
    pub threaded: Seq<Seq<char>>,
}

/// The state of the walk before the first parameter.
pub open spec fn nothing() -> Roles {
    Roles {
        world: None,
        entity: None,
        entity_name: None,
        captured: Seq::empty(),
        piped: Seq::empty(),
        threaded: Seq::empty(),
    }
}

/// A diagnostic with a fixed text.
pub open spec fn fault(span: Span, message: Seq<char>) -> ErrorView {
    ErrorView { span, message }
}

/// A reference to a type written literally `World`.
pub open spec fn is_world(ty: Type) -> bool {
    ty matches Type::Reference { elem, .. } && elem@ == "World"@
}

/// A path whose last segment is literally `Entity`, where entities are asked for.
pub open spec fn is_entity(ty: Type, entity_command: bool) -> bool {
    entity_command && (ty matches Type::Path { ident, .. } && ident@ == "Entity"@)
}

/// A path whose last segment is literally `In`.
pub open spec fn is_piped(ty: Type, entity_command: bool) -> bool {
    !is_entity(ty, entity_command) && (ty matches Type::Path { ident, .. } && ident@ == "In"@)
}

/// The names bound by the first `n` elements of a tuple pattern, which is
/// item `j` of the pattern of parameter `i`.
pub open spec fn elem_names(elems: Seq<PatElem>, i: usize, j: usize, n: int) -> Result<
    Seq<PatIdent>,
    ErrorView,
>
    decreases n,
{
    if n <= 0 {
        Ok(Seq::empty())
    } else {
        match elem_names(elems, i, j, n - 1) {
            Err(e) => Err(e),
            Ok(names) => match elems[n - 1] {
                PatElem::Ident(p) => Ok(names.push(p)),
                PatElem::Other => Err(
                    fault(Span::PatElem(i, j, (n - 1) as usize), "Invalid path"@),
                ),
            },
        }
    }
}

/// The names bound by the first `n` items of the tuple-struct pattern of
/// parameter `i`: an identifier gives one name, a tuple of identifiers one
/// name each.
pub open spec fn item_names(items: Seq<PatItem>, i: usize, n: int) -> Result<
    Seq<PatIdent>,
    ErrorView,
>
    decreases n,
{
    if n <= 0 {
        Ok(Seq::empty())
    } else {
        match item_names(items, i, n - 1) {
            Err(e) => Err(e),
            Ok(names) => match items[n - 1] {
                PatItem::Ident(p) => Ok(names.push(p)),
                PatItem::Tuple(elems) => match elem_names(
                    elems@,
                    i,
                    (n - 1) as usize,
                    elems@.len() as int,
                ) {
                    Err(e) => Err(e),
                    Ok(more) => Ok(names + more),
                },
                PatItem::Other => Err(fault(Span::PatItem(i, (n - 1) as usize), "Unknown input"@)),
            },
        }
    }
}

/// The types named by the first `n` generic arguments of the type of
/// parameter `i`: a path gives one type, a tuple one type for each element.
pub open spec fn arg_types(args: Seq<GenericArgument>, i: usize, n: int) -> Result<
    Seq<Seq<char>>,
    ErrorView,
>
    decreases n,
{
    if n <= 0 {
        Ok(Seq::empty())
    } else {
        match arg_types(args, i, n - 1) {
            Err(e) => Err(e),
            Ok(types) => match args[n - 1].shape {
                ArgShape::Tuple(elems) => Ok(types + elems.deep_view()),
                ArgShape::Path => Ok(types.push(args[n - 1].text@)),
                ArgShape::OtherType => Err(
                    fault(Span::TypeArg(i, (n - 1) as usize), "Unsupported argument type"@),
                ),
                ArgShape::NotType => Err(
                    fault(Span::TypeArg(i, (n - 1) as usize), "Unknown argument type"@),
                ),
            },
        }
    }
}

/// The names bound by a tuple pattern, item `j` of the pattern of parameter `i`.
pub fn names_in_tuple(elems: &Vec<PatElem>, i: usize, j: usize) -> (r: Result<Vec<PatIdent>, Error>)
    ensures
        match r {
            Ok(names) => elem_names(elems@, i, j, elems.len() as int) == Ok::<
                Seq<PatIdent>,
                ErrorView,
            >(names@),
            Err(e) => elem_names(elems@, i, j, elems.len() as int) == Err::<
                Seq<PatIdent>,
                ErrorView,
            >(e.deep_view()),
        },
{
    let mut names: Vec<PatIdent> = Vec::new();
    let mut k: usize = 0;
    while k < elems.len()
        invariant
            k <= elems.len(),
            elem_names(elems@, i, j, k as int) == Ok::<Seq<PatIdent>, ErrorView>(names@),
        decreases elems.len() - k,
    {
        match &elems[k] {
            PatElem::Ident(p) => {
                names.push(PatIdent { ident: p.ident.clone(), text: p.text.clone() });
            },
            PatElem::Other => {
                proof {
                    lemma_elem_fault_stays(elems@, i, j, k as int, elems.len() as int);
                }
                return Err(Error::new(Span::PatElem(i, j, k), "Invalid path"));
            },
        }
        k = k + 1;
    }
    Ok(names)
}

/// Once an element is rejected, the rest of the tuple changes nothing.
pub proof fn lemma_elem_fault_stays(elems: Seq<PatElem>, i: usize, j: usize, k: int, n: int)
    requires
        elem_names(elems, i, j, k + 1) is Err,
        k + 1 <= n,
    ensures
        elem_names(elems, i, j, n) == elem_names(elems, i, j, k + 1),
    decreases n,
{
    if n > k + 1 {
        lemma_elem_fault_stays(elems, i, j, k, n - 1);
    }
}

/// Once an item is rejected, the rest of the pattern changes nothing.
pub proof fn lemma_item_fault_stays(items: Seq<PatItem>, i: usize, k: int, n: int)
    requires
        item_names(items, i, k + 1) is Err,
        k + 1 <= n,
    ensures
        item_names(items, i, n) == item_names(items, i, k + 1),
    decreases n,
{
    if n > k + 1 {
        lemma_item_fault_stays(items, i, k, n - 1);
    }
}

/// Once an argument is rejected, the rest of the list changes nothing.
pub proof fn lemma_arg_fault_stays(args: Seq<GenericArgument>, i: usize, k: int, n: int)
    requires
        arg_types(args, i, k + 1) is Err,
        k + 1 <= n,
    ensures
        arg_types(args, i, n) == arg_types(args, i, k + 1),
    decreases n,
{
    if n > k + 1 {
        lemma_arg_fault_stays(args, i, k, n - 1);
    }
}

/// The names bound by the items of the tuple-struct pattern of parameter `i`.
pub fn names_in_pattern(items: &Vec<PatItem>, i: usize) -> (r: Result<Vec<PatIdent>, Error>)
    ensures
        match r {
            Ok(names) => item_names(items@, i, items.len() as int) == Ok::<
                Seq<PatIdent>,
                ErrorView,
            >(names@),
            Err(e) => item_names(items@, i, items.len() as int) == Err::<
                Seq<PatIdent>,
                ErrorView,
            >(e.deep_view()),
        },
{
    let mut names: Vec<PatIdent> = Vec::new();
    let mut j: usize = 0;
    while j < items.len()
        invariant
            j <= items.len(),
            item_names(items@, i, j as int) == Ok::<Seq<PatIdent>, ErrorView>(names@),
        decreases items.len() - j,
    {
        match &items[j] {
            PatItem::Ident(p) => {
                names.push(PatIdent { ident: p.ident.clone(), text: p.text.clone() });
            },
            PatItem::Tuple(elems) => {
                match names_in_tuple(elems, i, j) {
                    Ok(mut more) => {
                        let ghost before = names@;
                        let ghost added = more@;
                        names.append(&mut more);
                        assert(names@ =~= before + added);
                    },
                    Err(e) => {
                        proof {
                            lemma_item_fault_stays(items@, i, j as int, items.len() as int);
                        }
                        return Err(e);
                    },
                }
            },
            PatItem::Other => {
                proof {
                    lemma_item_fault_stays(items@, i, j as int, items.len() as int);
                }
                return Err(Error::new(Span::PatItem(i, j), "Unknown input"));
            },
        }
        j = j + 1;
    }
    Ok(names)
}

/// The types named by the generic arguments of the type of parameter `i`.
pub fn types_in_arguments(args: &Vec<GenericArgument>, i: usize) -> (r: Result<Vec<String>, Error>)
    ensures
        match r {
            Ok(types) => arg_types(args@, i, args.len() as int) == Ok::<
                Seq<Seq<char>>,
                ErrorView,
            >(types.deep_view()),
            Err(e) => arg_types(args@, i, args.len() as int) == Err::<
                Seq<Seq<char>>,
                ErrorView,
            >(e.deep_view()),
        },
{
    let mut types: Vec<String> = Vec::new();
    assert(types.deep_view() =~= Seq::<Seq<char>>::empty());
    let mut j: usize = 0;
    while j < args.len()
        invariant
            j <= args.len(),
            arg_types(args@, i, j as int) == Ok::<Seq<Seq<char>>, ErrorView>(types.deep_view()),
        decreases args.len() - j,
    {
        match &args[j].shape {
            ArgShape::Tuple(elems) => {
                crate::text::push_all(&mut types, elems);
            },
            ArgShape::Path => {
                push_token(&mut types, &args[j].text);
            },
            ArgShape::OtherType => {
                proof {
                    lemma_arg_fault_stays(args@, i, j as int, args.len() as int);
                }
                return Err(Error::new(Span::TypeArg(i, j), "Unsupported argument type"));
            },
            ArgShape::NotType => {
                proof {
                    lemma_arg_fault_stays(args@, i, j as int, args.len() as int);
                }
                return Err(Error::new(Span::TypeArg(i, j), "Unknown argument type"));
            },
        }
        j = j + 1;
    }
    Ok(types)
}

} // verus!
