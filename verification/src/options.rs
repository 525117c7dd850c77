//! The directive's options: reading a name or a path from an option's
//! value, and resolving the option list into a validated record.

use vstd::prelude::*;
use crate::diag::{quoted, Error, ErrorView, Span};
use crate::outside::{parse_ident, parse_path, parsed_ident, parsed_path};
use crate::syntax::{Expr, ExprKind, Meta, MetaKind};
use crate::text::is_word;

verus! {

/// The identifier that an option's value names: the content of a string
/// literal where it parses as one, or a path of exactly one segment.
pub open spec fn ident_of(e: Expr) -> Option<Seq<char>> {
    match e.kind {
        ExprKind::Str(s) => parsed_ident(s@),
        ExprKind::Path(segments) => if segments@.len() == 1 {
            Some(segments@[0]@)
        } else {
            None
        },
        ExprKind::Other => None,
    }
}

/// The path that an option's value names: the content of a string literal
/// where it parses as a plain path, or a path as it is written.
pub open spec fn path_of(e: Expr) -> Option<Seq<char>> {
    match e.kind {
        ExprKind::Str(s) => parsed_path(s@),
        ExprKind::Path(_) => Some(e.text@),
        ExprKind::Other => None,
    }
}

/// Whether `m` is the message for a value that names no identifier. For a
/// string literal the message is the parser's own.
pub open spec fn ident_refusal(e: Expr, m: Seq<char>) -> bool {
    match e.kind {
        ExprKind::Str(_) => true,
        ExprKind::Path(segments) => if segments@.len() == 0 {
            m == "Name must exist"@
        } else {
            m == "Name must be an ident, found path"@
        },
        ExprKind::Other => m == quoted("invalid name: "@, e.text@),
    }
}

/// Whether `m` is the message for a value that names no path. For a string
/// literal the message is the parser's own.
pub open spec fn path_refusal(e: Expr, m: Seq<char>) -> bool {
    match e.kind {
        ExprKind::Str(_) => true,
        ExprKind::Path(_) => false,
        ExprKind::Other => m == quoted("invalid path: "@, e.text@),
    }
}

/// Reading names and paths from an expression.
pub trait ExprExt {
    fn try_to_path(&self) -> Result<String, Error>;

    fn try_to_ident(&self) -> Result<String, Error>;
}

impl ExprExt for Expr {
    /// The path this value names, or a diagnostic at the value.
    fn try_to_path(&self) -> (r: Result<String, Error>)
        ensures
            r matches Ok(path) ==> path_of(*self) == Some(path@),
            r matches Err(e) ==> path_of(*self) is None && e.span == Span::Expr && path_refusal(
                *self,
                e.message@,
            ),
    {
        match &self.kind {
            ExprKind::Str(s) => match parse_path(s.as_str()) {
                Ok(path) => Ok(path),
                Err(message) => Err(Error { span: Span::Expr, message }),
            },
            ExprKind::Path(_) => Ok(self.text.clone()),
            ExprKind::Other => Err(Error::quoting(Span::Expr, "invalid path: ", &self.text)),
        }
    }

    /// The identifier this value names, or a diagnostic at the value.
    fn try_to_ident(&self) -> (r: Result<String, Error>)
        ensures
            r matches Ok(ident) ==> ident_of(*self) == Some(ident@),
            r matches Err(e) ==> ident_of(*self) is None && e.span == Span::Expr && ident_refusal(
                *self,
                e.message@,
            ),
    {
        match &self.kind {
            ExprKind::Str(s) => match parse_ident(s.as_str()) {
                Ok(ident) => Ok(ident),
                Err(message) => Err(Error { span: Span::Expr, message }),
            },
            ExprKind::Path(segments) => {
                if segments.len() == 0 {
                    Err(Error::new(Span::Expr, "Name must exist"))
                } else if segments.len() > 1 {
                    Err(Error::new(Span::Expr, "Name must be an ident, found path"))
                } else {
                    Ok(segments[0].clone())
                }
            },
            ExprKind::Other => Err(Error::quoting(Span::Expr, "invalid name: ", &self.text)),
        }
    }
}

/// The validated options of one use of the directive.
#[derive(Clone, Debug)]
pub struct MacroArgs {
    /// No extension trait is generated.
    pub no_trait: bool,
    /// No implementation that applies the command at once is generated.
    pub no_world: bool,
    /// The name of the generated method, and the base of the derived names.
    pub name: String,
    /// The name of the record type, where it is given.
    pub struct_name: Option<String>,
    /// The name of the extension trait, where it is given.
    pub trait_name: Option<String>,
    /// The path of the host's root module, where it is given.
    pub ecs_root: Option<String>,
    /// The routine that receives a success payload, where one is given.
    pub ok_handler: Option<String>,
    /// The routine that receives a failure payload, where one is given.
    pub err_handler: Option<String>,
}

/// The mathematical value of the options.
pub struct MacroArgsView {
    pub no_trait: bool,
    pub no_world: bool,
    pub name: Seq<char>,
    pub struct_name: Option<Seq<char>>,
    pub trait_name: Option<Seq<char>>,
    pub ecs_root: Option<Seq<char>>,
    pub ok_handler: Option<Seq<char>>,
    pub err_handler: Option<Seq<char>>,
}

impl DeepView for MacroArgs {
    type V = MacroArgsView;

    open spec fn deep_view(&self) -> MacroArgsView {
        MacroArgsView {
            no_trait: self.no_trait,
            no_world: self.no_world,
            name: self.name@,
            struct_name: self.struct_name.deep_view(),
            trait_name: self.trait_name.deep_view(),
            ecs_root: self.ecs_root.deep_view(),
            ok_handler: self.ok_handler.deep_view(),
            err_handler: self.err_handler.deep_view(),
        }
    }
}

/// The options before any argument is read: nothing suppressed, nothing
/// overridden, the method named after the function.
pub open spec fn unset(name: Seq<char>) -> MacroArgsView {
    MacroArgsView {
        no_trait: false,
        no_world: false,
        name,
        struct_name: None,
        trait_name: None,
        ecs_root: None,
        ok_handler: None,
        err_handler: None,
    }
}

/// Whether the key of `meta` is the plain identifier `key`.
pub open spec fn keyed(meta: Meta, key: Seq<char>) -> bool {
    meta.key matches Some(k) && k@ == key
}

/// The options after one more argument, or `None` where the argument is
/// rejected: an unknown key, a key in the wrong form, or a value that names
/// nothing of the kind the key asks for.
pub open spec fn applied(state: MacroArgsView, meta: Meta) -> Option<MacroArgsView> {
    match meta.kind {
        MetaKind::Path => if keyed(meta, "no_trait"@) {
            Some(MacroArgsView { no_trait: true, ..state })
        } else if keyed(meta, "no_world"@) {
            Some(MacroArgsView { no_world: true, ..state })
        } else if keyed(meta, "bevy_ecs"@) {
            Some(MacroArgsView { ecs_root: Some(":: bevy_ecs"@), ..state })
        } else {
            None
        },
        MetaKind::NameValue(value) => if keyed(meta, "name"@) {
            match ident_of(value) {
                Some(name) => Some(MacroArgsView { name, ..state }),
                None => None,
            }
        } else if keyed(meta, "struct_name"@) {
            match ident_of(value) {
                Some(name) => Some(MacroArgsView { struct_name: Some(name), ..state }),
                None => None,
            }
        } else if keyed(meta, "trait_name"@) {
            match ident_of(value) {
                Some(name) => Some(MacroArgsView { trait_name: Some(name), ..state }),
                None => None,
            }
        } else if keyed(meta, "ecs"@) {
            match path_of(value) {
                Some(path) => Some(MacroArgsView { ecs_root: Some(path), ..state }),
                None => None,
            }
        } else if keyed(meta, "ok"@) {
            match path_of(value) {
                Some(path) => Some(MacroArgsView { ok_handler: Some(path), ..state }),
                None => None,
            }
        } else if keyed(meta, "err"@) {
            match path_of(value) {
                Some(path) => Some(MacroArgsView { err_handler: Some(path), ..state }),
                None => None,
            }
        } else {
            None
        },
        MetaKind::List => None,
    }
}

/// Whether `e` is the diagnostic for the rejected argument `meta` at index
/// `k`: at the value where a known key has a value of the wrong shape, else
/// at the argument, naming it as unknown.
pub open spec fn refused(meta: Meta, k: usize, e: ErrorView) -> bool {
    match meta.kind {
        MetaKind::NameValue(value) => if keyed(meta, "name"@) || keyed(meta, "struct_name"@)
            || keyed(meta, "trait_name"@) {
            e.span == Span::ArgValue(k) && ident_refusal(value, e.message)
        } else if keyed(meta, "ecs"@) || keyed(meta, "ok"@) || keyed(meta, "err"@) {
            e.span == Span::ArgValue(k) && path_refusal(value, e.message)
        } else {
            unknown(meta, k, e)
        },
        _ => unknown(meta, k, e),
    }
}

/// Whether `e` names the argument `meta` at index `k` as unknown.
pub open spec fn unknown(meta: Meta, k: usize, e: ErrorView) -> bool {
    e.span == Span::Arg(k) && e.message == quoted("Unknown attribute "@, meta.text@)
}

/// The options after the first `n` arguments, read in order from `unset`,
/// or the index of the first argument that is rejected.
pub open spec fn resolved(args: Seq<Meta>, name: Seq<char>, n: int) -> Result<MacroArgsView, int>
    decreases n,
{
    if n <= 0 {
        Ok(unset(name))
    } else {
        match resolved(args, name, n - 1) {
            Ok(state) => match applied(state, args[n - 1]) {
                Some(next) => Ok(next),
                None => Err(n - 1),
            },
            Err(k) => Err(k),
        }
    }
}

/// The identifier named by the value of argument `k`, with a diagnostic
/// attached to that value.
fn ident_value(value: &Expr, k: usize) -> (r: Result<String, Error>)
    ensures
        r matches Ok(ident) ==> ident_of(*value) == Some(ident@),
        r matches Err(e) ==> ident_of(*value) is None && e.span == Span::ArgValue(k)
            && ident_refusal(*value, e.message@),
{
    match value.try_to_ident() {
        Ok(ident) => Ok(ident),
        Err(e) => Err(e.at(Span::ArgValue(k))),
    }
}

/// The path named by the value of argument `k`, with a diagnostic attached
/// to that value.
fn path_value(value: &Expr, k: usize) -> (r: Result<String, Error>)
    ensures
        r matches Ok(path) ==> path_of(*value) == Some(path@),
        r matches Err(e) ==> path_of(*value) is None && e.span == Span::ArgValue(k)
            && path_refusal(*value, e.message@),
{
    match value.try_to_path() {
        Ok(path) => Ok(path),
        Err(e) => Err(e.at(Span::ArgValue(k))),
    }
}

/// Whether the key of `meta` is the plain identifier `key`.
fn has_key(meta: &Meta, key: &str) -> (r: bool)
    ensures
        r == keyed(*meta, key@),
{
    match &meta.key {
        Some(k) => is_word(k, key),
        None => false,
    }
}

/// Reads one argument, at index `k`, into the options.
fn apply_arg(m: &mut MacroArgs, meta: &Meta, k: usize) -> (r: Result<(), Error>)
    ensures
        match r {
            Ok(_) => applied(old(m).deep_view(), *meta) == Some(final(m).deep_view()),
            Err(e) => applied(old(m).deep_view(), *meta) is None && refused(
                *meta,
                k,
                e.deep_view(),
            ),
        },
{
    match &meta.kind {
        MetaKind::Path => {
            if has_key(meta, "no_trait") {
                m.no_trait = true;
                return Ok(());
            } else if has_key(meta, "no_world") {
                m.no_world = true;
                return Ok(());
            } else if has_key(meta, "bevy_ecs") {
                m.ecs_root = Some(String::from_str(":: bevy_ecs"));
                return Ok(());
            }
        },
        MetaKind::NameValue(value) => {
            if has_key(meta, "name") {
                m.name = ident_value(value, k)?;
                return Ok(());
            } else if has_key(meta, "struct_name") {
                m.struct_name = Some(ident_value(value, k)?);
                return Ok(());
            } else if has_key(meta, "trait_name") {
                m.trait_name = Some(ident_value(value, k)?);
                return Ok(());
            } else if has_key(meta, "ecs") {
                m.ecs_root = Some(path_value(value, k)?);
                return Ok(());
            } else if has_key(meta, "ok") {
                m.ok_handler = Some(path_value(value, k)?);
                return Ok(());
            } else if has_key(meta, "err") {
                m.err_handler = Some(path_value(value, k)?);
                return Ok(());
            }
        },
        MetaKind::List => {},
    }
    Err(Error::quoting(Span::Arg(k), "Unknown attribute ", &meta.text))
}

/// Once an argument is rejected, reading further changes nothing.
pub proof fn lemma_rejection_stays(args: Seq<Meta>, name: Seq<char>, k: int, n: int)
    requires
        resolved(args, name, k + 1) == Err::<MacroArgsView, int>(k),
        k + 1 <= n,
    ensures
        resolved(args, name, n) == Err::<MacroArgsView, int>(k),
    decreases n,
{
    if n > k + 1 {
        lemma_rejection_stays(args, name, k, n - 1);
    }
}

/// Resolves the directive's arguments, in order, into the options. `name`
/// is the annotated function's own name. Fails at the first argument that
/// is rejected.
pub fn macro_args(args: &Vec<Meta>, name: String) -> (r: Result<MacroArgs, Error>)
    ensures
        match r {
            Ok(m) => resolved(args@, name@, args.len() as int) == Ok::<MacroArgsView, int>(
                m.deep_view(),
            ),
            Err(e) => resolved(args@, name@, args.len() as int) matches Err(k) && 0 <= k
                < args.len() && refused(args@[k], k as usize, e.deep_view()),
        },
{
    let ghost first = name@;
    let mut m = MacroArgs {
        no_trait: false,
        no_world: false,
        name,
        struct_name: None,
        trait_name: None,
        ecs_root: None,
        ok_handler: None,
        err_handler: None,
    };
    let mut i: usize = 0;
    while i < args.len()
        invariant
            i <= args.len(),
            first == name@,
            resolved(args@, first, i as int) == Ok::<MacroArgsView, int>(m.deep_view()),
        decreases args.len() - i,
    {
        match apply_arg(&mut m, &args[i], i) {
            Ok(_) => {},
            Err(e) => {
                proof {
                    assert(resolved(args@, first, i as int + 1) == Err::<MacroArgsView, int>(
                        i as int,
                    ));
                    lemma_rejection_stays(args@, first, i as int, args.len() as int);
                }
                return Err(e);
            },
        }
        i = i + 1;
    }
    Ok(m)
}

} // verus!
