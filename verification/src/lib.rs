//! Generator behind the `#[command]` and `#[entity_command]` attributes:
//! from the description of an annotated function it derives the command
//! record, its execution-trait implementation and the extension methods
//! that enqueue or apply it.
//!
//! The function and the directive's options come in as plain values (see
//! [`syntax`]); what goes out is a list of token texts, or a diagnostic
//! that points at the part of the input to blame.

use vstd::prelude::*;

pub mod classify;
pub mod diag;
pub mod emit;
pub mod laws;
pub mod options;
pub mod outside;
pub mod plan;
pub mod roles;
pub mod syntax;
pub mod text;

use crate::diag::Error;
use crate::emit::{assembled, expand, expanded};
use crate::plan::{explains, plan, planned};
use crate::syntax::{ItemFn, Meta};

verus! {

/// Generates the command for the function `item` under the options `args`:
/// all of it, or nothing but a diagnostic. `entity_command` asks for a
/// command scoped to an entity.
pub fn commandify(args: &Vec<Meta>, item: &ItemFn, entity_command: bool) -> (r: Result<
    Vec<String>,
    Error,
>)
    ensures
        match r {
            Ok(tokens) => planned(args@, *item, entity_command) matches Ok(p)
                && tokens.deep_view() == assembled(expanded(p, *item)),
            Err(e) => planned(args@, *item, entity_command) matches Err(refusal) && explains(
                refusal,
                args@,
                e.deep_view(),
            ),
        },
{
    let p = plan(args, item, entity_command)?;
    Ok(expand(&p, item).assemble())
}

/// Promotes the function `item` to a command: the record, its execution,
/// and the methods that enqueue it or apply it to the world.
pub fn command(args: &Vec<Meta>, item: &ItemFn) -> (r: Result<Vec<String>, Error>)
    ensures
        match r {
            Ok(tokens) => planned(args@, *item, false) matches Ok(p) && tokens.deep_view()
                == assembled(expanded(p, *item)),
            Err(e) => planned(args@, *item, false) matches Err(refusal) && explains(
                refusal,
                args@,
                e.deep_view(),
            ),
        },
{
    commandify(args, item, false)
}

/// Promotes the function `item` to an entity command: the record, its
/// execution, and the methods that enqueue it for an entity or apply it to
/// one. The function must take an `Entity`.
pub fn entity_command(args: &Vec<Meta>, item: &ItemFn) -> (r: Result<Vec<String>, Error>)
    ensures
        match r {
            Ok(tokens) => planned(args@, *item, true) matches Ok(p) && tokens.deep_view()
                == assembled(expanded(p, *item)),
            Err(e) => planned(args@, *item, true) matches Err(refusal) && explains(
                refusal,
                args@,
                e.deep_view(),
            ),
        },
{
    commandify(args, item, true)
}

} // verus!
