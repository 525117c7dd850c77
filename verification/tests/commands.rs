//! End-to-end tests: source text is parsed with `syn`, handed to the
//! generator as plain values, and the generated text is read back.

use bevy_commandify::diag::{Error, Span};
use bevy_commandify::syntax as model;
use bevy_commandify::text::render;
use bevy_commandify::{command, commandify, entity_command};
use quote::ToTokens;
use std::str::FromStr;
use syn::punctuated::Punctuated;


fn text<T: ToTokens>(tokens: &T) -> String {
    tokens.to_token_stream().to_string()
}

fn pat_ident(pat: &syn::PatIdent) -> model::PatIdent {
    model::PatIdent {
        ident: pat.ident.to_string(),
        text: text(pat),
    }
}

fn pat_elem(pat: &syn::Pat) -> model::PatElem {
    match pat {
        syn::Pat::Ident(inner) => model::PatElem::Ident(pat_ident(inner)),
        _ => model::PatElem::Other,
    }
}

fn pat_item(pat: &syn::Pat) -> model::PatItem {
    match pat {
        syn::Pat::Ident(inner) => model::PatItem::Ident(pat_ident(inner)),
        syn::Pat::Tuple(tuple) => model::PatItem::Tuple(tuple.elems.iter().map(pat_elem).collect()),
        _ => model::PatItem::Other,
    }
}

fn pat(pat: &syn::Pat) -> model::Pat {
    match pat {
        syn::Pat::Ident(inner) => model::Pat::Ident(pat_ident(inner)),
        syn::Pat::TupleStruct(inner) => {
            model::Pat::TupleStruct(inner.elems.iter().map(pat_item).collect())
        }
        _ => model::Pat::Other,
    }
}

fn generic_argument(arg: &syn::GenericArgument) -> model::GenericArgument {
    let shape = match arg {
        syn::GenericArgument::Type(syn::Type::Tuple(tuple)) => {
            model::ArgShape::Tuple(tuple.elems.iter().map(text).collect())
        }
        syn::GenericArgument::Type(syn::Type::Path(_)) => model::ArgShape::Path,
        syn::GenericArgument::Type(_) => model::ArgShape::OtherType,
        _ => model::ArgShape::NotType,
    };
    model::GenericArgument {
        shape,
        text: text(arg),
    }
}

fn path_arguments(arguments: &syn::PathArguments) -> model::PathArguments {
    match arguments {
        syn::PathArguments::None => model::PathArguments::Absent,
        syn::PathArguments::AngleBracketed(inner) => {
            model::PathArguments::AngleBracketed(inner.args.iter().map(generic_argument).collect())
        }
        syn::PathArguments::Parenthesized(_) => model::PathArguments::Parenthesized,
    }
}

fn ty(ty: &syn::Type) -> model::Type {
    match ty {
        syn::Type::Reference(reference) => model::Type::Reference {
            mutable: reference.mutability.is_some(),
            elem: text(&reference.elem),
        },
        syn::Type::Path(path) => match path.path.segments.last() {
            Some(segment) => model::Type::Path {
                ident: segment.ident.to_string(),
                arguments: path_arguments(&segment.arguments),
            },
            None => model::Type::Other,
        },
        _ => model::Type::Other,
    }
}

fn fn_arg(arg: &syn::FnArg) -> model::FnArg {
    match arg {
        syn::FnArg::Receiver(receiver) => model::FnArg::Receiver(text(receiver)),
        syn::FnArg::Typed(typed) => model::FnArg::Typed(model::PatType {
            pat: pat(&typed.pat),
            ty: ty(&typed.ty),
            ty_text: text(&typed.ty),
            text: text(typed),
        }),
    }
}

fn return_type(output: &syn::ReturnType) -> model::ReturnType {
    match output {
        syn::ReturnType::Default => model::ReturnType::Default,
        syn::ReturnType::Type(_, inner) => model::ReturnType::Type {
            ty: ty(inner),
            text: text(output),
        },
    }
}

fn generic_param(param: &syn::GenericParam) -> model::GenericParam {
    match param {
        syn::GenericParam::Lifetime(inner) => model::GenericParam::Lifetime(text(&inner.lifetime)),
        syn::GenericParam::Type(inner) => model::GenericParam::Type(inner.ident.to_string()),
        syn::GenericParam::Const(inner) => model::GenericParam::Const(inner.ident.to_string()),
    }
}

fn generics(generics: &syn::Generics) -> model::Generics {
    model::Generics {
        params: generics.params.iter().map(generic_param).collect(),
        text: text(generics),
    }
}

fn expr(expr: &syn::Expr) -> model::Expr {
    let kind = match expr {
        syn::Expr::Lit(syn::ExprLit {
            lit: syn::Lit::Str(lit),
            ..
        }) => model::ExprKind::Str(lit.value()),
        syn::Expr::Path(path) => model::ExprKind::Path(
            path.path
                .segments
                .iter()
                .map(|segment| segment.ident.to_string())
                .collect(),
        ),
        _ => model::ExprKind::Other,
    };
    model::Expr {
        kind,
        text: text(expr),
    }
}

fn meta(meta: &syn::Meta) -> model::Meta {
    let kind = match meta {
        syn::Meta::Path(_) => model::MetaKind::Path,
        syn::Meta::List(_) => model::MetaKind::List,
        syn::Meta::NameValue(pair) => model::MetaKind::NameValue(expr(&pair.value)),
    };
    model::Meta {
        key: meta.path().get_ident().map(|ident| ident.to_string()),
        kind,
        text: text(meta),
    }
}

fn attribute(attr: &syn::Attribute) -> model::Attribute {
    model::Attribute {
        meta: meta(&attr.meta),
        text: text(attr),
    }
}

fn qualifiers(sig: &syn::Signature) -> String {
    let mut parts = Vec::new();
    if let Some(token) = &sig.constness {
        parts.push(text(token));
    }
    if let Some(token) = &sig.asyncness {
        parts.push(text(token));
    }
    if let Some(token) = &sig.unsafety {
        parts.push(text(token));
    }
    if let Some(abi) = &sig.abi {
        parts.push(text(abi));
    }
    parts.join(" ")
}

fn item_fn(item: &syn::ItemFn) -> model::ItemFn {
    let sig = &item.sig;
    model::ItemFn {
        attrs: item.attrs.iter().map(attribute).collect(),
        vis: text(&item.vis),
        qualifiers: qualifiers(sig),
        ident: sig.ident.to_string(),
        generics: generics(&sig.generics),
        inputs: sig.inputs.iter().map(fn_arg).collect(),
        variadic: sig.variadic.as_ref().map(text),
        output: return_type(&sig.output),
        block: text(&item.block),
    }
}

/// Splits the directive off the function it annotates.
fn parse(source: &str) -> (Vec<model::Meta>, model::ItemFn, bool) {
    let mut item = syn::parse_str::<syn::ItemFn>(source).expect("the source is a function");
    let at = item
        .attrs
        .iter()
        .position(|attr| attr.path().is_ident("command") || attr.path().is_ident("entity_command"))
        .expect("the function is annotated");
    let directive = item.attrs.remove(at);
    let entity = directive.path().is_ident("entity_command");
    let args = match &directive.meta {
        syn::Meta::Path(_) => Punctuated::<syn::Meta, syn::token::Comma>::new(),
        _ => directive
            .parse_args_with(Punctuated::<syn::Meta, syn::token::Comma>::parse_terminated)
            .expect("the options are a list"),
    };
    (args.iter().map(meta).collect(), item_fn(&item), entity)
}

/// Runs the generator on an annotated function given as source text.
fn generate(source: &str) -> Result<String, Error> {
    let (args, item, entity) = parse(source);
    let tokens = if entity {
        entity_command(&args, &item)?
    } else {
        command(&args, &item)?
    };
    Ok(render(&tokens))
}

fn spell_stream(stream: proc_macro2::TokenStream, out: &mut Vec<String>) {
    for tree in stream {
        match tree {
            proc_macro2::TokenTree::Group(group) => {
                out.push("[".to_string());
                spell_stream(group.stream(), out);
                out.push("]".to_string());
            }
            proc_macro2::TokenTree::Punct(punct) => out.push(punct.as_char().to_string()),
            other => out.push(other.to_string()),
        }
    }
}

fn spell(piece: &str, out: &mut Vec<String>) {
    spell_stream(
        proc_macro2::TokenStream::from_str(piece).expect("the text is made of tokens"),
        out,
    );
}

/// Source text with its spacing made canonical: one space between any two
/// tokens. The text need not be balanced.
fn canon(source: &str) -> String {
    let mut out = Vec::new();
    let mut piece = String::new();
    let mut quoted = false;
    let mut escaped = false;
    for c in source.chars() {
        if c == '"' && !escaped {
            quoted = !quoted;
        }
        escaped = quoted && c == '\\' && !escaped;
        if !quoted && "(){}[]".contains(c) {
            spell(&piece, &mut out);
            piece.clear();
            out.push(c.to_string());
        } else {
            piece.push(c);
        }
    }
    spell(&piece, &mut out);
    out.join(" ")
}

/// The generated code, which must be a sequence of items, in canonical spacing.
fn generated(source: &str) -> String {
    let text = generate(source).expect("the function is accepted");
    syn::parse_str::<syn::File>(&text).expect("the generated text is a sequence of items");
    canon(&text)
}

fn has(haystack: &str, needle: &str) -> bool {
    haystack.contains(&canon(needle))
}

fn rejected(source: &str) -> Error {
    generate(source).expect_err("the function is rejected")
}


const FOO: &str = "
    #[command]
    fn foo(world: &mut World, mut n: usize) {
        n *= 2;
        let mut m = world.resource_mut::<TestUsize>();
        **m -= n;
    }";

const BAR: &str = "
    #[entity_command]
    /// Subtracts `n` from the entity's `TestUsize`
    fn bar(world: &mut World, entity: Entity, mut n: usize) {
        n *= 2;
        let mut m = world.query::<&mut TestUsize>().get_mut(world, entity).unwrap();
        **m -= n;
    }";

const CHAIN_FOO: &str = "
    #[command]
    fn foo(world: &mut World, n: usize) -> &mut Self {
        let mut m = world.resource_mut::<TestUsize>();
        **m -= n;
    }";

const CHAIN_BAR: &str = "
    #[entity_command]
    /// Subtracts `n` from the entity's `TestUsize`
    fn bar(world: &mut World, entity: Entity, n: usize) -> &mut Self {
        let mut m = world.query::<&mut TestUsize>().get_mut(world, entity).unwrap();
        **m -= n;
    }";

const TEST_HANDLER: &str = "
    #[command(ok = handle_ok, err = handle_err)]
    fn test_handler(world: &mut World, success: bool) -> Result<bool, bool> {
        if success { Ok(true) } else { Err(false) }
    }";

/// all three ways of calling the command
#[test]
fn simple_command() {
    let expected = "
        #[allow(unused)]
        fn foo(world: &mut World, mut n: usize,) {
            n *= 2;
            let mut m = world.resource_mut::<TestUsize>();
            **m -= n;
        }
        struct FooCommand { pub n: usize, }
        impl ::bevy::ecs::system::Command for FooCommand {
            fn apply(self, world: &mut World) {
                let FooCommand { mut n, } = self;
                {
                    n *= 2;
                    let mut m = world.resource_mut::<TestUsize>();
                    **m -= n;
                }
            }
        }
        pub trait CommandsFooExt {
            fn foo(&mut self, n: usize,);
        }
        impl CommandsFooExt for ::bevy::ecs::system::Commands<'_, '_> {
            fn foo(&mut self, n: usize,) {
                self.add(FooCommand { n, });
            }
        }
        impl CommandsFooExt for ::bevy::ecs::world::World {
            fn foo(&mut self, n: usize,) {
                <FooCommand as ::bevy::ecs::system::Command>::apply(FooCommand { n, }, self);
            }
        }
    ";
    assert_eq!(generated(FOO), canon(expected));
}

/// all three ways of calling the entity_command
#[test]
fn simple_entity_command() {
    let expected = "
        #[allow(unused)]
        /// Subtracts `n` from the entity's `TestUsize`
        fn bar(world: &mut World, entity: Entity, mut n: usize,) {
            n *= 2;
            let mut m = world.query::<&mut TestUsize>().get_mut(world, entity).unwrap();
            **m -= n;
        }
        /// Subtracts `n` from the entity's `TestUsize`
        struct BarEntityCommand { pub n: usize, }
        impl ::bevy::ecs::system::EntityCommand for BarEntityCommand {
            fn apply(self, entity: Entity, world: &mut World) {
                let BarEntityCommand { mut n, } = self;
                {
                    n *= 2;
                    let mut m = world.query::<&mut TestUsize>().get_mut(world, entity).unwrap();
                    **m -= n;
                }
            }
        }
        pub trait EntityCommandsBarExt {
            /// Subtracts `n` from the entity's `TestUsize`
            fn bar(&mut self, n: usize,);
        }
        impl EntityCommandsBarExt for ::bevy::ecs::system::EntityCommands<'_> {
            fn bar(&mut self, n: usize,) {
                self.add(BarEntityCommand { n, });
            }
        }
        impl EntityCommandsBarExt for ::bevy::ecs::world::EntityWorldMut<'_> {
            fn bar(&mut self, n: usize,) {
                let id = self.id();
                self.world_scope(|world| {
                    <BarEntityCommand as ::bevy::ecs::system::EntityCommand>::apply(
                        BarEntityCommand { n, }, id, world);
                });
            }
        }
    ";
    assert_eq!(generated(BAR), canon(expected));
}

/// Test that we can chain calls of our commands multiple times in a row
#[test]
fn chain_commands() {
    let code = generated(CHAIN_FOO);
    // method call on Commands
    assert!(has(
        &code,
        "impl CommandsFooExt for ::bevy::ecs::system::Commands<'_, '_> {
            fn foo(&mut self, n: usize,) -> &mut Self { self.add(FooCommand { n, }); self }
        }"
    ));
    // method call on World
    assert!(has(
        &code,
        "impl CommandsFooExt for ::bevy::ecs::world::World {
            fn foo(&mut self, n: usize,) -> &mut Self {
                <FooCommand as ::bevy::ecs::system::Command>::apply(FooCommand { n, }, self);
                self
            }
        }"
    ));
    // the function itself is kept without the marker
    assert!(has(&code, "fn foo(world: &mut World, n: usize,) { let mut m"));
}

/// Test that we can chain calls of our entity_commands multiple times in a row
#[test]
fn chain_entity_commands() {
    let code = generated(CHAIN_BAR);
    assert!(has(&code, "pub trait EntityCommandsBarExt {"));
    assert!(has(&code, "fn bar(&mut self, n: usize,) -> &mut Self;"));
    // method call on EntityCommands
    assert!(has(
        &code,
        "fn bar(&mut self, n: usize,) -> &mut Self { self.add(BarEntityCommand { n, }); self }"
    ));
    // method call on EntityWorldMut
    assert!(has(&code, "BarEntityCommand { n, }, id, world); }); self } }"));
}

/// Test that we can spawn an entity, run our command on it, and chain other commands afterwards
#[test]
fn spawn_chain_commands() {
    let code = generated(CHAIN_BAR);
    assert!(has(
        &code,
        "impl EntityCommandsBarExt for ::bevy::ecs::system::EntityCommands<'_> {
            fn bar(&mut self, n: usize,) -> &mut Self { self.add(BarEntityCommand { n, }); self }
        }"
    ));
}

/// Test that we can spawn an entity against the world and chain other commands afterwards
#[test]
fn spawn_chain_world() {
    let code = generated(CHAIN_BAR);
    assert!(has(
        &code,
        "impl EntityCommandsBarExt for ::bevy::ecs::world::EntityWorldMut<'_> {
            fn bar(&mut self, n: usize,) -> &mut Self {
                let id = self.id();
                self.world_scope(|world| {
                    <BarEntityCommand as ::bevy::ecs::system::EntityCommand>::apply(
                        BarEntityCommand { n, }, id, world);
                });
                self
            }
        }"
    ));
}

/// The `ecs` attribute should point this macro to the correct `bevy_ecs`-equivalent root
#[test]
fn ecs_name() {
    let foo = generated("#[command(ecs = bevy_ecs)] fn foo(_world: &mut World) {}");
    assert!(has(&foo, "impl bevy_ecs::system::Command for FooCommand {"));
    assert!(has(&foo, "impl CommandsFooExt for bevy_ecs::system::Commands<'_, '_> {"));
    assert!(has(&foo, "impl CommandsFooExt for bevy_ecs::world::World {"));
    assert!(!foo.contains("bevy ::"));

    let bar = generated("#[entity_command(bevy_ecs)] fn bar(_world: &mut World, _entity: Entity) {}");
    assert!(has(&bar, "impl ::bevy_ecs::system::EntityCommand for BarEntityCommand {"));
    assert!(has(&bar, "impl EntityCommandsBarExt for ::bevy_ecs::system::EntityCommands<'_> {"));
    assert!(has(&bar, "impl EntityCommandsBarExt for ::bevy_ecs::world::EntityWorldMut<'_> {"));
    assert!(!bar.contains("bevy ::"));
}

#[test]
fn marker_applied() {
    let code = generated(
        "#[entity_command]
        fn apply_marker(id: Entity, world: &mut World) { world.entity_mut(id).insert(Marker); }",
    );
    assert!(has(&code, "struct ApplyMarkerEntityCommand;"));
    assert!(has(
        &code,
        "fn apply(self, id: Entity, world: &mut World) {
            let ApplyMarkerEntityCommand {} = self;
            { world.entity_mut(id).insert(Marker); }
        }"
    ));
    assert!(has(
        &code,
        "fn apply_marker(&mut self,) { self.add(ApplyMarkerEntityCommand {}); }"
    ));
}

#[test]
fn struct_command_still_works() {
    let foo = generated("#[command(no_trait)] fn foo(_world: &mut World) {}");
    assert_eq!(
        foo,
        canon(
            "#[allow(unused)]
            fn foo(_world: &mut World,) {}
            struct FooCommand;
            impl ::bevy::ecs::system::Command for FooCommand {
                fn apply(self, _world: &mut World) { let FooCommand {} = self; {} }
            }"
        )
    );
    let bar = generated("#[entity_command(no_trait)] fn bar(_world: &mut World, _entity: Entity) {}");
    assert_eq!(
        bar,
        canon(
            "#[allow(unused)]
            fn bar(_world: &mut World, _entity: Entity,) {}
            struct BarEntityCommand;
            impl ::bevy::ecs::system::EntityCommand for BarEntityCommand {
                fn apply(self, _entity: Entity, _world: &mut World) {
                    let BarEntityCommand {} = self;
                    {}
                }
            }"
        )
    );
}

/// The `name` attribute should affect all three ways of calling the command
#[test]
fn foo_becomes_sub() {
    let code = generated(
        "#[command(name = \"sub\")]
        fn foo(world: &mut World, n: usize) { let mut m = world.resource_mut::<TestUsize>(); **m -= n; }",
    );
    // method call on Commands
    assert!(has(&code, "fn sub(&mut self, n: usize,) { self.add(SubCommand { n, }); }"));
    // calling method on trait directly
    assert!(has(&code, "pub trait CommandsSubExt { fn sub(&mut self, n: usize,); }"));
    // adding command struct
    assert!(has(&code, "struct SubCommand { pub n: usize, }"));
    // method call on World
    assert!(has(
        &code,
        "impl CommandsSubExt for ::bevy::ecs::world::World { fn sub(&mut self, n: usize,) {"
    ));
    // the function keeps its own name
    assert!(has(&code, "fn foo(world: &mut World, n: usize,)"));
    assert!(!code.contains("FooCommand"));
}

/// The `name` attribute should affect all three ways of calling the entity_command
#[test]
fn bar_becomes_bus() {
    let code = generated(
        "#[entity_command(name = \"bus\")]
        fn bar(world: &mut World, entity: Entity, n: usize) {}",
    );
    assert!(has(&code, "fn bus(&mut self, n: usize,) { self.add(BusEntityCommand { n, }); }"));
    assert!(has(&code, "pub trait EntityCommandsBusExt { fn bus(&mut self, n: usize,); }"));
    assert!(has(&code, "struct BusEntityCommand { pub n: usize, }"));
    assert!(has(
        &code,
        "impl EntityCommandsBusExt for ::bevy::ecs::world::EntityWorldMut<'_> {
            fn bus(&mut self, n: usize,) {"
    ));
    assert!(!code.contains("BarEntityCommand"));
}

/// We should be able to add our command via the defined `struct_name`
#[test]
fn renamed_struct() {
    let code = generated(
        "#[command(struct_name = Foo)]
        fn add(world: &mut World, n: usize) { let mut m = world.resource_mut::<TestUsize>(); **m += n; }",
    );
    assert!(has(&code, "struct Foo { pub n: usize, }"));
    assert!(has(&code, "impl ::bevy::ecs::system::Command for Foo {"));
    assert!(has(&code, "self.add(Foo { n, });"));
    // the trait and the method keep their default names
    assert!(has(&code, "pub trait CommandsAddExt { fn add(&mut self, n: usize,); }"));
    assert!(!code.contains("AddCommand"));
}

/// We should be able to add our entity_command via the defined `struct_name`
#[test]
fn renamed_entity_struct() {
    let code = generated(
        "#[entity_command(name = do_sub, struct_name = \"Bar\")]
        fn sub(world: &mut World, entity: Entity, n: usize) {}",
    );
    assert!(has(&code, "struct Bar { pub n: usize, }"));
    assert!(has(&code, "impl ::bevy::ecs::system::EntityCommand for Bar {"));
    assert!(has(&code, "fn do_sub(&mut self, n: usize,) { self.add(Bar { n, }); }"));
    assert!(has(&code, "pub trait EntityCommandsDoSubExt {"));
}

/// We should be able to call our command via the defined `trait_name`
#[test]
fn renamed_trait() {
    let code = generated(
        "#[command(trait_name = FooExt)]
        fn add(world: &mut World, n: usize) { let mut m = world.resource_mut::<TestUsize>(); **m += n; }",
    );
    // Call via Commands
    assert!(has(&code, "pub trait FooExt { fn add(&mut self, n: usize,); }"));
    assert!(has(&code, "impl FooExt for ::bevy::ecs::system::Commands<'_, '_> {"));
    // Call via World
    assert!(has(&code, "impl FooExt for ::bevy::ecs::world::World {"));
    // the record keeps its default name
    assert!(has(&code, "struct AddCommand { pub n: usize, }"));
    assert!(!code.contains("CommandsAddExt"));
}

/// We should be able to call our entity_command via the defined `trait_name`
#[test]
fn renamed_entity_trait() {
    let code = generated(
        "#[entity_command(name = do_sub, trait_name = \"BarExt\")]
        fn sub(world: &mut World, entity: Entity, n: usize) {}",
    );
    // Call via Commands
    assert!(has(&code, "pub trait BarExt { fn do_sub(&mut self, n: usize,); }"));
    assert!(has(&code, "impl BarExt for ::bevy::ecs::system::EntityCommands<'_> {"));
    // Call via World
    assert!(has(&code, "impl BarExt for ::bevy::ecs::world::EntityWorldMut<'_> {"));
    assert!(has(&code, "struct DoSubEntityCommand { pub n: usize, }"));
}

#[test]
fn error_handler_handles_err() {
    let code = generated(TEST_HANDLER);
    assert!(has(
        &code,
        "Err(error) => { world.run_system_once_with(error, handle_err); }"
    ));
    // the command itself surfaces nothing
    assert!(has(
        &code,
        "#[allow(unused)] fn test_handler(world: &mut World, success: bool,) { use"
    ));
}

#[test]
fn error_handler_handles_ok() {
    let code = generated(TEST_HANDLER);
    assert!(has(
        &code,
        "Ok(value) => { world.run_system_once_with(value, handle_ok); }"
    ));
    assert!(has(
        &code,
        "fn apply(self, world: &mut World) {
            let TestHandlerCommand { success, } = self;
            {
                use ::bevy::ecs::system::RunSystemOnce;
                match test_handler_error_handled(world, success,) {"
    ));
}

/// all three ways of calling the command
#[test]
fn systemify_command() {
    let foo = generated(
        "#[command] fn foo(In(n): In<usize>, mut m: ResMut<TestUsize>) { **m -= n; }",
    );
    assert_eq!(
        foo,
        canon(
            "#[allow(unused)]
            fn foo(In(n): In<usize>, mut m: ResMut<TestUsize>,) { **m -= n; }
            struct FooCommand { pub n: usize, }
            impl ::bevy::ecs::system::Command for FooCommand {
                fn apply(self, world: &mut ::bevy::ecs::world::World) {
                    use ::bevy::ecs::system::RunSystemOnce;
                    let FooCommand { n, } = self;
                    world.run_system_once_with(n, foo);
                }
            }
            pub trait CommandsFooExt { fn foo(&mut self, n: usize,); }
            impl CommandsFooExt for ::bevy::ecs::system::Commands<'_, '_> {
                fn foo(&mut self, n: usize,) { self.add(FooCommand { n, }); }
            }
            impl CommandsFooExt for ::bevy::ecs::world::World {
                fn foo(&mut self, n: usize,) {
                    use ::bevy::ecs::system::RunSystemOnce;
                    self.run_system_once_with(n, foo);
                }
            }"
        )
    );

    let irony = generated("#[command] fn irony(mut commands: Commands) -> &mut Self { commands.foo(5); }");
    assert!(has(&irony, "fn irony(mut commands: Commands,) { commands.foo(5); }"));
    assert!(has(&irony, "struct IronyCommand;"));
    assert!(has(&irony, "let IronyCommand {} = self; world.run_system_once(irony);"));
    assert!(has(&irony, "fn irony(&mut self,) -> &mut Self { self.add(IronyCommand {}); self }"));
    assert!(has(
        &irony,
        "fn irony(&mut self,) -> &mut Self {
            use ::bevy::ecs::system::RunSystemOnce;
            self.run_system_once(irony);
            self
        }"
    ));

    let one = generated(
        "#[command]
        fn one(In(mut stuff): In<(usize, usize)>, mut item: ResMut<TestUsize>) -> &mut Self {
            stuff.0 *= 2;
        }",
    );
    assert!(has(&one, "struct OneCommand { pub stuff: (usize, usize,), }"));
    assert!(has(&one, "let OneCommand { stuff, } = self; world.run_system_once_with(stuff, one);"));
    assert!(has(&one, "fn one(&mut self, stuff: (usize, usize,),) -> &mut Self {"));
}

/// all three ways of calling the entity_command
#[test]
fn systemify_entity_command() {
    let two = generated(
        "#[entity_command]
        fn two(In((entity, mut n)): In<(Entity, usize)>, mut query: Query<&mut TestUsize>) {
            n *= 2;
        }",
    );
    assert!(has(&two, "struct TwoEntityCommand { pub n: usize, }"));
    assert!(has(
        &two,
        "impl ::bevy::ecs::system::EntityCommand for TwoEntityCommand {
            fn apply(self, entity: Entity, world: &mut ::bevy::ecs::world::World) {
                use ::bevy::ecs::system::RunSystemOnce;
                let TwoEntityCommand { n, } = self;
                world.run_system_once_with((entity, n,), two);
            }
        }"
    ));
    assert!(has(&two, "pub trait EntityCommandsTwoExt { fn two(&mut self, n: usize,); }"));
    assert!(has(
        &two,
        "impl EntityCommandsTwoExt for ::bevy::ecs::world::EntityWorldMut<'_> {
            fn two(&mut self, n: usize,) {
                use ::bevy::ecs::system::RunSystemOnce;
                let entity = self.id();
                self.world_scope(|world| { world.run_system_once_with((entity, n,), two); });
            }
        }"
    ));
}

#[test]
fn world_impl_works() {
    let code = generated("#[command] fn foo(_world: &mut World) {}");
    assert!(has(
        &code,
        "impl CommandsFooExt for ::bevy::ecs::world::World {
            fn foo(&mut self,) {
                <FooCommand as ::bevy::ecs::system::Command>::apply(FooCommand {}, self);
            }
        }"
    ));
}

#[test]
fn generic_world_impl_works() {
    let code = generated(
        "#[command]
        fn generic_foo<T: Send + Sync + 'static>(_world: &mut World, _phantom: PhantomData<T>) {}",
    );
    assert!(has(
        &code,
        "struct GenericFooCommand<T: Send + Sync + 'static> { pub _phantom: PhantomData<T>, }"
    ));
    assert!(has(
        &code,
        "impl<T: Send + Sync + 'static> ::bevy::ecs::system::Command for GenericFooCommand<T,> {"
    ));
    assert!(has(
        &code,
        "impl CommandsGenericFooExt for ::bevy::ecs::world::World {
            fn generic_foo<T: Send + Sync + 'static>(&mut self, _phantom: PhantomData<T>,) {
                <GenericFooCommand<T,> as ::bevy::ecs::system::Command>::apply(
                    GenericFooCommand { _phantom, }, self);
            }
        }"
    ));
}

#[test]
fn world_mut_entity_impl_works() {
    let code = generated("#[entity_command] fn mut_entity(_entity: Entity, _world: &mut World) {}");
    assert!(has(
        &code,
        "impl EntityCommandsMutEntityExt for ::bevy::ecs::world::EntityWorldMut<'_> {
            fn mut_entity(&mut self,) {
                let id = self.id();
                self.world_scope(|world| {
                    <MutEntityEntityCommand as ::bevy::ecs::system::EntityCommand>::apply(
                        MutEntityEntityCommand {}, id, world);
                });
            }
        }"
    ));
}

fn refusal(source: &str) -> (Span, String) {
    let error = rejected(source);
    (error.span, error.message)
}

#[test]
fn pipe_is_not_an_option() {
    assert_eq!(
        refusal("#[command(pipe = process_input)] fn test_pipe(world: &mut World, value: i32) {}"),
        (Span::Arg(0), "Unknown attribute `pipe = process_input`".to_string())
    );
}

#[test]
fn unknown_options_are_named() {
    assert_eq!(
        refusal("#[command(no_trait, sparkle)] fn foo(world: &mut World) {}"),
        (Span::Arg(1), "Unknown attribute `sparkle`".to_string())
    );
    // a flag is no assignment, and an assignment no flag
    assert_eq!(
        refusal("#[command(no_trait = true)] fn foo(world: &mut World) {}"),
        (Span::Arg(0), "Unknown attribute `no_trait = true`".to_string())
    );
    assert_eq!(
        refusal("#[command(name)] fn foo(world: &mut World) {}"),
        (Span::Arg(0), "Unknown attribute `name`".to_string())
    );
    assert_eq!(
        refusal("#[command(name(sub))] fn foo(world: &mut World) {}"),
        (Span::Arg(0), "Unknown attribute `name (sub)`".to_string())
    );
    // keys are case-sensitive
    assert_eq!(
        refusal("#[command(No_Trait)] fn foo(world: &mut World) {}"),
        (Span::Arg(0), "Unknown attribute `No_Trait`".to_string())
    );
}

#[test]
fn malformed_names_are_rejected_at_the_value() {
    assert_eq!(
        refusal("#[command(name = 5)] fn foo(world: &mut World) {}"),
        (Span::ArgValue(0), "invalid name: `5`".to_string())
    );
    assert_eq!(
        refusal("#[command(no_world, struct_name = a::B)] fn foo(world: &mut World) {}"),
        (Span::ArgValue(1), "Name must be an ident, found path".to_string())
    );
    let (span, message) = refusal("#[command(trait_name = \"1x\")] fn foo(world: &mut World) {}");
    assert_eq!(span, Span::ArgValue(0));
    assert!(!message.is_empty());
    let (span, _) = refusal("#[command(name = \"fn\")] fn foo(world: &mut World) {}");
    assert_eq!(span, Span::ArgValue(0));
}

#[test]
fn malformed_paths_are_rejected_at_the_value() {
    assert_eq!(
        refusal("#[command(ecs = 5)] fn foo(world: &mut World) {}"),
        (Span::ArgValue(0), "invalid path: `5`".to_string())
    );
    let (span, _) = refusal("#[command(ecs = \"a::<b>\")] fn foo(world: &mut World) {}");
    assert_eq!(span, Span::ArgValue(0));
    assert_eq!(
        refusal("#[command(ok = 1 + 1)] fn foo(world: &mut World) -> Result<u8, u8> { Ok(0) }"),
        (Span::ArgValue(0), "invalid path: `1 + 1`".to_string())
    );
}

#[test]
fn quoted_values_mean_what_bare_ones_mean() {
    let bare = generated("#[command(name = sub, ecs = my::ecs)] fn foo(world: &mut World) {}");
    let quoted = generated("#[command(name = \"sub\", ecs = \"my::ecs\")] fn foo(world: &mut World) {}");
    assert_eq!(bare, quoted);
    assert!(has(&bare, "impl my::ecs::system::Command for SubCommand {"));
    // the content of the literal is parsed, not copied
    let spaced = generated("#[command(name = \" sub \")] fn foo(world: &mut World) {}");
    assert!(has(&spaced, "pub trait CommandsSubExt { fn sub(&mut self,); }"));
}

#[test]
fn later_options_win() {
    let code = generated("#[command(name = a, name = b, bevy_ecs, ecs = c)] fn foo(world: &mut World) {}");
    assert!(has(&code, "impl c::system::Command for BCommand {"));
}

#[test]
fn variadic_functions_are_rejected() {
    assert_eq!(
        refusal("#[command] unsafe extern \"C\" fn foo(world: &mut World, ...) {}"),
        (Span::Variadic, "command cannot be variadic".to_string())
    );
}

#[test]
fn return_types_are_rejected_at_the_type() {
    let message = "command may not define a return type, except for `&mut Self`".to_string();
    assert_eq!(
        refusal("#[command] fn foo(world: &mut World) -> usize { 0 }"),
        (Span::Output, message.clone())
    );
    // a shared reference is no marker
    assert_eq!(
        refusal("#[command] fn foo(world: &mut World) -> &Self {}"),
        (Span::Output, message.clone())
    );
    assert_eq!(
        refusal("#[command] fn foo(world: &mut World) -> &mut World { world }"),
        (Span::Output, message.clone())
    );
    // without handlers a `Result` is a return type like any other
    assert_eq!(
        refusal("#[command] fn foo(world: &mut World) -> Result<u8, u8> { Ok(0) }"),
        (Span::Output, message)
    );
}

#[test]
fn entity_commands_need_an_entity() {
    assert_eq!(
        refusal("#[entity_command] fn foo(world: &mut World, n: usize) {}"),
        (Span::CallSite, "Entity commands must take in a `Entity` parameter".to_string())
    );
    assert_eq!(
        refusal("#[entity_command] fn foo(In(n): In<usize>) {}"),
        (Span::CallSite, "Entity commands must take in a `Entity` parameter".to_string())
    );
    // for a plain command an `Entity` is a field like any other
    let code = generated("#[command] fn foo(world: &mut World, entity: Entity) {}");
    assert!(has(&code, "struct FooCommand { pub entity: Entity, }"));
}

#[test]
fn roles_are_not_doubled_or_mixed() {
    assert_eq!(
        refusal("#[command] fn foo(a: &mut World, n: u8, b: &mut World) {}"),
        (Span::Input(2), "Commands cannot take more than one `World` parameter".to_string())
    );
    assert_eq!(
        refusal("#[entity_command] fn foo(world: &mut World, a: Entity, b: Entity) {}"),
        (Span::Input(2), "Commands cannot take more than one `Entity` parameter".to_string())
    );
    assert_eq!(
        refusal("#[entity_command] fn foo(a: Entity, In((b, n)): In<(Entity, u8)>) {}"),
        (Span::Input(1), "Commands cannot take more than one `Entity` parameter".to_string())
    );
    assert_eq!(
        refusal("#[command] fn foo(world: &mut World, In(n): In<u8>) {}"),
        (Span::Input(1), "Commands cannot take both `World` and `In` parameters".to_string())
    );
    assert_eq!(
        refusal("#[command] fn foo(In(n): In<u8>, q: Query<&A>, world: &mut World) {}"),
        (Span::Input(2), "Commands cannot take both `World` and `In` parameters".to_string())
    );
}

#[test]
fn patterns_must_be_names() {
    assert_eq!(
        refusal("#[command] fn foo(world: &mut World, (a, b): (u8, u8)) {}"),
        (Span::InputPat(1), "Invalid path".to_string())
    );
    assert_eq!(
        refusal("#[command] fn foo(_: u8, world: &mut World) {}"),
        (Span::InputPat(0), "Invalid path".to_string())
    );
}

#[test]
fn piped_inputs_are_checked() {
    assert_eq!(
        refusal("#[command] fn foo(n: In<usize>) {}"),
        (Span::Input(0), "Unsupported input type".to_string())
    );
    assert_eq!(
        refusal("#[command] fn foo(q: Query<&A>, In(_): In<usize>) {}"),
        (Span::PatItem(1, 0), "Unknown input".to_string())
    );
    assert_eq!(
        refusal("#[command] fn foo(In((a, (b, c))): In<(u8, (u8, u8))>) {}"),
        (Span::PatElem(0, 0, 1), "Invalid path".to_string())
    );
    assert_eq!(
        refusal("#[command] fn foo(In(a): In<'static>) {}"),
        (Span::TypeArg(0, 0), "Unknown argument type".to_string())
    );
    assert_eq!(
        refusal("#[command] fn foo(In(a): In<&'static str>) {}"),
        (Span::TypeArg(0, 0), "Unsupported argument type".to_string())
    );
    assert_eq!(
        refusal("#[command] fn foo(In(a): In) {}"),
        (Span::InputType(0), "Unsupported use of `In`".to_string())
    );
}

#[test]
fn piped_arity() {
    // one name for each type: each is threaded on its own
    let each = generated("#[command] fn foo(In((a, mut b)): In<(u8, Vec<u16>)>, q: Query<&A>) {}");
    assert!(has(&each, "struct FooCommand { pub a: u8, pub b: Vec<u16>, }"));
    assert!(has(&each, "let FooCommand { a, b, } = self; world.run_system_once_with((a, b,), foo);"));
    assert!(has(&each, "fn foo(&mut self, a: u8, b: Vec<u16>,) {"));

    // one name for several types: they are packed under it
    let packed = generated("#[command] fn foo(In(all): In<(u8, u16, u32)>) {}");
    assert!(has(&packed, "struct FooCommand { pub all: (u8, u16, u32,), }"));
    assert!(has(&packed, "let FooCommand { all, } = self; world.run_system_once_with(all, foo);"));

    // any other count is a diagnostic
    let imbalanced = "Imbalanced names and types".to_string();
    assert_eq!(
        refusal("#[command] fn foo(In((a, b, c)): In<(u8, u16)>) {}"),
        (Span::InputType(0), imbalanced.clone())
    );
    assert_eq!(
        refusal("#[command] fn foo(In((a, b)): In<u8>) {}"),
        (Span::InputType(0), imbalanced.clone())
    );
    assert_eq!(
        refusal("#[command] fn foo(q: Query<&A>, In((a, b)): In<(u8, u16, u32)>) {}"),
        (Span::InputType(1), imbalanced.clone())
    );
    assert_eq!(
        refusal("#[command] fn foo(In(a): In<()>) {}"),
        (Span::InputType(0), imbalanced)
    );
}

#[test]
fn mode_follows_the_context_parameter() {
    // with a context parameter: the body runs in place
    let exclusive = generated("#[command] fn foo(n: u8, world: &mut World, m: u8) { work(); }");
    assert!(has(
        &exclusive,
        "fn apply(self, world: &mut World) { let FooCommand { n, m, } = self; { work(); } }"
    ));
    assert!(!exclusive.contains("run_system_once"));
    // without one: the function runs once as a system, and its body is not copied
    let system = generated("#[command] fn foo(n: Res<A>, m: Query<&B>) { work(); }");
    assert!(has(
        &system,
        "fn apply(self, world: &mut ::bevy::ecs::world::World) {
            use ::bevy::ecs::system::RunSystemOnce;
            let FooCommand {} = self;
            world.run_system_once(foo);
        }"
    ));
    assert_eq!(system.matches("work").count(), 1);
    // the type counts as it is written, not as it resolves
    let written = generated("#[command] fn foo(world: &mut bevy::prelude::World) {}");
    assert!(has(&written, "struct FooCommand;"));
    assert!(has(&written, "world.run_system_once(foo);"));
}

#[test]
fn no_world_keeps_the_queue() {
    let code = generated("#[command(no_world)] fn foo(world: &mut World) {}");
    assert!(has(&code, "impl CommandsFooExt for ::bevy::ecs::system::Commands<'_, '_> {"));
    assert!(!code.contains("world :: World"));
    let system = generated("#[entity_command(no_world)] fn foo(In(e): In<Entity>) {}");
    assert!(has(&system, "impl EntityCommandsFooExt for ::bevy::ecs::system::EntityCommands<'_> {"));
    assert!(!system.contains("EntityWorldMut"));
}

#[test]
fn queued_and_direct_paths_carry_the_same_command() {
    // a record with a single numeric field
    let code = generated(
        "#[command]
        fn sub(world: &mut World, n: usize) { **world.resource_mut::<TestUsize>() -= n; }",
    );
    assert!(has(&code, "struct SubCommand { pub n: usize, }"));
    // enqueued: the record is built and added
    assert!(has(&code, "fn sub(&mut self, n: usize,) { self.add(SubCommand { n, }); }"));
    // direct: the same record is built and applied at once
    assert!(has(
        &code,
        "fn sub(&mut self, n: usize,) {
            <SubCommand as ::bevy::ecs::system::Command>::apply(SubCommand { n, }, self);
        }"
    ));
    // either way the body that runs is the function's own
    assert!(has(
        &code,
        "fn apply(self, world: &mut World) {
            let SubCommand { n, } = self;
            { **world.resource_mut::<TestUsize>() -= n; }
        }"
    ));
}

#[test]
fn routed_command_in_full() {
    let expected = "
        #[allow(unused)]
        fn test_handler_error_handled(world: &mut World, success: bool,) -> Result<bool, bool> {
            if success { Ok(true) } else { Err(false) }
        }
        #[allow(unused)]
        fn test_handler(world: &mut World, success: bool,) {
            use ::bevy::ecs::system::RunSystemOnce;
            match test_handler_error_handled(world, success,) {
                Ok(value) => { world.run_system_once_with(value, handle_ok); }
                Err(error) => { world.run_system_once_with(error, handle_err); }
            }
        }
        struct TestHandlerCommand { pub success: bool, }
        impl ::bevy::ecs::system::Command for TestHandlerCommand {
            fn apply(self, world: &mut World) {
                let TestHandlerCommand { success, } = self;
                {
                    use ::bevy::ecs::system::RunSystemOnce;
                    match test_handler_error_handled(world, success,) {
                        Ok(value) => { world.run_system_once_with(value, handle_ok); }
                        Err(error) => { world.run_system_once_with(error, handle_err); }
                    }
                }
            }
        }
        pub trait CommandsTestHandlerExt { fn test_handler(&mut self, success: bool,); }
        impl CommandsTestHandlerExt for ::bevy::ecs::system::Commands<'_, '_> {
            fn test_handler(&mut self, success: bool,) {
                self.add(TestHandlerCommand { success, });
            }
        }
        impl CommandsTestHandlerExt for ::bevy::ecs::world::World {
            fn test_handler(&mut self, success: bool,) {
                <TestHandlerCommand as ::bevy::ecs::system::Command>::apply(
                    TestHandlerCommand { success, }, self);
            }
        }
    ";
    assert_eq!(generated(TEST_HANDLER), canon(expected));
}

#[test]
fn unset_handlers_drop_the_payload() {
    let only_ok = generated(
        "#[command(ok = handle_ok)] fn only_ok(w: &mut World) -> Result<u32, &'static str> { Ok(3) }",
    );
    assert!(has(
        &only_ok,
        "match only_ok_error_handled(w,) {
            Ok(value) => { w.run_system_once_with(value, handle_ok); }
            Err(_) => {}
        }"
    ));
    let only_err = generated(
        "#[command(err = \"report::error\")]
        fn only_err(world: &mut World) -> Result<u32, &'static str> { Err(\"no\") }",
    );
    assert!(has(
        &only_err,
        "match only_err_error_handled(world,) {
            Ok(_) => {}
            Err(error) => { world.run_system_once_with(error, report::error); }
        }"
    ));
}

#[test]
fn routing_has_its_conditions() {
    let result = "command with result handlers must return a `Result`".to_string();
    assert_eq!(
        refusal("#[command(ok = h)] fn foo(world: &mut World) {}"),
        (Span::CallSite, result.clone())
    );
    assert_eq!(
        refusal("#[command(err = h)] fn foo(world: &mut World) -> Option<u8> { None }"),
        (Span::Output, result.clone())
    );
    assert_eq!(
        refusal("#[command(err = h)] fn foo(world: &mut World) -> Result<u8> { Ok(0) }"),
        (Span::Output, result)
    );
    assert_eq!(
        refusal("#[command(ok = h)] fn foo(world: &mut World) -> &mut Self {}"),
        (Span::Output, "command with result handlers may not return `&mut Self`".to_string())
    );
    assert_eq!(
        refusal("#[command(ok = h)] fn foo(In(n): In<u8>) -> Result<u8, u8> { Ok(n) }"),
        (Span::CallSite, "command with result handlers must take a `World` parameter".to_string())
    );
    assert_eq!(
        refusal("#[command(ok = h)] fn foo(n: u8, _: &mut World) -> Result<u8, u8> { Ok(n) }"),
        (Span::InputPat(1), "Invalid path".to_string())
    );
}

#[test]
fn commandify_takes_the_kind_as_a_flag() {
    let (args, item, _) = parse("#[command] fn foo(world: &mut World, e: Entity) {}");
    let plain = render(&commandify(&args, &item, false).expect("accepted"));
    let scoped = render(&commandify(&args, &item, true).expect("accepted"));
    assert_eq!(plain, render(&command(&args, &item).expect("accepted")));
    assert_eq!(scoped, render(&entity_command(&args, &item).expect("accepted")));
    assert!(has(&canon(&plain), "struct FooCommand { pub e: Entity, }"));
    assert!(has(&canon(&scoped), "struct FooEntityCommand;"));
}

#[test]
fn attributes_and_visibility_are_kept() {
    let code = generated(
        "#[command]
        /// Does it
        #[inline]
        pub(crate) fn foo<'a, T: Copy, const N: usize>(world: &mut World, x: [T; N], y: &'a u8) {}",
    );
    assert!(has(&code, "#[allow(unused)] /// Does it\n #[inline] pub(crate) fn foo<'a, T: Copy, const N: usize>("));
    assert!(has(
        &code,
        "/// Does it\n #[inline] pub(crate) struct FooCommand<'a, T: Copy, const N: usize> {
            pub x: [T; N], pub y: &'a u8, }"
    ));
    assert!(has(
        &code,
        "impl<'a, T: Copy, const N: usize> ::bevy::ecs::system::Command for FooCommand<'a, T, N,> {"
    ));
    // only the documentation goes on the trait's method
    assert!(has(&code, "pub trait CommandsFooExt { /// Does it\n fn foo<'a, T: Copy, const N: usize>("));
}
