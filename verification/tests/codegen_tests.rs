use actix_signal::codegen::bound_clause_text;
use actix_signal::codegen::handler_impl_text;
use actix_signal::codegen::impl_generics_text;
use actix_signal::codegen::signal_handler_derive;
use actix_signal::codegen::ty_generics_text;
use actix_signal::codegen::ActorDef;
use actix_signal::codegen::GenericParam;
use actix_signal::Signal;

#[test]
fn derive_for_plain_actor() {
    let def = ActorDef {
        name: "MyActor".to_string(),
        params: Vec::new(),
        where_preds: Vec::new(),
    };
    let expected = "impl actix::Handler<actix_signal::StopSignal> for MyActor where Self: actix::Actor { type Result = (); fn handle(&mut self, _msg: actix_signal::StopSignal, ctx: &mut Self::Context) -> Self::Result { use actix::ActorContext; ctx.stop(); } }\nimpl actix::Handler<actix_signal::TerminateSignal> for MyActor where Self: actix::Actor { type Result = (); fn handle(&mut self, _msg: actix_signal::TerminateSignal, ctx: &mut Self::Context) -> Self::Result { use actix::ActorContext; ctx.terminate(); } }";
    assert_eq!(signal_handler_derive(&def), expected);
}

#[test]
fn derive_for_generic_actor() {
    let def = ActorDef {
        name: "MyActorWithGenerics".to_string(),
        params: vec![GenericParam {
            binder: "T: 'static + MyTrait + Unpin".to_string(),
            ident: "T".to_string(),
        }],
        where_preds: Vec::new(),
    };
    let expected_stop = "impl<T: 'static + MyTrait + Unpin> actix::Handler<actix_signal::StopSignal> for MyActorWithGenerics<T> where Self: actix::Actor { type Result = (); fn handle(&mut self, _msg: actix_signal::StopSignal, ctx: &mut Self::Context) -> Self::Result { use actix::ActorContext; ctx.stop(); } }";
    assert_eq!(handler_impl_text(&def, Signal::Stop), expected_stop);

    let whole = signal_handler_derive(&def);
    let generics = "<T: 'static + MyTrait + Unpin>";
    assert_eq!(whole.matches(generics).count(), 2);
}

#[test]
fn generics_lists_keep_every_parameter() {
    let params = vec![
        GenericParam { binder: "'a".to_string(), ident: "'a".to_string() },
        GenericParam { binder: "T: Clone".to_string(), ident: "T".to_string() },
        GenericParam { binder: "const N: usize".to_string(), ident: "N".to_string() },
    ];
    assert_eq!(impl_generics_text(&params), "<'a, T: Clone, const N: usize>");
    assert_eq!(ty_generics_text(&params), "<'a, T, N>");

    let none: Vec<GenericParam> = Vec::new();
    assert_eq!(impl_generics_text(&none), "");
    assert_eq!(ty_generics_text(&none), "");
}

#[test]
fn bound_clause_appends_actor_bound() {
    let none: Vec<String> = Vec::new();
    assert_eq!(bound_clause_text(&none), "where Self: actix::Actor");

    let preds = vec!["T: Clone".to_string(), "U: Default".to_string()];
    assert_eq!(bound_clause_text(&preds), "where T: Clone, U: Default, Self: actix::Actor");
}

#[test]
fn derive_keeps_declared_where_clause() {
    let def = ActorDef {
        name: "Worker".to_string(),
        params: vec![GenericParam { binder: "T".to_string(), ident: "T".to_string() }],
        where_preds: vec!["T: Unpin".to_string()],
    };
    let text = handler_impl_text(&def, Signal::Terminate);
    let expected = "impl<T> actix::Handler<actix_signal::TerminateSignal> for Worker<T> where T: Unpin, Self: actix::Actor { type Result = (); fn handle(&mut self, _msg: actix_signal::TerminateSignal, ctx: &mut Self::Context) -> Self::Result { use actix::ActorContext; ctx.terminate(); } }";
    assert_eq!(text, expected);
}
