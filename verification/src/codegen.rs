//! The handler generator: given an actor type declaration, emit the source
//! text of the two handler implementations that satisfy the signal handler
//! contract by invoking the runtime's lifecycle primitives.
//!
//! The generator is a purely syntactic transformer. Its one delicate duty is
//! generic actors: every declared generic parameter and every declared bound
//! must reach both emitted implementations unchanged, and a bound clause is
//! synthesized when the declaration has none, so that the emitted code is
//! well-formed either way. The `spec_` functions here are the exact statement
//! of the emitted text; the proof functions state the propagation guarantees.
//!
//! Parsing a token stream into an [`ActorDef`] is the caller's concern (a
//! derive entry point rejects anything that is not a struct declaration at
//! build time); from there on everything is plain text assembled here.

use vstd::prelude::*;

use crate::signals::Signal;

verus! {

/// One generic parameter of an actor declaration.
pub struct GenericParam {
    /// The declaration-site text: `T: Clone + 'static`, `'a`, `const N: usize`.
    pub binder: String,
    /// The use-site text: `T`, `'a`, `N`.
    pub ident: String,
}

/// The structurally analyzed declaration of an actor type: its name, its
/// generic parameter list, and the predicates of its bound clause (empty when
/// the declaration carries none).
pub struct ActorDef {
    pub name: String,
    pub params: Vec<GenericParam>,
    pub where_preds: Vec<String>,
}

/// The items joined by a separator: `a, b, c` for separator `, `.
pub open spec fn spec_join(items: Seq<Seq<char>>, sep: Seq<char>) -> Seq<char>
    decreases items.len(),
{
    if items.len() == 0 {
        Seq::empty()
    } else if items.len() == 1 {
        items[0]
    } else {
        items[0] + sep + spec_join(items.drop_first(), sep)
    }
}

/// The declaration-site texts of the parameters.
pub open spec fn spec_binders(params: Seq<GenericParam>) -> Seq<Seq<char>> {
    params.map_values(|p: GenericParam| p.binder@)
}

/// The use-site texts of the parameters.
pub open spec fn spec_idents(params: Seq<GenericParam>) -> Seq<Seq<char>> {
    params.map_values(|p: GenericParam| p.ident@)
}

/// The views of the declared bound predicates.
pub open spec fn spec_pred_views(preds: Seq<String>) -> Seq<Seq<char>> {
    preds.map_values(|p: String| p@)
}

/// The generics list as an `impl` header carries it: the declared binders,
/// verbatim and in order; empty for a non-generic actor.
pub open spec fn spec_impl_generics(params: Seq<GenericParam>) -> Seq<char> {
    if params.len() == 0 {
        Seq::empty()
    } else {
        "<"@ + spec_join(spec_binders(params), ", "@) + ">"@
    }
}

/// The generics list as the type position carries it: the declared parameter
/// names, verbatim and in order; empty for a non-generic actor.
pub open spec fn spec_ty_generics(params: Seq<GenericParam>) -> Seq<char> {
    if params.len() == 0 {
        Seq::empty()
    } else {
        "<"@ + spec_join(spec_idents(params), ", "@) + ">"@
    }
}

/// The emitted bound clause: the declared predicates, verbatim and in order,
/// with the actor-validity bound appended; synthesized from nothing but that
/// bound when the declaration carries no clause.
pub open spec fn spec_bound_clause(preds: Seq<String>) -> Seq<char> {
    "where "@ + spec_join(spec_pred_views(preds).push("Self: actix::Actor"@), ", "@)
}

/// The message type the emitted implementation handles.
pub open spec fn spec_signal_name(k: Signal) -> Seq<char> {
    match k {
        Signal::Stop => "StopSignal"@,
        Signal::Terminate => "TerminateSignal"@,
    }
}

/// The lifecycle primitive the emitted handler body invokes: the graceful
/// one for `Stop`, the immediate one for `Terminate`.
pub open spec fn spec_primitive_call(k: Signal) -> Seq<char> {
    match k {
        Signal::Stop => "ctx.stop();"@,
        Signal::Terminate => "ctx.terminate();"@,
    }
}

/// Everything of an emitted implementation that stands before the handled
/// message type: a function of the actor declaration alone.
pub open spec fn spec_impl_header(d: ActorDef) -> Seq<char> {
    "impl"@ + spec_impl_generics(d.params@) + " actix::Handler<actix_signal::"@
}

/// Everything between the two mentions of the message type: also a function
/// of the actor declaration alone.
pub open spec fn spec_impl_middle(d: ActorDef) -> Seq<char> {
    "> for "@ + d.name@ + spec_ty_generics(d.params@) + " "@ + spec_bound_clause(d.where_preds@)
        + " { type Result = (); fn handle(&mut self, _msg: actix_signal::"@
}

/// The handler body and closing braces: a function of the signal kind alone.
pub open spec fn spec_impl_tail(k: Signal) -> Seq<char> {
    ", ctx: &mut Self::Context) -> Self::Result { use actix::ActorContext; "@
        + spec_primitive_call(k) + " } }"@
}

/// The full emitted implementation for one signal kind.
pub open spec fn spec_handler_impl(d: ActorDef, k: Signal) -> Seq<char> {
    spec_impl_header(d) + spec_signal_name(k) + spec_impl_middle(d) + spec_signal_name(k)
        + spec_impl_tail(k)
}

/// The generator's whole output: the `Stop` implementation, then the
/// `Terminate` implementation.
pub open spec fn spec_derived_handlers(d: ActorDef) -> Seq<char> {
    spec_handler_impl(d, Signal::Stop) + "\n"@ + spec_handler_impl(d, Signal::Terminate)
}

proof fn lemma_spec_join_push(items: Seq<Seq<char>>, sep: Seq<char>, x: Seq<char>)
    requires
        items.len() > 0,
    ensures
        spec_join(items.push(x), sep) == spec_join(items, sep) + sep + x,
    decreases items.len(),
{
    reveal_with_fuel(spec_join, 3);
    if items.len() == 1 {
        assert(items.push(x).drop_first() =~= seq![x]);
        assert(items.push(x)[0] == items[0]);
        assert(spec_join(seq![x], sep) == x);
        assert(spec_join(items.push(x), sep) =~= items[0] + sep + x);
    } else {
        assert(items.push(x).first() == items.first());
        assert(items.push(x).drop_first() =~= items.drop_first().push(x));
        lemma_spec_join_push(items.drop_first(), sep, x);
        assert(spec_join(items.push(x), sep) =~= spec_join(items, sep) + sep + x);
    }
}

/// The generated implementations are parameterized identically: character for
/// character, both consist of the same segments derived from the actor's
/// declaration — generic binders, type arguments, bound clause — and differ
/// only in the handled message type and the invoked primitive.
pub proof fn lemma_handlers_identically_parameterized(d: ActorDef)
    ensures
        spec_handler_impl(d, Signal::Stop) == spec_impl_header(d) + spec_signal_name(
            Signal::Stop,
        ) + spec_impl_middle(d) + spec_signal_name(Signal::Stop) + spec_impl_tail(Signal::Stop),
        spec_handler_impl(d, Signal::Terminate) == spec_impl_header(d) + spec_signal_name(
            Signal::Terminate,
        ) + spec_impl_middle(d) + spec_signal_name(Signal::Terminate) + spec_impl_tail(
            Signal::Terminate,
        ),
{
}

/// The emitted bound clause keeps the declared predicates verbatim and in
/// order, and appends exactly one bound — the actor-validity requirement;
/// with no declared predicates the clause is synthesized from that bound
/// alone, so the emitted code is well-formed either way.
pub proof fn lemma_bound_clause_appends_actor_bound(preds: Seq<String>)
    ensures
        preds.len() == 0 ==> spec_bound_clause(preds) == "where "@ + "Self: actix::Actor"@,
        preds.len() > 0 ==> spec_bound_clause(preds) == "where "@ + spec_join(
            spec_pred_views(preds),
            ", "@,
        ) + ", "@ + "Self: actix::Actor"@,
{
    if preds.len() == 0 {
        assert(spec_pred_views(preds).push("Self: actix::Actor"@) =~= seq!["Self: actix::Actor"@]);
        assert(spec_bound_clause(preds) =~= "where "@ + "Self: actix::Actor"@);
    } else {
        lemma_spec_join_push(spec_pred_views(preds), ", "@, "Self: actix::Actor"@);
        assert(spec_bound_clause(preds) =~= "where "@ + spec_join(spec_pred_views(preds), ", "@)
            + ", "@ + "Self: actix::Actor"@);
    }
}

/// The impl-position generics list: `<binder1, binder2, ...>`, or nothing for
/// a non-generic actor.
pub fn impl_generics_text(params: &Vec<GenericParam>) -> (r: String)
    ensures
        r@ == spec_impl_generics(params@),
{
    if params.len() == 0 {
        String::new()
    } else {
        let mut out = String::new();
        out.append("<");
        let mut i: usize = 0;
        while i < params.len()
            invariant
                0 < params.len(),
                i <= params.len(),
                i == 0 ==> out@ == "<"@,
                i > 0 ==> out@ == "<"@ + spec_join(spec_binders(params@).take(i as int), ", "@),
            decreases params.len() - i,
        {
            if i > 0 {
                out.append(", ");
            }
            out.append(params[i].binder.as_str());
            proof {
                let bs = spec_binders(params@);
                assert(bs.take(i + 1) =~= bs.take(i as int).push(bs[i as int]));
                if i > 0 {
                    lemma_spec_join_push(bs.take(i as int), ", "@, bs[i as int]);
                } else {
                    assert(bs.take(1) =~= seq![bs[0]]);
                }
                assert(out@ =~= "<"@ + spec_join(bs.take(i + 1), ", "@));
            }
            i = i + 1;
        }
        out.append(">");
        proof {
            assert(spec_binders(params@).take(params@.len() as int) =~= spec_binders(params@));
            assert(out@ =~= spec_impl_generics(params@));
        }
        out
    }
}

/// The type-position generics list: `<name1, name2, ...>`, or nothing for a
/// non-generic actor.
pub fn ty_generics_text(params: &Vec<GenericParam>) -> (r: String)
    ensures
        r@ == spec_ty_generics(params@),
{
    if params.len() == 0 {
        String::new()
    } else {
        let mut out = String::new();
        out.append("<");
        let mut i: usize = 0;
        while i < params.len()
            invariant
                0 < params.len(),
                i <= params.len(),
                i == 0 ==> out@ == "<"@,
                i > 0 ==> out@ == "<"@ + spec_join(spec_idents(params@).take(i as int), ", "@),
            decreases params.len() - i,
        {
            if i > 0 {
                out.append(", ");
            }
            out.append(params[i].ident.as_str());
            proof {
                let ns = spec_idents(params@);
                assert(ns.take(i + 1) =~= ns.take(i as int).push(ns[i as int]));
                if i > 0 {
                    lemma_spec_join_push(ns.take(i as int), ", "@, ns[i as int]);
                } else {
                    assert(ns.take(1) =~= seq![ns[0]]);
                }
                assert(out@ =~= "<"@ + spec_join(ns.take(i + 1), ", "@));
            }
            i = i + 1;
        }
        out.append(">");
        proof {
            assert(spec_idents(params@).take(params@.len() as int) =~= spec_idents(params@));
            assert(out@ =~= spec_ty_generics(params@));
        }
        out
    }
}

/// The emitted bound clause, actor-validity bound included.
pub fn bound_clause_text(preds: &Vec<String>) -> (r: String)
    ensures
        r@ == spec_bound_clause(preds@),
{
    let mut out = String::new();
    out.append("where ");
    let mut i: usize = 0;
    while i < preds.len()
        invariant
            i <= preds.len(),
            i == 0 ==> out@ == "where "@,
            i > 0 ==> out@ == "where "@ + spec_join(spec_pred_views(preds@).take(i as int), ", "@)
                + ", "@,
        decreases preds.len() - i,
    {
        out.append(preds[i].as_str());
        out.append(", ");
        proof {
            let ps = spec_pred_views(preds@);
            assert(ps.take(i + 1) =~= ps.take(i as int).push(ps[i as int]));
            if i > 0 {
                lemma_spec_join_push(ps.take(i as int), ", "@, ps[i as int]);
            } else {
                assert(ps.take(1) =~= seq![ps[0]]);
            }
            assert(out@ =~= "where "@ + spec_join(ps.take(i + 1), ", "@) + ", "@);
        }
        i = i + 1;
    }
    out.append("Self: actix::Actor");
    proof {
        let ps = spec_pred_views(preds@);
        assert(ps.take(preds@.len() as int) =~= ps);
        lemma_bound_clause_appends_actor_bound(preds@);
        assert(out@ =~= spec_bound_clause(preds@));
    }
    out
}

/// The full emitted implementation for one signal kind.
pub fn handler_impl_text(d: &ActorDef, k: Signal) -> (r: String)
    ensures
        r@ == spec_handler_impl(*d, k),
{
    let signal_name: &str = match k {
        Signal::Stop => "StopSignal",
        Signal::Terminate => "TerminateSignal",
    };
    let primitive_call: &str = match k {
        Signal::Stop => "ctx.stop();",
        Signal::Terminate => "ctx.terminate();",
    };
    let mut out = String::new();
    out.append("impl");
    let ig = impl_generics_text(&d.params);
    out.append(ig.as_str());
    out.append(" actix::Handler<actix_signal::");
    out.append(signal_name);
    out.append("> for ");
    out.append(d.name.as_str());
    let tg = ty_generics_text(&d.params);
    out.append(tg.as_str());
    out.append(" ");
    let bc = bound_clause_text(&d.where_preds);
    out.append(bc.as_str());
    out.append(" { type Result = (); fn handle(&mut self, _msg: actix_signal::");
    out.append(signal_name);
    out.append(", ctx: &mut Self::Context) -> Self::Result { use actix::ActorContext; ");
    out.append(primitive_call);
    out.append(" } }");
    proof {
        assert(out@ =~= spec_handler_impl(*d, k));
    }
    out
}

/// The generator: emit, for the given actor declaration, the two handler
/// implementations that satisfy the signal handler contract — the `Stop`
/// handler invoking the graceful-stop primitive and the `Terminate` handler
/// invoking the immediate-terminate primitive — each parameterized exactly as
/// the actor is declared, with the actor-validity bound appended.
pub fn signal_handler_derive(d: &ActorDef) -> (r: String)
    ensures
        r@ == spec_derived_handlers(*d),
{
    let mut out = handler_impl_text(d, Signal::Stop);
    out.append("\n");
    let second = handler_impl_text(d, Signal::Terminate);
    out.append(second.as_str());
    proof {
        assert(out@ =~= spec_derived_handlers(*d));
    }
    out
}

} // verus!
