//! What holds of every client module, whatever the description.
//!
//! Each statement is over the specification functions that the contracts of
//! the client backend use, so it holds of the text the backend emits.

use super::client::{
    call_member, call_name, callback_name, code, empty_module_text, fire_name, function_text,
    function_texts, functions_text, generated, has_surface, iter_support_text,
    listen_event_text, listen_text, listen_texts, module_text, outgoing_event_text,
    outgoing_text, outgoing_texts, polling_components, polling_member, registration_member,
    rets_text, tydecl_text, tydecl_texts, tydecls_text, yield_text,
};
use super::{
    event_loop_text, file_header_text, parameter_texts, parameters_text, ty_text, ty_texts,
    value_name,
};
use crate::config::{
    Casing, Config, ConfigView, EvCall, EvDeclView, EvSource, FnDeclView, ParameterView,
    TyDeclView, TyView, YieldType,
};
use crate::text::{decimal, joined, line};
use vstd::prelude::*;

verus! {

/// Generation is deterministic: whatever `code` returns for two
/// descriptions with the same view is the same artifact, present or absent
/// alike and with the same text.
pub proof fn lemma_runs_agree(
    first: &Config,
    second: &Config,
    first_run: Option<String>,
    second_run: Option<String>,
)
    requires
        first@ == second@,
        call_ensures(code, (first,), first_run),
        call_ensures(code, (second,), second_run),
    ensures
        first_run is Some <==> second_run is Some,
        first_run is Some ==> first_run->0@ == second_run->0@,
{
}

/// Whether the target is enabled alone decides whether there is an
/// artifact: none when the flag is off, one when it is on, whatever else the
/// description holds.
pub proof fn lemma_target_gating(config: &Config, run: Option<String>)
    requires
        call_ensures(code, (config,), run),
    ensures
        run is None <==> !config.typescript,
        generated(config@) is None <==> !config@.typescript,
{
}

/// A description without events and without functions yields the header
/// and the empty-module line and nothing more, whatever type declarations
/// and policies it holds.
pub proof fn lemma_empty_description(config: ConfigView, tabs: nat)
    requires
        config.evdecls.len() == 0,
        config.fndecls.len() == 0,
    ensures
        !has_surface(config),
        module_text(config, tabs) == line(tabs, file_header_text("Client"@)) + line(
            tabs,
            empty_module_text(),
        ),
        config.typescript ==> generated(config) == Some(
            "// Client generated by Zap\nexport {}\n"@,
        ),
{
    reveal(crate::text::indentation);
    reveal_strlit("// Client generated by Zap\nexport {}\n");
    reveal_strlit("// ");
    reveal_strlit("Client");
    reveal_strlit(" generated by Zap");
    reveal_strlit("export {}");
    reveal_strlit("\n");
    assert(module_text(config, 0) =~= "// Client generated by Zap\nexport {}\n"@);
}

/// A module with a surface holds its parts in one fixed order: the header,
/// the iterator support where an event is polled, the event-loop hookup,
/// the type declarations, the outgoing events, the incoming events, the
/// functions.
pub proof fn lemma_module_order(config: ConfigView, tabs: nat)
    requires
        has_surface(config),
    ensures
        module_text(config, tabs) == line(tabs, file_header_text("Client"@)) + iter_support_text(
            tabs,
            config.evdecls,
        ) + line(tabs, event_loop_text(config.casing)) + tydecls_text(tabs, config.tydecls)
            + outgoing_text(config.casing, tabs, config.evdecls) + listen_text(
            config.casing,
            tabs,
            config.evdecls,
        ) + functions_text(config.casing, config.yield_type, tabs, config.fndecls),
{
}

/// An event that the client originates is emitted as one object with one
/// member: the fire accessor, which takes the payload parameters in their
/// order and returns nothing. It has no part among the incoming events.
pub proof fn lemma_outgoing_shape(casing: Casing, tabs: nat, ev: EvDeclView)
    requires
        ev.from == EvSource::Client,
    ensures
        outgoing_event_text(casing, tabs, ev) == line(
            tabs,
            "export declare const "@ + ev.name + ": {"@,
        ) + line(
            tabs + 1,
            fire_name(casing) + ": ("@ + parameters_text(casing, ev.data) + ") => void;"@,
        ) + line(tabs, "};"@),
        parameters_text(casing, ev.data) == joined(parameter_texts(casing, ev.data), ", "@),
        parameter_texts(casing, ev.data).len() == ev.data.len(),
        listen_event_text(casing, tabs, ev) == Seq::<char>::empty(),
{
}

/// The tuple of a polled event has one component more than the event has
/// payload parameters: the numeric index, named after the first parameter
/// where that has a name, then the parameters in their order. A parameter
/// without a name is named by the bare value name in the first
/// position and by the value name with its position, counted from one, in
/// every later position: the second is the value name followed by 2.
pub proof fn lemma_polling_shape(casing: Casing, data: Seq<ParameterView>)
    ensures
        polling_components(casing, data).len() == 1 + data.len(),
        polling_components(casing, data)[0] == (if data.len() > 0 && data[0].name is Some {
            data[0].name->0
        } else {
            casing.pick("Index"@, "index"@, "index"@)
        }) + ": number"@,
        polling_member(casing, data) == casing.pick("Iter"@, "iter"@, "iter"@)
            + ": Iter<LuaTuple<["@ + joined(polling_components(casing, data), ", "@) + "]>>;"@,
        forall|i: int|
            0 <= i < data.len() && data[i].name is None ==> #[trigger] polling_components(
                casing,
                data,
            )[i + 1] == (if i == 0 {
                value_name(casing)
            } else {
                value_name(casing) + decimal((i + 1) as nat)
            }) + ": "@ + ty_text(data[i].ty),
        decimal(2) == seq!['2'],
{
    reveal_with_fuel(decimal, 1);
}

/// The single disciplines register through the set-callback accessor and
/// the many disciplines through the on accessor; either takes one callback
/// over the payload and returns a handle that takes nothing and returns
/// nothing. Whether the discipline is synchronous changes nothing.
pub proof fn lemma_registration_shape(casing: Casing, call: EvCall, data: Seq<ParameterView>)
    requires
        call != EvCall::Polling,
    ensures
        registration_member(casing, call, data) == (if call == EvCall::SingleSync || call
            == EvCall::SingleAsync {
            casing.pick("SetCallback"@, "setCallback"@, "set_callback"@)
        } else {
            casing.pick("On"@, "on"@, "on"@)
        }) + ": ("@ + callback_name(casing) + ": ("@ + parameters_text(casing, data)
            + ") => void) => () => void;"@,
        registration_member(casing, EvCall::SingleSync, data) == registration_member(
            casing,
            EvCall::SingleAsync,
            data,
        ),
        registration_member(casing, EvCall::ManySync, data) == registration_member(
            casing,
            EvCall::ManyAsync,
            data,
        ),
{
}

/// The return type follows the number of declared returns: none gives the
/// no-value type, one gives its bare type, two or more give the tuple of
/// their types in declared order.
pub proof fn lemma_return_arity(rets: Option<Seq<TyView>>)
    ensures
        rets is None || rets->0.len() == 0 ==> rets_text(rets) == "void"@,
        rets is Some && rets->0.len() == 1 ==> rets_text(rets) == ty_text(rets->0[0]),
        rets is Some && rets->0.len() >= 2 ==> rets_text(rets) == "LuaTuple<["@ + joined(
            ty_texts(rets->0),
            ", "@,
        ) + "]>"@,
        rets is Some ==> ty_texts(rets->0).len() == rets->0.len(),
        rets is Some ==> forall|i: int|
            0 <= i < rets->0.len() ==> #[trigger] ty_texts(rets->0)[i] == ty_text(rets->0[i]),
{
    if rets is Some {
        super::lemma_ty_texts(rets->0);
    }
}

/// The promise discipline wraps the return type in a promise and the
/// blocking discipline leaves it bare; nothing else of the call accessor
/// depends on the discipline.
pub proof fn lemma_yield_wrapping(casing: Casing, fndecl: FnDeclView)
    ensures
        yield_text(YieldType::Promise, rets_text(fndecl.rets)) == "Promise<"@ + rets_text(
            fndecl.rets,
        ) + ">"@,
        yield_text(YieldType::Yield, rets_text(fndecl.rets)) == rets_text(fndecl.rets),
        call_member(casing, YieldType::Promise, fndecl) == call_name(casing) + ": ("@
            + parameters_text(casing, fndecl.args) + ") => "@ + ("Promise<"@ + rets_text(
            fndecl.rets,
        ) + ">"@) + ";"@,
        call_member(casing, YieldType::Yield, fndecl) == call_name(casing) + ": ("@
            + parameters_text(casing, fndecl.args) + ") => "@ + rets_text(fndecl.rets) + ";"@,
{
}

/// Emission follows declaration order: one more type declaration at the
/// end of the list is one more line at the end of the declarations, before
/// the blank line that closes the block.
pub proof fn lemma_tydecls_in_order(tabs: nat, tydecls: Seq<TyDeclView>, tydecl: TyDeclView)
    ensures
        tydecl_texts(tabs, tydecls.push(tydecl)).flatten() == tydecl_texts(tabs, tydecls).flatten()
            + tydecl_text(tabs, tydecl),
        tydecls_text(tabs, tydecls.push(tydecl)) == tydecl_texts(tabs, tydecls).flatten()
            + tydecl_text(tabs, tydecl) + "\n"@,
{
    let texts = tydecl_texts(tabs, tydecls);
    assert(tydecl_texts(tabs, tydecls.push(tydecl)) == texts.push(tydecl_text(tabs, tydecl)));
    texts.lemma_flatten_push(tydecl_text(tabs, tydecl));
}

/// Emission follows declaration order: one more event at the end of the
/// list adds what that event contributes at the end of the outgoing events
/// and at the end of the incoming events.
pub proof fn lemma_events_in_order(casing: Casing, tabs: nat, evs: Seq<EvDeclView>, ev: EvDeclView)
    ensures
        outgoing_text(casing, tabs, evs.push(ev)) == outgoing_text(casing, tabs, evs)
            + outgoing_event_text(casing, tabs, ev),
        listen_text(casing, tabs, evs.push(ev)) == listen_text(casing, tabs, evs)
            + listen_event_text(casing, tabs, ev),
{
    let outgoing = outgoing_texts(casing, tabs, evs);
    assert(outgoing_texts(casing, tabs, evs.push(ev)) == outgoing.push(
        outgoing_event_text(casing, tabs, ev),
    ));
    outgoing.lemma_flatten_push(outgoing_event_text(casing, tabs, ev));
    let listen = listen_texts(casing, tabs, evs);
    assert(listen_texts(casing, tabs, evs.push(ev)) == listen.push(
        listen_event_text(casing, tabs, ev),
    ));
    listen.lemma_flatten_push(listen_event_text(casing, tabs, ev));
}

/// Emission follows declaration order: one more function at the end of the
/// list is one more object at the end of the functions.
pub proof fn lemma_functions_in_order(
    casing: Casing,
    yield_type: YieldType,
    tabs: nat,
    fndecls: Seq<FnDeclView>,
    fndecl: FnDeclView,
)
    ensures
        functions_text(casing, yield_type, tabs, fndecls.push(fndecl)) == functions_text(
            casing,
            yield_type,
            tabs,
            fndecls,
        ) + function_text(casing, yield_type, tabs, fndecl),
{
    let texts = function_texts(casing, yield_type, tabs, fndecls);
    assert(function_texts(casing, yield_type, tabs, fndecls.push(fndecl)) == texts.push(
        function_text(casing, yield_type, tabs, fndecl),
    ));
    texts.lemma_flatten_push(function_text(casing, yield_type, tabs, fndecl));
}

} // verus!
