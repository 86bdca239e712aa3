//! The client backend: the declaration module through which a client fires
//! its own events, listens to the server's, and calls remote functions.

use super::{
    event_loop_text, file_header_text, iter_type_text, lemma_ty_texts, parameter_texts,
    parameters_text, ty_text, ty_texts, ConfigProvider, Output,
};
use crate::config::{
    evdecl_views, parameter_views, rets_view, ty_views, Casing, Config, ConfigView, EvCall,
    EvDecl, EvDeclView, EvSource, FnDecl, FnDeclView, Parameter, ParameterView, Ty, TyDecl,
    TyDeclView, TyView, YieldType,
};
use crate::text::{
    indentation, joined, lemma_flatten_next, lemma_joined_empty, lemma_joined_next,
    lemma_joined_one, lemma_line_of_four, lemma_line_of_six, line,
};
use vstd::pervasive::unreached;
use vstd::prelude::*;
use vstd::string::StringExecFns;

verus! {

/// One type declaration: a line that binds the name to the lowered type.
pub open spec fn tydecl_text(tabs: nat, tydecl: TyDeclView) -> Seq<char> {
    line(tabs, "type "@ + tydecl.name + " = "@ + ty_text(tydecl.ty) + ";"@)
}

/// The line of each type declaration, in declaration order.
pub open spec fn tydecl_texts(tabs: nat, tydecls: Seq<TyDeclView>) -> Seq<Seq<char>> {
    Seq::new(tydecls.len(), |i: int| tydecl_text(tabs, tydecls[i]))
}

/// The declaration block: every declaration in order, then a blank line if
/// there was at least one.
pub open spec fn tydecls_text(tabs: nat, tydecls: Seq<TyDeclView>) -> Seq<char> {
    tydecl_texts(tabs, tydecls).flatten() + if tydecls.len() > 0 {
        "\n"@
    } else {
        Seq::empty()
    }
}

/// One exported object: an opening line that names it, its single member
/// one level deeper, and a closing line.
pub open spec fn object_text(tabs: nat, name: Seq<char>, member: Seq<char>) -> Seq<char> {
    line(tabs, "export declare const "@ + name + ": {"@) + line(tabs + 1, member) + line(
        tabs,
        "};"@,
    )
}

/// The name of the accessor that sends an event.
pub open spec fn fire_name(casing: Casing) -> Seq<char> {
    casing.pick("Fire"@, "fire"@, "fire"@)
}

/// The member of an outgoing event: the fire accessor, which takes the
/// payload positionally and returns nothing.
pub open spec fn outgoing_member(casing: Casing, data: Seq<ParameterView>) -> Seq<char> {
    fire_name(casing) + ": ("@ + parameters_text(casing, data) + ") => void;"@
}

/// What one event contributes among the outgoing events: its object if the
/// client originates it, else nothing.
pub open spec fn outgoing_event_text(casing: Casing, tabs: nat, ev: EvDeclView) -> Seq<char> {
    if ev.from == EvSource::Client {
        object_text(tabs, ev.name, outgoing_member(casing, ev.data))
    } else {
        Seq::empty()
    }
}

/// The contribution of each event among the outgoing events, in order.
pub open spec fn outgoing_texts(casing: Casing, tabs: nat, evs: Seq<EvDeclView>) -> Seq<Seq<char>> {
    Seq::new(evs.len(), |i: int| outgoing_event_text(casing, tabs, evs[i]))
}

/// The objects of all events the client originates, in declaration order.
pub open spec fn outgoing_text(casing: Casing, tabs: nat, evs: Seq<EvDeclView>) -> Seq<char> {
    outgoing_texts(casing, tabs, evs).flatten()
}

/// The name of the accessor that iterates over a polled event.
pub open spec fn iter_name(casing: Casing) -> Seq<char> {
    casing.pick("Iter"@, "iter"@, "iter"@)
}

/// The name of the first component of a polled event's tuple: that of the
/// first payload parameter where it has one, else the index name.
pub open spec fn index_name(casing: Casing, data: Seq<ParameterView>) -> Seq<char> {
    if data.len() > 0 && data[0].name is Some {
        data[0].name->0
    } else {
        casing.pick("Index"@, "index"@, "index"@)
    }
}

/// The components of a polled event's tuple: a numeric index, then one
/// component for each payload parameter.
pub open spec fn polling_components(casing: Casing, data: Seq<ParameterView>) -> Seq<Seq<char>> {
    seq![index_name(casing, data) + ": number"@] + parameter_texts(casing, data)
}

/// The member of a polled event: the iterator accessor over the tuple.
pub open spec fn polling_member(casing: Casing, data: Seq<ParameterView>) -> Seq<char> {
    iter_name(casing) + ": Iter<LuaTuple<["@ + joined(polling_components(casing, data), ", "@)
        + "]>>;"@
}

/// The name of the accessor that registers a callback: one that replaces
/// the previous callback for the single disciplines, one that adds to the
/// callbacks for the many disciplines. A polled event has none.
pub open spec fn registration_name(casing: Casing, call: EvCall) -> Seq<char>
    recommends
        call != EvCall::Polling,
{
    match call {
        EvCall::SingleSync | EvCall::SingleAsync => casing.pick(
            "SetCallback"@,
            "setCallback"@,
            "set_callback"@,
        ),
        EvCall::ManySync | EvCall::ManyAsync => casing.pick("On"@, "on"@, "on"@),
        EvCall::Polling => Seq::empty(),
    }
}

/// The name of the callback parameter of a registration accessor.
pub open spec fn callback_name(casing: Casing) -> Seq<char> {
    casing.pick("Callback"@, "callback"@, "callback"@)
}

/// The member of a callback event: the registration accessor, which takes
/// one callback over the payload and returns a handle that takes nothing
/// and returns nothing.
pub open spec fn registration_member(
    casing: Casing,
    call: EvCall,
    data: Seq<ParameterView>,
) -> Seq<char>
    recommends
        call != EvCall::Polling,
{
    registration_name(casing, call) + ": ("@ + callback_name(casing) + ": ("@ + parameters_text(
        casing,
        data,
    ) + ") => void) => () => void;"@
}

/// The member of an incoming event, by its call discipline.
pub open spec fn listen_member(casing: Casing, ev: EvDeclView) -> Seq<char> {
    if ev.call == EvCall::Polling {
        polling_member(casing, ev.data)
    } else {
        registration_member(casing, ev.call, ev.data)
    }
}

/// What one event contributes among the incoming events: its object if the
/// server originates it, else nothing.
pub open spec fn listen_event_text(casing: Casing, tabs: nat, ev: EvDeclView) -> Seq<char> {
    if ev.from == EvSource::Server {
        object_text(tabs, ev.name, listen_member(casing, ev))
    } else {
        Seq::empty()
    }
}

/// The contribution of each event among the incoming events, in order.
pub open spec fn listen_texts(casing: Casing, tabs: nat, evs: Seq<EvDeclView>) -> Seq<Seq<char>> {
    Seq::new(evs.len(), |i: int| listen_event_text(casing, tabs, evs[i]))
}

/// The objects of all events the server originates, in declaration order.
pub open spec fn listen_text(casing: Casing, tabs: nat, evs: Seq<EvDeclView>) -> Seq<char> {
    listen_texts(casing, tabs, evs).flatten()
}

/// The name of the accessor that calls a remote function.
pub open spec fn call_name(casing: Casing) -> Seq<char> {
    casing.pick("Call"@, "call"@, "call"@)
}

/// The type of what a function returns, by the number of declared returns:
/// none gives the no-value type, one gives its bare type, more give the
/// tuple of their types in declared order.
pub open spec fn rets_text(rets: Option<Seq<TyView>>) -> Seq<char> {
    match rets {
        Some(tys) => if tys.len() == 0 {
            "void"@
        } else if tys.len() == 1 {
            ty_text(tys[0])
        } else {
            "LuaTuple<["@ + joined(ty_texts(tys), ", "@) + "]>"@
        },
        None => "void"@,
    }
}

/// A return type as the yield discipline hands it over: inside a promise,
/// or as it is.
pub open spec fn yield_text(yield_type: YieldType, returned: Seq<char>) -> Seq<char> {
    match yield_type {
        YieldType::Promise => "Promise<"@ + returned + ">"@,
        YieldType::Yield => returned,
    }
}

/// The member of a function: the call accessor, which takes the arguments
/// positionally.
pub open spec fn call_member(casing: Casing, yield_type: YieldType, fndecl: FnDeclView) -> Seq<
    char,
> {
    call_name(casing) + ": ("@ + parameters_text(casing, fndecl.args) + ") => "@ + yield_text(
        yield_type,
        rets_text(fndecl.rets),
    ) + ";"@
}

/// The object of one function.
pub open spec fn function_text(
    casing: Casing,
    yield_type: YieldType,
    tabs: nat,
    fndecl: FnDeclView,
) -> Seq<char> {
    object_text(tabs, fndecl.name, call_member(casing, yield_type, fndecl))
}

/// The object of each function, in order.
pub open spec fn function_texts(
    casing: Casing,
    yield_type: YieldType,
    tabs: nat,
    fndecls: Seq<FnDeclView>,
) -> Seq<Seq<char>> {
    Seq::new(fndecls.len(), |i: int| function_text(casing, yield_type, tabs, fndecls[i]))
}

/// The objects of all functions, in declaration order.
pub open spec fn functions_text(
    casing: Casing,
    yield_type: YieldType,
    tabs: nat,
    fndecls: Seq<FnDeclView>,
) -> Seq<char> {
    function_texts(casing, yield_type, tabs, fndecls).flatten()
}

/// Everything the module exports: the outgoing events, the incoming
/// events, the functions.
pub open spec fn exports_text(config: ConfigView, tabs: nat) -> Seq<char> {
    outgoing_text(config.casing, tabs, config.evdecls) + listen_text(
        config.casing,
        tabs,
        config.evdecls,
    ) + functions_text(config.casing, config.yield_type, tabs, config.fndecls)
}

/// Whether any event, whatever its origin, is polled.
pub open spec fn uses_polling(evs: Seq<EvDeclView>) -> bool {
    exists|i: int| 0 <= i < evs.len() && (#[trigger] evs[i]).call == EvCall::Polling
}

/// The iterator support: one declaration where any event is polled, else
/// nothing.
pub open spec fn iter_support_text(tabs: nat, evs: Seq<EvDeclView>) -> Seq<char> {
    if uses_polling(evs) {
        line(tabs, iter_type_text())
    } else {
        Seq::empty()
    }
}

/// Whether the description has a surface: at least one event or function.
pub open spec fn has_surface(config: ConfigView) -> bool {
    config.evdecls.len() > 0 || config.fndecls.len() > 0
}

/// The line that stands for a module without a surface.
pub open spec fn empty_module_text() -> Seq<char> {
    "export {}"@
}

/// What follows the header in a module with a surface: the iterator
/// support, the event-loop hookup, the type declarations, the exports.
pub open spec fn surface_text(config: ConfigView, tabs: nat) -> Seq<char> {
    iter_support_text(tabs, config.evdecls) + line(tabs, event_loop_text(config.casing))
        + tydecls_text(tabs, config.tydecls) + exports_text(config, tabs)
}

/// The whole client module, emitted at depth `tabs`: the header, then the
/// surface, or the empty-module line where there is none.
pub open spec fn module_text(config: ConfigView, tabs: nat) -> Seq<char> {
    line(tabs, file_header_text("Client"@)) + if has_surface(config) {
        surface_text(config, tabs)
    } else {
        line(tabs, empty_module_text())
    }
}

/// The artifact of the client target: the module where the target is
/// enabled, none where it is not.
pub open spec fn generated(config: ConfigView) -> Option<Seq<char>> {
    if config.typescript {
        Some(module_text(config, 0))
    } else {
        None
    }
}

/// The emitter of the client module.
pub struct ClientOutput<'src> {
    config: &'src Config<'src>,
    tabs: u32,
    buf: String,
}

impl ConfigProvider for ClientOutput<'_> {
    closed spec fn config_view(&self) -> ConfigView {
        self.config@
    }

    fn get_config(&self) -> &Config {
        self.config
    }
}

impl Output for ClientOutput<'_> {
    closed spec fn text(&self) -> Seq<char> {
        self.buf@
    }

    closed spec fn tabs(&self) -> nat {
        self.tabs as nat
    }

    fn push(&mut self, s: &str) {
        self.buf.append(s);
    }

    fn indent(&mut self) {
        self.tabs += 1;
    }

    fn dedent(&mut self) {
        self.tabs -= 1;
    }

    fn push_indent(&mut self) {
        let tabs = self.tabs;
        proof {
            reveal(indentation);
        }
        for i in 0..tabs
            invariant
                tabs == old(self).tabs,
                self.text() == old(self).text() + indentation(i as nat),
                self.tabs() == old(self).tabs(),
                self.config_view() == old(self).config_view(),
        {
            self.push("\t");
            proof {
                reveal_strlit("\t");
                reveal(indentation);
            }
        }
    }
}

impl<'src> ClientOutput<'src> {
    /// An emitter over `config` that has emitted nothing yet.
    pub fn new(config: &'src Config<'src>) -> (out: Self)
        ensures
            out.config_view() == config@,
            out.text() == Seq::<char>::empty(),
            out.tabs() == 0,
    {
        Self { config, buf: String::new(), tabs: 0 }
    }

    /// The text emitted so far.
    pub fn as_str(&self) -> (text: &str)
        ensures
            text@ == self.text(),
    {
        self.buf.as_str()
    }

    /// Appends one type declaration.
    pub fn push_tydecl(&mut self, tydecl: &TyDecl)
        ensures
            final(self).text() == old(self).text() + tydecl_text(old(self).tabs(), tydecl@),
            final(self).tabs() == old(self).tabs(),
            final(self).config_view() == old(self).config_view(),
    {
        self.push_indent();
        self.push("type ");
        self.push(tydecl.name);
        self.push(" = ");
        self.push_ty(&tydecl.ty);
        self.push(";");
        self.push("\n");
    }

    /// Appends the declaration block.
    pub fn push_tydecls(&mut self)
        ensures
            final(self).text() == old(self).text() + tydecls_text(
                old(self).tabs(),
                old(self).config_view().tydecls,
            ),
            final(self).tabs() == old(self).tabs(),
            final(self).config_view() == old(self).config_view(),
    {
        let config = self.config;
        let ghost texts = tydecl_texts(self.tabs(), config@.tydecls);
        for i in 0..config.tydecls.len()
            invariant
                config == old(self).config,
                texts == tydecl_texts(old(self).tabs(), config@.tydecls),
                self.text() == old(self).text() + texts.take(i as int).flatten(),
                self.tabs() == old(self).tabs(),
                self.config_view() == old(self).config_view(),
        {
            self.push_tydecl(&config.tydecls[i]);
            proof {
                lemma_flatten_next(texts, i as int);
            }
        }
        proof {
            assert(texts.take(config.tydecls.len() as int) == texts);
        }
        if config.tydecls.len() > 0 {
            self.push("\n")
        }
    }

    /// Appends the object of one outgoing event.
    pub fn push_outgoing_event(&mut self, ev: &EvDecl)
        requires
            old(self).tabs() < u32::MAX,
        ensures
            final(self).text() == old(self).text() + object_text(
                old(self).tabs(),
                ev@.name,
                outgoing_member(old(self).config_view().casing, ev@.data),
            ),
            final(self).tabs() == old(self).tabs(),
            final(self).config_view() == old(self).config_view(),
    {
        let fire = self.config.casing.with("Fire", "fire", "fire");

        let mut opening = String::from_str("export declare const ");
        opening.append(ev.name);
        opening.append(": {");
        self.push_line(opening.as_str());
        self.indent();
        let ghost opened = self.text();

        self.push_indent();
        self.push(fire);
        self.push(": (");

        self.push_parameters(ev.data.as_slice());

        self.push(") => void;");
        self.push("\n");
        proof {
            lemma_line_of_four(
                opened,
                self.tabs(),
                fire@,
                ": ("@,
                parameters_text(self.config_view().casing, ev@.data),
                ") => void;"@,
            );
        }

        self.dedent();
        self.push_line("};");
    }

    /// Appends the object of every event that the client originates.
    pub fn push_return_outgoing(&mut self)
        requires
            old(self).tabs() < u32::MAX,
        ensures
            final(self).text() == old(self).text() + outgoing_text(
                old(self).config_view().casing,
                old(self).tabs(),
                old(self).config_view().evdecls,
            ),
            final(self).tabs() == old(self).tabs(),
            final(self).config_view() == old(self).config_view(),
    {
        let config = self.config;
        let ghost texts = outgoing_texts(config.casing, self.tabs(), config@.evdecls);
        for i in 0..config.evdecls.len()
            invariant
                config == old(self).config,
                old(self).tabs() < u32::MAX,
                texts == outgoing_texts(config.casing, old(self).tabs(), config@.evdecls),
                self.text() == old(self).text() + texts.take(i as int).flatten(),
                self.tabs() == old(self).tabs(),
                self.config_view() == old(self).config_view(),
        {
            let ev = &config.evdecls[i];
            if ev.from == EvSource::Client {
                self.push_outgoing_event(ev);
            }
            proof {
                lemma_flatten_next(texts, i as int);
            }
        }
        proof {
            assert(texts.take(config.evdecls.len() as int) == texts);
        }
    }

    /// Appends the member line of a polled event.
    pub fn push_polling_member(&mut self, data: &[Parameter])
        ensures
            final(self).text() == old(self).text() + line(
                old(self).tabs(),
                polling_member(old(self).config_view().casing, parameter_views(data@)),
            ),
            final(self).tabs() == old(self).tabs(),
            final(self).config_view() == old(self).config_view(),
    {
        let iter = self.config.casing.with("Iter", "iter", "iter");
        let index = self.config.casing.with("Index", "index", "index");

        let first = if data.len() > 0 {
            match data[0].name {
                Some(name) => name,
                None => index,
            }
        } else {
            index
        };

        self.push_indent();
        self.push(iter);
        self.push(": Iter<LuaTuple<[");
        let ghost start = self.text();
        let ghost components = polling_components(
            self.config_view().casing,
            parameter_views(data@),
        );
        self.push(first);
        self.push(": number");
        proof {
            lemma_joined_next(components, ", "@, 0);
        }
        for i in 0..data.len()
            invariant
                components == polling_components(
                    old(self).config_view().casing,
                    parameter_views(data@),
                ),
                self.text() == start + joined(components.take(i + 1), ", "@),
                self.tabs() == old(self).tabs(),
                self.config_view() == old(self).config_view(),
        {
            self.push(", ");
            self.push_parameter(i, &data[i]);
            proof {
                lemma_joined_next(components, ", "@, i + 1);
            }
        }
        proof {
            assert(components.take(data.len() + 1) == components);
        }

        self.push("]>>;");
        self.push("\n");
        proof {
            lemma_line_of_four(
                old(self).text(),
                old(self).tabs(),
                iter@,
                ": Iter<LuaTuple<["@,
                joined(components, ", "@),
                "]>>;"@,
            );
        }
    }

    /// Appends the object of one incoming event.
    pub fn push_listen_event(&mut self, ev: &EvDecl)
        requires
            old(self).tabs() < u32::MAX,
        ensures
            final(self).text() == old(self).text() + object_text(
                old(self).tabs(),
                ev@.name,
                listen_member(old(self).config_view().casing, ev@),
            ),
            final(self).tabs() == old(self).tabs(),
            final(self).config_view() == old(self).config_view(),
    {
        let mut opening = String::from_str("export declare const ");
        opening.append(ev.name);
        opening.append(": {");
        self.push_line(opening.as_str());
        self.indent();
        let ghost opened = self.text();

        if ev.call == EvCall::Polling {
            self.push_polling_member(ev.data.as_slice());
        } else {
            let callback = self.config.casing.with("Callback", "callback", "callback");
            let set_callback = match ev.call {
                EvCall::SingleSync | EvCall::SingleAsync => {
                    self.config.casing.with("SetCallback", "setCallback", "set_callback")
                },
                EvCall::ManySync | EvCall::ManyAsync => self.config.casing.with("On", "on", "on"),
                EvCall::Polling => unreached(),
            };

            self.push_indent();
            self.push(set_callback);
            self.push(": (");
            self.push(callback);
            self.push(": (");

            self.push_parameters(ev.data.as_slice());
            self.push(") => void) => () => void;");
            self.push("\n");
            proof {
                lemma_line_of_six(
                    opened,
                    self.tabs(),
                    set_callback@,
                    ": ("@,
                    callback@,
                    ": ("@,
                    parameters_text(self.config_view().casing, ev@.data),
                    ") => void) => () => void;"@,
                );
            }
        }

        self.dedent();
        self.push_line("};");
    }

    /// Appends the object of every event that the server originates.
    pub fn push_return_listen(&mut self)
        requires
            old(self).tabs() < u32::MAX,
        ensures
            final(self).text() == old(self).text() + listen_text(
                old(self).config_view().casing,
                old(self).tabs(),
                old(self).config_view().evdecls,
            ),
            final(self).tabs() == old(self).tabs(),
            final(self).config_view() == old(self).config_view(),
    {
        let config = self.config;
        let ghost texts = listen_texts(config.casing, self.tabs(), config@.evdecls);
        for i in 0..config.evdecls.len()
            invariant
                config == old(self).config,
                old(self).tabs() < u32::MAX,
                texts == listen_texts(config.casing, old(self).tabs(), config@.evdecls),
                self.text() == old(self).text() + texts.take(i as int).flatten(),
                self.tabs() == old(self).tabs(),
                self.config_view() == old(self).config_view(),
        {
            let ev = &config.evdecls[i];
            if ev.from == EvSource::Server {
                self.push_listen_event(ev);
            }
            proof {
                lemma_flatten_next(texts, i as int);
            }
        }
        proof {
            assert(texts.take(config.evdecls.len() as int) == texts);
        }
    }

    /// Appends the type of what a function returns.
    pub fn push_rets(&mut self, rets: &Option<Vec<Ty>>)
        ensures
            final(self).text() == old(self).text() + rets_text(rets_view(*rets)),
            final(self).tabs() == old(self).tabs(),
            final(self).config_view() == old(self).config_view(),
    {
        match rets {
            Some(types) if types.len() > 0 => {
                if types.len() > 1 {
                    self.push("LuaTuple<[");
                }
                let ghost start = self.text();
                let ghost texts = ty_texts(ty_views(types@));
                proof {
                    lemma_ty_texts(ty_views(types@));
                    lemma_joined_empty(texts.take(0), ", "@);
                }
                for i in 0..types.len()
                    invariant
                        texts == ty_texts(ty_views(types@)),
                        self.text() == start + joined(texts.take(i as int), ", "@),
                        self.tabs() == old(self).tabs(),
                        self.config_view() == old(self).config_view(),
                {
                    if i > 0 {
                        self.push(", ");
                    }
                    self.push_ty(&types[i]);
                    proof {
                        lemma_ty_texts(ty_views(types@));
                        lemma_joined_next(texts, ", "@, i as int);
                    }
                }
                proof {
                    assert(texts.take(types.len() as int) == texts);
                    if types.len() == 1 {
                        lemma_joined_one(texts, ", "@);
                    }
                }
                if types.len() > 1 {
                    self.push("]>");
                }
            },
            _ => self.push("void"),
        }
    }

    /// Appends the type of what a function returns, as the yield discipline
    /// hands it over.
    pub fn push_yielded_rets(&mut self, rets: &Option<Vec<Ty>>)
        ensures
            final(self).text() == old(self).text() + yield_text(
                old(self).config_view().yield_type,
                rets_text(rets_view(*rets)),
            ),
            final(self).tabs() == old(self).tabs(),
            final(self).config_view() == old(self).config_view(),
    {
        if self.config.yield_type == YieldType::Promise {
            self.push("Promise<")
        }

        self.push_rets(rets);

        if self.config.yield_type == YieldType::Promise {
            self.push(">")
        }
    }

    /// Appends the member line of a function.
    pub fn push_call_member(&mut self, fndecl: &FnDecl)
        ensures
            final(self).text() == old(self).text() + line(
                old(self).tabs(),
                call_member(
                    old(self).config_view().casing,
                    old(self).config_view().yield_type,
                    fndecl@,
                ),
            ),
            final(self).tabs() == old(self).tabs(),
            final(self).config_view() == old(self).config_view(),
    {
        let call = self.config.casing.with("Call", "call", "call");

        self.push_indent();
        self.push(call);
        self.push(": (");

        self.push_parameters(fndecl.args.as_slice());

        self.push(") => ");

        self.push_yielded_rets(&fndecl.rets);

        self.push(";");
        self.push("\n");
        proof {
            lemma_line_of_six(
                old(self).text(),
                self.tabs(),
                call@,
                ": ("@,
                parameters_text(self.config_view().casing, fndecl@.args),
                ") => "@,
                yield_text(self.config_view().yield_type, rets_text(fndecl@.rets)),
                ";"@,
            );
        }
    }

    /// Appends the object of one function.
    pub fn push_function(&mut self, fndecl: &FnDecl)
        requires
            old(self).tabs() < u32::MAX,
        ensures
            final(self).text() == old(self).text() + function_text(
                old(self).config_view().casing,
                old(self).config_view().yield_type,
                old(self).tabs(),
                fndecl@,
            ),
            final(self).tabs() == old(self).tabs(),
            final(self).config_view() == old(self).config_view(),
    {
        let mut opening = String::from_str("export declare const ");
        opening.append(fndecl.name);
        opening.append(": {");
        self.push_line(opening.as_str());
        self.indent();

        self.push_call_member(fndecl);

        self.dedent();
        self.push_line("};");
    }

    /// Appends the object of every function.
    pub fn push_return_functions(&mut self)
        requires
            old(self).tabs() < u32::MAX,
        ensures
            final(self).text() == old(self).text() + functions_text(
                old(self).config_view().casing,
                old(self).config_view().yield_type,
                old(self).tabs(),
                old(self).config_view().fndecls,
            ),
            final(self).tabs() == old(self).tabs(),
            final(self).config_view() == old(self).config_view(),
    {
        let config = self.config;
        let ghost texts = function_texts(
            config.casing,
            config.yield_type,
            self.tabs(),
            config@.fndecls,
        );
        for i in 0..config.fndecls.len()
            invariant
                config == old(self).config,
                old(self).tabs() < u32::MAX,
                texts == function_texts(
                    config.casing,
                    config.yield_type,
                    old(self).tabs(),
                    config@.fndecls,
                ),
                self.text() == old(self).text() + texts.take(i as int).flatten(),
                self.tabs() == old(self).tabs(),
                self.config_view() == old(self).config_view(),
        {
            self.push_function(&config.fndecls[i]);
            proof {
                lemma_flatten_next(texts, i as int);
            }
        }
        proof {
            assert(texts.take(config.fndecls.len() as int) == texts);
        }
    }

    /// Appends everything the module exports.
    pub fn push_return(&mut self)
        requires
            old(self).tabs() < u32::MAX,
        ensures
            final(self).text() == old(self).text() + exports_text(
                old(self).config_view(),
                old(self).tabs(),
            ),
            final(self).tabs() == old(self).tabs(),
            final(self).config_view() == old(self).config_view(),
    {
        self.push_return_outgoing();
        self.push_return_listen();
        self.push_return_functions();
    }

    /// Emits the whole module and hands over the text.
    pub fn output(self) -> (text: String)
        requires
            self.tabs() < u32::MAX,
        ensures
            text@ == self.text() + module_text(self.config_view(), self.tabs()),
    {
        let mut out = self;
        out.push_file_header("Client");

        if out.config.evdecls.len() == 0 && out.config.fndecls.len() == 0 {
            out.push_line("export {}");
            return out.buf;
        }
        if any_polling(&out.config.evdecls) {
            out.push_iter_type()
        }
        out.push_event_loop();

        out.push_tydecls();

        out.push_return();

        proof {
            let config = self.config_view();
            let tabs = self.tabs();
            lemma_assembled(
                self.text(),
                line(tabs, file_header_text("Client"@)),
                iter_support_text(tabs, config.evdecls),
                line(tabs, event_loop_text(config.casing)),
                tydecls_text(tabs, config.tydecls),
                exports_text(config, tabs),
            );
        }
        out.buf
    }
}

/// A module assembled piece by piece is the start followed by the header
/// and the surface.
proof fn lemma_assembled(
    start: Seq<char>,
    header: Seq<char>,
    iter_support: Seq<char>,
    event_loop: Seq<char>,
    tydecls: Seq<char>,
    exports: Seq<char>,
)
    ensures
        start + header + iter_support + event_loop + tydecls + exports == start + (header + (
        iter_support + event_loop + tydecls + exports)),
{
}

/// Whether any event of the list is polled.
fn any_polling(evdecls: &Vec<EvDecl>) -> (found: bool)
    ensures
        found == uses_polling(evdecl_views(evdecls@)),
{
    let ghost evs = evdecl_views(evdecls@);
    for i in 0..evdecls.len()
        invariant
            evs == evdecl_views(evdecls@),
            !uses_polling(evs.take(i as int)),
    {
        if evdecls[i].call == EvCall::Polling {
            assert(evs[i as int].call == EvCall::Polling);
            return true;
        }
        assert forall|j: int| 0 <= j < i + 1 implies (#[trigger] evs.take(i + 1)[j]).call
            != EvCall::Polling by {
            if j < i {
                assert(evs.take(i as int)[j] == evs[j]);
            }
        }
    }
    assert(evs.take(evdecls.len() as int) == evs);
    false
}

/// Generates the client module of a description, if its target is enabled.
pub fn code(config: &Config) -> (artifact: Option<String>)
    ensures
        artifact is Some <==> config.typescript,
        match artifact {
            Some(text) => generated(config@) == Some(text@),
            None => generated(config@) is None,
        },
{
    if !config.typescript {
        return None;
    }
    Some(ClientOutput::new(config).output())
}

} // verus!
