//! The description of a networked interface: type declarations, events,
//! functions, and the policy choices that shape the generated names.
//!
//! Every type has a view made of sequences, so that specifications speak of
//! the description as plain mathematical data.

use vstd::prelude::*;

verus! {

/// Which of the three surface forms a structural name takes.
///
/// A structural name is one of the fixed names of the generated interface,
/// such as the accessor that fires an event. Every emission site asks the
/// policy for the form of a name, so one module never mixes forms.
#[derive(Clone, Copy, Debug, PartialEq, Eq, Structural)]
pub enum Casing {
    /// `SetCallback`
    Pascal,
    /// `setCallback`
    Camel,
    /// `set_callback`
    Snake,
}

impl Casing {
    /// The surface form this policy selects among the three given.
    pub open spec fn pick(self, pascal: Seq<char>, camel: Seq<char>, snake: Seq<char>) -> Seq<
        char,
    > {
        match self {
            Casing::Pascal => pascal,
            Casing::Camel => camel,
            Casing::Snake => snake,
        }
    }

    /// Selects the surface form of one structural name.
    pub fn with(
        &self,
        pascal: &'static str,
        camel: &'static str,
        snake: &'static str,
    ) -> (name: &'static str)
        ensures
            name@ == self.pick(pascal@, camel@, snake@),
    {
        match self {
            Casing::Pascal => pascal,
            Casing::Camel => camel,
            Casing::Snake => snake,
        }
    }
}

/// How the result of a remote function reaches the caller.
#[derive(Clone, Copy, Debug, PartialEq, Eq, Structural)]
pub enum YieldType {
    /// The call blocks until the result is there.
    Yield,
    /// The call returns a promise of the result.
    Promise,
}

/// The side that originates an event.
#[derive(Clone, Copy, Debug, PartialEq, Eq, Structural)]
pub enum EvSource {
    /// The server fires the event and the client listens.
    Server,
    /// The client fires the event and the server listens.
    Client,
}

/// How the receiving side retrieves an event.
///
/// The set is closed: every site that emits for an event handles all five.
#[derive(Clone, Copy, Debug, PartialEq, Eq, Structural)]
pub enum EvCall {
    /// One callback, which a later registration replaces; run in place.
    SingleSync,
    /// One callback, which a later registration replaces; run on its own.
    SingleAsync,
    /// Any number of callbacks side by side; run in place.
    ManySync,
    /// Any number of callbacks side by side; run on their own.
    ManyAsync,
    /// No callback: the receiver iterates over what has arrived.
    Polling,
}

/// The primitive type expressions.
#[derive(Clone, Copy, Debug, PartialEq, Eq, Structural)]
pub enum Prim {
    Number,
    String,
    Boolean,
    Buffer,
    Unknown,
}

/// A type expression.
#[derive(Debug)]
pub enum Ty<'src> {
    /// A primitive type.
    Prim(Prim),
    /// A value of the inner type, or none.
    Opt(Box<Ty<'src>>),
    /// Any number of values of the inner type.
    Arr(Box<Ty<'src>>),
    /// A mapping from keys of the first type to values of the second.
    Dict(Box<Ty<'src>>, Box<Ty<'src>>),
    /// One value of each item type, in order.
    Tuple(Vec<Ty<'src>>),
    /// A declared type, by its name.
    Ref(&'src str),
    /// The one string that is spelled out.
    Lit(&'src str),
}

/// The mathematical form of a type expression.
pub enum TyView {
    Prim(Prim),
    Opt(Box<TyView>),
    Arr(Box<TyView>),
    Dict(Box<TyView>, Box<TyView>),
    Tuple(Seq<TyView>),
    Ref(Seq<char>),
    Lit(Seq<char>),
}

impl<'src> Ty<'src> {
    /// The view, written as a recursive function of the value.
    pub open spec fn model(self) -> TyView
        decreases self,
    {
        match self {
            Ty::Prim(prim) => TyView::Prim(prim),
            Ty::Opt(inner) => TyView::Opt(Box::new(inner.model())),
            Ty::Arr(inner) => TyView::Arr(Box::new(inner.model())),
            Ty::Dict(key, value) => TyView::Dict(Box::new(key.model()), Box::new(value.model())),
            Ty::Tuple(items) => TyView::Tuple(
                Seq::new(
                    items.len() as nat,
                    |i: int|
                        if 0 <= i < items.len() {
                            items[i].model()
                        } else {
                            arbitrary()
                        },
                ),
            ),
            Ty::Ref(name) => TyView::Ref(name@),
            Ty::Lit(text) => TyView::Lit(text@),
        }
    }
}

impl<'src> View for Ty<'src> {
    type V = TyView;

    open spec fn view(&self) -> TyView {
        self.model()
    }
}

/// The views of a vector of type expressions, in order.
pub open spec fn ty_views(tys: Seq<Ty>) -> Seq<TyView> {
    tys.map_values(|ty: Ty| ty@)
}

/// The view of a tuple type is the tuple of its items' views.
pub proof fn lemma_tuple_view(items: Vec<Ty>)
    ensures
        Ty::Tuple(items)@ == TyView::Tuple(ty_views(items@)),
{
    assert(Ty::Tuple(items)@->Tuple_0 =~= ty_views(items@));
}

/// A named alias for a type expression.
#[derive(Debug)]
pub struct TyDecl<'src> {
    pub name: &'src str,
    pub ty: Ty<'src>,
}

/// The mathematical form of a type declaration.
pub struct TyDeclView {
    pub name: Seq<char>,
    pub ty: TyView,
}

impl<'src> View for TyDecl<'src> {
    type V = TyDeclView;

    open spec fn view(&self) -> TyDeclView {
        TyDeclView { name: self.name@, ty: self.ty@ }
    }
}

/// The views of a vector of type declarations, in order.
pub open spec fn tydecl_views(tydecls: Seq<TyDecl>) -> Seq<TyDeclView> {
    tydecls.map_values(|tydecl: TyDecl| tydecl@)
}

/// One payload or argument position: a type, and a name where one was given.
#[derive(Debug)]
pub struct Parameter<'src> {
    pub name: Option<&'src str>,
    pub ty: Ty<'src>,
}

/// The mathematical form of a parameter.
pub struct ParameterView {
    pub name: Option<Seq<char>>,
    pub ty: TyView,
}

impl<'src> View for Parameter<'src> {
    type V = ParameterView;

    open spec fn view(&self) -> ParameterView {
        ParameterView {
            name: match self.name {
                Some(name) => Some(name@),
                None => None,
            },
            ty: self.ty@,
        }
    }
}

/// The views of a vector of parameters, in order.
pub open spec fn parameter_views(parameters: Seq<Parameter>) -> Seq<ParameterView> {
    parameters.map_values(|parameter: Parameter| parameter@)
}

/// A remote event.
#[derive(Debug)]
pub struct EvDecl<'src> {
    pub name: &'src str,
    /// The side that fires the event.
    pub from: EvSource,
    /// How the other side retrieves it.
    pub call: EvCall,
    /// The payload, in positional order.
    pub data: Vec<Parameter<'src>>,
}

/// The mathematical form of an event.
pub struct EvDeclView {
    pub name: Seq<char>,
    pub from: EvSource,
    pub call: EvCall,
    pub data: Seq<ParameterView>,
}

impl<'src> View for EvDecl<'src> {
    type V = EvDeclView;

    open spec fn view(&self) -> EvDeclView {
        EvDeclView {
            name: self.name@,
            from: self.from,
            call: self.call,
            data: parameter_views(self.data@),
        }
    }
}

/// The views of a vector of events, in order.
pub open spec fn evdecl_views(evdecls: Seq<EvDecl>) -> Seq<EvDeclView> {
    evdecls.map_values(|evdecl: EvDecl| evdecl@)
}

/// The view of declared returns: absent where none were declared, else the
/// views of the return types in order.
pub open spec fn rets_view(rets: Option<Vec<Ty>>) -> Option<Seq<TyView>> {
    match rets {
        Some(tys) => Some(ty_views(tys@)),
        None => None,
    }
}

/// A remote function.
#[derive(Debug)]
pub struct FnDecl<'src> {
    pub name: &'src str,
    /// The arguments, in positional order.
    pub args: Vec<Parameter<'src>>,
    /// The types returned, in order; absent where the function returns
    /// nothing.
    pub rets: Option<Vec<Ty<'src>>>,
}

/// The mathematical form of a function.
pub struct FnDeclView {
    pub name: Seq<char>,
    pub args: Seq<ParameterView>,
    pub rets: Option<Seq<TyView>>,
}

impl<'src> View for FnDecl<'src> {
    type V = FnDeclView;

    open spec fn view(&self) -> FnDeclView {
        FnDeclView {
            name: self.name@,
            args: parameter_views(self.args@),
            rets: rets_view(self.rets),
        }
    }
}

/// The views of a vector of functions, in order.
pub open spec fn fndecl_views(fndecls: Seq<FnDecl>) -> Seq<FnDeclView> {
    fndecls.map_values(|fndecl: FnDecl| fndecl@)
}

/// The whole description handed to a backend.
///
/// It arrives validated: the backends read it and never change it.
#[derive(Debug)]
pub struct Config<'src> {
    /// The type declarations, in declaration order.
    pub tydecls: Vec<TyDecl<'src>>,
    /// The events, in declaration order.
    pub evdecls: Vec<EvDecl<'src>>,
    /// The functions, in declaration order.
    pub fndecls: Vec<FnDecl<'src>>,
    /// Whether the TypeScript target is enabled.
    pub typescript: bool,
    pub casing: Casing,
    pub yield_type: YieldType,
}

/// The mathematical form of a description.
pub struct ConfigView {
    pub tydecls: Seq<TyDeclView>,
    pub evdecls: Seq<EvDeclView>,
    pub fndecls: Seq<FnDeclView>,
    pub typescript: bool,
    pub casing: Casing,
    pub yield_type: YieldType,
}

impl<'src> View for Config<'src> {
    type V = ConfigView;

    open spec fn view(&self) -> ConfigView {
        ConfigView {
            tydecls: tydecl_views(self.tydecls@),
            evdecls: evdecl_views(self.evdecls@),
            fndecls: fndecl_views(self.fndecls@),
            typescript: self.typescript,
            casing: self.casing,
            yield_type: self.yield_type,
        }
    }
}

} // verus!
