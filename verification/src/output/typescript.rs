//! What every TypeScript backend shares: the lowering of type expressions,
//! the layout of parameter lists, and the emitter that backends write through.

use crate::config::{
    lemma_tuple_view, parameter_views, ty_views, Casing, Config, ConfigView, Parameter,
    ParameterView, Prim, Ty, TyView,
};
use crate::text::{
    decimal, decimal_string, indentation, joined, lemma_joined_empty, lemma_joined_next, line,
};
use vstd::prelude::*;
use vstd::string::StringExecFns;

pub mod client;
pub mod laws;

verus! {

/// The TypeScript name of a primitive type.
pub open spec fn prim_text(prim: Prim) -> Seq<char> {
    match prim {
        Prim::Number => "number"@,
        Prim::String => "string"@,
        Prim::Boolean => "boolean"@,
        Prim::Buffer => "buffer"@,
        Prim::Unknown => "unknown"@,
    }
}

/// The TypeScript syntax of a type expression.
///
/// An optional type is the only form written in parentheses, so every
/// lowered type can stand as the element of an array.
#[verifier::opaque]
pub open spec fn ty_text(ty: TyView) -> Seq<char>
    decreases ty, 0nat,
{
    match ty {
        TyView::Prim(prim) => prim_text(prim),
        TyView::Opt(inner) => "("@ + ty_text(*inner) + " | undefined)"@,
        TyView::Arr(inner) => ty_text(*inner) + "[]"@,
        TyView::Dict(key, value) => "Map<"@ + ty_text(*key) + ", "@ + ty_text(*value) + ">"@,
        TyView::Tuple(items) => "["@ + joined(ty_texts(items), ", "@) + "]"@,
        TyView::Ref(name) => name,
        TyView::Lit(text) => "\""@ + text + "\""@,
    }
}

/// The syntax of each type expression of a list, in order.
pub open spec fn ty_texts(tys: Seq<TyView>) -> Seq<Seq<char>>
    decreases tys, 1nat,
{
    Seq::new(
        tys.len(),
        |i: int|
            if 0 <= i < tys.len() {
                ty_text(tys[i])
            } else {
                Seq::empty()
            },
    )
}

/// The entries of a lowered list are the lowered entries of the list.
pub proof fn lemma_ty_texts(tys: Seq<TyView>)
    ensures
        ty_texts(tys).len() == tys.len(),
        forall|i: int| 0 <= i < tys.len() ==> #[trigger] ty_texts(tys)[i] == ty_text(tys[i]),
{
    reveal(ty_text);
}

/// The structural name given to parameters that were declared without one.
pub open spec fn value_name(casing: Casing) -> Seq<char> {
    casing.pick("Value"@, "value"@, "value"@)
}

/// The name under which the parameter at position `index` is emitted: its
/// own where it has one, else the value name, which from the second
/// position on carries the position counted from one.
pub open spec fn parameter_name(casing: Casing, index: int, parameter: ParameterView) -> Seq<char> {
    match parameter.name {
        Some(name) => name,
        None => if index > 0 {
            value_name(casing) + decimal((index + 1) as nat)
        } else {
            value_name(casing)
        },
    }
}

/// One parameter: its name, a colon, its type.
pub open spec fn parameter_text(casing: Casing, index: int, parameter: ParameterView) -> Seq<char> {
    parameter_name(casing, index, parameter) + ": "@ + ty_text(parameter.ty)
}

/// Each parameter of a list as it is emitted, in order.
pub open spec fn parameter_texts(casing: Casing, parameters: Seq<ParameterView>) -> Seq<Seq<char>> {
    Seq::new(parameters.len(), |i: int| parameter_text(casing, i, parameters[i]))
}

/// A positional parameter list, without its parentheses.
pub open spec fn parameters_text(casing: Casing, parameters: Seq<ParameterView>) -> Seq<char> {
    joined(parameter_texts(casing, parameters), ", "@)
}

/// The comment that opens a module, tagged with the role of its backend.
pub open spec fn file_header_text(scope: Seq<char>) -> Seq<char> {
    "// "@ + scope + " generated by Zap"@
}

/// The declaration that supports polled events.
pub open spec fn iter_type_text() -> Seq<char> {
    "type Iter<T> = IterableFunction<T>;"@
}

/// The declaration through which the runtime's event loop is driven.
pub open spec fn event_loop_text(casing: Casing) -> Seq<char> {
    "export declare const "@ + casing.pick("SendEvents"@, "sendEvents"@, "send_events"@)
        + ": () => void;"@
}

/// Lowers a type expression to TypeScript syntax.
pub fn lower_ty(ty: &Ty) -> (lowered: String)
    ensures
        lowered@ == ty_text(ty@),
    decreases ty,
{
    proof {
        reveal_with_fuel(ty_text, 1);
    }
    match ty {
        Ty::Prim(prim) => {
            let name = match prim {
                Prim::Number => "number",
                Prim::String => "string",
                Prim::Boolean => "boolean",
                Prim::Buffer => "buffer",
                Prim::Unknown => "unknown",
            };
            String::from_str(name)
        },
        Ty::Opt(inner) => {
            let mut lowered = String::from_str("(");
            let inner_lowered = lower_ty(inner);
            lowered.append(inner_lowered.as_str());
            lowered.append(" | undefined)");
            lowered
        },
        Ty::Arr(inner) => {
            let mut lowered = lower_ty(inner);
            lowered.append("[]");
            lowered
        },
        Ty::Dict(key, value) => {
            let mut lowered = String::from_str("Map<");
            let key_lowered = lower_ty(key);
            lowered.append(key_lowered.as_str());
            lowered.append(", ");
            let value_lowered = lower_ty(value);
            lowered.append(value_lowered.as_str());
            lowered.append(">");
            lowered
        },
        Ty::Tuple(items) => {
            let mut lowered = String::from_str("[");
            let ghost texts = ty_texts(ty_views(items@));
            proof {
                lemma_joined_empty(texts.take(0), ", "@);
            }
            let mut i: usize = 0;
            while i < items.len()
                invariant
                    i <= items.len(),
                    *ty == Ty::Tuple(*items),
                    texts == ty_texts(ty_views(items@)),
                    lowered@ == "["@ + joined(texts.take(i as int), ", "@),
                decreases items.len() - i,
            {
                if i > 0 {
                    lowered.append(", ");
                }
                proof {
                    vstd::std_specs::vec::axiom_vec_index_decreases(*items, i as int);
                    assert(decreases_to!(*ty => ty->Tuple_0));
                }
                let item_lowered = lower_ty(&items[i]);
                lowered.append(item_lowered.as_str());
                proof {
                    lemma_ty_texts(ty_views(items@));
                    lemma_joined_next(texts, ", "@, i as int);
                }
                i += 1;
            }
            lowered.append("]");
            proof {
                lemma_tuple_view(*items);
                assert(texts.take(i as int) == texts);
            }
            lowered
        },
        Ty::Ref(name) => String::from_str(name),
        Ty::Lit(text) => {
            let mut lowered = String::from_str("\"");
            lowered.append(text);
            lowered.append("\"");
            lowered
        },
    }
}

/// Read access to the description a backend works from.
pub trait ConfigProvider {
    /// The description, as specifications see it.
    spec fn config_view(&self) -> ConfigView;

    fn get_config(&self) -> (config: &Config)
        ensures
            config@ == self.config_view(),
    ;
}

/// The emitter: a text and a nesting depth, changed only by appending text
/// and by entering and leaving a nested block.
///
/// A backend supplies the four primitives; everything else is built from
/// them here, once for all backends. No operation changes the description,
/// and only `indent` and `dedent` change the depth.
pub trait Output: ConfigProvider {
    /// The text emitted so far.
    spec fn text(&self) -> Seq<char>;

    /// The current nesting depth.
    spec fn tabs(&self) -> nat;

    /// Appends raw text.
    fn push(&mut self, s: &str)
        ensures
            final(self).text() == old(self).text() + s@,
            final(self).tabs() == old(self).tabs(),
            final(self).config_view() == old(self).config_view(),
    ;

    /// Enters a nested block.
    fn indent(&mut self)
        requires
            old(self).tabs() < u32::MAX,
        ensures
            final(self).text() == old(self).text(),
            final(self).tabs() == old(self).tabs() + 1,
            final(self).config_view() == old(self).config_view(),
    ;

    /// Leaves a nested block.
    fn dedent(&mut self)
        requires
            old(self).tabs() > 0,
        ensures
            final(self).text() == old(self).text(),
            final(self).tabs() == old(self).tabs() - 1,
            final(self).config_view() == old(self).config_view(),
    ;

    /// Appends the indentation of the current depth.
    fn push_indent(&mut self)
        ensures
            final(self).text() == old(self).text() + indentation(old(self).tabs()),
            final(self).tabs() == old(self).tabs(),
            final(self).config_view() == old(self).config_view(),
    ;

    /// Appends one line at the current depth.
    fn push_line(&mut self, s: &str)
        ensures
            final(self).text() == old(self).text() + line(old(self).tabs(), s@),
            final(self).tabs() == old(self).tabs(),
            final(self).config_view() == old(self).config_view(),
    {
        self.push_indent();
        self.push(s);
        self.push("\n");
    }

    /// Appends a type expression in TypeScript syntax.
    fn push_ty(&mut self, ty: &Ty)
        ensures
            final(self).text() == old(self).text() + ty_text(ty@),
            final(self).tabs() == old(self).tabs(),
            final(self).config_view() == old(self).config_view(),
    {
        let lowered = lower_ty(ty);
        self.push(lowered.as_str());
    }

    /// Appends the parameter at position `index` of a list: its name, a
    /// colon, its type.
    fn push_parameter(&mut self, index: usize, parameter: &Parameter)
        requires
            index < usize::MAX,
        ensures
            final(self).text() == old(self).text() + parameter_text(
                old(self).config_view().casing,
                index as int,
                parameter@,
            ),
            final(self).tabs() == old(self).tabs(),
            final(self).config_view() == old(self).config_view(),
    {
        match parameter.name {
            Some(name) => self.push(name),
            None => {
                let value = self.get_config().casing.with("Value", "value", "value");
                self.push(value);
                if index > 0 {
                    let position = decimal_string(index + 1);
                    self.push(position.as_str());
                }
            },
        }
        self.push(": ");
        self.push_ty(&parameter.ty);
    }

    /// Appends a positional parameter list, without its parentheses.
    fn push_parameters(&mut self, parameters: &[Parameter])
        ensures
            final(self).text() == old(self).text() + parameters_text(
                old(self).config_view().casing,
                parameter_views(parameters@),
            ),
            final(self).tabs() == old(self).tabs(),
            final(self).config_view() == old(self).config_view(),
    {
        let ghost texts = parameter_texts(
            self.config_view().casing,
            parameter_views(parameters@),
        );
        proof {
            lemma_joined_empty(texts.take(0), ", "@);
        }
        for i in 0..parameters.len()
            invariant
                texts == parameter_texts(
                    old(self).config_view().casing,
                    parameter_views(parameters@),
                ),
                self.text() == old(self).text() + joined(texts.take(i as int), ", "@),
                self.tabs() == old(self).tabs(),
                self.config_view() == old(self).config_view(),
        {
            if i > 0 {
                self.push(", ");
            }
            self.push_parameter(i, &parameters[i]);
            proof {
                lemma_joined_next(texts, ", "@, i as int);
            }
        }
        proof {
            assert(texts.take(parameters.len() as int) == texts);
        }
    }

    /// Appends the comment that opens a module.
    fn push_file_header(&mut self, scope: &str)
        ensures
            final(self).text() == old(self).text() + line(
                old(self).tabs(),
                file_header_text(scope@),
            ),
            final(self).tabs() == old(self).tabs(),
            final(self).config_view() == old(self).config_view(),
    {
        self.push_indent();
        self.push("// ");
        self.push(scope);
        self.push(" generated by Zap");
        self.push("\n");
    }

    /// Appends the declaration that supports polled events.
    fn push_iter_type(&mut self)
        ensures
            final(self).text() == old(self).text() + line(old(self).tabs(), iter_type_text()),
            final(self).tabs() == old(self).tabs(),
            final(self).config_view() == old(self).config_view(),
    {
        self.push_line("type Iter<T> = IterableFunction<T>;");
    }

    /// Appends the declaration through which the event loop is driven.
    fn push_event_loop(&mut self)
        ensures
            final(self).text() == old(self).text() + line(
                old(self).tabs(),
                event_loop_text(old(self).config_view().casing),
            ),
            final(self).tabs() == old(self).tabs(),
            final(self).config_view() == old(self).config_view(),
    {
        let send_events = self.get_config().casing.with("SendEvents", "sendEvents", "send_events");
        self.push_indent();
        self.push("export declare const ");
        self.push(send_events);
        self.push(": () => void;");
        self.push("\n");
    }
}

} // verus!
