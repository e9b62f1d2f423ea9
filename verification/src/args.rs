//! The arguments of a call and how parameters are bound from them.
//!
//! Binding goes parameter by parameter. Each step takes its arguments out of
//! the list, converts them, and records a diagnostic where a value had to be
//! adjusted or does not convert; what no step takes stays in the list.

use crate::eval::Diag;
use crate::eval::DiagView;
use crate::eval::EvalContext;
use crate::eval::EvalView;
use crate::eval::Level;
use crate::value::Cast;
use crate::value::CastResult;
use crate::value::Outcome;
use crate::value::Span;
use crate::value::Spanned;
use crate::value::Value;
use crate::views::view_of;
use crate::views::views_of;
use vstd::prelude::*;

verus! {

/// One argument of a call: a value, with a name where it was passed by name.
#[derive(Debug, PartialEq, Eq)]
pub struct Arg {
    pub name: Option<String>,
    pub value: Spanned<Value>,
}

/// Whether `arg` was passed under the name `name`.
pub open spec fn is_named(arg: Arg, name: Seq<char>) -> bool {
    arg.name matches Some(n) && n@ == name
}

/// Whether `arg` was passed by position and converts into a `T`.
pub open spec fn converts<T: Cast>(arg: Arg) -> bool {
    arg.name is None && !(T::outcome(&arg.value.v) is Fail)
}

/// Position of the first argument under the name `name`, or `items.len()`.
pub open spec fn named_position(items: Seq<Arg>, name: Seq<char>) -> int
    decreases items.len(),
{
    if items.len() == 0 || is_named(items[0], name) {
        0
    } else {
        1 + named_position(items.drop_first(), name)
    }
}

/// Position of the first argument by position that converts into a `T`, or
/// `items.len()`.
pub open spec fn convertible_position<T: Cast>(items: Seq<Arg>) -> int
    decreases items.len(),
{
    if items.len() == 0 || converts::<T>(items[0]) {
        0
    } else {
        1 + convertible_position::<T>(items.drop_first())
    }
}

/// `named_position` names the first argument under the name, and none lies
/// before it.
pub proof fn lemma_named_position(items: Seq<Arg>, name: Seq<char>)
    ensures
        0 <= named_position(items, name) <= items.len(),
        named_position(items, name) < items.len() ==> is_named(items[named_position(items, name)], name),
        forall|i: int| 0 <= i < named_position(items, name) ==> !is_named(#[trigger] items[i], name),
    decreases items.len(),
{
    if items.len() == 0 || is_named(items[0], name) {
    } else {
        let rest = items.drop_first();
        lemma_named_position(rest, name);
        assert forall|i: int| 0 <= i < named_position(items, name) implies !is_named(
            #[trigger] items[i],
            name,
        ) by {
            if i > 0 {
                assert(items[i] == rest[i - 1]);
            }
        }
    }
}

/// `convertible_position` names the first argument by position that converts,
/// and none lies before it.
pub proof fn lemma_convertible_position<T: Cast>(items: Seq<Arg>)
    ensures
        0 <= convertible_position::<T>(items) <= items.len(),
        convertible_position::<T>(items) < items.len() ==> converts::<T>(
            items[convertible_position::<T>(items)],
        ),
        forall|i: int| 0 <= i < convertible_position::<T>(items) ==> !converts::<T>(#[trigger] items[i]),
    decreases items.len(),
{
    if items.len() == 0 || converts::<T>(items[0]) {
    } else {
        let rest = items.drop_first();
        lemma_convertible_position::<T>(rest);
        assert forall|i: int| 0 <= i < convertible_position::<T>(items) implies !converts::<T>(
            #[trigger] items[i],
        ) by {
            if i > 0 {
                assert(items[i] == rest[i - 1]);
            }
        }
    }
}

/// Where binding stands: what the last step bound, the arguments that are
/// left, and the diagnostics so far.
pub struct Binding<V> {
    pub value: Option<V>,
    pub items: Seq<Arg>,
    pub diags: Seq<DiagView>,
}

/// Takes the argument at `at` out of `items` and converts it into a `T`. An
/// adjusted value is bound with a warning, a value that does not convert is
/// dropped with an error, each about the place of the value. Past the end,
/// nothing is bound and nothing changes.
pub open spec fn taken<T: Cast>(items: Seq<Arg>, diags: Seq<DiagView>, at: int) -> Binding<T::V> {
    if 0 <= at < items.len() {
        let span = items[at].value.span;
        let rest = items.remove(at);
        match T::outcome(&items[at].value.v) {
            Outcome::Exact(v) => Binding { value: Some(v), items: rest, diags },
            Outcome::Warn(v, message) => Binding {
                value: Some(v),
                items: rest,
                diags: diags.push(DiagView { level: Level::Warning, span, message }),
            },
            Outcome::Fail(message) => Binding {
                value: None,
                items: rest,
                diags: diags.push(DiagView { level: Level::Error, span, message }),
            },
        }
    } else {
        Binding { value: None, items, diags }
    }
}

/// Binds the first argument under the name `name`.
pub open spec fn got<T: Cast>(items: Seq<Arg>, diags: Seq<DiagView>, name: Seq<char>) -> Binding<T::V> {
    taken::<T>(items, diags, named_position(items, name))
}

/// Binds the first argument by position that converts into a `T`.
pub open spec fn found<T: Cast>(items: Seq<Arg>, diags: Seq<DiagView>) -> Binding<T::V> {
    taken::<T>(items, diags, convertible_position::<T>(items))
}

/// The message for an argument that is not there.
pub open spec fn missing(what: Seq<char>) -> Seq<char> {
    "missing argument: "@ + what
}

/// Binds the first argument by position that converts into a `T`, with an
/// error about the call at `span` where there is none.
pub open spec fn required<T: Cast>(items: Seq<Arg>, diags: Seq<DiagView>, span: Span, what: Seq<char>) -> Binding<T::V> {
    let binding = found::<T>(items, diags);
    if binding.value is Some {
        binding
    } else {
        Binding {
            diags: binding.diags.push(DiagView { level: Level::Error, span, message: missing(what) }),
            ..binding
        }
    }
}

/// Where filtering stands: what was bound, the arguments that are left, and
/// the diagnostics so far.
pub struct Filtering<V> {
    pub values: Seq<V>,
    pub items: Seq<Arg>,
    pub diags: Seq<DiagView>,
}

/// Binds every argument by position that converts into a `T`, in their order.
/// Each adjusted value comes with a warning; the other arguments stay, in
/// their order.
pub open spec fn filtered<T: Cast>(items: Seq<Arg>, diags: Seq<DiagView>) -> Filtering<T::V>
    decreases items.len(),
{
    if items.len() == 0 {
        Filtering { values: Seq::empty(), items: Seq::empty(), diags }
    } else {
        let before = filtered::<T>(items.drop_last(), diags);
        let arg = items.last();
        if arg.name is None {
            match T::outcome(&arg.value.v) {
                Outcome::Exact(v) => Filtering { values: before.values.push(v), ..before },
                Outcome::Warn(v, message) => Filtering {
                    values: before.values.push(v),
                    items: before.items,
                    diags: before.diags.push(
                        DiagView { level: Level::Warning, span: arg.value.span, message },
                    ),
                },
                Outcome::Fail(_) => Filtering { items: before.items.push(arg), ..before },
            }
        } else {
            Filtering { items: before.items.push(arg), ..before }
        }
    }
}

/// The arguments of a call that have not been bound yet.
#[derive(Debug, PartialEq, Eq)]
pub struct FuncArgs {
    /// The place of the whole call.
    pub span: Span,
    /// The arguments, in the order in which they were written.
    pub items: Vec<Arg>,
}

impl FuncArgs {
    /// Takes the argument at `at` out and converts it; see `taken`.
    fn take<T: Cast>(&mut self, ctx: &mut EvalContext, at: usize) -> (r: Option<Spanned<T>>)
        requires
            at < old(self).items@.len(),
        ensures
            ({
                let binding = taken::<T>(old(self).items@, old(ctx)@.diags, at as int);
                &&& final(self).span == old(self).span
                &&& final(self).items@ == binding.items
                &&& final(ctx)@ == (EvalView { diags: binding.diags, ..old(ctx)@ })
                &&& match r {
                    Some(t) => binding.value == Some(t.v@) && t.span == old(self).items@[at as int].value.span,
                    None => binding.value is None,
                }
            }),
    {
        let arg = self.items.remove(at);
        let span = arg.value.span;
        match T::cast(arg.value.v) {
            CastResult::Exact(t) => Some(Spanned { v: t, span }),
            CastResult::Warn(t, message) => {
                ctx.diag(Diag::warning(span, message));
                Some(Spanned { v: t, span })
            },
            CastResult::Fail(message) => {
                ctx.diag(Diag::error(span, message));
                None
            },
        }
    }

    /// Converts and removes the first argument under the name `name`. An
    /// adjusted value comes with a warning; a value that does not convert is
    /// dropped with an error.
    pub fn get<T: Cast>(&mut self, ctx: &mut EvalContext, name: &str) -> (r: Option<T>)
        ensures
            ({
                let binding = got::<T>(old(self).items@, old(ctx)@.diags, name@);
                &&& final(self).span == old(self).span
                &&& final(self).items@ == binding.items
                &&& final(ctx)@ == (EvalView { diags: binding.diags, ..old(ctx)@ })
                &&& view_of(r) == binding.value
            }),
    {
        let key = String::from_str(name);
        let mut i: usize = 0;
        proof {
            lemma_named_position(self.items@, name@);
        }
        while i < self.items.len()
            invariant
                *self == *old(self),
                *ctx == *old(ctx),
                key@ == name@,
                0 <= i <= named_position(self.items@, name@) <= self.items@.len(),
                named_position(self.items@, name@) < self.items@.len() ==> is_named(
                    self.items@[named_position(self.items@, name@)],
                    name@,
                ),
                forall|j: int| 0 <= j < named_position(self.items@, name@) ==> !is_named(#[trigger] self.items@[j], name@),
            decreases self.items@.len() - i,
        {
            let hit = match &self.items[i].name {
                Some(n) => *n == key,
                None => false,
            };
            if hit {
                return match self.take::<T>(ctx, i) {
                    Some(t) => Some(t.v),
                    None => None,
                };
            }
            i += 1;
        }
        None
    }

    /// Converts and removes the first argument by position that converts,
    /// and says where it stood in the source.
    pub fn find_spanned<T: Cast>(&mut self, ctx: &mut EvalContext) -> (r: Option<Spanned<T>>)
        ensures
            ({
                let at = convertible_position::<T>(old(self).items@);
                let binding = found::<T>(old(self).items@, old(ctx)@.diags);
                &&& final(self).span == old(self).span
                &&& final(self).items@ == binding.items
                &&& final(ctx)@ == (EvalView { diags: binding.diags, ..old(ctx)@ })
                &&& match r {
                    Some(t) => binding.value == Some(t.v@) && at < old(self).items@.len()
                        && t.span == old(self).items@[at].value.span,
                    None => binding.value is None,
                }
            }),
    {
        let mut i: usize = 0;
        proof {
            lemma_convertible_position::<T>(self.items@);
        }
        while i < self.items.len()
            invariant
                *self == *old(self),
                *ctx == *old(ctx),
                0 <= i <= convertible_position::<T>(self.items@) <= self.items@.len(),
                convertible_position::<T>(self.items@) < self.items@.len() ==> converts::<T>(
                    self.items@[convertible_position::<T>(self.items@)],
                ),
                forall|j: int| 0 <= j < convertible_position::<T>(self.items@) ==> !converts::<T>(#[trigger] self.items@[j]),
            decreases self.items@.len() - i,
        {
            if self.items[i].name.is_none() && T::accepts(&self.items[i].value.v) {
                return self.take::<T>(ctx, i);
            }
            i += 1;
        }
        None
    }

    /// Converts and removes the first argument by position that converts. An
    /// adjusted value comes with a warning.
    pub fn find<T: Cast>(&mut self, ctx: &mut EvalContext) -> (r: Option<T>)
        ensures
            ({
                let binding = found::<T>(old(self).items@, old(ctx)@.diags);
                &&& final(self).span == old(self).span
                &&& final(self).items@ == binding.items
                &&& final(ctx)@ == (EvalView { diags: binding.diags, ..old(ctx)@ })
                &&& view_of(r) == binding.value
            }),
    {
        match self.find_spanned::<T>(ctx) {
            Some(t) => Some(t.v),
            None => None,
        }
    }

    /// Converts and removes every argument by position that converts, in
    /// their order. Each adjusted value comes with a warning.
    pub fn filter<T: Cast>(&mut self, ctx: &mut EvalContext) -> (r: Vec<T>)
        ensures
            ({
                let filtering = filtered::<T>(old(self).items@, old(ctx)@.diags);
                &&& final(self).span == old(self).span
                &&& final(self).items@ == filtering.items
                &&& final(ctx)@ == (EvalView { diags: filtering.diags, ..old(ctx)@ })
                &&& views_of(r@) == filtering.values
            }),
    {
        let mut out: Vec<T> = Vec::new();
        let mut i: usize = 0;
        let ghost all = self.items@;
        let ghost mut seen: int = 0;
        assert(all.take(0) =~= Seq::empty());
        assert(all.skip(0) =~= all);
        assert(views_of(out@) =~= Seq::empty());
        assert(Seq::<Arg>::empty() + all =~= all);
        while i < self.items.len()
            invariant
                self.span == old(self).span,
                all == old(self).items@,
                0 <= seen <= all.len(),
                ctx@ == (EvalView {
                    diags: filtered::<T>(all.take(seen), old(ctx)@.diags).diags,
                    ..old(ctx)@
                }),
                self.items@ == filtered::<T>(all.take(seen), old(ctx)@.diags).items + all.skip(seen),
                i == filtered::<T>(all.take(seen), old(ctx)@.diags).items.len(),
                views_of(out@) == filtered::<T>(all.take(seen), old(ctx)@.diags).values,
            decreases all.len() - seen,
        {
            let ghost before = filtered::<T>(all.take(seen), old(ctx)@.diags);
            assert(self.items@[i as int] == all[seen]);
            assert(all.take(seen + 1).drop_last() =~= all.take(seen));
            assert(all.take(seen + 1).last() == all[seen]);
            if self.items[i].name.is_none() && T::accepts(&self.items[i].value.v) {
                let ghost views = views_of(out@);
                assert(self.items@.remove(i as int) =~= before.items + all.skip(seen + 1));
                match self.take::<T>(ctx, i) {
                    Some(t) => {
                        out.push(t.v);
                        assert(views_of(out@) =~= views.push(t.v@));
                    },
                    None => {},
                }
            } else {
                assert(before.items.push(all[seen]) + all.skip(seen + 1) =~= self.items@);
                i += 1;
            }
            proof {
                seen = seen + 1;
            }
        }
        assert(all.take(seen) =~= all);
        assert(self.items@ =~= filtered::<T>(all, old(ctx)@.diags).items);
        out
    }

    /// Converts and removes the first argument by position that converts, and
    /// records an error about the call where there is none. `what` says in
    /// the message what is missing.
    pub fn require<T: Cast>(&mut self, ctx: &mut EvalContext, what: &str) -> (r: Option<Spanned<T>>)
        ensures
            ({
                let at = convertible_position::<T>(old(self).items@);
                let binding = required::<T>(old(self).items@, old(ctx)@.diags, old(self).span, what@);
                &&& final(self).span == old(self).span
                &&& final(self).items@ == binding.items
                &&& final(ctx)@ == (EvalView { diags: binding.diags, ..old(ctx)@ })
                &&& match r {
                    Some(t) => binding.value == Some(t.v@) && at < old(self).items@.len()
                        && t.span == old(self).items@[at].value.span,
                    None => binding.value is None,
                }
            }),
    {
        let found = self.find_spanned::<T>(ctx);
        if found.is_none() {
            let mut message = String::from_str("missing argument: ");
            message.append(what);
            ctx.diag(Diag::error(self.span, message));
        }
        found
    }
}

} // verus!
