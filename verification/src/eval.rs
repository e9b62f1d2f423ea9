//! Evaluation: the context that templates run against.

use crate::content::Content;
use crate::env::Env;
use crate::style::Styles;
use crate::style::StyleView;
use crate::value::Span;
use crate::views::views_of;
use vstd::prelude::*;

verus! {


/// How grave a diagnostic is.
#[derive(Clone, Copy, Debug, PartialEq, Eq, Structural)]
pub enum Level {
    Warning,
    Error,
}

/// A message about a place in the source.
#[derive(Clone, Debug, PartialEq, Eq)]
pub struct Diag {
    pub level: Level,
    pub span: Span,
    pub message: String,
}

/// A diagnostic with its message as a sequence of characters.
pub struct DiagView {
    pub level: Level,
    pub span: Span,
    pub message: Seq<char>,
}

impl View for Diag {
    type V = DiagView;

    open spec fn view(&self) -> DiagView {
        DiagView { level: self.level, span: self.span, message: self.message@ }
    }
}

impl Diag {
    /// A warning about `span`.
    pub fn warning(span: Span, message: String) -> (d: Diag)
        ensures
            d@ == (DiagView { level: Level::Warning, span, message: message@ }),
    {
        Diag { level: Level::Warning, span, message }
    }

    /// An error about `span`.
    pub fn error(span: Span, message: String) -> (d: Diag)
        ensures
            d@ == (DiagView { level: Level::Error, span, message: message@ }),
    {
        Diag { level: Level::Error, span, message }
    }
}

/// The state of one evaluation.
#[derive(Debug, PartialEq, Eq)]
pub struct EvalContext {
    /// The loaded resources.
    pub env: Env,
    /// The styles that are in force.
    pub state: Styles,
    /// The content produced so far.
    pub content: Vec<Content>,
    /// The diagnostics recorded so far.
    pub diags: Vec<Diag>,
}

/// The state of one evaluation, over sequences.
pub struct EvalView {
    pub env: Env,
    pub state: Seq<StyleView>,
    pub content: Seq<Content>,
    pub diags: Seq<DiagView>,
}

impl View for EvalContext {
    type V = EvalView;

    open spec fn view(&self) -> EvalView {
        EvalView {
            env: self.env,
            state: self.state@,
            content: self.content@,
            diags: views_of(self.diags@),
        }
    }
}

impl EvalContext {
    /// A context over `env` with no styles set, no content and no diagnostics.
    pub fn new(env: Env) -> (ctx: EvalContext)
        ensures
            ctx@ == (EvalView { env, state: Seq::empty(), content: Seq::empty(), diags: Seq::empty() }),
    {
        let ctx = EvalContext { env, state: Styles::new(), content: Vec::new(), diags: Vec::new() };
        assert(views_of(ctx.diags@) =~= Seq::empty());
        ctx
    }

    /// Records a diagnostic.
    pub fn diag(&mut self, diag: Diag)
        ensures
            final(self)@ == (EvalView { diags: old(self)@.diags.push(diag@), ..old(self)@ }),
    {
        self.diags.push(diag);
        assert(views_of(self.diags@) =~= views_of(old(self).diags@).push(diag@));
    }

    /// Appends a piece of content.
    pub fn push(&mut self, node: Content)
        ensures
            final(self)@ == (EvalView { content: old(self)@.content.push(node), ..old(self)@ }),
    {
        self.content.push(node);
    }
}

} // verus!
