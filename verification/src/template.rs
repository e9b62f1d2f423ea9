//! Templates: deferred pieces of evaluation, and what running them does.

use crate::eval::EvalContext;
use crate::eval::EvalView;
use crate::library::font::FontTemplate;
use crate::library::image::ImageTemplate;
use vstd::prelude::*;

verus! {

/// A deferred piece of evaluation: the values it was made with, tagged with
/// what is to be done with them.
#[derive(Debug, PartialEq, Eq)]
pub enum Template {
    /// Configures the font, for a body or for what follows.
    Font(FontTemplate),
    /// Inserts an image.
    Image(ImageTemplate),
}

impl View for Template {
    type V = Template;

    open spec fn view(&self) -> Template {
        *self
    }
}

impl Template {
    /// The context after this template has run against `ctx`.
    ///
    /// A font template sets its properties. With a body, the body runs against
    /// the styles so changed, and the styles are then put back as they were:
    /// what the body emitted stays. Without a body, the properties stay set.
    pub open spec fn run(&self, ctx: EvalView) -> EvalView
        decreases self,
    {
        match self {
            Template::Font(font) => {
                let applied = EvalView { state: font.applied(ctx.state), ..ctx };
                match font.body {
                    None => applied,
                    Some(body) => EvalView { state: ctx.state, ..body.run(applied) },
                }
            },
            Template::Image(image) => image.run(ctx),
        }
    }

    /// Runs this template against `ctx`. A font template with a body leaves
    /// the styles as they were before the call.
    pub fn execute(&self, ctx: &mut EvalContext)
        ensures
            final(ctx)@ == self.run(old(ctx)@),
            self matches Template::Font(font) && font.body is Some ==> final(ctx)@.state == old(ctx)@.state,
        decreases self,
    {
        match self {
            Template::Font(font) => {
                let snapshot = ctx.state.clone();
                font.apply(&mut ctx.state);
                if let Some(body) = &font.body {
                    body.execute(ctx);
                    ctx.state = snapshot;
                }
            },
            Template::Image(image) => image.execute(ctx),
        }
    }
}

/// A font template with a body leaves the styles exactly as it found them,
/// whatever it set and whatever its body set.
pub proof fn lemma_scope_restored(template: Template, ctx: EvalView)
    requires
        template matches Template::Font(font) && font.body is Some,
    ensures
        template.run(ctx).state == ctx.state,
{
}

/// The body of a font template runs against the styles that the template has
/// set, and what the body did to anything but the styles stays.
pub proof fn lemma_body_sees_applied(template: Template, ctx: EvalView)
    requires
        template matches Template::Font(font) && font.body is Some,
    ensures
        ({
            let font = template->Font_0;
            let inside = font.body->0.run(EvalView { state: font.applied(ctx.state), ..ctx });
            template.run(ctx) == (EvalView { state: ctx.state, ..inside })
        }),
{
}

/// A font template without a body leaves its properties set.
pub proof fn lemma_unscoped_persists(template: Template, ctx: EvalView)
    requires
        template matches Template::Font(font) && font.body is None,
    ensures
        template.run(ctx) == (EvalView { state: template->Font_0.applied(ctx.state), ..ctx }),
{
}

/// Running a template takes nothing back: the resources stay, and the content
/// and the diagnostics from before are still there, in front of what was
/// added.
pub proof fn lemma_run_keeps_emitted(template: Template, ctx: EvalView)
    ensures
        template.run(ctx).env == ctx.env,
        ctx.content.is_prefix_of(template.run(ctx).content),
        ctx.diags.is_prefix_of(template.run(ctx).diags),
    decreases template,
{
    match template {
        Template::Font(font) => {
            match font.body {
                Some(body) => {
                    lemma_run_keeps_emitted(*body, EvalView { state: font.applied(ctx.state), ..ctx });
                },
                None => {},
            }
        },
        Template::Image(image) => {},
    }
}

} // verus!
