//! The static exporter: a rendered page is written to a fixed output path as
//! a whole — the file is truncated and rewritten, never appended to or
//! merged. This module carries the model of that target file and the export
//! step on it; the file handle itself lives outside the library.

use vstd::prelude::*;
use crate::context::Context;
use crate::engine;
use crate::errors::RenderError;
use crate::registry::Registry;

verus! {

/// What a target file holds after an export: the exported content itself,
/// whatever the file held before.
pub open spec fn spec_exported(prior: Seq<char>, content: Seq<char>) -> Seq<char> {
    content
}

/// The modelled contents of an export target file.
#[derive(Debug, Clone)]
pub struct ExportTarget {
    text: String,
}

impl View for ExportTarget {
    type V = Seq<char>;

    closed spec fn view(&self) -> Seq<char> {
        self.text@
    }
}

impl ExportTarget {
    /// A target that holds nothing yet.
    pub fn new() -> (t: ExportTarget)
        ensures
            t@ == Seq::<char>::empty(),
    {
        ExportTarget { text: String::new() }
    }

    /// Export `content` to the target: replace whatever it held.
    pub fn export(&mut self, content: &str)
        ensures
            final(self)@ == spec_exported(old(self)@, content@),
    {
        self.text = content.to_owned();
    }

    /// The contents the target holds, as an export path would show them.
    pub fn contents(&self) -> (r: &String)
        ensures
            r@ == self@,
    {
        &self.text
    }
}

/// One render-and-export cycle, as startup performs it once: render the root
/// template and write the result to the target as a whole. When the render
/// fails, the export is not invoked: the target's prior contents are left
/// untouched, never partially overwritten with an error page.
pub fn render_and_export(
    registry: &Registry,
    root: &str,
    context: &Context,
    target: &mut ExportTarget,
) -> (r: Result<(), RenderError>)
    requires
        registry.wf(),
        context.wf(),
    ensures
        r is Ok <==> engine::spec_render_outcome(registry@, root@, context@) is Ok,
        r is Ok ==> final(target)@ == spec_exported(
            old(target)@,
            engine::spec_render_outcome(registry@, root@, context@)->Ok_0,
        ),
        r is Err ==> final(target)@ == old(target)@,
        r matches Err(e) ==> engine::spec_render_outcome(registry@, root@, context@) matches Err(
            se,
        ) && se == e@,
{
    match registry.render(root, context) {
        Ok(page) => {
            target.export(page.as_str());
            Ok(())
        },
        Err(e) => Err(e),
    }
}

/// An export fully replaces prior contents: after exporting one content and
/// then a different one, the target holds exactly the second, and nothing of
/// the first.
pub proof fn lemma_export_replaces(prior: Seq<char>, first: Seq<char>, second: Seq<char>)
    requires
        first != second,
    ensures
        spec_exported(spec_exported(prior, first), second) == second,
        spec_exported(spec_exported(prior, first), second) != first,
{
}

} // verus!
