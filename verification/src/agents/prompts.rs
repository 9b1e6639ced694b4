//! Rendered conflict prompts.

use minijinja::{Environment, Value};
use vstd::prelude::*;

use crate::domain::ports::ConflictPrompt;
use crate::error::{Error, ErrorView};
use crate::paths::view_opt;
use crate::text::{joined, trim_end, trim_end_text, views};

verus! {

/// A fully rendered prompt to hand to an agent.
#[derive(Debug, Clone)]
pub struct RenderedPrompt {
    pub system: String,
    pub user: String,
}

impl RenderedPrompt {
    /// The system and user parts in one block, separated by a horizontal
    /// rule, for agents without a system/user distinction.
    pub fn combined(&self) -> (r: String)
        ensures
            r@ == trim_end(self.system@) + "\n\n---\n\n"@ + self.user@,
    {
        let mut out = String::from_str(trim_end_text(self.system.as_str()));
        out.append("\n\n---\n\n");
        out.append(self.user.as_str());
        out
    }
}

/// What the agent is told about its role.
pub const SYSTEM_PROMPT: &'static str = "You are resolving a rebase conflict for a local merge queue.
Resolve the conflicted files, keep both sides' intent, and make the project's
checks pass. Do not push, and do not rewrite history beyond finishing the rebase.
When you are done, say `MERGEQUEUE: ready for retry` so the user can re-queue it.
";

/// The conflict itself, rendered against the prompt's fields
/// (`repo_name`, `source_branch`, `target_branch`, `conflicted_files`,
/// `ci_command_hint`).
pub const USER_PROMPT_TEMPLATE: &'static str = "Repository: {{ repo_name }}
Rebasing `{{ source_branch }}` onto `{{ target_branch }}` stopped on conflicts.
{% if conflicted_files %}
Conflicted files:
{% for f in conflicted_files %}- `{{ f }}`
{% endfor %}{% endif %}
{% if ci_command_hint %}When resolved, check your work with:

```
{{ ci_command_hint }}
```
{% else %}When resolved, run the project's tests.
{% endif %}";

/// What minijinja renders a template to against a conflict's fields: the
/// text, or the text of its error.
pub uninterp spec fn rendered_user(
    template: Seq<char>,
    repo_name: Seq<char>,
    source_branch: Seq<char>,
    target_branch: Seq<char>,
    conflicted_files: Seq<Seq<char>>,
    ci_command_hint: Option<Seq<char>>,
) -> Result<Seq<char>, Seq<char>>;

/// Calls `minijinja::Environment::render_str` on `template` with the
/// prompt's fields as the context, handing back the text or the error's
/// text. Claimed: both are the named result of the template and those
/// fields, which is all the output depends on.
#[verifier::external_body]
fn render_template(template: &str, p: &ConflictPrompt) -> (r: Result<String, String>)
    ensures
        match r {
            Ok(t) => rendered_user(template@, p.repo_name@, p.source_branch@, p.target_branch@, views(p.conflicted_files@), view_opt(p.ci_command_hint)) matches Ok(u) && u == t@,
            Err(m) => rendered_user(template@, p.repo_name@, p.source_branch@, p.target_branch@, views(p.conflicted_files@), view_opt(p.ci_command_hint)) matches Err(u) && u == m@,
        },
{
    let ctx: std::collections::BTreeMap<&str, Value> = [
        ("repo_name", Value::from(p.repo_name.as_str())),
        ("source_branch", Value::from(p.source_branch.as_str())),
        ("target_branch", Value::from(p.target_branch.as_str())),
        ("conflicted_files", Value::from_serialize(&p.conflicted_files)),
        ("ci_command_hint", Value::from(p.ci_command_hint.clone())),
    ].into_iter().collect();
    match Environment::new().render_str(template, ctx) {
        Ok(t) => Ok(t),
        Err(e) => Err(e.to_string()),
    }
}

/// The prompt, given what the template rendered to: the fixed system text
/// with the rendered user text, or a template error.
pub fn rendered_prompt(user: Result<String, String>) -> (r: Result<RenderedPrompt, Error>)
    ensures
        match user {
            Ok(t) => r matches Ok(p) && p.system@ == SYSTEM_PROMPT@ && p.user@ == t@,
            Err(m) => r matches Err(e) && e@ == ErrorView::Template(
                "rendering user prompt: "@ + m@,
            ),
        },
{
    match user {
        Ok(t) => Ok(RenderedPrompt { system: String::from_str(SYSTEM_PROMPT), user: t }),
        Err(m) => Err(Error::Template(joined("rendering user prompt: ", m.as_str()))),
    }
}

/// Renders the user prompt of a conflict; the system prompt is fixed.
pub fn render(prompt: &ConflictPrompt) -> (r: Result<RenderedPrompt, Error>)
    ensures
        match rendered_user(
            USER_PROMPT_TEMPLATE@,
            prompt.repo_name@,
            prompt.source_branch@,
            prompt.target_branch@,
            views(prompt.conflicted_files@),
            view_opt(prompt.ci_command_hint),
        ) {
            Ok(t) => r matches Ok(p) && p.system@ == SYSTEM_PROMPT@ && p.user@ == t,
            Err(m) => r matches Err(e) && e@ == ErrorView::Template("rendering user prompt: "@ + m),
        },
{
    rendered_prompt(render_template(USER_PROMPT_TEMPLATE, prompt))
}

} // verus!
