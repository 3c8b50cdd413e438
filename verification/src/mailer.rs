//! Outgoing mail: the message value, the SMTP configuration, and the
//! template renderer that fills `{{key}}` placeholders.  Delivery itself is
//! the runtime's job; everything built here is pinned exactly.

use vstd::prelude::*;

use crate::text::{replace_all, replaced};

verus! {

/// SMTP relay settings.
#[derive(Clone, Debug, PartialEq, Eq)]
pub struct MailerConfig {
    pub smtp_host: String,
    pub smtp_port: String,
    pub smtp_username: String,
    pub smtp_password: String,
}

/// One outgoing message.
#[derive(Clone, Debug, PartialEq, Eq)]
pub struct Mail {
    pub to: String,
    pub subject: String,
    pub html: String,
}

/// The sender mailbox line built from the SMTP user name.
pub open spec fn sender_mailbox_text(smtp_username: Seq<char>) -> Seq<char> {
    "Code Lens <"@ + smtp_username + ">"@
}

/// Builds the sender mailbox line for the configured SMTP user.
pub fn sender_mailbox(smtp_username: &str) -> (r: String)
    ensures
        r@ == sender_mailbox_text(smtp_username@),
{
    let r = String::from_str("Code Lens <").concat(smtp_username).concat(">");
    proof {
        assert(r@ =~= sender_mailbox_text(smtp_username@));
    }
    r
}

/// The text of a named template.
pub open spec fn template_text(name: Seq<char>) -> Seq<char> {
    if name == "doc-gen"@ {
        "<html><body><h1>Documentation generation started</h1><p>Repository: {{repository_name}}</p></body></html>"@
    } else {
        "<html><body><h1>Welcome to Code Lens</h1><p>Hello {{username}}!</p></body></html>"@
    }
}

/// The `{{key}}` placeholder for a context key.
pub open spec fn placeholder(key: Seq<char>) -> Seq<char> {
    "{{"@ + key + "}}"@
}

/// A context as a sequence of key/value texts.
pub open spec fn context_view(ctx: Seq<(String, String)>) -> Seq<(Seq<char>, Seq<char>)> {
    ctx.map_values(|p: (String, String)| (p.0@, p.1@))
}

/// The template after each context pair, in order, has had its placeholder
/// replaced by its value throughout.
pub open spec fn rendered(template: Seq<char>, ctx: Seq<(Seq<char>, Seq<char>)>) -> Seq<char>
    decreases ctx.len(),
{
    if ctx.len() == 0 {
        template
    } else {
        rendered(replaced(template, placeholder(ctx[0].0), ctx[0].1), ctx.skip(1))
    }
}

/// Renders named mail templates by placeholder substitution.
pub struct TemplateRenderer;

impl TemplateRenderer {
    /// Renders the named template, replacing each `{{key}}` of the context
    /// by its value, pair by pair.  Only the two known template names exist.
    pub fn render(template_name: &str, context: &Vec<(String, String)>) -> (r: String)
        requires
            template_name@ == "doc-gen"@ || template_name@ == "welcome"@,
        ensures
            r@ == rendered(template_text(template_name@), context_view(context@)),
    {
        let template: &str = if crate::text::str_eq(template_name, "doc-gen") {
            "<html><body><h1>Documentation generation started</h1><p>Repository: {{repository_name}}</p></body></html>"
        } else {
            "<html><body><h1>Welcome to Code Lens</h1><p>Hello {{username}}!</p></body></html>"
        };
        let ghost full_ctx = context_view(context@);
        let mut current: String = template.to_owned();
        let mut i: usize = 0;
        proof {
            assert(full_ctx.skip(0) =~= full_ctx);
        }
        while i < context.len()
            invariant
                i <= context.len(),
                context.len() == full_ctx.len(),
                full_ctx == context_view(context@),
                rendered(template_text(template_name@), full_ctx) == rendered(
                    current@,
                    full_ctx.skip(i as int),
                ),
            decreases context.len() - i,
        {
            let ghost rest = full_ctx.skip(i as int);
            proof {
                assert(rest[0] == full_ctx[i as int]);
                assert(rest.skip(1) =~= full_ctx.skip(i + 1));
                assert(full_ctx[i as int] == (context@[i as int].0@, context@[i as int].1@));
            }
            let pair = &context[i];
            let pat = String::from_str("{{").concat(pair.0.as_str()).concat("}}");
            proof {
                reveal_strlit("{{");
                reveal_strlit("}}");
                assert(pat@ =~= placeholder(pair.0@));
                assert(pat@.len() >= "{{"@.len());
            }
            current = replace_all(current.as_str(), pat.as_str(), pair.1.as_str());
            i += 1;
        }
        proof {
            assert(full_ctx.skip(context.len() as int) =~= Seq::<(Seq<char>, Seq<char>)>::empty());
        }
        current
    }
}

/// The subject of the "generation started" notification for a repository.
pub open spec fn doc_gen_subject(repo_name: Seq<char>) -> Seq<char> {
    "Code Lens - Documentation Generation Started for "@ + repo_name
}

/// Builds the "generation started" notification for a repository's owner:
/// the subject names the repository and the body is the rendered doc-gen
/// template with the repository name filled in.
pub fn doc_gen_mail(owner_email: &str, repo_name: &str) -> (r: Mail)
    ensures
        r.to@ == owner_email@,
        r.subject@ == doc_gen_subject(repo_name@),
        r.html@ == rendered(
            template_text("doc-gen"@),
            seq![("repository_name"@, repo_name@)],
        ),
{
    let mut context: Vec<(String, String)> = Vec::new();
    context.push((String::from_str("repository_name"), repo_name.to_owned()));
    proof {
        assert(context_view(context@) =~= seq![("repository_name"@, repo_name@)]);
    }
    let html = TemplateRenderer::render("doc-gen", &context);
    let subject = String::from_str("Code Lens - Documentation Generation Started for ").concat(
        repo_name,
    );
    proof {
        assert(subject@ =~= doc_gen_subject(repo_name@));
    }
    Mail { to: owner_email.to_owned(), subject, html }
}

} // verus!
