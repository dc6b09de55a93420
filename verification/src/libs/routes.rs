use crate::libs::model::page::Page;
use vstd::prelude::*;

verus! {

/// What the page route answers once the pages with the requested handle have
/// been looked up.
#[derive(Debug)]
pub enum PageResponse {
    /// The lookup succeeded: these pages are rendered.
    Render(Vec<Page>),
    /// The lookup failed: the error page is rendered.
    Unexpected,
}

/// The template a response is rendered with.
pub open spec fn spec_template(response: PageResponse) -> Seq<char> {
    match response {
        PageResponse::Render(_) => "gud-page"@,
        PageResponse::Unexpected => "unexpected"@,
    }
}

/// Found pages are rendered with the page template, a failed lookup with the
/// error template, and the two templates differ.
pub proof fn law_templates(pages: Vec<Page>)
    ensures
        spec_template(PageResponse::Render(pages)) == "gud-page"@,
        spec_template(PageResponse::Unexpected) == "unexpected"@,
        spec_template(PageResponse::Render(pages)) != spec_template(PageResponse::Unexpected),
{
    reveal_strlit("gud-page");
    reveal_strlit("unexpected");
    assert(spec_template(PageResponse::Render(pages))[0] != spec_template(PageResponse::Unexpected)[0]);
}

/// Decides the page route's answer from the outcome of the lookup.
pub fn page_response<E>(lookup: Result<Vec<Page>, E>) -> (r: PageResponse)
    ensures
        match lookup {
            Ok(pages) => r == PageResponse::Render(pages),
            Err(_) => r is Unexpected,
        },
{
    match lookup {
        Ok(pages) => PageResponse::Render(pages),
        Err(_) => PageResponse::Unexpected,
    }
}

impl PageResponse {
    /// The template this response is rendered with.
    pub fn template(&self) -> (t: &'static str)
        ensures
            t@ == spec_template(*self),
    {
        match self {
            PageResponse::Render(_) => {
                let t = "gud-page";
                proof {
                    reveal_strlit("gud-page");
                }
                t
            },
            PageResponse::Unexpected => {
                let t = "unexpected";
                proof {
                    reveal_strlit("unexpected");
                }
                t
            },
        }
    }
}

/// The template of the home route.
pub fn index_template() -> (t: &'static str)
    ensures
        t@ == "index"@,
{
    "index"
}

/// The greeting the home route renders as `name`.
pub fn index_greeting() -> (t: &'static str)
    ensures
        t@ == "Hello, World!"@,
{
    "Hello, World!"
}

} // verus!
