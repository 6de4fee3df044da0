//! What the submission endpoint decides for a request body.
use vstd::prelude::*;
use crate::form::{format_data, form_value};
use crate::page::{failure_page, success_page, success_document, FAILURE_HTML};

verus! {

/// The answer to a submission: the value to store, if any, and the page to
/// send back once it is stored.
pub struct PostReply {
    pub insert: Option<String>,
    pub page: String,
}

/// The page a submission of `body` is answered with.
pub open spec fn post_page(body: Seq<char>) -> Seq<char> {
    match form_value(body) {
        Some(v) => success_document(v),
        None => FAILURE_HTML@,
    }
}

/// Decides a submission: a body that submits a value asks for that value to
/// be stored and is answered with the success page showing it; any other
/// body stores nothing and gets the failure page.
pub fn post_reply(data: String) -> (r: PostReply)
    ensures
        r.page@ == post_page(data@),
        r.insert matches Some(v) ==> form_value(data@) == Some(v@),
        r.insert is None ==> form_value(data@) is None,
{
    match format_data(data) {
        Some(v) => {
            let page = success_page(v.as_str());
            PostReply { insert: Some(v), page }
        },
        None => PostReply { insert: None, page: failure_page() },
    }
}

} // verus!
