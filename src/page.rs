//! The HTML documents the service answers with.
use vstd::prelude::*;

verus! {

/// The page served at the list's root path.
pub const INDEX_HTML: &'static str = "<!DOCTYPE html>
<html>
<head><meta charset=\"utf-8\"><title>The list</title></head>
<body>
<h1>The list</h1>
<ul id=\"items\"></ul>
<form method=\"post\" action=\"/thelist/postlist\">
<input type=\"text\" name=\"listitem\">
<button type=\"submit\">Add</button>
</form>
<script>
fetch(\"/thelist/getlist\").then(r => r.json()).then(items => {
  const ul = document.getElementById(\"items\");
  for (const item of items) {
    const li = document.createElement(\"li\");
    li.textContent = item.listitem ?? \"\";
    ul.appendChild(li);
  }
});
</script>
</body>
</html>
";

/// The page answered when a submission carries no value.
pub const FAILURE_HTML: &'static str = "<!DOCTYPE html>
<html>
<head><meta charset=\"utf-8\"><title>Not added</title></head>
<body>
<p>Nothing was added: the form held no item.</p>
<p><a href=\"/thelist\">Back to the list</a></p>
</body>
</html>
";

/// The part of the success page before the added value.
pub const SUCCESS_HEAD: &'static str = "<!DOCTYPE html>
<html>
<head><meta charset=\"utf-8\"><title>Added</title></head>
<body>
<p>Added: ";

/// The part of the success page after the added value.
pub const SUCCESS_TAIL: &'static str = "</p>
<p><a href=\"/thelist\">Back to the list</a></p>
</body>
</html>
";

/// The success page for `value`: the value stands verbatim between the head
/// and the tail. It is not HTML-escaped, so markup in a submitted value
/// reaches the browser as markup.
pub open spec fn success_document(value: Seq<char>) -> Seq<char> {
    SUCCESS_HEAD@ + value + SUCCESS_TAIL@
}

/// The list's static start page.
pub fn index_page() -> (r: &'static str)
    ensures
        r@ == INDEX_HTML@,
{
    INDEX_HTML
}

/// The page telling that nothing was added.
pub fn failure_page() -> (r: String)
    ensures
        r@ == FAILURE_HTML@,
{
    String::from_str(FAILURE_HTML)
}

/// The page confirming that `value` was added.
pub fn success_page(value: &str) -> (r: String)
    ensures
        r@ == success_document(value@),
{
    let mut page = String::from_str(SUCCESS_HEAD);
    page.append(value);
    page.append(SUCCESS_TAIL);
    page
}

} // verus!
