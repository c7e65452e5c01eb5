//! The sample guest, as the host models it.
//!
//! The guest collaborator's contract is: receive a request handle and a
//! response outparam, set the outparam at most once, stream the body, then
//! terminate.  This module holds the bundled sample guest that the
//! end-to-end scenarios run: it echoes the request path, then appends the
//! contents of a file it reads through its filesystem capability.  The file
//! read itself happens inside the sandbox; here its result is an input.

use vstd::prelude::*;

use crate::adapter::GuestRequest;
use crate::completion::ResponseOutparam;
use crate::http_model::Header;
use crate::http_model::ResponseMeta;

verus! {

/// What the sample guest echoes for a request that carries no path or query.
pub open spec fn spec_missing_path_note() -> Seq<char> {
    "no request query path"@
}

/// The sample guest's greeting for a request path.
pub open spec fn spec_echo_greeting(path: Seq<char>) -> Seq<char> {
    "Hello, you pinged "@ + path + "!\n"@
}

/// The path the sample guest echoes: the request's path and query, or the
/// fixed note when the request has none.
pub open spec fn spec_echoed_path(path_with_query: &Option<String>) -> Seq<char> {
    match path_with_query {
        Some(path) => path@,
        None => spec_missing_path_note(),
    }
}

/// Builds the sample guest's greeting line.
pub fn echo_greeting(path_with_query: &Option<String>) -> (r: String)
    ensures
        r@ == spec_echo_greeting(spec_echoed_path(path_with_query)),
{
    let mut line = String::from_str("Hello, you pinged ");
    match path_with_query {
        Some(path) => line.append(path.as_str()),
        None => line.append("no request query path"),
    }
    line.append("!\n");
    line
}

/// Runs the sample guest on an adapted request: it delivers a response of
/// status 200 with no headers through the outparam — once, before it writes
/// any body — then streams two body chunks, the greeting for the request's
/// path and the contents of its sample file.  It terminates normally.
pub fn sample_guest_handle(
    request: &GuestRequest,
    outparam: &mut ResponseOutparam,
    sample_file_contents: String,
) -> (body_chunks: Vec<String>)
    ensures
        old(outparam).value() is Some ==> final(outparam).value() == old(outparam).value(),
        old(outparam).value() is None ==> (final(outparam).value() matches Some(Ok(m))
            && m.status == 200 && m.headers@ =~= Seq::<Header>::empty()),
        body_chunks@.len() == 2,
        body_chunks@[0]@ == spec_echo_greeting(spec_echoed_path(&request.spec_parts().path_with_query)),
        body_chunks@[1] == sample_file_contents,
{
    let meta = ResponseMeta { status: 200, headers: Vec::new() };
    outparam.set(Ok(meta));
    let greeting = echo_greeting(&request.parts().path_with_query);
    let mut body_chunks: Vec<String> = Vec::new();
    body_chunks.push(greeting);
    body_chunks.push(sample_file_contents);
    body_chunks
}

} // verus!
