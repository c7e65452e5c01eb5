//! Plain-value representations of the HTTP objects that cross the bridge.
//!
//! The transport and the sandboxing runtime keep their own request and
//! response types; the bridge's decisions are made over these plain
//! structures, which hold exactly what the bridging logic reads: method,
//! authority, path, an order-preserving header list, and a body as a
//! sequence of streamed chunks.

use vstd::prelude::*;

verus! {

/// One header line.  The name is compared case-sensitively: the transport
/// collaborator normalizes names to lower case before they reach the bridge.
pub struct Header {
    pub name: String,
    pub value: String,
}

/// A structured HTTP request: what the transport delivers inbound, and what
/// the guest hands to the outbound interceptor.  The body is carried
/// separately, as a stream of chunks, and is never buffered here.
pub struct RequestParts {
    pub method: String,
    /// The authority component of the request URI, when the URI has one.
    pub authority: Option<String>,
    /// Path and query of the request URI, when the URI has them.
    pub path_with_query: Option<String>,
    /// Header multimap, order preserved.
    pub headers: Vec<Header>,
}

/// Response metadata: what the guest delivers through the response outparam
/// while its body may still be streaming.
pub struct ResponseMeta {
    pub status: u16,
    pub headers: Vec<Header>,
}

/// The concatenation of a sequence of streamed body chunks: what an explicit
/// "collect" materialization must produce.
pub open spec fn collected(chunks: Seq<Seq<char>>) -> Seq<char>
    decreases chunks.len(),
{
    if chunks.len() == 0 {
        Seq::empty()
    } else {
        collected(chunks.drop_last()) + chunks.last()
    }
}

/// Materializes a streamed body into one buffer, in chunk order.  This is
/// the one place the bridge buffers a whole body, and only on explicit
/// request (e.g. for testing); the adapters otherwise forward chunks as
/// they arrive.
pub fn collect_chunks(chunks: &Vec<String>) -> (r: String)
    ensures
        r@ == collected(chunks@.map_values(|c: String| c@)),
{
    let ghost all = chunks@.map_values(|c: String| c@);
    let mut out = String::new();
    let mut i: usize = 0;
    while i < chunks.len()
        invariant
            0 <= i <= chunks@.len(),
            all == chunks@.map_values(|c: String| c@),
            out@ == collected(all.subrange(0, i as int)),
        decreases chunks@.len() - i,
    {
        out.append(chunks[i].as_str());
        proof {
            assert(all.subrange(0, i + 1).drop_last() =~= all.subrange(0, i as int));
            assert(all.subrange(0, i + 1).last() == all[i as int]);
        }
        i += 1;
    }
    proof {
        assert(all.subrange(0, chunks@.len() as int) =~= all);
    }
    out
}

} // verus!
