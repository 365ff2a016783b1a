//! The self-test HTTP server: which reply each request gets.
use vstd::prelude::*;

verus! {

/// Threads the server answers requests on.
pub const SERVER_THREADS: usize = 8;

/// Payload chunks of 64 KiB that answer a GET: 50 MiB.
pub const GET_REPLY_CHUNKS: u64 = 800;

/// The request methods the server tells apart.
#[derive(PartialEq, Eq, Structural, Clone, Copy, Debug)]
pub enum RequestMethod {
    Get,
    Post,
    Other,
}

/// A reply: the head, then `chunks` payload chunks.
pub struct ServerReply {
    pub head: String,
    pub chunks: u64,
}

pub open spec fn reply_head(method: RequestMethod) -> Seq<char> {
    match method {
        RequestMethod::Get | RequestMethod::Post => "HTTP/1.1 200\r\n\r\n"@,
        RequestMethod::Other => "HTTP/1.1 500\r\n\r\n"@,
    }
}

pub open spec fn reply_chunks(method: RequestMethod) -> u64 {
    if method == RequestMethod::Get {
        GET_REPLY_CHUNKS
    } else {
        0
    }
}

/// A server to run on `address`.
pub struct HTTPServer {
    address: String,
}

impl HTTPServer {
    pub closed spec fn spec_address(&self) -> Seq<char> {
        self.address@
    }

    /// A server for `address`; `resolves` tells whether the address resolved
    /// to socket addresses. `None` when it did not.
    pub fn build(address: String, resolves: bool) -> (r: Option<Self>)
        ensures
            r is Some <==> resolves,
            r is Some ==> r->0.spec_address() == address@,
    {
        if !resolves {
            return None;
        }
        Some(HTTPServer { address })
    }

    /// The address the server listens on.
    pub fn address(&self) -> (r: &str)
        ensures
            r@ == self.spec_address(),
    {
        self.address.as_str()
    }

    /// A GET gets 200 and 50 MiB of payload, a POST an empty 200, anything
    /// else an empty 500.
    pub fn reply(method: RequestMethod) -> (r: ServerReply)
        ensures
            r.head@ == reply_head(method),
            r.chunks == reply_chunks(method),
    {
        match method {
            RequestMethod::Get => ServerReply {
                head: String::from_str("HTTP/1.1 200\r\n\r\n"),
                chunks: GET_REPLY_CHUNKS,
            },
            RequestMethod::Post => ServerReply {
                head: String::from_str("HTTP/1.1 200\r\n\r\n"),
                chunks: 0,
            },
            RequestMethod::Other => ServerReply {
                head: String::from_str("HTTP/1.1 500\r\n\r\n"),
                chunks: 0,
            },
        }
    }
}

} // verus!
