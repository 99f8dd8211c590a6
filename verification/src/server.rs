use vstd::prelude::*;
use crate::poll::AccessToken;
use crate::text::str_eq;

verus! {

/// Status of a reply the callback server answers with.
pub const STATUS_OK: u16 = 200;

/// Status of a reply to a path the callback server does not serve.
pub const STATUS_NOT_FOUND: u16 = 404;

/// One reply of the callback server, plus whether the listener is to shut
/// down after sending it.
#[derive(Debug, PartialEq, Eq)]
pub struct HttpReply {
    pub status: u16,
    pub body: String,
    pub shutdown: bool,
}

/// The callback server's state: the token it hands out, the port it is
/// bound to, and whether a shutdown was requested. The listener itself
/// lives with the caller; this decides every reply.
#[derive(Debug, PartialEq, Eq)]
pub struct CallbackServer {
    pub token: AccessToken,
    pub port: u16,
    pub closed: bool,
}

impl CallbackServer {
    /// A freshly bound server handing out `token` on `port`.
    pub fn bound(token: AccessToken, port: u16) -> (r: CallbackServer)
        ensures
            r.token == token,
            r.port == port,
            !r.closed,
    {
        CallbackServer { token, port, closed: false }
    }

    /// Answers one request to the local surface.
    ///
    /// The root path serves exactly the token supplied at binding time; the
    /// close path always succeeds, whether or not the server was already
    /// closed, and asks the listener to shut down; anything else is not
    /// found. No request changes the token or the port.
    pub fn handle_request(&mut self, path: &str) -> (r: HttpReply)
        ensures
            final(self).token == old(self).token,
            final(self).port == old(self).port,
            path@ == "/"@ ==> ({
                &&& r.status == STATUS_OK
                &&& r.body@ == old(self).token.secret@
                &&& !r.shutdown
                &&& final(self).closed == old(self).closed
            }),
            path@ == "/close"@ ==> ({
                &&& r.status == STATUS_OK
                &&& r.body@ == "token server closing"@
                &&& r.shutdown
                &&& final(self).closed
            }),
            path@ != "/"@ && path@ != "/close"@ ==> ({
                &&& r.status == STATUS_NOT_FOUND
                &&& r.body@ == Seq::<char>::empty()
                &&& !r.shutdown
                &&& final(self).closed == old(self).closed
            }),
    {
        proof {
            reveal_strlit("/");
            reveal_strlit("/close");
            assert("/"@.len() == 1);
            assert("/close"@.len() == 6);
        }
        if str_eq(path, "/") {
            HttpReply {
                status: STATUS_OK,
                body: self.token.secret.clone(),
                shutdown: false,
            }
        } else if str_eq(path, "/close") {
            self.closed = true;
            HttpReply { status: STATUS_OK, body: "token server closing".to_owned(), shutdown: true }
        } else {
            HttpReply { status: STATUS_NOT_FOUND, body: String::new(), shutdown: false }
        }
    }
}

} // verus!
