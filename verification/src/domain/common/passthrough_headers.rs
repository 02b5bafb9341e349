//! The request headers passed on to substituters: the client's user agent,
//! with the proxy's own appended.
use vstd::prelude::*;

verus! {

/// The proxy's own user agent: `selector4nix/0.1.0`.
pub open spec fn self_user_agent_spec() -> Seq<u8> {
    seq![115u8, 101, 108, 101, 99, 116, 111, 114, 52, 110, 105, 120, 47, 48, 46, 49, 46, 48]
}

/// The proxy's own user agent, as bytes.
pub fn self_user_agent() -> (r: Vec<u8>)
    ensures
        r@ == self_user_agent_spec(),
{
    let r: Vec<u8> = vec![115, 101, 108, 101, 99, 116, 111, 114, 52, 110, 105, 120, 47, 48, 46, 49, 46, 48];
    assert(r@ =~= self_user_agent_spec());
    r
}

/// The headers of a client's request that are passed on: its user agent,
/// as bytes.
#[derive(Debug, Clone, PartialEq, Eq, Hash)]
pub struct PassthroughHeaders {
    user_agent: Option<Vec<u8>>,
}

pub open spec fn opt_bytes_view(o: Option<Vec<u8>>) -> Option<Seq<u8>> {
    match o {
        Some(v) => Some(v@),
        None => None,
    }
}

/// The user agent passed on for a client's: its own, then a space and the
/// proxy's; an empty one stays empty.
pub open spec fn proxied_user_agent(user_agent: Option<Seq<u8>>) -> Option<Seq<u8>> {
    match user_agent {
        Some(ua) => if ua.len() > 0 {
            Some(ua + seq![32u8] + self_user_agent_spec())
        } else {
            Some(ua)
        },
        None => None,
    }
}

impl View for PassthroughHeaders {
    type V = Option<Seq<u8>>;

    closed spec fn view(&self) -> Option<Seq<u8>> {
        opt_bytes_view(self.user_agent)
    }
}

impl PassthroughHeaders {
    /// No headers.
    pub fn empty() -> (r: PassthroughHeaders)
        ensures
            r@ is None,
    {
        PassthroughHeaders { user_agent: None }
    }

    /// The headers of a request whose user agent is `user_agent`.
    pub fn with_user_agent(user_agent: Option<Vec<u8>>) -> (r: PassthroughHeaders)
        ensures
            r@ == opt_bytes_view(user_agent),
    {
        PassthroughHeaders { user_agent }
    }

    /// The headers as the proxy passes them on.
    pub fn proxyed(self) -> (r: PassthroughHeaders)
        ensures
            r@ == proxied_user_agent(self@),
    {
        match self.user_agent {
            Some(ua) => {
                if ua.len() > 0 {
                    let mut bytes = ua;
                    let ghost before = bytes@;
                    bytes.push(32);
                    let own = self_user_agent();
                    let mut i: usize = 0;
                    while i < own.len()
                        invariant
                            i <= own@.len(),
                            own@ == self_user_agent_spec(),
                            bytes@ == before + seq![32u8] + own@.subrange(0, i as int),
                        decreases own@.len() - i,
                    {
                        bytes.push(own[i]);
                        proof {
                            assert(own@.subrange(0, i + 1) =~= own@.subrange(0, i as int).push(own@[i as int]));
                        }
                        i = i + 1;
                    }
                    assert(own@.subrange(0, own@.len() as int) =~= own@);
                    PassthroughHeaders { user_agent: Some(bytes) }
                } else {
                    PassthroughHeaders { user_agent: Some(ua) }
                }
            },
            None => PassthroughHeaders { user_agent: None },
        }
    }

    /// The user agent passed on, if any.
    pub fn user_agent(&self) -> (r: Option<&Vec<u8>>)
        ensures
            match r {
                Some(v) => self@ == Some(v@),
                None => self@ is None,
            },
    {
        match &self.user_agent {
            Some(v) => Some(v),
            None => None,
        }
    }
}

} // verus!
