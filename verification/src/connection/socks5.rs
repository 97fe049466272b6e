//! Connecting through a SOCKS5 proxy to a port of the machine that it runs on.

use vstd::prelude::*;

use crate::io_error::{io_failure, IoError, IoErrorKind, IoErrorView};
use crate::text::{concat2, decimal, decimal_text};

verus! {

/// How far the negotiation has come. In each phase a number of bytes is awaited from the proxy.
#[derive(Debug, PartialEq, Eq)]
pub enum Socks5 {
    /// Two bytes: the proxy's version and the method it chose.
    Greeting { server_port: u16 },
    /// Four bytes: version, status, a reserved byte and the type of the address that follows.
    Reply { server_port: u16 },
    /// One byte: the length of a name.
    NameLength,
    /// An address and a port.
    Address { length: usize },
    Connected,
    Failed(IoError),
}

/// The bytes that open a negotiation without authentication.
fn greeting() -> (r: Vec<u8>)
    ensures
        r@ == seq![5u8, 1u8, 0u8],
{
    let v: Vec<u8> = vec![5u8, 1u8, 0u8];
    proof {
        assert(v@ =~= seq![5u8, 1u8, 0u8]);
    }
    v
}

/// The bytes that ask for a connection to `port` on the proxy's own machine, the port with its
/// high byte first.
pub open spec fn connect_request(port: u16) -> Seq<u8> {
    seq![5u8, 1u8, 0u8, 1u8, 127u8, 0u8, 0u8, 1u8, (port / 256) as u8, (port % 256) as u8]
}

/// The bytes that ask for a connection to `port` on the proxy's own machine.
fn request(port: u16) -> (r: Vec<u8>)
    ensures
        r@ == connect_request(port),
{
    let high: u8 = (port / 256) as u8;
    let low: u8 = (port % 256) as u8;
    let v: Vec<u8> = vec![5u8, 1u8, 0u8, 1u8, 127u8, 0u8, 0u8, 1u8, high, low];
    proof {
        assert(v@ =~= connect_request(port));
    }
    v
}

/// A refusal by the proxy.
pub open spec fn proxy_failure(message: Seq<char>) -> IoErrorView {
    io_failure(IoErrorKind::Other, message)
}

impl Socks5 {
    /// How many bytes are awaited.
    pub open spec fn awaited(self) -> nat {
        match self {
            Socks5::Greeting { .. } => 2,
            Socks5::Reply { .. } => 4,
            Socks5::NameLength => 1,
            Socks5::Address { length } => (length + 2) as nat,
            Socks5::Connected | Socks5::Failed(_) => 0,
        }
    }

    /// An address is at most as long as a length byte can say.
    pub open spec fn wf(self) -> bool {
        self matches Socks5::Address { length } ==> length <= 255
    }

    /// Whether this is a failure with the given text.
    pub open spec fn failed_with(self, message: Seq<char>) -> bool {
        self matches Socks5::Failed(e) && e@ == proxy_failure(message)
    }

    /// Whether the negotiation moves from `self` to `after` when `bytes` come.
    pub open spec fn next(self, bytes: Seq<u8>, after: Self) -> bool {
        match self {
            Socks5::Greeting { server_port } => if bytes == seq![5u8, 0u8] {
                after == (Socks5::Reply { server_port })
            } else {
                after.failed_with("SSH proxy rejected SOCKS5 negotiation"@)
            },
            Socks5::Reply { .. } => if bytes[0] != 5 {
                after.failed_with("SSH proxy returned an invalid SOCKS version"@)
            } else if bytes[1] != 0 {
                after.failed_with(
                    "SSH proxy rejected the server connection with status "@ + decimal_text(
                        bytes[1] as nat,
                    ),
                )
            } else if bytes[3] == 1 {
                after == (Socks5::Address { length: 4 })
            } else if bytes[3] == 3 {
                after is NameLength
            } else if bytes[3] == 4 {
                after == (Socks5::Address { length: 16 })
            } else {
                after.failed_with(
                    "SSH proxy returned unknown SOCKS5 address type "@ + decimal_text(
                        bytes[3] as nat,
                    ),
                )
            },
            Socks5::NameLength => after == (Socks5::Address { length: bytes[0] as usize }),
            Socks5::Address { .. } => after is Connected,
            Socks5::Connected | Socks5::Failed(_) => after == self,
        }
    }

    /// The start of a negotiation for `server_port`.
    pub fn start(server_port: u16) -> (r: Self)
        ensures
            r == (Socks5::Greeting { server_port }),
            r.wf(),
    {
        Socks5::Greeting { server_port }
    }

    /// What is sent before the awaited bytes can come.
    pub open spec fn sent(self) -> Seq<u8> {
        match self {
            Socks5::Greeting { .. } => seq![5u8, 1u8, 0u8],
            Socks5::Reply { server_port } => connect_request(server_port),
            _ => Seq::empty(),
        }
    }

    /// What has to be sent before the awaited bytes can come.
    pub fn outgoing(&self) -> (r: Vec<u8>)
        ensures
            r@ == self.sent(),
    {
        match self {
            Socks5::Greeting { .. } => greeting(),
            Socks5::Reply { server_port } => request(*server_port),
            _ => Vec::new(),
        }
    }

    /// How many bytes are awaited.
    pub fn expected(&self) -> (r: usize)
        requires
            self.wf(),
        ensures
            r == self.awaited(),
    {
        match self {
            Socks5::Greeting { .. } => 2,
            Socks5::Reply { .. } => 4,
            Socks5::NameLength => 1,
            Socks5::Address { length } => *length + 2,
            Socks5::Connected | Socks5::Failed(_) => 0,
        }
    }

    /// Takes in the awaited bytes.
    pub fn connect_socks5(self, bytes: &Vec<u8>) -> (r: Self)
        requires
            self.wf(),
            bytes@.len() == self.awaited(),
        ensures
            self.next(bytes@, r),
            r.wf(),
    {
        match self {
            Socks5::Greeting { server_port } => {
                proof {
                    assert(bytes@ =~= seq![5u8, 0u8] <==> bytes@[0] == 5 && bytes@[1] == 0);
                }
                if bytes[0] == 5 && bytes[1] == 0 {
                    Socks5::Reply { server_port }
                } else {
                    Socks5::Failed(IoError::other("SSH proxy rejected SOCKS5 negotiation"))
                }
            },
            Socks5::Reply { .. } => {
                if bytes[0] != 5 {
                    return Socks5::Failed(
                        IoError::other("SSH proxy returned an invalid SOCKS version"),
                    );
                }
                if bytes[1] != 0 {
                    let status = decimal(bytes[1] as u64);
                    return Socks5::Failed(
                        IoError {
                            kind: IoErrorKind::Other,
                            message: concat2(
                                "SSH proxy rejected the server connection with status ",
                                &status,
                            ),
                        },
                    );
                }
                if bytes[3] == 1 {
                    Socks5::Address { length: 4 }
                } else if bytes[3] == 3 {
                    Socks5::NameLength
                } else if bytes[3] == 4 {
                    Socks5::Address { length: 16 }
                } else {
                    let kind = decimal(bytes[3] as u64);
                    Socks5::Failed(
                        IoError {
                            kind: IoErrorKind::Other,
                            message: concat2(
                                "SSH proxy returned unknown SOCKS5 address type ",
                                &kind,
                            ),
                        },
                    )
                }
            },
            Socks5::NameLength => Socks5::Address { length: bytes[0] as usize },
            Socks5::Address { .. } => Socks5::Connected,
            Socks5::Connected => Socks5::Connected,
            Socks5::Failed(e) => Socks5::Failed(e),
        }
    }
}

/// The port that a request asks for is the one it was made for.
pub proof fn law_request_names_the_port(port: u16)
    ensures
        connect_request(port).len() == 10,
        connect_request(port)[8] as int * 256 + connect_request(port)[9] as int == port,
{
}

/// A negotiation succeeds only by a proxy that accepted it, the connection and named an address of
/// a known type: it goes through every phase in turn.
pub proof fn law_connected_by_an_accepting_proxy(before: Socks5, bytes: Seq<u8>, after: Socks5)
    requires
        before.next(bytes, after),
    ensures
        after is Connected ==> before is Address || before is Connected,
        after is Address && !(before is Address) ==> before is NameLength || (before is Reply && bytes[0]
            == 5 && bytes[1] == 0),
        after is NameLength && !(before is NameLength) ==> before is Reply && bytes[0] == 5 && bytes[1]
            == 0,
        after is Reply && !(before is Reply) ==> before is Greeting && bytes == seq![5u8, 0u8],
{
}

} // verus!
