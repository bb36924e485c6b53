//! SOCKS5 BIND: the proxy listens for the client.

use crate::error::IoError;
use crate::v5::client::{starts, HandshakeView, Phase, Progress, Socks5Stream, Step};
use crate::v5::{Authentication, AuthenticationView};
use crate::{TargetAddr, ToTargetAddr};
use vstd::prelude::*;

verus! {

/// A listener at a SOCKS5 proxy: the stream of a BIND handshake, until a peer
/// arrives.
#[derive(Debug)]
pub struct Socks5Listener<S>(Socks5Stream<S>);

impl<S> Socks5Listener<S> {
    /// The stream of the BIND handshake.
    pub closed spec fn stream(self) -> Socks5Stream<S> {
        self.0
    }

    /// Begins a BIND over `socket`, a transport that is connected to the proxy.
    /// The proxy lets in the connections that come from `target`.
    pub fn bind<U: ToTargetAddr>(socket: S, target: &U) -> (r: Result<Step<'static, S>, IoError>)
        ensures
            starts(r, socket, 2, target.target(), AuthenticationView::NoAuth),
    {
        Socks5Stream::connect_raw(2, socket, target, Authentication::NoAuth)
    }

    /// Begins a BIND over `socket` and offers the username and the password to
    /// the proxy.
    pub fn bind_with_password<'a, U: ToTargetAddr>(
        socket: S,
        target: &U,
        username: &'a str,
        password: &'a str,
    ) -> (r: Result<Step<'a, S>, IoError>)
        ensures
            starts(
                r,
                socket,
                2,
                target.target(),
                AuthenticationView::Password { username: username@, password: password@ },
            ),
    {
        let auth = Authentication::Password { username, password };
        Socks5Stream::connect_raw(2, socket, target, auth)
    }

    /// The listener that the stream of a finished BIND handshake is.
    pub fn listening(stream: Socks5Stream<S>) -> (listener: Self)
        ensures
            listener.stream() == stream,
    {
        Socks5Listener(stream)
    }

    /// The address of the proxy-side listener, which the remote process is to
    /// connect to.
    pub fn proxy_addr(&self) -> (addr: &TargetAddr)
        ensures
            addr@ == self.stream().bound(),
    {
        self.0.proxy_addr()
    }

    /// Waits for the remote process: the proxy sends a second reply when it
    /// arrives. The step asks for the first byte of that reply, and the steps
    /// after it end with the stream to the remote process.
    pub fn accept(self) -> (step: Step<'static, S>)
        ensures
            step.transport() == self.stream().transport(),
            step.progress() == (Progress::Exchange {
                next: HandshakeView {
                    command: 2,
                    target: self.stream().bound(),
                    auth: AuthenticationView::NoAuth,
                    phase: Phase::Reply,
                    inbox: Seq::empty(),
                },
                send: Seq::empty(),
                receive: 1,
            }),
    {
        self.0.await_reply()
    }
}

} // verus!
