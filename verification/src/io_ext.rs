//! The rules of the library for the calls that its callers make on their
//! transports.

use crate::error::{Error, ErrorView, IoError, IoErrorView};
use vstd::prelude::*;

verus! {

/// The length of a buffer as a vectored datagram call takes it where lengths
/// have 32 bits: a buffer that is longer is refused.
pub open spec fn buffer_len_spec(size: usize) -> Result<u32, IoErrorView> {
    if size <= u32::MAX {
        Ok(size as u32)
    } else {
        Err(IoErrorView::Socks(ErrorView::WinUDP4GiBLimit { size }))
    }
}

/// A result that holds a number or two, in specifications.
pub open spec fn plain_result<T>(r: Result<T, IoError>) -> Result<T, IoErrorView> {
    match r {
        Ok(v) => Ok(v),
        Err(e) => Err(e@),
    }
}

/// The length of a buffer of `size` bytes for a vectored datagram call whose
/// lengths have 32 bits.
pub fn buffer_len(size: usize) -> (r: Result<u32, IoError>)
    ensures
        plain_result(r) == buffer_len_spec(size),
{
    if size > 0xffff_ffff {
        Err(Error::WinUDP4GiBLimit { size }.into_io())
    } else {
        Ok(size as u32)
    }
}

/// The lengths of the two buffers of a vectored datagram call whose lengths
/// have 32 bits. The first buffer is looked at first.
pub fn buffer_lens(first: usize, second: usize) -> (r: Result<(u32, u32), IoError>)
    ensures
        plain_result(r) == match (buffer_len_spec(first), buffer_len_spec(second)) {
            (Err(e), _) => Err::<(u32, u32), IoErrorView>(e),
            (Ok(_), Err(e)) => Err(e),
            (Ok(a), Ok(b)) => Ok((a, b)),
        },
{
    let a = buffer_len(first)?;
    let b = buffer_len(second)?;
    Ok((a, b))
}

/// How a run of attempts to connect to the proxy ends when none succeeded:
/// with the failure of the last attempt, or, where no address was there to
/// try, with `NoResolveSocketAddrs`.
pub fn connect_failure<E>(last: Option<E>) -> (r: Result<E, IoError>)
    ensures
        match last {
            Some(e) => r == Ok::<E, IoError>(e),
            None => r matches Err(x) && x@ == IoErrorView::Socks(ErrorView::NoResolveSocketAddrs),
        },
{
    match last {
        Some(e) => Ok(e),
        None => Err(Error::NoResolveSocketAddrs {  }.into_io()),
    }
}

} // verus!
