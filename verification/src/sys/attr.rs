//! Reading, writing and deriving terminal attributes.

use vstd::prelude::*;
use crate::sys::{AsFd, AttrWrite, Termios, reflect_get, function_call0, js_null, host_call_done};
use crate::sys::raw_method;

verus! {

/// Reads the device's current configuration. Fails as the device's own read
/// fails; a snapshot that comes back is the live configuration.
pub fn get_terminal_attr<W: AsFd>(fd: &W) -> (r: Result<Termios, std::io::Error>)
    ensures
        r matches Ok(t) ==> t == fd.state().attrs,
{
    fd.get_termios()
}

/// Writes `termios` onto the device. The device puts the write on record with
/// its outcome, and `termios` is live where the write succeeded. The snapshot
/// itself is only read.
pub fn set_terminal_attr<W: AsFd>(fd: &mut W, termios: &Termios) -> (r: Result<(), std::io::Error>)
    ensures
        (*final(fd)).state().asked == (*old(fd)).state().asked.push(
            (AttrWrite { attrs: *termios, taken: r is Ok }),
        ),
        r is Ok ==> (*final(fd)).state().attrs == *termios,
{
    fd.set_termios(termios)
}

/// Turns the snapshot into its raw-mode variant in place, by the function
/// that the host object holds under the name that [`raw_method`] gives,
/// called without a `this`. The snapshot is the same handle afterwards,
/// whatever came back; what the object behind it then holds is the host's.
/// What the call comes to is said by [`host_call_done`].
pub fn raw_terminal_attr(termios: &mut Termios) -> (r: Result<(), std::io::Error>)
    ensures
        *final(termios) == *old(termios),
{
    match reflect_get(termios.host_object(), raw_method()) {
        Ok(func) => host_call_done(function_call0(func, &js_null())),
        Err(thrown) => host_call_done(Err(thrown)),
    }
}

} // verus!
