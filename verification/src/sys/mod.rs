//! The attribute backend for terminals that a host environment provides.
//!
//! A configuration is an object of the host. The library never looks inside
//! it: it asks the host to copy it and to turn it into its raw-mode variant,
//! and hands it to the device to be read or written.
//!
//! The calls into the host are there where the program runs inside one, on a
//! wasm target. Built for another target, wasm-bindgen puts a panic in their
//! place, which no contract here speaks of.

use vstd::prelude::*;
use wasm_bindgen::JsValue;

pub mod attr;
pub mod tty;

verus! {

/// `wasm_bindgen::JsValue`, a handle to a value of the host. Nothing is known
/// of what stands behind a handle.
#[verifier::external_type_specification]
#[verifier::external_body]
pub struct ExJsValue(wasm_bindgen::JsValue);

/// `std::io::Error`, carried through as it comes.
#[verifier::external_type_specification]
#[verifier::external_body]
pub struct ExIoError(std::io::Error);

/// A snapshot of a terminal's configuration: a handle to the host's object.
///
/// Two snapshots are equal where they are the same handle to the same object
/// of the host. What that object holds is the host's matter and no part of
/// the value: the host changes it in place, and the handle stays what it was.
pub struct Termios(pub JsValue);

/// One attribute write that a device was asked for: the snapshot it was
/// handed, and whether it took it.
pub struct AttrWrite {
    pub attrs: Termios,
    pub taken: bool,
}

/// What the contracts know of a device: the snapshot that holds its live
/// configuration, and every attribute write it was asked for, oldest first.
pub struct TtyState {
    pub attrs: Termios,
    pub asked: Seq<AttrWrite>,
}

/// The name of the host object's method that turns it into its raw variant.
pub fn raw_method() -> (name: &'static str)
    ensures
        name@ == "raw_terminal_attr"@,
{
    "raw_terminal_attr"
}

/// The name of the host object's method that copies it.
pub fn clone_method() -> (name: &'static str)
    ensures
        name@ == "clone"@,
{
    "clone"
}

/// Calls `js_sys::Reflect::get` with `name` as the property key, made into a
/// host string by `JsValue::from_str`. The host decides what comes back, a
/// property's value or the exception that reading it threw, so nothing is
/// claimed of the result.
#[verifier::external_body]
fn reflect_get(target: &JsValue, name: &str) -> (r: Result<JsValue, JsValue>) {
    js_sys::Reflect::get(target, &JsValue::from_str(name))
}

/// Calls `js_sys::Function::call0` on `func`, taken as a function of the host
/// without a check, with `context` as its `this`. The host decides what comes
/// back, the function's result or what it threw, so nothing is claimed of the
/// result.
#[verifier::external_body]
fn function_call0(func: JsValue, context: &JsValue) -> (r: Result<JsValue, JsValue>) {
    let func: js_sys::Function = func.into();
    func.call0(context)
}

/// Calls `JsValue::null`, the host's `null`. Nothing is claimed of it.
#[verifier::external_body]
fn js_null() -> (r: JsValue) {
    JsValue::null()
}

/// Prints a value of the host by `Debug for JsValue`, which asks the host for
/// the text. Nothing is claimed of the text.
#[verifier::external_body]
fn host_text(value: &JsValue) -> (text: String) {
    format!("{:?}", value)
}

/// Calls `std::io::Error::other` with `message` as the payload. Nothing is
/// claimed of the error.
#[verifier::external_body]
fn io_error_other(message: String) -> (e: std::io::Error) {
    std::io::Error::other(message)
}

/// The I/O error that stands for what the host threw: it carries the host's
/// own text for it.
fn host_error(cause: &JsValue) -> (e: std::io::Error) {
    io_error_other(host_text(cause))
}

impl Termios {
    /// Looks the method `name` up on the host object and calls it on that
    /// object without arguments. Gives the method's result, or what the host
    /// threw while the method was looked up or while it ran.
    fn call0(&self, name: &str) -> (r: Result<JsValue, JsValue>) {
        match reflect_get(self.host_object(), name) {
            Ok(method) => function_call0(method, self.host_object()),
            Err(thrown) => Err(thrown),
        }
    }

    /// The host object that the snapshot stands for: what a call into the
    /// host is made on, and what it gets as its `this`.
    pub fn host_object(&self) -> (object: &JsValue)
        ensures
            *object == self.0,
    {
        &self.0
    }

    /// Asks the host object to turn itself into its raw-mode variant, by the
    /// method that [`raw_method`] names. The snapshot is the same handle
    /// afterwards, whatever came back; what the object behind it then holds
    /// is the host's. What the call comes to is said by [`host_call_done`].
    pub fn raw_terminal_attr(&mut self) -> (r: Result<(), std::io::Error>)
        ensures
            *final(self) == *old(self),
    {
        let outcome = self.call0(raw_method());
        host_call_done(outcome)
    }

    /// Asks the host for an independent copy of the snapshot, by the method
    /// that [`clone_method`] names. The host decides what comes back; what
    /// the call comes to for the caller, a snapshot around the object that
    /// the host returned or an I/O error, is said by [`host_copy_made`].
    pub fn try_clone(&self) -> (r: Result<Termios, std::io::Error>) {
        let outcome = self.call0(clone_method());
        host_copy_made(outcome)
    }
}

/// What a call into the host that was made for its effect comes to: done
/// where the host returned, whatever it returned, and an I/O error that
/// carries what the host threw where it threw.
pub fn host_call_done(outcome: Result<JsValue, JsValue>) -> (r: Result<(), std::io::Error>)
    ensures
        r is Ok <==> outcome is Ok,
{
    match outcome {
        Ok(_) => Ok(()),
        Err(thrown) => Err(host_error(&thrown)),
    }
}

/// What a call into the host that was made for a copy of a snapshot comes
/// to: the snapshot around the object that the host returned, or an I/O error
/// that carries what the host threw.
pub fn host_copy_made(outcome: Result<JsValue, JsValue>) -> (r: Result<Termios, std::io::Error>)
    ensures
        r is Ok <==> outcome is Ok,
        outcome matches Ok(object) ==> r matches Ok(copy) && copy.0 == object,
{
    match outcome {
        Ok(object) => Ok(Termios(object)),
        Err(thrown) => Err(host_error(&thrown)),
    }
}

/// Wraps a host object as a snapshot.
impl From<JsValue> for Termios {
    fn from(value: JsValue) -> (r: Termios) {
        Termios(value)
    }
}

impl vstd::std_specs::convert::FromSpecImpl<JsValue> for Termios {
    open spec fn obeys_from_spec() -> bool {
        true
    }

    open spec fn from_spec(value: JsValue) -> Termios {
        Termios(value)
    }
}

/// Gives the host object of a snapshot back.
impl From<Termios> for JsValue {
    fn from(val: Termios) -> (r: JsValue) {
        val.0
    }
}

impl vstd::std_specs::convert::FromSpecImpl<Termios> for JsValue {
    open spec fn obeys_from_spec() -> bool {
        true
    }

    open spec fn from_spec(val: Termios) -> JsValue {
        val.0
    }
}

/// A device whose terminal attributes can be read and written.
///
/// An implementation says in `state` which snapshot holds the device's
/// configuration and which writes it has been asked for, and keeps that in
/// step with what `get_termios` and `set_termios` do. Every write is put on
/// record with its outcome; one that the device took makes the snapshot it
/// was handed the live one. Of the configuration after a write that failed
/// nothing is asked. A guard is often released while its holder is being
/// dropped, so a write should report failure through its result and never by
/// unwinding.
pub trait AsFd: Sized {
    /// What the contracts know of the device. The live snapshot in it is a
    /// handle: it says which object of the host holds the configuration, not
    /// what that object holds. Only contracts speak of this function; it is
    /// never run.
    spec fn state(&self) -> TtyState;

    /// Should return the current termios config
    fn get_termios(&self) -> (r: Result<Termios, std::io::Error>)
        ensures
            r matches Ok(t) ==> t == self.state().attrs,
    ;

    /// Should set the termios config to the given one
    fn set_termios(&mut self, new: &Termios) -> (r: Result<(), std::io::Error>)
        ensures
            (*final(self)).state().asked == (*old(self)).state().asked.push(
                (AttrWrite { attrs: *new, taken: r is Ok }),
            ),
            r is Ok ==> (*final(self)).state().attrs == *new,
    ;

    /// Borrow an fd
    fn as_fd(&self) -> (r: &Self)
        ensures
            r == self,
    {
        self
    }
}

/// A device lent out for writing is a device: what is asked of the loan is
/// asked of the device behind it.
impl<T: AsFd> AsFd for &mut T {
    open spec fn state(&self) -> TtyState {
        (**self).state()
    }

    fn get_termios(&self) -> (r: Result<Termios, std::io::Error>) {
        (**self).get_termios()
    }

    fn set_termios(&mut self, new: &Termios) -> (r: Result<(), std::io::Error>) {
        (**self).set_termios(new)
    }
}

/// Anything can stand for a raw descriptor here: the host has none.
pub trait AsRawFd {
}

impl<T> AsRawFd for T {
}

} // verus!
