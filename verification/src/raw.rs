//! Managing raw mode.
//!
//! Raw mode is a particular state a TTY can have. It signifies that:
//!
//! 1. No line buffering (the input is given byte-by-byte).
//! 2. The input is not written out, instead it has to be done manually by the programmer.
//! 3. The output is not canonicalized (for example, `\n` means "go one line down", not "line
//!    break").
//!
//! A [`RawTerminal`] owns the device while raw mode lasts and keeps the
//! configuration that the device had before. Releasing the guard writes that
//! configuration back, once. The guard does not release itself: whoever holds
//! it calls [`RawTerminal::release`] or [`RawTerminal::into_inner`] on every
//! way out of the scope, for which a destructor of the holder is the place.

use vstd::prelude::*;
use crate::sys::{AsFd, AttrWrite, Termios};
use crate::sys::attr::{get_terminal_attr, raw_terminal_attr, set_terminal_attr};

verus! {

/// The timeout of an escape code control sequence, in milliseconds.
pub const CONTROL_SEQUENCE_TIMEOUT: u64 = 100;

/// A terminal restorer, which keeps the previous state of the terminal, and restores it, when
/// released.
///
/// Restoring will entirely bring back the old TTY state.
pub struct RawTerminal<W: AsFd> {
    prev_ios: Termios,
    output: Option<W>,
}

impl<W: AsFd> RawTerminal<W> {
    /// The configuration that releasing the guard writes back.
    pub closed spec fn restore_point(&self) -> Termios {
        self.prev_ios
    }

    /// The device that the guard owns, `None` once it has been released.
    pub closed spec fn device(&self) -> Option<W> {
        self.output
    }

    /// The guard still owns its device.
    pub open spec fn holds_device(&self) -> bool {
        self.device() is Some
    }

    /// The snapshot that holds the live configuration of the owned device.
    pub open spec fn live_attrs(&self) -> Termios
        recommends
            self.holds_device(),
    {
        self.device()->0.state().attrs
    }

    /// Every attribute write that the owned device has been asked for.
    pub open spec fn asked(&self) -> Seq<AttrWrite>
        recommends
            self.holds_device(),
    {
        self.device()->0.state().asked
    }

    /// `after` is the device `before` once it has been asked, one time more,
    /// for a write of `attrs` with the outcome `taken`. Where it took the
    /// write, `attrs` is live.
    pub open spec fn asked_once(before: W, after: W, attrs: Termios, taken: bool) -> bool {
        &&& after.state().asked == before.state().asked.push((AttrWrite { attrs, taken }))
        &&& taken ==> after.state().attrs == attrs
    }

    /// `post` is `pre` after its device was asked once for a write of
    /// `attrs` with the outcome `taken`: the same guard over the same restore
    /// point.
    pub open spec fn wrote(pre: Self, post: Self, attrs: Termios, taken: bool) -> bool {
        &&& pre.holds_device()
        &&& post.holds_device()
        &&& post.restore_point() == pre.restore_point()
        &&& Self::asked_once(pre.device()->0, post.device()->0, attrs, taken)
    }

    /// `post` is `pre` after one attribute write of `attrs` that took effect.
    pub open spec fn applied(pre: Self, post: Self, attrs: Termios) -> bool {
        Self::wrote(pre, post, attrs, true)
    }

    /// `post` is `pre` after one attribute write of `attrs` that the device
    /// refused.
    pub open spec fn refused(pre: Self, post: Self, attrs: Termios) -> bool {
        Self::wrote(pre, post, attrs, false)
    }

    /// `guard` has taken `device` over: it owns it after exactly one write,
    /// which the device took, and the snapshot that was live before that
    /// write is the restore point.
    pub open spec fn entered(device: W, guard: Self) -> bool {
        &&& guard.holds_device()
        &&& guard.restore_point() == device.state().attrs
        &&& Self::asked_once(device, guard.device()->0, guard.live_attrs(), true)
    }

    /// `r` is what taking `output` over comes to once `prev_ios` and `raw`
    /// are at hand: the device is asked once for a write of `raw`. Where it
    /// takes the write a guard owns it, with `prev_ios` as the restore point;
    /// where it refuses, the device comes back beside the error.
    pub open spec fn entered_with(
        output: W,
        prev_ios: Termios,
        raw: Termios,
        r: Result<Self, (W, std::io::Error)>,
    ) -> bool {
        match r {
            Ok(guard) => {
                &&& guard.holds_device()
                &&& guard.restore_point() == prev_ios
                &&& Self::asked_once(output, guard.device()->0, raw, true)
            },
            Err(refusal) => Self::asked_once(output, refusal.0, raw, false),
        }
    }

    /// `r` is a failed entry that never reached the device's write: the
    /// device comes back as it was handed in, beside the error `e`.
    pub open spec fn turned_back(
        output: W,
        e: std::io::Error,
        r: Result<Self, (W, std::io::Error)>,
    ) -> bool {
        r matches Err(refusal) && refusal.0 == output && refusal.1 == e
    }

    /// `r` is a failed entry whose device was not asked for any write: it
    /// comes back as it was handed in.
    pub open spec fn untouched(output: W, r: Result<Self, (W, std::io::Error)>) -> bool {
        r matches Err(refusal) && refusal.0 == output
    }

    /// `post` and `handed` are what restoring `pre` leaves and hands out. A
    /// guard that owns its device gives it up after asking it once for a
    /// write of the restore point, and hands it out beside the outcome. A
    /// guard that owns none stays as it is and hands out nothing.
    pub open spec fn restored(
        pre: Self,
        post: Self,
        handed: Option<(W, Result<(), std::io::Error>)>,
    ) -> bool {
        &&& !post.holds_device()
        &&& post.restore_point() == pre.restore_point()
        &&& handed is Some <==> pre.holds_device()
        &&& !pre.holds_device() ==> post == pre
        &&& handed matches Some(pair) ==> Self::asked_once(
            pre.device()->0,
            pair.0,
            pre.restore_point(),
            pair.1 is Ok,
        )
    }

    /// `device` is the device of `pre` after the one write that gives it up:
    /// it was asked once for a write of the restore point, and the record
    /// says whether it took it.
    pub open spec fn handed_back(pre: Self, device: W) -> bool {
        ||| Self::asked_once(pre.device()->0, device, pre.restore_point(), true)
        ||| Self::asked_once(pre.device()->0, device, pre.restore_point(), false)
    }

    /// `post` and `device` are what a release of `pre` leaves and hands out:
    /// as [`RawTerminal::restored`], without the outcome of the write.
    pub open spec fn released(pre: Self, post: Self, device: Option<W>) -> bool {
        &&& !post.holds_device()
        &&& post.restore_point() == pre.restore_point()
        &&& device is Some <==> pre.holds_device()
        &&& !pre.holds_device() ==> post == pre
        &&& device matches Some(d) ==> Self::handed_back(pre, d)
    }

    /// Whether the guard still owns its device.
    pub fn is_active(&self) -> (r: bool)
        ensures
            r == self.holds_device(),
    {
        self.output.is_some()
    }

    /// Takes the device over with `prev_ios` as the restore point and `raw` as
    /// the raw-mode configuration to apply. The device is asked once for a
    /// write of `raw`. Where it takes it, the guard owns the device with
    /// `raw` live. Where it does not, no guard exists and the device comes
    /// back beside its error.
    pub fn enter_with(output: W, prev_ios: Termios, raw: &Termios) -> (r: Result<
        RawTerminal<W>,
        (W, std::io::Error),
    >)
        ensures
            Self::entered_with(output, prev_ios, *raw, r),
    {
        let mut output = output;
        match set_terminal_attr(&mut output, raw) {
            Ok(()) => Ok(RawTerminal { prev_ios, output: Some(output) }),
            Err(e) => Err((output, e)),
        }
    }

    /// The last step of an entry: what the host said to the derivation of
    /// `raw` decides. Where it threw, the device is handed back untouched
    /// beside that error; where it returned, the device is taken over with
    /// `raw`, as [`RawTerminal::enter_with`] does it.
    pub fn enter_derived(
        output: W,
        prev_ios: Termios,
        raw: &Termios,
        derived: Result<(), std::io::Error>,
    ) -> (r: Result<RawTerminal<W>, (W, std::io::Error)>)
        ensures
            derived matches Err(e) ==> Self::turned_back(output, e, r),
            derived is Ok ==> Self::entered_with(output, prev_ios, *raw, r),
    {
        match derived {
            Ok(()) => Self::enter_with(output, prev_ios, raw),
            Err(e) => Err((output, e)),
        }
    }

    /// The step of an entry after the host was asked for a copy of
    /// `prev_ios`. Where the host threw, the device is handed back untouched
    /// beside that error. Where it gave a copy, the host is asked to derive
    /// the raw variant in it: the device is then either handed back untouched
    /// or taken over with that copy.
    pub fn enter_copied(output: W, prev_ios: Termios, copy: Result<Termios, std::io::Error>) -> (r:
        Result<RawTerminal<W>, (W, std::io::Error)>)
        ensures
            copy matches Err(e) ==> Self::turned_back(output, e, r),
            copy matches Ok(raw) ==> {
                ||| Self::untouched(output, r)
                ||| Self::entered_with(output, prev_ios, raw, r)
            },
    {
        match copy {
            Ok(ios) => {
                let mut ios = ios;
                let derived = raw_terminal_attr(&mut ios);
                Self::enter_derived(output, prev_ios, &ios, derived)
            },
            Err(e) => Err((output, e)),
        }
    }

    /// The step of an entry after the device was read. Where the read failed
    /// the device is handed back untouched beside that error. Where it gave a
    /// snapshot, that snapshot is the restore point of a guard that comes
    /// back, and the device was asked for no write, or for one that it
    /// refused, where none does.
    pub fn enter_read(output: W, read: Result<Termios, std::io::Error>) -> (r: Result<
        RawTerminal<W>,
        (W, std::io::Error),
    >)
        ensures
            read matches Err(e) ==> Self::turned_back(output, e, r),
            read matches Ok(prev_ios) ==> {
                ||| Self::untouched(output, r)
                ||| exists|raw: Termios| Self::entered_with(output, prev_ios, raw, r)
            },
    {
        match read {
            Ok(prev_ios) => {
                let copy = prev_ios.try_clone();
                let r = Self::enter_copied(output, prev_ios, copy);
                proof {
                    if copy is Ok && !Self::untouched(output, r) {
                        assert(Self::entered_with(output, prev_ios, copy->Ok_0, r));
                    }
                }
                r
            },
            Err(e) => Err((output, e)),
        }
    }

    /// Reads the device's configuration as the restore point, has the host
    /// derive the raw variant in a copy of it, and takes the device over with
    /// the two. A guard that comes back has entered. Where no guard comes
    /// back, the device does, beside the error: untouched where the read, the
    /// copy or the derivation failed, and after the one write that it
    /// refused otherwise.
    pub fn try_enter(output: W) -> (r: Result<RawTerminal<W>, (W, std::io::Error)>)
        ensures
            r matches Ok(guard) ==> Self::entered(output, guard),
            r matches Err(refusal) ==> {
                ||| refusal.0 == output
                ||| exists|raw: Termios| Self::asked_once(output, refusal.0, raw, false)
            },
    {
        let read = get_terminal_attr(&output);
        Self::enter_read(output, read)
    }

    /// Temporarily switch to original mode
    ///
    /// The device is asked once for a write of the restore point. The guard
    /// stays as it is and stays usable whether or not the device takes the
    /// write.
    pub fn suspend_raw_mode(&mut self) -> (r: Result<(), std::io::Error>)
        requires
            old(self).holds_device(),
        ensures
            Self::wrote(*old(self), *final(self), old(self).restore_point(), r is Ok),
    {
        match &mut self.output {
            Some(output) => set_terminal_attr(output, &self.prev_ios),
            None => vstd::pervasive::unreached(),
        }
    }

    /// Writes `raw` onto the device as its raw-mode configuration. The device
    /// is asked once; the restore point is not touched.
    pub fn activate_with(&mut self, raw: &Termios) -> (r: Result<(), std::io::Error>)
        requires
            old(self).holds_device(),
        ensures
            Self::wrote(*old(self), *final(self), *raw, r is Ok),
    {
        match &mut self.output {
            Some(output) => set_terminal_attr(output, raw),
            None => vstd::pervasive::unreached(),
        }
    }

    /// The last step of switching raw mode on again: what the host said to
    /// the derivation of `raw` decides. Where it threw, that error comes back
    /// and the guard is untouched; where it returned, `raw` is written as
    /// [`RawTerminal::activate_with`] does it.
    pub fn activate_derived(&mut self, raw: &Termios, derived: Result<(), std::io::Error>) -> (r:
        Result<(), std::io::Error>)
        requires
            old(self).holds_device(),
        ensures
            derived matches Err(e) ==> r == Err::<(), std::io::Error>(e) && *final(self) == *old(
                self,
            ),
            derived is Ok ==> Self::wrote(*old(self), *final(self), *raw, r is Ok),
    {
        match derived {
            Ok(()) => self.activate_with(raw),
            Err(e) => Err(e),
        }
    }

    /// The step of switching raw mode on again after the device was read.
    /// Where the read failed, that error comes back and the guard is
    /// untouched: the device was asked for no write. Where it gave a
    /// snapshot, the host is asked to derive the raw variant in it, and then
    /// either nothing was written, or the device was asked once for a write
    /// of that snapshot.
    pub fn activate_read(&mut self, read: Result<Termios, std::io::Error>) -> (r: Result<
        (),
        std::io::Error,
    >)
        requires
            old(self).holds_device(),
        ensures
            read matches Err(e) ==> r == Err::<(), std::io::Error>(e) && *final(self) == *old(self),
            read matches Ok(ios) ==> {
                ||| r is Err && *final(self) == *old(self)
                ||| Self::wrote(*old(self), *final(self), ios, r is Ok)
            },
    {
        match read {
            Ok(ios) => {
                let mut ios = ios;
                let derived = raw_terminal_attr(&mut ios);
                self.activate_derived(&ios, derived)
            },
            Err(e) => Err(e),
        }
    }

    /// Temporarily switch to raw mode
    ///
    /// Reads the live snapshot, has the host derive the raw variant in it and
    /// writes it back. Success means that the device took one write of the
    /// snapshot that was live, which stays the live one. A failure of the
    /// read or of the derivation leaves the guard untouched; the only other
    /// failure is that one write, refused.
    pub fn activate_raw_mode(&mut self) -> (r: Result<(), std::io::Error>)
        requires
            old(self).holds_device(),
        ensures
            r is Ok ==> Self::applied(*old(self), *final(self), old(self).live_attrs()),
            r is Err ==> {
                ||| *final(self) == *old(self)
                ||| Self::refused(*old(self), *final(self), old(self).live_attrs())
            },
    {
        let read = match &self.output {
            Some(output) => get_terminal_attr(output),
            None => vstd::pervasive::unreached(),
        };
        self.activate_read(read)
    }

    /// Gives up the device, if the guard still owns it, after asking it once
    /// for a write of the restore point, and hands it out beside what the
    /// device said to that write. A guard that was released before does
    /// nothing and hands out nothing.
    pub fn restore(&mut self) -> (r: Option<(W, Result<(), std::io::Error>)>)
        ensures
            Self::restored(*old(self), *final(self), r),
    {
        let mut taken: Option<W> = None;
        core::mem::swap(&mut self.output, &mut taken);
        match taken {
            Some(output) => {
                let mut output = output;
                let outcome = set_terminal_attr(&mut output, &self.prev_ios);
                Some((output, outcome))
            },
            None => None,
        }
    }

    /// Gives up the device as [`RawTerminal::restore`] does and keeps quiet
    /// about a refusal of the write.
    pub fn release(&mut self) -> (r: Option<W>)
        ensures
            Self::released(*old(self), *final(self), r),
    {
        match self.restore() {
            Some(handed) => Some(handed.0),
            None => None,
        }
    }

    /// Returns the owned output
    ///
    /// The device is asked once for a write of the restore point before it is
    /// handed back; a refusal of that write is not reported. Where the record
    /// says that the write was taken, the restore point is live.
    pub fn into_inner(self) -> (r: W)
        requires
            self.holds_device(),
        ensures
            Self::handed_back(self, r),
    {
        let mut guard = self;
        match guard.release() {
            Some(output) => output,
            None => vstd::pervasive::unreached(),
        }
    }

    /// The device that the guard owns.
    pub fn deref(&self) -> (r: &W)
        requires
            self.holds_device(),
        ensures
            Some(*r) == self.device(),
    {
        match &self.output {
            Some(output) => output,
            None => vstd::pervasive::unreached(),
        }
    }

    /// The device that the guard owns, to write to. The guard owns whatever
    /// the caller leaves there, and its restore point stays.
    pub fn deref_mut(&mut self) -> (r: &mut W)
        requires
            old(self).holds_device(),
        ensures
            Some(*r) == old(self).device(),
            final(self).device() == Some(*final(r)),
            final(self).restore_point() == old(self).restore_point(),
    {
        match &mut self.output {
            Some(output) => output,
            None => vstd::pervasive::unreached(),
        }
    }
}

/// Round trip: once a guard has taken a device over, whatever raw
/// configuration was applied in between, a write of the restore point that
/// the device takes leaves it on the snapshot it had on entry.
pub proof fn lemma_restore_round_trip<W: AsFd>(
    device: W,
    guard: RawTerminal<W>,
    restored: RawTerminal<W>,
)
    requires
        RawTerminal::entered(device, guard),
        RawTerminal::applied(guard, restored, guard.restore_point()),
    ensures
        restored.live_attrs() == device.state().attrs,
        restored.restore_point() == device.state().attrs,
{
}

/// Idempotence: switching raw mode on twice in a row leaves the device on the
/// snapshot that switching it on once leaves it on, over the same restore
/// point. Each time the snapshot that is live is the one written.
pub proof fn lemma_activate_idempotent<W: AsFd>(
    before: RawTerminal<W>,
    once: RawTerminal<W>,
    twice: RawTerminal<W>,
)
    requires
        RawTerminal::applied(before, once, before.live_attrs()),
        RawTerminal::applied(once, twice, once.live_attrs()),
    ensures
        twice.live_attrs() == once.live_attrs(),
        twice.restore_point() == once.restore_point(),
{
}

/// Suspend and resume: suspending a guard and then applying the raw
/// snapshot that was live before brings back exactly that snapshot, over the
/// same restore point.
pub proof fn lemma_suspend_resume<W: AsFd>(
    active: RawTerminal<W>,
    suspended: RawTerminal<W>,
    resumed: RawTerminal<W>,
)
    requires
        RawTerminal::applied(active, suspended, active.restore_point()),
        RawTerminal::applied(suspended, resumed, active.live_attrs()),
    ensures
        suspended.live_attrs() == active.restore_point(),
        resumed.live_attrs() == active.live_attrs(),
        resumed.restore_point() == active.restore_point(),
{
}

/// Single restoration: releasing a guard that owns its device asks the
/// device for exactly one write, of the restore point, and releasing it again
/// asks for none, since no device is left to ask.
pub proof fn lemma_release_once<W: AsFd>(
    guard: RawTerminal<W>,
    released: RawTerminal<W>,
    again: RawTerminal<W>,
    device: Option<W>,
    nothing: Option<W>,
)
    requires
        guard.holds_device(),
        RawTerminal::released(guard, released, device),
        RawTerminal::released(released, again, nothing),
    ensures
        device matches Some(d) && {
            &&& d.state().asked.len() == guard.asked().len() + 1
            &&& d.state().asked.drop_last() == guard.asked()
            &&& d.state().asked.last().attrs == guard.restore_point()
            &&& d.state().asked.last().taken ==> d.state().attrs == guard.restore_point()
        },
        nothing is None,
        again == released,
{
    let d = device->0;
    let log = guard.asked();
    let hit = AttrWrite { attrs: guard.restore_point(), taken: true };
    let miss = AttrWrite { attrs: guard.restore_point(), taken: false };
    assert(log.push(hit).drop_last() == log);
    assert(log.push(miss).drop_last() == log);
}

/// Ownership handoff: a device that took the restoring write comes back on
/// the restore point, and the guard that gave it up has nothing left to write
/// to, so restoring it again hands out nothing and changes nothing.
pub proof fn lemma_handoff_restores<W: AsFd>(
    guard: RawTerminal<W>,
    released: RawTerminal<W>,
    again: RawTerminal<W>,
    handed: Option<(W, Result<(), std::io::Error>)>,
    nothing: Option<(W, Result<(), std::io::Error>)>,
)
    requires
        guard.holds_device(),
        RawTerminal::restored(guard, released, handed),
        handed matches Some(pair) ==> pair.1 is Ok,
        RawTerminal::restored(released, again, nothing),
    ensures
        handed matches Some(pair) && pair.0.state().attrs == guard.restore_point(),
        nothing is None,
        again == released,
{
}

/// Types which can be converted into "raw mode".
///
/// # Why is this type defined on writers and not readers?
///
/// TTYs has their state controlled by the writer, not the reader. You use the writer to clear the
/// screen, move the cursor and so on, so naturally you use the writer to change the mode as well.
pub trait IntoRawMode: AsFd + Sized {
    /// Switch to raw mode.
    ///
    /// Raw mode means that stdin won't be printed (it will instead have to be written manually by
    /// the program). Furthermore, the input isn't canonicalised or buffered (that is, you can
    /// read from stdin one byte of a time). The output is neither modified in any way.
    ///
    /// The snapshot that the device is on at entry becomes the guard's
    /// restore point, and exactly one write has been made when a guard comes
    /// back. This is [`RawTerminal::try_enter`] without the device in the
    /// error.
    fn into_raw_mode(self) -> (r: Result<RawTerminal<Self>, std::io::Error>)
        ensures
            r matches Ok(guard) ==> RawTerminal::entered(self, guard),
    ;
}

impl<W: AsFd> IntoRawMode for W {
    fn into_raw_mode(self) -> (r: Result<RawTerminal<W>, std::io::Error>) {
        match RawTerminal::try_enter(self) {
            Ok(guard) => Ok(guard),
            Err(refusal) => Err(refusal.1),
        }
    }
}

} // verus!
