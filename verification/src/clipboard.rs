//! The clipboard as a capability: what the reaction to a clipboard change
//! needs from the operating system, and nothing of how it is had.

use vstd::prelude::*;

verus! {

/// Why a clipboard operation failed.
#[derive(Debug, Clone, Copy, PartialEq, Eq, Structural)]
pub enum ClipboardError {
    /// Another process held the clipboard through every attempt to open it.
    Busy,
    /// A call into the operating system failed with this error code.
    Os(i32),
}

/// An open clipboard.
///
/// A value of the implementing type stands for the exclusive hold on the
/// clipboard between opening and closing it: `try_open` takes the hold, and
/// dropping the value gives it up, on every path. What the methods answer is
/// the operating system's to say, so they promise nothing here; the library
/// states what it does with each answer.
pub trait Clipboard: Sized {
    /// Takes hold of the clipboard.
    fn try_open() -> Result<Self, ClipboardError>;

    /// Whether the clipboard holds text.
    fn is_text_available(&self) -> bool;

    /// Reads the text on the clipboard into memory of the caller's own.
    fn get_text(&self) -> Result<String, ClipboardError>;

    /// Puts `text` on the clipboard in place of what it holds.
    fn set_text(&mut self, text: &str) -> Result<(), ClipboardError>;
}

/// One access to an open clipboard, with what the clipboard answered.
pub enum Access {
    /// It was asked whether it holds text, and said this.
    Query(bool),
    /// Its text was asked for, and this came back.
    Read(Result<Seq<char>, ClipboardError>),
    /// This text was handed to it, and it answered this.
    Write(Seq<char>, Result<(), ClipboardError>),
}

/// What a read gave, with the text as a sequence of characters.
pub open spec fn read_view(read: Result<String, ClipboardError>) -> Result<
    Seq<char>,
    ClipboardError,
> {
    match read {
        Ok(text) => Ok(text@),
        Err(e) => Err(e),
    }
}

/// Whether `accesses` are answers that `clipboard` gave: each recorded answer
/// is one that the implementor's method returned for that clipboard, and each
/// recorded write was handed to it.
pub open spec fn answered<T: Clipboard>(clipboard: T, accesses: Seq<Access>) -> bool {
    forall|i: int|
        0 <= i < accesses.len() ==> match #[trigger] accesses[i] {
            Access::Query(available) => call_ensures(
                T::is_text_available,
                (&clipboard,),
                available,
            ),
            Access::Read(text) => exists|read: Result<String, ClipboardError>|
                call_ensures(T::get_text, (&clipboard,), read) && read_view(read) == text,
            Access::Write(text, written) => exists|held: &mut T, handed: &str|
                mut_ref_current(held) == clipboard && handed@ == text && call_ensures(
                    T::set_text,
                    (held, handed),
                    written,
                ),
        }
}

/// A session on the clipboard: an open clipboard together with the record of
/// every access that was made to it.
///
/// The clipboard can be reached through the session only, and each method
/// records the access that it makes. The record exists for the proofs alone
/// and costs nothing at run time.
pub struct Session<T: Clipboard> {
    clipboard: T,
    history: Ghost<Seq<Access>>,
}

impl<T: Clipboard> Session<T> {
    /// The accesses made in this session so far, oldest first.
    pub closed spec fn history(&self) -> Seq<Access> {
        self.history@
    }

    /// The open clipboard that the session holds.
    pub closed spec fn clipboard(&self) -> T {
        self.clipboard
    }

    /// A session on a clipboard that is open already.
    pub fn new(clipboard: T) -> (session: Self)
        ensures
            session.clipboard() == clipboard,
            session.history() == Seq::<Access>::empty(),
    {
        Session { clipboard, history: Ghost(Seq::empty()) }
    }

    /// What becomes of an attempt to open the clipboard: a new session on the
    /// clipboard that it gave, or the error with which it failed.
    pub fn started(attempt: Result<T, ClipboardError>) -> (opened: Result<Self, ClipboardError>)
        ensures
            match attempt {
                Ok(clipboard) => opened matches Ok(session) && session.clipboard() == clipboard
                    && session.history() == Seq::<Access>::empty(),
                Err(e) => opened matches Err(failure) && failure == e,
            },
    {
        match attempt {
            Ok(clipboard) => Ok(Session::new(clipboard)),
            Err(e) => Err(e),
        }
    }

    /// Opens the clipboard and starts a session on it.
    ///
    /// Whether the clipboard opens is the implementor's `try_open` to say. What
    /// comes back is what [`Session::started`] makes of an answer that
    /// `try_open` gave: a new session on the clipboard that it opened, or the
    /// error with which it failed.
    pub fn open() -> (opened: Result<Self, ClipboardError>)
        ensures
            opened matches Ok(session) ==> session.history() == Seq::<Access>::empty(),
            exists|attempt: Result<T, ClipboardError>| #[trigger]
                call_ensures(T::try_open, (), attempt) && match attempt {
                    Ok(clipboard) => opened matches Ok(session) && session.clipboard() == clipboard,
                    Err(e) => opened matches Err(failure) && failure == e,
                },
    {
        let attempt = T::try_open();
        Session::started(attempt)
    }

    /// Asks whether the clipboard holds text.
    pub fn is_text_available(&mut self) -> (available: bool)
        ensures
            call_ensures(T::is_text_available, (&old(self).clipboard(),), available),
            final(self).clipboard() == old(self).clipboard(),
            final(self).history() == old(self).history().push(Access::Query(available)),
    {
        let available = self.clipboard.is_text_available();
        self.history = Ghost(self.history@.push(Access::Query(available)));
        available
    }

    /// Reads the text on the clipboard.
    pub fn get_text(&mut self) -> (read: Result<String, ClipboardError>)
        ensures
            call_ensures(T::get_text, (&old(self).clipboard(),), read),
            final(self).clipboard() == old(self).clipboard(),
            final(self).history() == old(self).history().push(Access::Read(read_view(read))),
    {
        let read = self.clipboard.get_text();
        self.history = Ghost(self.history@.push(Access::Read(read_view(read))));
        read
    }

    /// Puts `text` on the clipboard.
    pub fn set_text(&mut self, text: &str) -> (written: Result<(), ClipboardError>)
        ensures
            exists|held: &mut T|
                mut_ref_current(held) == old(self).clipboard()
                    && mut_ref_future(held) == final(self).clipboard()
                    && #[trigger] call_ensures(T::set_text, (held, text), written),
            final(self).history() == old(self).history().push(Access::Write(text@, written)),
    {
        let written = self.clipboard.set_text(text);
        self.history = Ghost(self.history@.push(Access::Write(text@, written)));
        written
    }

    /// Ends the session without closing the clipboard, and hands the
    /// clipboard back as the session leaves it.
    pub fn into_inner(self) -> (clipboard: T)
        ensures
            clipboard == self.clipboard(),
    {
        self.clipboard
    }
}

} // verus!
