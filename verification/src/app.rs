//! The reaction to a change of the clipboard.

use crate::clipboard::{answered, Access, Clipboard, ClipboardError, Session};
use crate::config::{Config, Rule};
use crate::rewrite::{process, rewrite, text_of};
use std::marker::PhantomData;
use vstd::prelude::*;

verus! {

/// Whether `accesses`, ending in the report `done`, are one reaction under
/// `rules`.
///
/// A reaction first asks whether the clipboard holds text. Without text it is
/// over, and has succeeded. With text it reads the text; a failed read ends it
/// with the read's error. Text that the rules do not rewrite ends it with
/// success. Text that they rewrite is written back in its new form, and the
/// reaction ends as the write does. Nothing else is done to the clipboard.
pub open spec fn is_reaction(
    accesses: Seq<Access>,
    rules: Seq<Rule>,
    done: Result<(), ClipboardError>,
) -> bool {
    ||| accesses == seq![Access::Query(false)] && done is Ok
    ||| exists|e: ClipboardError|
        accesses == seq![Access::Query(true), Access::Read(Err(e))] && done == Err::<(), _>(e)
    ||| exists|text: Seq<char>|
        accesses == seq![Access::Query(true), Access::Read(Ok(text))]
            && rewrite(text, rules) is None && done is Ok
    ||| exists|text: Seq<char>|
        rewrite(text, rules) is Some && accesses == seq![
            Access::Query(true),
            Access::Read(Ok(text)),
            Access::Write(rewrite(text, rules)->Some_0, done),
        ]
}

/// Whether anything was read or written in `accesses`.
pub open spec fn touches_text(accesses: Seq<Access>) -> bool {
    exists|i: int|
        0 <= i < accesses.len() && (#[trigger] accesses[i] is Read || accesses[i] is Write)
}

/// Whether anything was written in `accesses`.
pub open spec fn writes(accesses: Seq<Access>) -> bool {
    exists|i: int| 0 <= i < accesses.len() && #[trigger] accesses[i] is Write
}

/// Where the clipboard holds no text, the reaction reads nothing, writes
/// nothing, and succeeds.
pub proof fn law_without_text_nothing_is_touched(
    accesses: Seq<Access>,
    rules: Seq<Rule>,
    done: Result<(), ClipboardError>,
)
    requires
        is_reaction(accesses, rules, done),
        accesses[0] == Access::Query(false),
    ensures
        !touches_text(accesses),
        done is Ok,
{
    assert(accesses.len() == 1);
}

/// Where the clipboard holds text that the rules do not rewrite, the reaction
/// writes nothing, and succeeds.
pub proof fn law_other_text_is_left_untouched(
    accesses: Seq<Access>,
    rules: Seq<Rule>,
    done: Result<(), ClipboardError>,
    text: Seq<char>,
)
    requires
        is_reaction(accesses, rules, done),
        accesses.len() >= 2,
        accesses[1] == Access::Read(Ok(text)),
        rewrite(text, rules) is None,
    ensures
        !writes(accesses),
        done is Ok,
{
    assert(accesses.len() == 2);
}

/// Where the clipboard holds text that the rules rewrite, the reaction hands
/// the rewritten text to the clipboard, once, and ends as that write does.
pub proof fn law_rewritten_text_is_written_back(
    accesses: Seq<Access>,
    rules: Seq<Rule>,
    done: Result<(), ClipboardError>,
    text: Seq<char>,
)
    requires
        is_reaction(accesses, rules, done),
        accesses.len() >= 2,
        accesses[1] == Access::Read(Ok(text)),
        rewrite(text, rules) is Some,
    ensures
        accesses.len() == 3,
        accesses[2] == Access::Write(rewrite(text, rules)->Some_0, done),
{
}

/// A reaction fails only where a read or a write failed, and with that error.
pub proof fn law_only_the_clipboard_fails(
    accesses: Seq<Access>,
    rules: Seq<Rule>,
    done: Result<(), ClipboardError>,
)
    requires
        is_reaction(accesses, rules, done),
        done is Err,
    ensures
        accesses.last() == Access::Read(Err(done->Err_0)) || (accesses.last() matches Access::Write(
            _,
            written,
        ) && written == done),
{
}

/// The rewriter bound to its table and to one kind of clipboard.
pub struct App<T: Clipboard> {
    config: Config,
    _marker: PhantomData<T>,
}

impl<T: Clipboard> App<T> {
    /// The table that this instance holds: its labels and rules, in order.
    pub closed spec fn table(&self) -> Seq<(Seq<char>, Rule)> {
        self.config@
    }

    /// The rules that this instance applies, in the order in which it tries
    /// them.
    pub open spec fn rules(&self) -> Seq<Rule> {
        self.table().map_values(|p: (Seq<char>, Rule)| p.1)
    }

    /// An instance that holds the table `config`, whole and as it is.
    pub fn new(config: Config) -> (app: Self)
        ensures
            app.table() == config@,
    {
        Self { config, _marker: PhantomData }
    }

    /// Rewrites `text` under this instance's rules.
    pub fn process_clipboard(&self, text: &str) -> (rewritten: Option<String>)
        ensures
            text_of(rewritten) == rewrite(text@, self.rules()),
    {
        process(text, &self.config)
    }

    /// Reacts to a change of the clipboard in an open session: where the
    /// clipboard holds the text of a URL that a rule applies to, the rewritten
    /// URL is put in its place.
    ///
    /// What is done to the clipboard, and what is reported, is exactly one
    /// reaction as [`is_reaction`] describes it, on what the clipboard of the
    /// session answered. Where nothing is written, the clipboard is left as it
    /// was.
    pub fn react(&self, session: &mut Session<T>) -> (done: Result<(), ClipboardError>)
        ensures
            old(session).history().is_prefix_of(final(session).history()),
            is_reaction(
                final(session).history().skip(old(session).history().len() as int),
                self.rules(),
                done,
            ),
            answered(
                old(session).clipboard(),
                final(session).history().skip(old(session).history().len() as int),
            ),
            !writes(final(session).history().skip(old(session).history().len() as int))
                ==> final(session).clipboard() == old(session).clipboard(),
    {
        let ghost before = session.history();
        if !session.is_text_available() {
            proof {
                assert(session.history().skip(before.len() as int) =~= seq![Access::Query(false)]);
            }
            return Ok(());
        }
        match session.get_text() {
            Err(e) => {
                proof {
                    assert(session.history().skip(before.len() as int) =~= seq![
                        Access::Query(true),
                        Access::Read(Err(e)),
                    ]);
                }
                Err(e)
            },
            Ok(text) => match self.process_clipboard(text.as_str()) {
                None => {
                    proof {
                        assert(session.history().skip(before.len() as int) =~= seq![
                            Access::Query(true),
                            Access::Read(Ok(text@)),
                        ]);
                    }
                    Ok(())
                },
                Some(new_text) => {
                    let written = session.set_text(new_text.as_str());
                    proof {
                        let made = session.history().skip(before.len() as int);
                        assert(made =~= seq![
                            Access::Query(true),
                            Access::Read(Ok(text@)),
                            Access::Write(new_text@, written),
                        ]);
                        assert(made[2] is Write);
                    }
                    written
                },
            },
        }
    }

    /// Reacts in the session that an attempt to open the clipboard gave.
    ///
    /// Where the clipboard did not open, nothing is done and the error of the
    /// opening is the report. Where it opened, what is done in the session and
    /// what is reported is exactly one reaction, as [`App::react`] says.
    pub fn react_if_open(&self, opened: &mut Result<Session<T>, ClipboardError>) -> (done: Result<
        (),
        ClipboardError,
    >)
        ensures
            match *old(opened) {
                Err(e) => done == Err::<(), _>(e) && *final(opened) == *old(opened),
                Ok(before) => *final(opened) matches Ok(after) && before.history().is_prefix_of(
                    after.history(),
                ) && is_reaction(
                    after.history().skip(before.history().len() as int),
                    self.rules(),
                    done,
                ) && answered(
                    before.clipboard(),
                    after.history().skip(before.history().len() as int),
                ) && (!writes(after.history().skip(before.history().len() as int))
                    ==> after.clipboard() == before.clipboard()),
            },
    {
        match opened {
            Ok(session) => self.react(session),
            Err(e) => Err(*e),
        }
    }

    /// Reacts to a change of the clipboard: opens a session, reacts in it as
    /// [`App::react`] says, and ends the session.
    ///
    /// Whether the clipboard can be opened, and what it answers then, is the
    /// operating system's to say. Where the implementor's `try_open` fails, its
    /// error is the report. Where it opens the clipboard, the report is that of
    /// one reaction on what that clipboard answered: of accesses that
    /// [`is_reaction`] describes, with the answers that the clipboard gave.
    pub fn on_clipboard_update(&self) -> (done: Result<(), ClipboardError>)
        ensures
            exists|attempt: Result<T, ClipboardError>| #[trigger]
                call_ensures(T::try_open, (), attempt) && match attempt {
                    Err(e) => done == Err::<(), _>(e),
                    Ok(clipboard) => exists|accesses: Seq<Access>|
                        is_reaction(accesses, self.rules(), done) && answered(
                            clipboard,
                            accesses,
                        ),
                },
    {
        let mut opened = Session::<T>::open();
        let ghost before = opened;
        let done = self.react_if_open(&mut opened);
        proof {
            if let Ok(session) = before {
                let accesses = opened->Ok_0.history().skip(session.history().len() as int);
                assert(is_reaction(accesses, self.rules(), done));
                assert(answered(session.clipboard(), accesses));
            }
        }
        done
    }
}

} // verus!
