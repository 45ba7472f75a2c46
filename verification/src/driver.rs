//! The driver's state: the snapshot, the two screens, which one is active,
//! and the signal queue.
//!
//! One driver iteration renders the active screen, hands it one input event,
//! queues the signal it emitted, and applies the queued primitive signals in
//! order: quit ends the loop, a switch reassigns the active screen, a message
//! is delivered to its target.  The blocking read of the terminal and the
//! drawing itself stay in the surrounding application.

use vstd::prelude::*;
use crate::ctx::{Ctx, Key, MainContext, Screen, ScreenModel, TaggingContext};
use crate::dir::DirInfo;
use crate::signal::{Channel, CtxId, Signal};

verus! {

/// What applying a list of signals in order does: the active screen after,
/// the tag screen after, whether a quit was reached, and the signals left
/// unapplied (those queued behind a quit).  The main screen ignores
/// messages, so it does not change.  A quit stops the application at once.
pub open spec fn run_signals(ctx: CtxId, tg: TaggingContext, sigs: Seq<Signal>) -> (
    CtxId,
    TaggingContext,
    bool,
    Seq<Signal>,
)
    decreases sigs.len(),
{
    if sigs.len() == 0 {
        (ctx, tg, false, sigs)
    } else {
        match sigs[0] {
            Signal::Quit => (ctx, tg, true, sigs.drop_first()),
            Signal::Change(id) => run_signals(id, tg, sigs.drop_first()),
            Signal::Message(id, m) => match id {
                CtxId::Main => run_signals(ctx, tg, sigs.drop_first()),
                CtxId::Tagging => run_signals(ctx, tg.after_msg(m), sigs.drop_first()),
            },
            Signal::And(_, _) => run_signals(ctx, tg, sigs.drop_first()),
        }
    }
}

/// The whole driver state.  Exactly one screen instance exists per identity
/// for the process lifetime; switching only reassigns `context`.
pub struct State {
    /// The current directory snapshot.
    pub info: DirInfo,
    /// Which screen is active.
    pub context: CtxId,
    /// Signals emitted but not yet applied.
    pub channel: Channel,
    /// The file-list screen.
    pub main: MainContext,
    /// The tag-entry screen.
    pub tagging: TaggingContext,
}

impl State {
    /// What the active screen displays.
    pub open spec fn screen(self) -> ScreenModel {
        match self.context {
            CtxId::Main => self.main.screen_of(self.info),
            CtxId::Tagging => self.tagging.screen_of(self.info),
        }
    }

    /// Start on the main screen with the cursor on the first entry (unset
    /// for an empty directory), a fresh tag screen, and no pending signals.
    pub fn new(info: DirInfo) -> (s: State)
        ensures
            s.info == info,
            s.context == CtxId::Main,
            s.channel@ == Seq::<Signal>::empty(),
            info.files@.len() == 0 ==> s.main.selected_index is None,
            info.files@.len() > 0 ==> s.main.selected_index == Some(0usize),
            s.tagging.file_path is None,
            s.tagging.tag_input@ == Seq::<String>::empty(),
    {
        let n = info.files.len();
        State {
            main: MainContext::new(n),
            tagging: TaggingContext::new(),
            channel: Channel::new(),
            context: CtxId::Main,
            info,
        }
    }

    /// Hand one input event to the active screen and queue whatever signal
    /// it emitted; nothing is applied yet.
    pub fn handle_key(&mut self, key: Key)
        ensures
            final(self).info == old(self).info,
            final(self).context == old(self).context,
            old(self).context == CtxId::Main ==> {
                &&& final(self).main == old(self).main.after_key(key, old(self).info)
                &&& final(self).tagging == old(self).tagging
                &&& final(self).channel@ == old(self).channel@ + (match old(self).main.key_parts(
                    key,
                    old(self).info,
                ) {
                    Option::Some(p) => p,
                    Option::None => Seq::<Signal>::empty(),
                })
            },
            old(self).context == CtxId::Tagging ==> {
                &&& final(self).tagging == old(self).tagging.after_key(key, old(self).info)
                &&& final(self).main == old(self).main
                &&& final(self).channel@ == old(self).channel@ + (match old(
                    self,
                ).tagging.key_parts(key, old(self).info) {
                    Option::Some(p) => p,
                    Option::None => Seq::<Signal>::empty(),
                })
            },
    {
        let signal = match self.context {
            CtxId::Main => self.main.handle_key(key, &self.info),
            CtxId::Tagging => self.tagging.handle_key(key, &self.info),
        };
        match signal {
            Some(s) => self.channel.send(s),
            None => {
                proof {
                    assert(self.channel@ =~= self.channel@ + Seq::<Signal>::empty());
                }
            },
        }
    }

    /// Apply the queued signals in order, stopping at the first quit.
    /// Returns whether a quit was reached.
    pub fn process_signals(&mut self) -> (quit: bool)
        ensures
            ({
                let r = run_signals(old(self).context, old(self).tagging, old(self).channel@);
                &&& final(self).context == r.0
                &&& final(self).tagging == r.1
                &&& quit == r.2
                &&& final(self).channel@ == r.3
                &&& final(self).main == old(self).main
                &&& final(self).info == old(self).info
            }),
    {
        loop
            invariant
                run_signals(old(self).context, old(self).tagging, old(self).channel@)
                    == run_signals(self.context, self.tagging, self.channel@),
                self.main == old(self).main,
                self.info == old(self).info,
            decreases self.channel@.len(),
        {
            let next = self.channel.recv();
            match next {
                None => {
                    return false;
                },
                Some(sig) => {
                    match sig {
                        Signal::Quit => {
                            return true;
                        },
                        Signal::Change(id) => {
                            self.context = id;
                        },
                        Signal::Message(id, m) => {
                            match id {
                                CtxId::Main => self.main.send(m),
                                CtxId::Tagging => self.tagging.send(m),
                            }
                        },
                        Signal::And(_, _) => {
                        },
                    }
                },
            }
        }
    }

    /// Render the active screen against the current snapshot.
    pub fn render(&self) -> (s: Screen)
        ensures
            s.model() == self.screen(),
    {
        match self.context {
            CtxId::Main => self.main.render(&self.info),
            CtxId::Tagging => self.tagging.render(&self.info),
        }
    }
}

} // verus!
