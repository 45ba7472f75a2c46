//! The laws of the screen-controller, proved once and for all: the cursor's
//! wrap-around cycle, up/down inversion, the empty-listing no-ops, the exact
//! decomposition of the tag and quit signals, and what the tag screen
//! renders before and after a file is bound.

use vstd::prelude::*;
use vstd::arithmetic::div_mod::{
    lemma_add_mod_noop_right, lemma_mod_add_multiples_vanish, lemma_mod_bound, lemma_mod_self_0,
    lemma_small_mod,
};
use crate::ctx::{cmd_of, Command, Ctx, Key, MainContext, TaggingContext};
use crate::dir::DirInfo;
use crate::driver::run_signals;
use crate::signal::{CtxId, Msg, Signal};

verus! {

/// The cursor after `k` repetitions of the same input against snapshot `di`.
pub open spec fn key_steps(c: MainContext, key: Key, di: DirInfo, k: nat) -> MainContext
    decreases k,
{
    if k == 0 {
        c
    } else {
        key_steps(c, key, di, (k - 1) as nat).after_key(key, di)
    }
}

/// A selected cursor moved down `k` times stands at its start plus `k`,
/// modulo the length of the listing.
proof fn lemma_down_steps_mod(di: DirInfo, key: Key, i: int, k: nat)
    requires
        cmd_of(key) == Command::CursorDown,
        0 <= i < di.files@.len(),
        di.files@.len() <= usize::MAX,
    ensures
        key_steps(MainContext { selected_index: Some(i as usize) }, key, di, k)
            == (MainContext {
            selected_index: Some(((i + k) % (di.files@.len() as int)) as usize),
        }),
    decreases k,
{
    let n = di.files@.len() as int;
    if k == 0 {
        lemma_small_mod(i as nat, n as nat);
    } else {
        lemma_down_steps_mod(di, key, i, (k - 1) as nat);
        let j = (i + k - 1) % n;
        lemma_mod_bound(i + k - 1, n);
        if j < n - 1 {
            lemma_small_mod((j + 1) as nat, n as nat);
        } else {
            lemma_mod_self_0(n);
        }
        lemma_add_mod_noop_right(1, i + k - 1, n);
    }
}

/// With nothing selected, any number of inputs leaves the cursor unset.
proof fn lemma_steps_none(c: MainContext, key: Key, di: DirInfo, k: nat)
    requires
        c.selected_index is None,
    ensures
        key_steps(c, key, di, k) == c,
    decreases k,
{
    if k > 0 {
        lemma_steps_none(c, key, di, (k - 1) as nat);
    }
}

/// Wrap-around cycle law: over a listing of length `N >= 1`, applying any
/// cursor-down input `N` times returns the cursor to where it started.
pub proof fn lemma_cursor_down_cycle(c: MainContext, key: Key, di: DirInfo)
    requires
        cmd_of(key) == Command::CursorDown,
        1 <= di.files@.len() <= usize::MAX,
        c.selected_index matches Some(i) ==> (i as int) < di.files@.len(),
    ensures
        key_steps(c, key, di, di.files@.len()) == c,
{
    let n = di.files@.len() as int;
    match c.selected_index {
        Option::None => {
            lemma_steps_none(c, key, di, di.files@.len());
        },
        Option::Some(i) => {
            lemma_down_steps_mod(di, key, i as int, di.files@.len());
            lemma_mod_add_multiples_vanish(i as int, n);
            lemma_small_mod(i as nat, n as nat);
        },
    }
}

/// Cursor up then cursor down, and cursor down then cursor up, are the
/// identity on the selection, for any listing the cursor stands inside.
pub proof fn lemma_up_down_identity(c: MainContext, ku: Key, kd: Key, di: DirInfo)
    requires
        cmd_of(ku) == Command::CursorUp,
        cmd_of(kd) == Command::CursorDown,
        1 <= di.files@.len() <= usize::MAX,
        c.selected_index matches Some(i) ==> (i as int) < di.files@.len(),
    ensures
        c.after_key(ku, di).after_key(kd, di) == c,
        c.after_key(kd, di).after_key(ku, di) == c,
{
}

/// On an empty listing, cursor movement and tag requests change nothing,
/// select nothing, and emit no signal.
pub proof fn lemma_empty_list_noop(c: MainContext, key: Key, di: DirInfo)
    requires
        di.files@.len() == 0,
        c.selected_index is None,
        cmd_of(key) == Command::CursorUp || cmd_of(key) == Command::CursorDown || cmd_of(key)
            == Command::Tag,
    ensures
        c.after_key(key, di) == c,
        c.after_key(key, di).selected_index is None,
        c.key_parts(key, di) is None,
{
}

/// A tag request with entry `i` selected emits one composite signal whose
/// decomposition is exactly one switch to the tag screen and exactly one
/// delivery of the selected file to it, in that order; the cursor does not
/// move.
pub proof fn lemma_tag_signal(c: MainContext, key: Key, di: DirInfo)
    requires
        cmd_of(key) == Command::Tag,
        c.selected_index matches Some(i) && (i as int) < di.files@.len(),
    ensures
        c.key_parts(key, di) == Some(
            seq![
                Signal::Change(CtxId::Tagging),
                Signal::Message(
                    CtxId::Tagging,
                    Msg::File(di.files@[c.selected_index->Some_0 as int]),
                ),
            ],
        ),
        c.after_key(key, di) == c,
{
}

/// A signal always decomposes into one or more primitive instructions: a
/// composite stands for an ordered list, never for nothing and never for
/// another composite.
pub proof fn lemma_parts_primitive(s: Signal)
    ensures
        s.parts().len() >= 1,
        forall|k: int| 0 <= k < s.parts().len() ==> (#[trigger] s.parts()[k]).is_primitive(),
    decreases s,
{
    match s {
        Signal::And(a, b) => {
            lemma_parts_primitive(*a);
            lemma_parts_primitive(*b);
        },
        _ => {},
    }
}

/// Both halves of a tag request land in the same frame transition: applying
/// its decomposition from the main screen leaves the tag screen active and
/// bound to the selected file, with nothing left over and no quit.
pub proof fn lemma_tag_frame_transition(
    c: MainContext,
    key: Key,
    di: DirInfo,
    tg: TaggingContext,
)
    requires
        cmd_of(key) == Command::Tag,
        c.selected_index matches Some(i) && (i as int) < di.files@.len(),
    ensures
        ({
            let chosen = di.files@[c.selected_index->Some_0 as int];
            let parts = c.key_parts(key, di)->Some_0;
            let r = run_signals(CtxId::Main, tg, parts);
            &&& r.0 == CtxId::Tagging
            &&& r.1 == tg.after_msg(Msg::File(chosen))
            &&& r.1.file_path == Some(chosen)
            &&& !r.2
            &&& r.3 == Seq::<Signal>::empty()
        }),
{
    lemma_tag_signal(c, key, di);
    let chosen = di.files@[c.selected_index->Some_0 as int];
    let parts = c.key_parts(key, di)->Some_0;
    reveal_with_fuel(run_signals, 4);
    assert(parts.drop_first() =~= seq![Signal::Message(CtxId::Tagging, Msg::File(chosen))]);
    assert(parts.drop_first().drop_first() =~= Seq::<Signal>::empty());
}

/// After `Msg::File(p)` is delivered, the tag screen's next render shows
/// `p` in its status line; before any delivery it shows the placeholder.
pub proof fn lemma_tagging_bound_file(tg: TaggingContext, p: String, di: DirInfo)
    ensures
        tg.after_msg(Msg::File(p)).screen_of(di).status == p@,
        tg.file_path is None ==> tg.screen_of(di).status == "no file selected"@,
{
}

/// Quit input on the main screen yields exactly one `Quit` signal and no
/// other, whatever the snapshot and selection, and moves nothing.
pub proof fn lemma_main_quit_signal(c: MainContext, key: Key, di: DirInfo)
    requires
        cmd_of(key) == Command::Quit,
    ensures
        c.key_parts(key, di) == Some(seq![Signal::Quit]),
        c.after_key(key, di) == c,
{
}

/// The tag screen never asks to quit: the one signal it ever emits is the
/// switch back to the main screen.
pub proof fn lemma_tagging_never_quits(tg: TaggingContext, key: Key, di: DirInfo)
    ensures
        tg.key_parts(key, di) matches Some(p) ==> p == seq![Signal::Change(CtxId::Main)],
        tg.key_parts(key, di) matches Some(p) ==> !p.contains(Signal::Quit),
{
    if tg.key_parts(key, di) is Some {
        let p = tg.key_parts(key, di)->Some_0;
        assert(p == seq![Signal::Change(CtxId::Main)]);
        assert forall|idx: int| 0 <= idx < p.len() implies p[idx] != Signal::Quit by {
            assert(p[0] == Signal::Change(CtxId::Main));
        }
    }
}

} // verus!
