//! The two screens and their control logic.
//!
//! A screen (`Ctx`) interprets one input event against the current snapshot,
//! mutating only its own state and emitting at most one `Signal`; it receives
//! messages from other screens; and it renders to a plain `Screen` value that
//! the surrounding application draws.

use vstd::prelude::*;
use crate::dir::DirInfo;
use crate::signal::{CtxId, Msg, Signal};

verus! {

/// One terminal input event, reduced to what the screens read: a printable
/// character, an arrow key, or anything else.
#[derive(Clone, Copy, PartialEq, Eq, Debug)]
pub enum Key {
    Char(char),
    Up,
    Down,
    Other,
}

/// What a key means to the main screen.
#[derive(Clone, Copy, PartialEq, Eq, Debug)]
pub enum Command {
    Quit,
    Idle,
    CursorUp,
    CursorDown,
    Tag,
}

/// The key bindings of the main screen: `q` quits, `k` and the up arrow move
/// the cursor up, `j` and the down arrow move it down, `t` begins tagging.
pub open spec fn cmd_of(key: Key) -> Command {
    match key {
        Key::Char(c) => if c == 'q' {
            Command::Quit
        } else if c == 'k' {
            Command::CursorUp
        } else if c == 'j' {
            Command::CursorDown
        } else if c == 't' {
            Command::Tag
        } else {
            Command::Idle
        },
        Key::Up => Command::CursorUp,
        Key::Down => Command::CursorDown,
        Key::Other => Command::Idle,
    }
}

/// Translate a key to the main screen's command.
pub fn key_command(key: Key) -> (c: Command)
    ensures
        c == cmd_of(key),
{
    match key {
        Key::Char(ch) => {
            if ch == 'q' {
                Command::Quit
            } else if ch == 'k' {
                Command::CursorUp
            } else if ch == 'j' {
                Command::CursorDown
            } else if ch == 't' {
                Command::Tag
            } else {
                Command::Idle
            }
        },
        Key::Up => Command::CursorUp,
        Key::Down => Command::CursorDown,
        Key::Other => Command::Idle,
    }
}

/// The mathematical content of one rendered frame.
#[verifier::ext_equal]
pub ghost struct ScreenModel {
    pub title: Seq<char>,
    pub rows: Seq<String>,
    pub highlighted: Option<usize>,
    pub status: Seq<char>,
}

/// One rendered frame as plain data: a title, the listed rows, which row is
/// highlighted, and a status line.  The surrounding application turns this
/// into terminal drawing.
#[derive(Debug)]
pub struct Screen {
    pub title: String,
    pub rows: Vec<String>,
    pub highlighted: Option<usize>,
    pub status: String,
}

impl Screen {
    pub open spec fn model(&self) -> ScreenModel {
        ScreenModel {
            title: self.title@,
            rows: self.rows@,
            highlighted: self.highlighted,
            status: self.status@,
        }
    }
}

/// The capability set of a screen: render, handle input, receive a message.
/// Each capability's behaviour is pinned by the implementing type's spec
/// functions.
pub trait Ctx: Sized {
    /// The screen's state after one input event.
    spec fn after_key(self, key: Key, di: DirInfo) -> Self;

    /// The primitive parts of the signal one input event emits, if any.
    spec fn key_parts(self, key: Key, di: DirInfo) -> Option<Seq<Signal>>;

    /// The screen's state after receiving one message.
    spec fn after_msg(self, msg: Msg) -> Self;

    /// What the screen displays against a given snapshot.
    spec fn screen_of(self, di: DirInfo) -> ScreenModel;

    /// Interpret one input event: mutate only this screen's state and emit
    /// at most one signal, whose decomposition `key_parts` gives exactly.
    fn handle_key(&mut self, key: Key, di: &DirInfo) -> (r: Option<Signal>)
        ensures
            *final(self) == old(self).after_key(key, *di),
            r is Some <==> old(self).key_parts(key, *di) is Some,
            r matches Some(s) ==> Some(s.parts()) == old(self).key_parts(key, *di),
    ;

    /// Apply an inbound message to this screen's state; emits nothing.
    fn send(&mut self, msg: Msg)
        ensures
            *final(self) == old(self).after_msg(msg),
    ;

    /// Pure presentation: what this screen shows for the given snapshot.
    fn render(&self, di: &DirInfo) -> (s: Screen)
        ensures
            s.model() == self.screen_of(*di),
    ;
}

/// The file-list screen.  Its whole state is the cursor position over the
/// snapshot's files; `None` means nothing is selected (the list is empty).
#[derive(Clone, PartialEq, Eq, Debug)]
pub struct MainContext {
    pub selected_index: Option<usize>,
}

impl MainContext {
    /// The initial cursor: on the first entry, or unset for an empty list.
    pub fn new(file_count: usize) -> (c: MainContext)
        ensures
            file_count == 0 ==> c.selected_index is None,
            file_count > 0 ==> c.selected_index == Some(0usize),
    {
        if file_count == 0 {
            MainContext { selected_index: None }
        } else {
            MainContext { selected_index: Some(0) }
        }
    }

    /// Cursor up over a list of length `n`: step back, wrapping from the
    /// first entry to the last; a no-op when nothing is selected or the
    /// list is empty.
    pub open spec fn cursor_up(self, n: int) -> MainContext {
        match self.selected_index {
            Option::None => self,
            Option::Some(i) => if n <= 0 {
                self
            } else if i > 0 {
                (MainContext { selected_index: Some((i - 1) as usize) })
            } else {
                (MainContext { selected_index: Some((n - 1) as usize) })
            },
        }
    }

    /// Cursor down over a list of length `n`: step forward, wrapping from
    /// the last entry to the first; a no-op when nothing is selected or the
    /// list is empty.
    pub open spec fn cursor_down(self, n: int) -> MainContext {
        match self.selected_index {
            Option::None => self,
            Option::Some(i) => if n <= 0 {
                self
            } else if i < n - 1 {
                (MainContext { selected_index: Some((i + 1) as usize) })
            } else {
                (MainContext { selected_index: Some(0usize) })
            },
        }
    }
}

impl Ctx for MainContext {
    open spec fn after_key(self, key: Key, di: DirInfo) -> MainContext {
        match cmd_of(key) {
            Command::CursorUp => self.cursor_up(di.files@.len() as int),
            Command::CursorDown => self.cursor_down(di.files@.len() as int),
            _ => self,
        }
    }

    open spec fn key_parts(self, key: Key, di: DirInfo) -> Option<Seq<Signal>> {
        match cmd_of(key) {
            Command::Quit => Some(seq![Signal::Quit]),
            Command::Tag => match self.selected_index {
                Option::Some(i) => if (i as int) < di.files@.len() {
                    Some(
                        seq![
                            Signal::Change(CtxId::Tagging),
                            Signal::Message(CtxId::Tagging, Msg::File(di.files@[i as int])),
                        ],
                    )
                } else {
                    None
                },
                Option::None => None,
            },
            _ => None,
        }
    }

    open spec fn after_msg(self, msg: Msg) -> MainContext {
        self
    }

    open spec fn screen_of(self, di: DirInfo) -> ScreenModel {
        ScreenModel {
            title: di.path@,
            rows: di.files@,
            highlighted: self.selected_index,
            status: "(t)ag"@,
        }
    }

    fn handle_key(&mut self, key: Key, di: &DirInfo) -> (r: Option<Signal>) {
        let cmd = key_command(key);
        match cmd {
            Command::CursorUp => {
                if let Some(i) = self.selected_index {
                    let n = di.files.len();
                    if n > 0 {
                        if i > 0 {
                            self.selected_index = Some(i - 1);
                        } else {
                            self.selected_index = Some(n - 1);
                        }
                    }
                }
                None
            },
            Command::CursorDown => {
                if let Some(i) = self.selected_index {
                    let n = di.files.len();
                    if n > 0 {
                        if i < n - 1 {
                            self.selected_index = Some(i + 1);
                        } else {
                            self.selected_index = Some(0);
                        }
                    }
                }
                None
            },
            Command::Tag => {
                if let Some(i) = self.selected_index {
                    if i < di.files.len() {
                        let path = di.files[i].clone();
                        let r = Some(
                            Signal::Change(CtxId::Tagging).and(
                                Signal::Message(CtxId::Tagging, Msg::File(path)),
                            ),
                        );
                        proof {
                            let s = r->Some_0;
                            assert(s.parts() =~= self.key_parts(key, *di)->Some_0);
                        }
                        r
                    } else {
                        None
                    }
                } else {
                    None
                }
            },
            Command::Quit => Some(Signal::Quit),
            Command::Idle => None,
        }
    }

    fn send(&mut self, msg: Msg) {
    }

    fn render(&self, di: &DirInfo) -> (s: Screen) {
        let rows = clone_rows(&di.files);
        Screen {
            title: di.path.clone(),
            rows,
            highlighted: self.selected_index,
            status: "(t)ag".to_owned(),
        }
    }
}

/// The tag-entry screen, bound to at most one file.  `file_path` is set only
/// by a received `Msg::File`; `tag_input` is reserved for tag editing.
#[derive(Clone, PartialEq, Debug)]
pub struct TaggingContext {
    pub tag_input: Vec<String>,
    pub file_path: Option<String>,
}

impl TaggingContext {
    /// A fresh tag screen: nothing bound, no tags entered.
    pub fn new() -> (c: TaggingContext)
        ensures
            c.tag_input@ == Seq::<String>::empty(),
            c.file_path is None,
    {
        TaggingContext { tag_input: Vec::new(), file_path: None }
    }
}

impl Ctx for TaggingContext {
    open spec fn after_key(self, key: Key, di: DirInfo) -> TaggingContext {
        self
    }

    open spec fn key_parts(self, key: Key, di: DirInfo) -> Option<Seq<Signal>> {
        match key {
            Key::Char(c) => if c == 'q' {
                Some(seq![Signal::Change(CtxId::Main)])
            } else {
                None
            },
            _ => None,
        }
    }

    open spec fn after_msg(self, msg: Msg) -> TaggingContext {
        match msg {
            Msg::File(p) => TaggingContext { tag_input: self.tag_input, file_path: Some(p) },
        }
    }

    open spec fn screen_of(self, di: DirInfo) -> ScreenModel {
        ScreenModel {
            title: "Tag Screen"@,
            rows: self.tag_input@,
            highlighted: None,
            status: match self.file_path {
                Option::Some(p) => p@,
                Option::None => "no file selected"@,
            },
        }
    }

    fn handle_key(&mut self, key: Key, di: &DirInfo) -> (r: Option<Signal>) {
        match key {
            Key::Char(c) => {
                if c == 'q' {
                    Some(Signal::Change(CtxId::Main))
                } else {
                    None
                }
            },
            _ => None,
        }
    }

    fn send(&mut self, msg: Msg) {
        match msg {
            Msg::File(p) => {
                self.file_path = Some(p);
            },
        }
    }

    fn render(&self, di: &DirInfo) -> (s: Screen) {
        let rows = clone_rows(&self.tag_input);
        let status = match &self.file_path {
            Some(p) => p.clone(),
            None => "no file selected".to_owned(),
        };
        Screen {
            title: "Tag Screen".to_owned(),
            rows,
            highlighted: None,
            status,
        }
    }
}

/// Copy a list of rows for a rendered frame.
fn clone_rows(rows: &Vec<String>) -> (r: Vec<String>)
    ensures
        r@ == rows@,
{
    let mut out: Vec<String> = Vec::new();
    let mut k: usize = 0;
    while k < rows.len()
        invariant
            k <= rows.len(),
            out@ == rows@.take(k as int),
        decreases rows.len() - k,
    {
        out.push(rows[k].clone());
        proof {
            assert(out@ =~= rows@.take(k + 1 as int));
        }
        k = k + 1;
    }
    proof {
        assert(rows@.take(rows@.len() as int) =~= rows@);
    }
    out
}

} // verus!
