use tidy::ctx::{Ctx, Key, MainContext, TaggingContext};
use tidy::dir::DirInfo;
use tidy::driver::State;
use tidy::signal::{Channel, CtxId, Msg, Signal};

fn snapshot(names: &[&str]) -> DirInfo {
    DirInfo {
        path: String::from("/tmp/dir"),
        files: names.iter().map(|n| String::from(*n)).collect(),
    }
}

#[test]
fn initial_state() {
    let mut st = State::new(snapshot(&["a", "b"]));
    assert_eq!(st.context, CtxId::Main);
    assert_eq!(st.main.selected_index, Some(0));
    assert_eq!(st.tagging.file_path, None);
    assert!(st.channel.recv().is_none());
}

#[test]
fn initial_state_empty_dir() {
    let st = State::new(snapshot(&[]));
    assert_eq!(st.main.selected_index, None);
}

#[test]
fn cursor_down_steps_and_wraps() {
    let mut st = State::new(snapshot(&["a", "b", "c"]));
    st.handle_key(Key::Down);
    assert_eq!(st.main.selected_index, Some(1));
    st.handle_key(Key::Char('j'));
    assert_eq!(st.main.selected_index, Some(2));
    st.handle_key(Key::Down);
    assert_eq!(st.main.selected_index, Some(0));
}

#[test]
fn cursor_up_wraps_then_steps() {
    let mut st = State::new(snapshot(&["a", "b", "c"]));
    st.handle_key(Key::Up);
    assert_eq!(st.main.selected_index, Some(2));
    st.handle_key(Key::Char('k'));
    assert_eq!(st.main.selected_index, Some(1));
}

#[test]
fn cursor_down_cycle_returns_to_start() {
    // N inputs of "cursor down" return the cursor to its starting index.
    for start in 0..3usize {
        let mut ctx = MainContext {
            selected_index: Some(start),
        };
        let di = snapshot(&["a", "b", "c"]);
        for _ in 0..3 {
            ctx.handle_key(Key::Down, &di);
        }
        assert_eq!(ctx.selected_index, Some(start));
    }
}

#[test]
fn cursor_up_then_down_is_identity() {
    for start in 0..4usize {
        let di = snapshot(&["a", "b", "c", "d"]);
        let mut ctx = MainContext {
            selected_index: Some(start),
        };
        ctx.handle_key(Key::Up, &di);
        ctx.handle_key(Key::Down, &di);
        assert_eq!(ctx.selected_index, Some(start));
        ctx.handle_key(Key::Down, &di);
        ctx.handle_key(Key::Up, &di);
        assert_eq!(ctx.selected_index, Some(start));
    }
}

#[test]
fn empty_list_is_inert() {
    let di = snapshot(&[]);
    let mut ctx = MainContext {
        selected_index: None,
    };
    assert!(ctx.handle_key(Key::Up, &di).is_none());
    assert_eq!(ctx.selected_index, None);
    assert!(ctx.handle_key(Key::Down, &di).is_none());
    assert_eq!(ctx.selected_index, None);
    assert!(ctx.handle_key(Key::Char('t'), &di).is_none());
    assert_eq!(ctx.selected_index, None);
}

#[test]
fn tag_request_emits_switch_and_message() {
    let di = snapshot(&["a.txt", "b.txt"]);
    let mut ctx = MainContext {
        selected_index: Some(1),
    };
    let sig = ctx.handle_key(Key::Char('t'), &di).expect("tag must emit a signal");
    // Decompose through the channel: exactly one switch, then one delivery.
    let mut ch = Channel::new();
    ch.send(sig);
    assert_eq!(ch.recv(), Some(Signal::Change(CtxId::Tagging)));
    assert_eq!(
        ch.recv(),
        Some(Signal::Message(
            CtxId::Tagging,
            Msg::File(String::from("b.txt"))
        ))
    );
    assert_eq!(ch.recv(), None);
}

#[test]
fn tagging_render_before_and_after_delivery() {
    let di = snapshot(&["a.txt"]);
    let mut tg = TaggingContext::new();
    let before = tg.render(&di);
    assert_eq!(before.status, "no file selected");
    assert_eq!(before.title, "Tag Screen");
    tg.send(Msg::File(String::from("a.txt")));
    let after = tg.render(&di);
    assert_eq!(after.status, "a.txt");
}

#[test]
fn quit_is_a_lone_quit_signal() {
    let di = snapshot(&["a"]);
    let mut ctx = MainContext {
        selected_index: Some(0),
    };
    let sig = ctx.handle_key(Key::Char('q'), &di).expect("quit must emit a signal");
    assert_eq!(sig, Signal::Quit);
    let mut ch = Channel::new();
    ch.send(sig);
    assert_eq!(ch.recv(), Some(Signal::Quit));
    assert_eq!(ch.recv(), None);
}

#[test]
fn quit_from_driver_ends_loop() {
    let mut st = State::new(snapshot(&["a"]));
    st.handle_key(Key::Char('q'));
    assert!(st.process_signals());
}

#[test]
fn tagging_screen_q_returns_to_main() {
    let mut st = State::new(snapshot(&["a"]));
    st.handle_key(Key::Char('t'));
    assert!(!st.process_signals());
    assert_eq!(st.context, CtxId::Tagging);
    st.handle_key(Key::Char('q'));
    assert!(!st.process_signals());
    assert_eq!(st.context, CtxId::Main);
}

#[test]
fn unrecognized_keys_do_nothing() {
    let mut st = State::new(snapshot(&["a", "b"]));
    st.handle_key(Key::Char('x'));
    st.handle_key(Key::Other);
    assert!(!st.process_signals());
    assert_eq!(st.context, CtxId::Main);
    assert_eq!(st.main.selected_index, Some(0));
}

#[test]
fn end_to_end_wrap_and_tag() {
    // Three entries, cursor starts at 0; three downs wrap back to 0; a tag
    // request switches to the tag screen bound to the first file.
    let mut st = State::new(snapshot(&["a.txt", "b.txt", "c.txt"]));
    assert_eq!(st.main.selected_index, Some(0));
    st.handle_key(Key::Down);
    st.handle_key(Key::Down);
    st.handle_key(Key::Down);
    assert_eq!(st.main.selected_index, Some(0));
    st.handle_key(Key::Char('t'));
    assert!(!st.process_signals());
    assert_eq!(st.context, CtxId::Tagging);
    assert_eq!(st.tagging.file_path, Some(String::from("a.txt")));
    let screen = st.render();
    assert_eq!(screen.status, "a.txt");
}

#[test]
fn main_screen_render_lists_files() {
    let st = State::new(snapshot(&["a", "b"]));
    let screen = st.render();
    assert_eq!(screen.title, "/tmp/dir");
    assert_eq!(screen.rows, vec![String::from("a"), String::from("b")]);
    assert_eq!(screen.highlighted, Some(0));
    assert_eq!(screen.status, "(t)ag");
}

#[test]
fn composite_signals_keep_order() {
    let s = Signal::Quit
        .and(Signal::Change(CtxId::Main))
        .and(Signal::Message(CtxId::Main, Msg::File(String::from("f"))));
    let mut ch = Channel::new();
    ch.send(s);
    assert_eq!(ch.recv(), Some(Signal::Quit));
    assert_eq!(ch.recv(), Some(Signal::Change(CtxId::Main)));
    assert_eq!(
        ch.recv(),
        Some(Signal::Message(CtxId::Main, Msg::File(String::from("f"))))
    );
    assert_eq!(ch.recv(), None);
}

#[test]
fn signals_behind_a_quit_stay_queued() {
    let mut st = State::new(snapshot(&["a"]));
    st.channel.send(Signal::Quit.and(Signal::Change(CtxId::Tagging)));
    assert!(st.process_signals());
    // The quit stopped application; the switch was never applied.
    assert_eq!(st.context, CtxId::Main);
    assert_eq!(st.channel.recv(), Some(Signal::Change(CtxId::Tagging)));
}
